use global_hotkey::hotkey::{Code, HotKey, Modifiers as KeyModifiers};
use textgo::error::ErrorKind;
use textgo::shortcut::{parse_modifier, parse_modifiers, parse_shortcut, Modifiers};

fn mods(meta: bool, control: bool, alt: bool, shift: bool) -> Modifiers {
    Modifiers { meta, control, alt, shift }
}

#[test]
fn parses_modifiers_and_key() {
    let shortcut = parse_shortcut("Control+Shift+A").unwrap();
    assert_eq!(shortcut.modifiers(), mods(false, true, false, true));
    assert_eq!(shortcut.key(), "A");
    let expected = HotKey::new(Some(KeyModifiers::CONTROL | KeyModifiers::SHIFT), Code::KeyA);
    assert_eq!(shortcut.id(), expected.id());
}

#[test]
fn key_names_of_both_vocabularies_mean_the_same_key() {
    let short = parse_shortcut("Alt+A").unwrap();
    let long = parse_shortcut("Alt+KeyA").unwrap();
    assert_eq!(short.id(), long.id());
    assert_eq!(short.key(), "A");
    assert_eq!(long.key(), "KeyA");
}

#[test]
fn key_known_by_its_code_name_only_is_accepted() {
    let shortcut = parse_shortcut("Control+IntlBackslash").unwrap();
    let expected = HotKey::new(Some(KeyModifiers::CONTROL), Code::IntlBackslash);
    assert_eq!(shortcut.id(), expected.id());
}

#[test]
fn meta_is_told_from_the_other_modifiers() {
    let meta = parse_shortcut("Meta+F1").unwrap();
    let control = parse_shortcut("Control+F1").unwrap();
    let alt = parse_shortcut("Alt+F1").unwrap();
    let shift = parse_shortcut("Shift+F1").unwrap();
    let bare = parse_shortcut("F1").unwrap();
    let ids = [meta.id(), control.id(), alt.id(), shift.id(), bare.id()];
    for i in 0..ids.len() {
        for j in 0..i {
            assert_ne!(ids[i], ids[j]);
        }
    }
    assert_eq!(meta.id(), HotKey::new(Some(KeyModifiers::META), Code::F1).id());
    assert_eq!(bare.id(), HotKey::new(None, Code::F1).id());
}

#[test]
fn modifiers_match_in_any_letter_case() {
    let shortcut = parse_shortcut("mEtA+CONTROL+alt+Shift+Space").unwrap();
    assert_eq!(shortcut.modifiers(), mods(true, true, true, true));
    assert_eq!(shortcut.key(), "Space");
}

#[test]
fn repeated_modifier_counts_once() {
    let once = parse_shortcut("Control+A").unwrap();
    let twice = parse_shortcut("Control+control+A").unwrap();
    assert_eq!(once.modifiers(), twice.modifiers());
    assert_eq!(once.id(), twice.id());
}

#[test]
fn empty_string_is_a_parse_error() {
    let error = parse_shortcut("").unwrap_err();
    assert_eq!(error.kind(), ErrorKind::ParseError);
    assert_eq!(error.message(), "Unsupported key code: ");
}

#[test]
fn unknown_modifier_is_a_parse_error() {
    let error = parse_shortcut("Hyper+A").unwrap_err();
    assert_eq!(error.kind(), ErrorKind::ParseError);
    assert_eq!(error.message(), "Unsupported modifier: Hyper");
    assert_eq!(error.to_string(), "Unsupported modifier: Hyper");
}

#[test]
fn unknown_key_is_a_parse_error() {
    let error = parse_shortcut("Control+Nope").unwrap_err();
    assert_eq!(error.kind(), ErrorKind::ParseError);
    assert_eq!(error.message(), "Unsupported key code: Nope");
}

#[test]
fn unknown_modifier_is_reported_before_unknown_key() {
    let error = parse_shortcut("Foo+Bar+Nope").unwrap_err();
    assert_eq!(error.message(), "Unsupported modifier: Foo");
}

#[test]
fn modifier_alone_is_no_key() {
    let error = parse_shortcut("Shift").unwrap_err();
    assert_eq!(error.message(), "Unsupported key code: Shift");
    let error = parse_shortcut("Control+").unwrap_err();
    assert_eq!(error.message(), "Unsupported key code: ");
}

#[test]
fn key_before_modifier_is_refused() {
    let error = parse_shortcut("A+Control").unwrap_err();
    assert_eq!(error.message(), "Unsupported modifier: A");
}

#[test]
fn modifier_vocabulary_is_fixed() {
    assert_eq!(parse_modifier("meta"), Some(mods(true, false, false, false)));
    assert_eq!(parse_modifier("Control"), Some(mods(false, true, false, false)));
    assert_eq!(parse_modifier("ALT"), Some(mods(false, false, true, false)));
    assert_eq!(parse_modifier("shifT"), Some(mods(false, false, false, true)));
    assert_eq!(parse_modifier("ctrl"), None);
    assert_eq!(parse_modifier("super"), None);
    assert_eq!(parse_modifier(""), None);
    assert_eq!(parse_modifier("shi\u{130}ft"), None);
}

#[test]
fn modifiers_of_a_token_list() {
    let tokens = vec!["Alt".to_string(), "Shift".to_string()];
    assert_eq!(parse_modifiers(&tokens).unwrap(), mods(false, false, true, true));
    assert_eq!(parse_modifiers(&Vec::new()).unwrap(), mods(false, false, false, false));
    let tokens = vec!["Alt".to_string(), "A".to_string(), "B".to_string()];
    let error = parse_modifiers(&tokens).unwrap_err();
    assert_eq!(error.kind(), ErrorKind::ParseError);
    assert_eq!(error.message(), "Unsupported modifier: A");
}

#[test]
fn canonical_form_orders_and_spells_the_modifiers() {
    let shortcut = parse_shortcut("shift+ALT+control+meta+KeyQ").unwrap();
    assert_eq!(shortcut.to_string(), "Meta+Control+Alt+Shift+KeyQ");
    assert_eq!(parse_shortcut("F5").unwrap().to_string(), "F5");
    assert_eq!(parse_shortcut("shift+a").unwrap().to_string(), "Shift+a");
}

#[test]
fn canonical_form_parses_to_the_same_shortcut() {
    for text in ["Control+Shift+A", "shift+control+a", "META+alt+F12", "Digit1", "alt+Alt+Tab"] {
        let parsed = parse_shortcut(text).unwrap();
        let again = parse_shortcut(&parsed.to_string()).unwrap();
        assert_eq!(again.modifiers(), parsed.modifiers());
        assert_eq!(again.key(), parsed.key());
        assert_eq!(again.id(), parsed.id());
        assert_eq!(again.to_string(), parsed.to_string());
    }
}

#[test]
fn modifier_matching_agrees_with_unicode_lower_casing() {
    let words = ["meta", "control", "alt", "shift"];
    let mut code = 0u32;
    let mut tried = 0u32;
    while code <= 0x10FFFF {
        let Some(c) = char::from_u32(code) else {
            code += 1;
            continue;
        };
        code += 1;
        if !c.is_ascii() && !c.to_lowercase().any(|l| l.is_ascii()) {
            continue;
        }
        for word in words {
            for (at, _) in word.char_indices() {
                let mut token = String::new();
                token.push_str(&word[..at]);
                token.push(c);
                token.push_str(&word[at + 1..]);
                let expected = words.contains(&token.to_lowercase().as_str());
                assert_eq!(parse_modifier(&token).is_some(), expected, "{:?}", token);
                tried += 1;
            }
        }
    }
    assert!(tried > 128 * 19);
}
