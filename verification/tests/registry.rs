use textgo::error::ErrorKind;
use textgo::flags::HandlerFlags;
use textgo::handlers::keyboard::{handle_keyboard_event, shortcut_event, ShortcutState};
use textgo::registry::{
    is_shortcut_registered, pause_shortcut_handling, register_shortcut, resume_shortcut_handling,
    unregister_shortcut, ShortcutRegistry,
};
use textgo::shortcut::parse_shortcut;

fn registry_with(shortcuts: &[&str]) -> ShortcutRegistry {
    let mut registry = ShortcutRegistry::new();
    for shortcut in shortcuts {
        let registration = register_shortcut(&registry, shortcut).unwrap();
        registry.insert(registration);
    }
    registry
}

#[test]
fn register_pause_resume_unregister() {
    let mut flags = HandlerFlags::new();
    let mut registry = ShortcutRegistry::new();

    let registration = register_shortcut(&registry, "Control+Shift+A").unwrap();
    registry.insert(registration);
    assert!(is_shortcut_registered(&registry, "Control+Shift+A"));

    let (paused, _) = pause_shortcut_handling(&mut flags, &registry);
    assert!(paused);
    let (paused, _) = pause_shortcut_handling(&mut flags, &registry);
    assert!(!paused);

    let (resumed, _) = resume_shortcut_handling(&mut flags, &registry);
    assert!(resumed);
    let (resumed, _) = resume_shortcut_handling(&mut flags, &registry);
    assert!(!resumed);

    let hotkey = unregister_shortcut(&registry, "Control+Shift+A").unwrap();
    registry.remove(hotkey.id());
    assert!(!is_shortcut_registered(&registry, "Control+Shift+A"));
}

#[test]
fn registration_carries_the_parsed_hotkey() {
    let registry = ShortcutRegistry::new();
    let registration = register_shortcut(&registry, "Alt+F4").unwrap();
    assert_eq!(registration.text(), "Alt+F4");
    assert_eq!(registration.hotkey().id(), parse_shortcut("Alt+F4").unwrap().id());
    assert!(!is_shortcut_registered(&registry, "Alt+F4"));
}

#[test]
fn registering_twice_is_refused() {
    let registry = registry_with(&["Control+Shift+A"]);
    let error = register_shortcut(&registry, "Control+Shift+A").unwrap_err();
    assert_eq!(error.kind(), ErrorKind::AlreadyRegistered);
    assert_eq!(error.message(), "Shortcut Control+Shift+A is already registered");
}

#[test]
fn registering_what_does_not_parse_is_refused() {
    let registry = ShortcutRegistry::new();
    let error = register_shortcut(&registry, "Control+Shift").unwrap_err();
    assert_eq!(error.kind(), ErrorKind::ParseError);
    assert_eq!(error.message(), "Unsupported key code: Shift");
    let error = register_shortcut(&registry, "").unwrap_err();
    assert_eq!(error.kind(), ErrorKind::ParseError);
}

#[test]
fn unregistering_the_unknown_is_refused() {
    let registry = registry_with(&["Control+Shift+A"]);
    let error = unregister_shortcut(&registry, "Control+Shift+B").unwrap_err();
    assert_eq!(error.kind(), ErrorKind::NotRegistered);
    assert_eq!(error.message(), "Shortcut Control+Shift+B is not registered");
    let error = unregister_shortcut(&registry, "control+shift+a").unwrap_err();
    assert_eq!(error.kind(), ErrorKind::NotRegistered);
}

#[test]
fn registered_is_by_exact_string() {
    let registry = registry_with(&["Control+Shift+A", "Alt+F1"]);
    assert!(is_shortcut_registered(&registry, "Alt+F1"));
    assert!(!is_shortcut_registered(&registry, "alt+F1"));
    assert!(!is_shortcut_registered(&registry, "Alt+F2"));
    assert!(!is_shortcut_registered(&registry, ""));
}

#[test]
fn same_hotkey_under_another_spelling_replaces_the_entry() {
    let mut registry = registry_with(&["Control+Shift+A"]);
    let registration = register_shortcut(&registry, "Shift+Control+A").unwrap();
    registry.insert(registration);
    assert!(is_shortcut_registered(&registry, "Shift+Control+A"));
    assert!(!is_shortcut_registered(&registry, "Control+Shift+A"));
}

#[test]
fn pause_hands_out_every_hotkey_once() {
    let mut flags = HandlerFlags::new();
    let shortcuts = ["Control+Shift+A", "Alt+F1", "Meta+Space"];
    let registry = registry_with(&shortcuts);

    let (paused, hotkeys) = pause_shortcut_handling(&mut flags, &registry);
    assert!(paused);
    assert!(flags.paused);
    let mut ids: Vec<u32> = hotkeys.iter().map(|h| h.id()).collect();
    ids.sort();
    let mut expected: Vec<u32> =
        shortcuts.iter().map(|s| parse_shortcut(s).unwrap().id()).collect();
    expected.sort();
    assert_eq!(ids, expected);

    let (resumed, hotkeys) = resume_shortcut_handling(&mut flags, &registry);
    assert!(resumed);
    assert!(!flags.paused);
    let mut ids: Vec<u32> = hotkeys.iter().map(|h| h.id()).collect();
    ids.sort();
    assert_eq!(ids, expected);
    for shortcut in shortcuts {
        assert!(is_shortcut_registered(&registry, shortcut));
    }
}

#[test]
fn pause_and_resume_without_effect_hand_out_nothing() {
    let mut flags = HandlerFlags::new();
    let registry = registry_with(&["Alt+F1"]);
    let (resumed, hotkeys) = resume_shortcut_handling(&mut flags, &registry);
    assert!(!resumed);
    assert!(hotkeys.is_empty());
    flags.paused = true;
    let (paused, hotkeys) = pause_shortcut_handling(&mut flags, &registry);
    assert!(!paused);
    assert!(hotkeys.is_empty());
    assert!(flags.paused);
}

#[test]
fn pause_leaves_the_suspend_flag_alone() {
    let mut flags = HandlerFlags { suspended: true, paused: false };
    let registry = ShortcutRegistry::new();
    let (paused, hotkeys) = pause_shortcut_handling(&mut flags, &registry);
    assert!(paused);
    assert!(hotkeys.is_empty());
    assert_eq!(flags, HandlerFlags { suspended: true, paused: true });
    let (resumed, _) = resume_shortcut_handling(&mut flags, &registry);
    assert!(resumed);
    assert_eq!(flags, HandlerFlags { suspended: true, paused: false });
}

#[test]
fn registry_lookup_by_identifier() {
    let registry = registry_with(&["Alt+F1"]);
    let id = parse_shortcut("Alt+F1").unwrap().id();
    assert_eq!(registry.get(id), Some("Alt+F1".to_string()));
    assert_eq!(registry.get(id.wrapping_add(1)), None);
}

#[test]
fn hotkey_release_is_reported_under_its_shortcut() {
    let registry = registry_with(&["Alt+F1"]);
    let id = parse_shortcut("Alt+F1").unwrap().id();
    let flags = HandlerFlags::new();
    assert_eq!(
        handle_keyboard_event(&registry, flags, id, ShortcutState::Released),
        Some("Alt+F1".to_string())
    );
    assert_eq!(handle_keyboard_event(&registry, flags, id, ShortcutState::Pressed), None);
    assert_eq!(
        handle_keyboard_event(&registry, flags, id.wrapping_add(7), ShortcutState::Released),
        Some("Unknown".to_string())
    );
}

#[test]
fn hotkey_is_ignored_while_suspended_or_paused() {
    let registry = registry_with(&["Alt+F1"]);
    let id = parse_shortcut("Alt+F1").unwrap().id();
    let suspended = HandlerFlags { suspended: true, paused: false };
    let paused = HandlerFlags { suspended: false, paused: true };
    assert_eq!(handle_keyboard_event(&registry, suspended, id, ShortcutState::Released), None);
    assert_eq!(handle_keyboard_event(&registry, paused, id, ShortcutState::Released), None);
}

#[test]
fn hotkey_event_is_reported_even_when_empty() {
    let event = shortcut_event("Alt+F1".to_string(), String::new());
    assert_eq!(event.shortcut, "Alt+F1");
    assert_eq!(event.selection, "");
}
