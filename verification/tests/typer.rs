use textgo::error::{AppError, ErrorKind};
use textgo::typer::{enter_text, keyboard_selection, EnterPlan, MAX_KEYBOARD_SELECTION};

#[test]
fn empty_text_is_not_entered() {
    assert_eq!(enter_text("", None), None);
    assert_eq!(enter_text("", Some(true)), None);
}

#[test]
fn text_is_entered_with_the_clipboard_restored_unless_asked() {
    assert_eq!(enter_text("hello", None), Some(EnterPlan { chars: 5, restore_clipboard: true }));
    assert_eq!(
        enter_text("hello", Some(false)),
        Some(EnterPlan { chars: 5, restore_clipboard: true })
    );
    assert_eq!(
        enter_text("h\u{e9}\u{1f600}", Some(true)),
        Some(EnterPlan { chars: 3, restore_clipboard: false })
    );
}

#[test]
fn short_text_is_selected_by_keys_when_the_native_way_fails() {
    let failed = Err(AppError::with_text(ErrorKind::ElementUnavailable, "no range"));
    assert_eq!(MAX_KEYBOARD_SELECTION, 50);
    assert_eq!(keyboard_selection(&failed, 50), Some(50));
    assert_eq!(keyboard_selection(&failed, 1), Some(1));
    assert_eq!(keyboard_selection(&failed, 51), None);
    assert_eq!(keyboard_selection(&Ok(()), 5), None);
}
