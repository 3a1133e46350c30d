use textgo::flags::HandlerFlags;
use textgo::handlers::mouse::{
    emit_event, handle_long_press, handle_mouse_event, handle_mouse_move, handle_mouse_press,
    handle_mouse_release, hide_toolbar, may_capture, Click, Event, Gesture, GestureConfig,
    GestureState, LongPressTimer, Press, Reaction, Toolbar,
};
use textgo::platform::ScreenPoint;

const MS: u64 = 1_000_000;

fn at(x: i32, y: i32) -> ScreenPoint {
    ScreenPoint { x, y }
}

fn config() -> GestureConfig {
    GestureConfig { long_press_enabled: true, long_press_millis: 600, clear_shift_after_click: false }
}

fn nothing() -> Reaction {
    Reaction { gesture: None, toolbar: Toolbar::Keep, timer: None }
}

fn feed(state: &mut GestureState, event: Event) -> Reaction {
    handle_mouse_event(state, HandlerFlags::new(), &config(), event)
}

fn click(state: &mut GestureState, point: ScreenPoint, ibeam: bool, now: u64) -> Reaction {
    feed(state, Event::Press { at: point, ibeam });
    feed(state, Event::Release { at: point, ibeam, now })
}

#[test]
fn detector_starts_idle() {
    let state = GestureState::new();
    assert_eq!(state.press, None);
    assert_eq!(state.last_click, None);
    assert!(!state.dragging);
    assert!(!state.shift_held);
    assert!(!state.long_press_fired);
    assert_eq!(state.epoch, 0);
}

#[test]
fn press_notes_the_press_and_asks_for_a_timer() {
    let mut state = GestureState::new();
    let reaction = feed(&mut state, Event::Press { at: at(10, 20), ibeam: true });
    assert_eq!(state.press, Some(Press { at: at(10, 20), ibeam: true }));
    assert_eq!(state.epoch, 1);
    assert_eq!(
        reaction,
        Reaction {
            gesture: None,
            toolbar: Toolbar::HideIfOutside(at(10, 20)),
            timer: Some(LongPressTimer { epoch: 1, millis: 600 }),
        }
    );
}

#[test]
fn press_without_ibeam_or_with_long_press_disabled_starts_no_timer() {
    let mut state = GestureState::new();
    let reaction = feed(&mut state, Event::Press { at: at(1, 1), ibeam: false });
    assert_eq!(reaction.timer, None);
    assert_eq!(reaction.toolbar, Toolbar::HideIfOutside(at(1, 1)));

    let off = GestureConfig { long_press_enabled: false, ..config() };
    let mut state = GestureState::new();
    let reaction = handle_mouse_press(&mut state, &off, at(1, 1), true);
    assert_eq!(reaction.timer, None);
    assert_eq!(state.epoch, 1);
}

#[test]
fn two_close_clicks_make_one_double_click() {
    let mut state = GestureState::new();
    assert_eq!(click(&mut state, at(100, 100), true, 1_000 * MS).gesture, None);
    assert_eq!(
        state.last_click,
        Some(Click { time: 1_000 * MS, at: at(100, 100), ibeam: true })
    );
    let second = click(&mut state, at(101, 102), false, 1_400 * MS);
    assert_eq!(second.gesture, Some(Gesture::DoubleClick));
    assert_eq!(state.last_click, None);
    let third = click(&mut state, at(101, 102), true, 1_500 * MS);
    assert_eq!(third.gesture, None);
    assert_eq!(
        state.last_click,
        Some(Click { time: 1_500 * MS, at: at(101, 102), ibeam: true })
    );
}

#[test]
fn double_click_needs_the_time_window() {
    let mut state = GestureState::new();
    click(&mut state, at(0, 0), true, 0);
    assert_eq!(click(&mut state, at(0, 0), true, 500 * MS).gesture, None);
    assert_eq!(state.last_click, Some(Click { time: 500 * MS, at: at(0, 0), ibeam: true }));
    assert_eq!(
        click(&mut state, at(0, 0), true, 500 * MS + 499_999_999).gesture,
        Some(Gesture::DoubleClick)
    );
}

#[test]
fn double_click_needs_the_distance_window() {
    let mut state = GestureState::new();
    click(&mut state, at(0, 0), true, 0);
    assert_eq!(click(&mut state, at(3, 0), true, 10 * MS).gesture, None);
    assert_eq!(click(&mut state, at(5, 2), true, 20 * MS).gesture, Some(Gesture::DoubleClick));
    click(&mut state, at(0, 0), true, 1_000 * MS);
    assert_eq!(click(&mut state, at(2, 2), true, 1_010 * MS).gesture, Some(Gesture::DoubleClick));
    click(&mut state, at(0, 0), true, 2_000 * MS);
    assert_eq!(click(&mut state, at(2, 3), true, 2_010 * MS).gesture, None);
}

#[test]
fn double_click_needs_an_ibeam_at_one_of_the_clicks() {
    let mut state = GestureState::new();
    click(&mut state, at(0, 0), false, 0);
    assert_eq!(click(&mut state, at(0, 0), false, 10 * MS).gesture, None);
    assert_eq!(state.last_click, Some(Click { time: 10 * MS, at: at(0, 0), ibeam: false }));
    assert_eq!(click(&mut state, at(0, 0), true, 20 * MS).gesture, Some(Gesture::DoubleClick));
}

#[test]
fn double_click_with_a_clock_that_went_back() {
    let mut state = GestureState::new();
    click(&mut state, at(0, 0), true, 900 * MS);
    assert_eq!(click(&mut state, at(0, 0), true, 100 * MS).gesture, Some(Gesture::DoubleClick));
}

#[test]
fn drag_makes_one_drag_select() {
    for shift in [false, true] {
        let mut state = GestureState::new();
        if shift {
            feed(&mut state, Event::KeyPress { shift: true });
        }
        assert_eq!(feed(&mut state, Event::Press { at: at(0, 0), ibeam: true }).gesture, None);
        assert_eq!(feed(&mut state, Event::Move { to: at(9, 0) }), nothing());
        assert!(state.dragging);
        let released = feed(&mut state, Event::Release { at: at(9, 0), ibeam: false, now: 5 });
        assert_eq!(released, Reaction { gesture: Some(Gesture::DragSelect), ..nothing() });
        assert!(!state.dragging);
        assert_eq!(state.press, None);
        assert_eq!(state.last_click, None);
        assert_eq!(state.shift_held, shift);
    }
}

#[test]
fn drag_needs_more_than_the_drag_distance() {
    let mut state = GestureState::new();
    handle_mouse_press(&mut state, &config(), at(0, 0), true);
    handle_mouse_move(&mut state, at(8, 0));
    assert!(!state.dragging);
    assert_eq!(state.epoch, 1);
    handle_mouse_move(&mut state, at(6, 5));
    assert!(!state.dragging);
    handle_mouse_move(&mut state, at(6, 6));
    assert!(state.dragging);
    assert_eq!(state.epoch, 2);
    handle_mouse_move(&mut state, at(0, 0));
    assert!(state.dragging);
}

#[test]
fn move_without_a_press_is_no_drag() {
    let mut state = GestureState::new();
    handle_mouse_move(&mut state, at(500, 500));
    assert_eq!(state, GestureState::new());
}

#[test]
fn drag_across_the_whole_coordinate_range() {
    let mut state = GestureState::new();
    handle_mouse_press(&mut state, &config(), at(i32::MIN, i32::MIN), true);
    handle_mouse_move(&mut state, at(i32::MAX, i32::MAX));
    assert!(state.dragging);
}

#[test]
fn drag_without_ibeam_emits_nothing() {
    let mut state = GestureState::new();
    feed(&mut state, Event::Press { at: at(0, 0), ibeam: false });
    feed(&mut state, Event::Move { to: at(50, 0) });
    let released = feed(&mut state, Event::Release { at: at(50, 0), ibeam: false, now: 5 });
    assert_eq!(released, nothing());
    assert!(!state.dragging);
}

#[test]
fn drag_with_ibeam_at_the_release_only_is_emitted() {
    let mut state = GestureState::new();
    feed(&mut state, Event::Press { at: at(0, 0), ibeam: false });
    feed(&mut state, Event::Move { to: at(50, 0) });
    let released = feed(&mut state, Event::Release { at: at(50, 0), ibeam: true, now: 5 });
    assert_eq!(released.gesture, Some(Gesture::DragSelect));
}

#[test]
fn click_with_shift_held_is_a_shift_click() {
    let mut state = GestureState::new();
    let pressed = feed(&mut state, Event::KeyPress { shift: true });
    assert_eq!(pressed, Reaction { toolbar: Toolbar::Hide, ..nothing() });
    assert!(state.shift_held);
    assert_eq!(feed(&mut state, Event::KeyPress { shift: true }), nothing());
    assert_eq!(click(&mut state, at(5, 5), true, 100).gesture, Some(Gesture::ShiftClick));
    assert!(state.shift_held);
    assert_eq!(state.last_click, None);
    assert_eq!(feed(&mut state, Event::KeyRelease { shift: true }), nothing());
    assert!(!state.shift_held);
    assert_eq!(click(&mut state, at(5, 5), true, 200).gesture, None);
}

#[test]
fn shift_click_without_ibeam_emits_nothing() {
    let mut state = GestureState::new();
    feed(&mut state, Event::KeyPress { shift: true });
    assert_eq!(click(&mut state, at(5, 5), false, 100), nothing());
    assert_eq!(state.last_click, None);
}

#[test]
fn shift_click_can_clear_the_shift_note() {
    let clearing = GestureConfig { clear_shift_after_click: true, ..config() };
    let mut state = GestureState::new();
    handle_mouse_event(&mut state, HandlerFlags::new(), &clearing, Event::KeyPress { shift: true });
    handle_mouse_press(&mut state, &clearing, at(5, 5), true);
    let released = handle_mouse_release(&mut state, &clearing, at(5, 5), true, 100);
    assert_eq!(released.gesture, Some(Gesture::ShiftClick));
    assert!(!state.shift_held);
}

#[test]
fn held_press_fires_one_long_press() {
    let mut state = GestureState::new();
    let flags = HandlerFlags::new();
    let timer = feed(&mut state, Event::Press { at: at(0, 0), ibeam: true }).timer.unwrap();
    assert_eq!(handle_long_press(&mut state, flags, timer.epoch), Some(Gesture::LongPress));
    assert!(state.long_press_fired);
    assert_eq!(handle_long_press(&mut state, flags, timer.epoch), None);
    let released = feed(&mut state, Event::Release { at: at(0, 0), ibeam: true, now: 900 * MS });
    assert_eq!(released, nothing());
    assert_eq!(state.last_click, None);
    assert!(!state.long_press_fired);
}

#[test]
fn released_press_fires_no_long_press() {
    let mut state = GestureState::new();
    let flags = HandlerFlags::new();
    let timer = feed(&mut state, Event::Press { at: at(0, 0), ibeam: true }).timer.unwrap();
    feed(&mut state, Event::Release { at: at(0, 0), ibeam: true, now: 100 * MS });
    assert_eq!(handle_long_press(&mut state, flags, timer.epoch), None);
    assert!(!state.long_press_fired);
}

#[test]
fn dragged_press_fires_no_long_press() {
    let mut state = GestureState::new();
    let flags = HandlerFlags::new();
    let timer = feed(&mut state, Event::Press { at: at(0, 0), ibeam: true }).timer.unwrap();
    feed(&mut state, Event::Move { to: at(0, 20) });
    assert_eq!(handle_long_press(&mut state, flags, timer.epoch), None);
}

#[test]
fn small_move_keeps_the_long_press() {
    let mut state = GestureState::new();
    let flags = HandlerFlags::new();
    let timer = feed(&mut state, Event::Press { at: at(0, 0), ibeam: true }).timer.unwrap();
    feed(&mut state, Event::Move { to: at(2, 2) });
    assert_eq!(handle_long_press(&mut state, flags, timer.epoch), Some(Gesture::LongPress));
}

#[test]
fn timer_of_an_earlier_press_is_stale() {
    let mut state = GestureState::new();
    let flags = HandlerFlags::new();
    let first = feed(&mut state, Event::Press { at: at(0, 0), ibeam: true }).timer.unwrap();
    feed(&mut state, Event::Release { at: at(0, 0), ibeam: true, now: 1 });
    let second = feed(&mut state, Event::Press { at: at(0, 0), ibeam: true }).timer.unwrap();
    assert_ne!(first.epoch, second.epoch);
    assert_eq!(handle_long_press(&mut state, flags, first.epoch), None);
    assert_eq!(handle_long_press(&mut state, flags, second.epoch), Some(Gesture::LongPress));
}

#[test]
fn long_press_does_not_fire_without_a_press_or_while_blocked() {
    let flags = HandlerFlags::new();
    let mut state = GestureState::new();
    assert_eq!(handle_long_press(&mut state, flags, 0), None);
    let timer = feed(&mut state, Event::Press { at: at(0, 0), ibeam: true }).timer.unwrap();
    let suspended = HandlerFlags { suspended: true, paused: false };
    assert_eq!(handle_long_press(&mut state, suspended, timer.epoch), None);
    assert!(!state.long_press_fired);
    assert_eq!(handle_long_press(&mut state, flags, timer.epoch), Some(Gesture::LongPress));
}

#[test]
fn epoch_wraps_around() {
    let mut state = GestureState { epoch: u64::MAX, ..GestureState::new() };
    let timer = feed(&mut state, Event::Press { at: at(0, 0), ibeam: true }).timer.unwrap();
    assert_eq!(timer.epoch, 0);
    assert_eq!(state.epoch, 0);
}

#[test]
fn wheel_and_keys_hide_the_toolbar() {
    let mut state = GestureState::new();
    let hide = Reaction { toolbar: Toolbar::Hide, ..nothing() };
    assert_eq!(feed(&mut state, Event::Wheel), hide);
    assert_eq!(feed(&mut state, Event::KeyPress { shift: false }), hide);
    assert_eq!(feed(&mut state, Event::KeyRelease { shift: false }), nothing());
    assert_eq!(feed(&mut state, Event::Other), nothing());
    assert_eq!(state, GestureState::new());
}

#[test]
fn events_are_dropped_while_suspended_or_paused() {
    let events = [
        Event::Press { at: at(1, 1), ibeam: true },
        Event::Move { to: at(100, 100) },
        Event::Release { at: at(1, 1), ibeam: true, now: 7 },
        Event::Wheel,
        Event::KeyPress { shift: true },
        Event::KeyRelease { shift: true },
        Event::Other,
    ];
    let before = GestureState {
        press: Some(Press { at: at(0, 0), ibeam: true }),
        dragging: true,
        last_click: Some(Click { time: 3, at: at(0, 0), ibeam: true }),
        epoch: 9,
        long_press_fired: false,
        shift_held: true,
    };
    for flags in [
        HandlerFlags { suspended: true, paused: false },
        HandlerFlags { suspended: false, paused: true },
        HandlerFlags { suspended: true, paused: true },
    ] {
        for event in events {
            let mut state = before;
            assert_eq!(handle_mouse_event(&mut state, flags, &config(), event), nothing());
            assert_eq!(state, before);
        }
    }
}

#[test]
fn toolbar_is_hidden_by_a_click_outside() {
    let origin = at(100, 200);
    assert!(!hide_toolbar(true, at(100, 200), origin, 50, 20));
    assert!(!hide_toolbar(true, at(150, 220), origin, 50, 20));
    assert!(!hide_toolbar(true, at(120, 210), origin, 50, 20));
    assert!(hide_toolbar(true, at(99, 210), origin, 50, 20));
    assert!(hide_toolbar(true, at(151, 210), origin, 50, 20));
    assert!(hide_toolbar(true, at(120, 199), origin, 50, 20));
    assert!(hide_toolbar(true, at(120, 221), origin, 50, 20));
    assert!(!hide_toolbar(false, at(0, 0), origin, 50, 20));
    assert!(!hide_toolbar(true, at(i32::MAX, i32::MAX), at(i32::MAX, i32::MAX), u32::MAX, u32::MAX));
    assert!(hide_toolbar(true, at(i32::MIN, 0), at(i32::MIN + 1, 0), 1, 1));
}

#[test]
fn capture_is_gated_by_flags_and_blacklist() {
    let clear = HandlerFlags::new();
    assert!(may_capture(clear, false));
    assert!(!may_capture(clear, true));
    assert!(!may_capture(HandlerFlags { suspended: true, paused: false }, false));
    assert!(!may_capture(HandlerFlags { suspended: false, paused: true }, false));
}

#[test]
fn gestures_have_their_names() {
    assert_eq!(Gesture::DragSelect.label(), "MouseClick+MouseMove");
    assert_eq!(Gesture::DoubleClick.label(), "MouseClick+MouseClick");
    assert_eq!(Gesture::ShiftClick.label(), "Shift+MouseClick");
    assert_eq!(Gesture::LongPress.label(), "MouseLongPress");
}

#[test]
fn blank_selection_is_not_reported() {
    assert!(emit_event(Gesture::DoubleClick, String::new()).is_none());
    assert!(emit_event(Gesture::DoubleClick, " \t\r\n\u{a0}\u{3000}\u{2003}".to_string()).is_none());
    let event = emit_event(Gesture::DragSelect, " word ".to_string()).unwrap();
    assert_eq!(event.shortcut, "MouseClick+MouseMove");
    assert_eq!(event.selection, " word ");
    assert!(emit_event(Gesture::LongPress, "\u{200b}".to_string()).is_some());
}
