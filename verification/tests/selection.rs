use textgo::error::{AppError, ErrorKind};
use textgo::flags::{HandlerFlags, ShortcutHandlerGuard};
use textgo::selection::{
    get_selection, FallbackCapture, PollAction, Source, WaitTime, CHECK_INTERVAL_MS,
    INITIAL_WAIT_MS, MIN_WAIT_MS, WAIT_STEP_MS,
};

fn guard() -> ShortcutHandlerGuard {
    ShortcutHandlerGuard::suspend(&mut HandlerFlags::new())
}

#[test]
fn wait_starts_at_a_second() {
    let wait = WaitTime::new();
    assert_eq!(wait.millis(), 1000);
    assert_eq!(wait.max_attempts(), 200);
    assert_eq!((INITIAL_WAIT_MS, MIN_WAIT_MS, WAIT_STEP_MS, CHECK_INTERVAL_MS), (1000, 200, 100, 5));
}

#[test]
fn wait_shrinks_by_a_step_after_each_capture_down_to_the_floor() {
    let mut wait = WaitTime::new();
    let mut seen = Vec::new();
    for _ in 0..10 {
        wait.adapt(true);
        seen.push(wait.millis());
    }
    assert_eq!(seen, vec![900, 800, 700, 600, 500, 400, 300, 200, 200, 200]);
    assert_eq!(wait.max_attempts(), 40);
}

#[test]
fn wait_is_left_alone_by_a_timeout() {
    let mut wait = WaitTime::new();
    wait.adapt(false);
    assert_eq!(wait.millis(), 1000);
    wait.adapt(true);
    wait.adapt(false);
    wait.adapt(false);
    assert_eq!(wait.millis(), 900);
}

#[test]
fn wait_never_grows() {
    let mut wait = WaitTime::new();
    let mut last = wait.millis();
    for outcome in [true, false, true, true, false, true, true, true, true, true, false, true] {
        wait.adapt(outcome);
        assert!(wait.millis() <= last);
        assert!(wait.millis() >= 200);
        last = wait.millis();
    }
}

#[test]
fn capture_ends_with_the_first_text() {
    let mut wait = WaitTime::new();
    let (mut capture, first) = FallbackCapture::start(&guard(), &wait);
    assert!(matches!(first, PollAction::WaitAndRead));
    assert!(matches!(capture.on_read(Some(String::new()), &mut wait), PollAction::WaitAndRead));
    assert!(matches!(capture.on_read(None, &mut wait), PollAction::WaitAndRead));
    assert_eq!(wait.millis(), 1000);
    match capture.on_read(Some("copied".to_string()), &mut wait) {
        PollAction::Finish(text) => assert_eq!(text, "copied"),
        PollAction::WaitAndRead => panic!("the capture should be over"),
    }
    assert_eq!(wait.millis(), 900);
}

#[test]
fn capture_gives_up_after_the_last_attempt() {
    let mut wait = WaitTime::new();
    for _ in 0..8 {
        wait.adapt(true);
    }
    assert_eq!(wait.max_attempts(), 40);
    let (mut capture, _) = FallbackCapture::start(&guard(), &wait);
    let mut reads = 0;
    let text = loop {
        reads += 1;
        match capture.on_read(Some(String::new()), &mut wait) {
            PollAction::WaitAndRead => {}
            PollAction::Finish(text) => break text,
        }
    };
    assert_eq!(reads, 40);
    assert_eq!(text, "");
    assert_eq!(wait.millis(), 200);
}

#[test]
fn capture_polls_two_hundred_times_at_most() {
    let mut wait = WaitTime::new();
    let (mut capture, _) = FallbackCapture::start(&guard(), &wait);
    let mut reads = 0;
    while let PollAction::WaitAndRead = capture.on_read(None, &mut wait) {
        reads += 1;
        assert!(reads < 1000);
    }
    assert_eq!(reads + 1, 200);
    assert_eq!(wait.millis(), 1000);
}

#[test]
fn capture_takes_text_on_the_last_attempt() {
    let mut wait = WaitTime::new();
    let (mut capture, _) = FallbackCapture::start(&guard(), &wait);
    for _ in 0..199 {
        assert!(matches!(capture.on_read(None, &mut wait), PollAction::WaitAndRead));
    }
    match capture.on_read(Some("late".to_string()), &mut wait) {
        PollAction::Finish(text) => assert_eq!(text, "late"),
        PollAction::WaitAndRead => panic!("the capture should be over"),
    }
    assert_eq!(wait.millis(), 900);
}

#[test]
fn native_text_is_taken_first() {
    match get_selection(&guard(), Ok("native".to_string())) {
        Source::Native(text) => assert_eq!(text, "native"),
        Source::Fallback => panic!("the native text should be taken"),
    }
    match get_selection(&guard(), Ok(" ".to_string())) {
        Source::Native(text) => assert_eq!(text, " "),
        Source::Fallback => panic!("the native text should be taken"),
    }
}

#[test]
fn empty_or_failed_native_answer_falls_back() {
    assert!(matches!(get_selection(&guard(), Ok(String::new())), Source::Fallback));
    let denied = AppError::with_text(ErrorKind::PermissionDenied, "not granted");
    assert!(matches!(get_selection(&guard(), Err(denied)), Source::Fallback));
    let gone = AppError::with_text(ErrorKind::ElementUnavailable, "no focus");
    assert!(matches!(get_selection(&guard(), Err(gone)), Source::Fallback));
}
