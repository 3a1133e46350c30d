//! The gesture detector: it follows the stream of raw mouse and keyboard
//! events and tells the gestures that call for a capture of the selection:
//! a drag, a double click, a click with shift held, a long press.
//!
//! The detector is a state machine. Each event takes the state to the next
//! one and yields a reaction: a gesture to emit, a request to hide the
//! toolbar, a timer to start. The caller carries the reaction out. Points
//! are in whole pixels and times in nanoseconds on a monotonic clock.

use crate::flags::HandlerFlags;
use crate::platform::ScreenPoint;
use crate::text::{is_blank, str_is_blank};
use vstd::prelude::*;
use vstd::string::StringExecFns;

verus! {

/// The pointer has to leave the place of the press by more than this many
/// pixels for the press to become a drag.
pub const MIN_DRAG_DISTANCE: i64 = 8;

/// Two clicks less than this many pixels apart can make a double click.
pub const MAX_DBCLICK_DISTANCE: i64 = 3;

/// Two clicks less than this many nanoseconds apart can make a double
/// click: half a second.
pub const MAX_DBCLICK_INTERVAL: u64 = 500_000_000;

/// A gesture that calls for a capture of the selection.
#[derive(Clone, Copy, Debug, PartialEq, Eq, Structural)]
pub enum Gesture {
    /// The pointer was dragged with the button held.
    DragSelect,
    /// Two clicks at one place in quick succession.
    DoubleClick,
    /// A click with the shift key held.
    ShiftClick,
    /// The button was held at one place for the configured time.
    LongPress,
}

/// A raw event from the global input hook.
#[derive(Clone, Copy, Debug, PartialEq, Eq, Structural)]
pub enum Event {
    /// The left button went down at `at`; `ibeam` says whether the cursor
    /// had the shape of an I-beam.
    Press { at: ScreenPoint, ibeam: bool },
    /// The pointer moved to `to`.
    Move { to: ScreenPoint },
    /// The left button went up at `at`, at time `now`; `ibeam` says whether
    /// the cursor had the shape of an I-beam.
    Release { at: ScreenPoint, ibeam: bool, now: u64 },
    /// The wheel turned.
    Wheel,
    /// A key went down; `shift` says whether it is a shift key.
    KeyPress { shift: bool },
    /// A key went up; `shift` says whether it is a shift key.
    KeyRelease { shift: bool },
    /// Anything else.
    Other,
}

/// The settings of the detector.
#[derive(Clone, Copy, Debug, PartialEq, Eq, Structural)]
pub struct GestureConfig {
    /// Whether a long press is a gesture.
    pub long_press_enabled: bool,
    /// For how long the button has to be held, in milliseconds.
    pub long_press_millis: u64,
    /// Whether a click with shift held clears the note that shift is held.
    /// This is for platforms on which the release of the key may be missed.
    pub clear_shift_after_click: bool,
}

/// A press of the left button that has not been released yet.
#[derive(Clone, Copy, Debug, PartialEq, Eq, Structural)]
pub struct Press {
    pub at: ScreenPoint,
    pub ibeam: bool,
}

/// A click that may become the first half of a double click.
#[derive(Clone, Copy, Debug, PartialEq, Eq, Structural)]
pub struct Click {
    pub time: u64,
    pub at: ScreenPoint,
    /// Whether the cursor had the shape of an I-beam at the press or at the
    /// release.
    pub ibeam: bool,
}

/// The state of the detector.
#[derive(Clone, Copy, Debug, PartialEq, Eq, Structural)]
pub struct GestureState {
    /// The press that is under way, if any.
    pub press: Option<Press>,
    /// Whether the press under way has become a drag.
    pub dragging: bool,
    /// The last click, if it can still be paired.
    pub last_click: Option<Click>,
    /// The epoch of the long press. A timer remembers the epoch of the
    /// press that started it; once the epoch has moved on, the timer is
    /// stale.
    pub epoch: u64,
    /// Whether the long press has fired for the press under way.
    pub long_press_fired: bool,
    /// Whether a shift key is held.
    pub shift_held: bool,
}

/// What is to happen to the toolbar.
#[derive(Clone, Copy, Debug, PartialEq, Eq, Structural)]
pub enum Toolbar {
    /// Nothing.
    Keep,
    /// It is to be hidden.
    Hide,
    /// It is to be hidden if the click at this point is outside of it.
    HideIfOutside(ScreenPoint),
}

/// A timer to start: after `millis` milliseconds, `epoch` is to be handed to
/// [`handle_long_press`].
#[derive(Clone, Copy, Debug, PartialEq, Eq, Structural)]
pub struct LongPressTimer {
    pub epoch: u64,
    pub millis: u64,
}

/// What the caller is to do after an event.
#[derive(Clone, Copy, Debug, PartialEq, Eq, Structural)]
pub struct Reaction {
    /// The gesture to emit, if any.
    pub gesture: Option<Gesture>,
    /// What is to happen to the toolbar.
    pub toolbar: Toolbar,
    /// The timer to start, if any.
    pub timer: Option<LongPressTimer>,
}

impl Reaction {
    /// Nothing to do.
    pub open spec fn nothing() -> Reaction {
        Reaction { gesture: None, toolbar: Toolbar::Keep, timer: None }
    }
}

impl GestureState {
    /// The state before any event: no press, no click to pair, no shift.
    pub open spec fn idle() -> GestureState {
        GestureState {
            press: None,
            dragging: false,
            last_click: None,
            epoch: 0,
            long_press_fired: false,
            shift_held: false,
        }
    }

    /// The state before any event.
    pub fn new() -> (state: GestureState)
        ensures
            state == GestureState::idle(),
    {
        GestureState {
            press: None,
            dragging: false,
            last_click: None,
            epoch: 0,
            long_press_fired: false,
            shift_held: false,
        }
    }
}

/// The epoch after `epoch`. It differs from `epoch`, which is all that a
/// stale timer is told by.
pub open spec fn next_epoch(epoch: u64) -> u64 {
    if epoch == u64::MAX {
        0
    } else {
        (epoch + 1) as u64
    }
}

/// The square of the distance between two points.
pub open spec fn dist_sq(a: ScreenPoint, b: ScreenPoint) -> int {
    (a.x - b.x) * (a.x - b.x) + (a.y - b.y) * (a.y - b.y)
}

/// Whether `b` is more than `limit` pixels away from `a`.
pub open spec fn farther(a: ScreenPoint, b: ScreenPoint, limit: int) -> bool {
    dist_sq(a, b) > limit * limit
}

/// Whether `b` is less than `limit` pixels away from `a`.
pub open spec fn nearer(a: ScreenPoint, b: ScreenPoint, limit: int) -> bool {
    dist_sq(a, b) < limit * limit
}

/// The time from `earlier` to `later`, and nothing where `later` is the
/// earlier of the two.
pub open spec fn elapsed(earlier: u64, later: u64) -> int {
    if later >= earlier {
        later - earlier
    } else {
        0
    }
}

/// Whether the cursor had the shape of an I-beam on one side of the press
/// under way: when the button went down, or now that it goes up.
pub open spec fn cursor_valid(state: GestureState, ibeam: bool) -> bool {
    ibeam || (state.press matches Some(press) && press.ibeam)
}

/// Whether a click at `at`, at time `now`, makes a double click with
/// `first`: the two are close in time and in place, and the cursor had the
/// shape of an I-beam at one of them.
pub open spec fn pairs_with(first: Click, at: ScreenPoint, now: u64, valid: bool) -> bool {
    &&& elapsed(first.time, now) < MAX_DBCLICK_INTERVAL
    &&& nearer(at, first.at, MAX_DBCLICK_DISTANCE as int)
    &&& (first.ibeam || valid)
}

/// The left button goes down.
pub open spec fn on_press(state: GestureState, config: GestureConfig, at: ScreenPoint, ibeam: bool) -> (
    GestureState,
    Reaction,
) {
    let epoch = next_epoch(state.epoch);
    (
        GestureState {
            press: Some(Press { at, ibeam }),
            dragging: false,
            epoch,
            long_press_fired: false,
            ..state
        },
        Reaction {
            gesture: None,
            toolbar: Toolbar::HideIfOutside(at),
            timer: if config.long_press_enabled && ibeam {
                Some(LongPressTimer { epoch, millis: config.long_press_millis })
            } else {
                None
            },
        },
    )
}

/// The pointer moves.
pub open spec fn on_move(state: GestureState, to: ScreenPoint) -> GestureState {
    if state.press matches Some(press) && farther(press.at, to, MIN_DRAG_DISTANCE as int) {
        GestureState { dragging: true, epoch: next_epoch(state.epoch), ..state }
    } else {
        state
    }
}

/// The left button goes up.
pub open spec fn on_release(
    state: GestureState,
    config: GestureConfig,
    at: ScreenPoint,
    ibeam: bool,
    now: u64,
) -> (GestureState, Reaction) {
    let valid = cursor_valid(state, ibeam);
    let ended = GestureState {
        press: None,
        dragging: false,
        epoch: next_epoch(state.epoch),
        long_press_fired: false,
        ..state
    };
    let gesture = |g: Gesture|
        Reaction {
            gesture: if valid {
                Some(g)
            } else {
                None
            },
            ..Reaction::nothing()
        };
    if state.long_press_fired {
        (ended, Reaction::nothing())
    } else if state.dragging {
        (ended, gesture(Gesture::DragSelect))
    } else if state.shift_held {
        (
            GestureState { shift_held: !config.clear_shift_after_click, ..ended },
            gesture(Gesture::ShiftClick),
        )
    } else if state.last_click matches Some(first) && pairs_with(first, at, now, valid) {
        (
            GestureState { last_click: None, ..ended },
            Reaction { gesture: Some(Gesture::DoubleClick), ..Reaction::nothing() },
        )
    } else {
        (
            GestureState { last_click: Some(Click { time: now, at, ibeam: valid }), ..ended },
            Reaction::nothing(),
        )
    }
}

/// A key goes down.
pub open spec fn on_key_press(state: GestureState, shift: bool) -> (GestureState, Reaction) {
    if shift && state.shift_held {
        (state, Reaction::nothing())
    } else {
        (
            GestureState { shift_held: state.shift_held || shift, ..state },
            Reaction { toolbar: Toolbar::Hide, ..Reaction::nothing() },
        )
    }
}

/// A key goes up.
pub open spec fn on_key_release(state: GestureState, shift: bool) -> GestureState {
    GestureState { shift_held: state.shift_held && !shift, ..state }
}

/// What an event does to the state, and the reaction that it calls for.
/// While a flag is set the detector is blind: the state stays and nothing
/// is to be done.
pub open spec fn step(state: GestureState, flags: HandlerFlags, config: GestureConfig, event: Event) -> (
    GestureState,
    Reaction,
) {
    if flags.blocks() {
        (state, Reaction::nothing())
    } else {
        match event {
            Event::Press { at, ibeam } => on_press(state, config, at, ibeam),
            Event::Move { to } => (on_move(state, to), Reaction::nothing()),
            Event::Release { at, ibeam, now } => on_release(state, config, at, ibeam, now),
            Event::Wheel => (state, Reaction { toolbar: Toolbar::Hide, ..Reaction::nothing() }),
            Event::KeyPress { shift } => on_key_press(state, shift),
            Event::KeyRelease { shift } => (on_key_release(state, shift), Reaction::nothing()),
            Event::Other => (state, Reaction::nothing()),
        }
    }
}

/// Whether a timer that remembers `epoch` fires as it wakes: no flag is
/// set, the press that started it is still under way and has not become a
/// drag, which shows in the epoch, and the long press has not fired yet.
pub open spec fn fires(state: GestureState, flags: HandlerFlags, epoch: u64) -> bool {
    &&& !flags.blocks()
    &&& state.press matches Some(press) && press.ibeam
    &&& state.epoch == epoch
    &&& !state.long_press_fired
}

/// A timer wakes.
pub open spec fn on_wake(state: GestureState, flags: HandlerFlags, epoch: u64) -> (
    GestureState,
    Option<Gesture>,
) {
    if fires(state, flags, epoch) {
        (GestureState { long_press_fired: true, ..state }, Some(Gesture::LongPress))
    } else {
        (state, None)
    }
}

/// The epoch after `epoch`.
fn bump(epoch: u64) -> (next: u64)
    ensures
        next == next_epoch(epoch),
        next != epoch,
{
    if epoch == u64::MAX {
        0
    } else {
        epoch + 1
    }
}

/// The square of the distance between two points.
fn distance_squared(a: ScreenPoint, b: ScreenPoint) -> (d: i128)
    ensures
        d == dist_sq(a, b),
        d >= 0,
{
    let dx: i128 = a.x as i128 - b.x as i128;
    let dy: i128 = a.y as i128 - b.y as i128;
    assert(0 <= dx * dx <= 0x1_0000_0000 * 0x1_0000_0000) by (nonlinear_arith)
        requires
            -0x1_0000_0000 <= dx <= 0x1_0000_0000,
    ;
    assert(0 <= dy * dy <= 0x1_0000_0000 * 0x1_0000_0000) by (nonlinear_arith)
        requires
            -0x1_0000_0000 <= dy <= 0x1_0000_0000,
    ;
    dx * dx + dy * dy
}

/// Handles the press of the left button at `at`; `ibeam` says whether the
/// cursor has the shape of an I-beam.
///
/// The press is noted with the shape of the cursor, a drag and a long press
/// of an earlier press are forgotten, and the epoch moves on. The toolbar is
/// to be hidden if the click is outside of it. Where long presses are
/// enabled and the cursor is an I-beam, a timer is to be started.
pub fn handle_mouse_press(
    state: &mut GestureState,
    config: &GestureConfig,
    at: ScreenPoint,
    ibeam: bool,
) -> (reaction: Reaction)
    ensures
        (*final(state), reaction) == on_press(*old(state), *config, at, ibeam),
{
    let epoch = bump(state.epoch);
    state.press = Some(Press { at, ibeam });
    state.dragging = false;
    state.epoch = epoch;
    state.long_press_fired = false;
    let timer = if config.long_press_enabled && ibeam {
        Some(LongPressTimer { epoch, millis: config.long_press_millis })
    } else {
        None
    };
    Reaction { gesture: None, toolbar: Toolbar::HideIfOutside(at), timer }
}

/// Handles a move of the pointer to `to`.
///
/// Once the pointer is more than the drag distance away from the place of
/// the press under way, the press is a drag, and the epoch moves on so that
/// a timer of the press is stale.
pub fn handle_mouse_move(state: &mut GestureState, to: ScreenPoint)
    ensures
        *final(state) == on_move(*old(state), to),
{
    if let Some(press) = state.press {
        if distance_squared(press.at, to) > (MIN_DRAG_DISTANCE * MIN_DRAG_DISTANCE) as i128 {
            state.dragging = true;
            state.epoch = bump(state.epoch);
        }
    }
}

/// Handles the release of the left button at `at`, at time `now`; `ibeam`
/// says whether the cursor has the shape of an I-beam.
///
/// The press is over and the epoch moves on. Then the first of these that
/// applies: after a long press that has fired, nothing more; after a drag,
/// a drag-select; with shift held, a shift-click; with a last click close in
/// time and place, a double click, and the last click is forgotten. In any
/// other case the click is noted as the last click. A drag-select and a
/// shift-click are emitted only if the cursor had the shape of an I-beam at
/// the press or at the release, a double click only if it had it at one of
/// the two clicks.
pub fn handle_mouse_release(
    state: &mut GestureState,
    config: &GestureConfig,
    at: ScreenPoint,
    ibeam: bool,
    now: u64,
) -> (reaction: Reaction)
    ensures
        (*final(state), reaction) == on_release(*old(state), *config, at, ibeam, now),
{
    let valid = ibeam || match state.press {
        Some(press) => press.ibeam,
        None => false,
    };
    let fired = state.long_press_fired;
    let dragging = state.dragging;
    state.press = None;
    state.dragging = false;
    state.epoch = bump(state.epoch);
    state.long_press_fired = false;
    let mut gesture: Option<Gesture> = None;
    if fired {
    } else if dragging {
        if valid {
            gesture = Some(Gesture::DragSelect);
        }
    } else if state.shift_held {
        state.shift_held = !config.clear_shift_after_click;
        if valid {
            gesture = Some(Gesture::ShiftClick);
        }
    } else {
        let paired = match state.last_click {
            Some(first) => {
                let interval: u64 = if now >= first.time {
                    now - first.time
                } else {
                    0
                };
                interval < MAX_DBCLICK_INTERVAL && distance_squared(at, first.at) < (
                MAX_DBCLICK_DISTANCE * MAX_DBCLICK_DISTANCE) as i128 && (first.ibeam || valid)
            },
            None => false,
        };
        if paired {
            state.last_click = None;
            gesture = Some(Gesture::DoubleClick);
        } else {
            state.last_click = Some(Click { time: now, at, ibeam: valid });
        }
    }
    Reaction { gesture, toolbar: Toolbar::Keep, timer: None }
}

/// Handles a raw event from the global input hook.
///
/// While handling is suspended or paused the event is dropped: the state
/// stays as it is and nothing is to be done. A press, a move and a release
/// of the left button go to their handlers. A shift key that goes down is
/// noted, once, and one that goes up is noted too. The wheel and any key
/// that goes down ask for the toolbar to be hidden.
pub fn handle_mouse_event(
    state: &mut GestureState,
    flags: HandlerFlags,
    config: &GestureConfig,
    event: Event,
) -> (reaction: Reaction)
    ensures
        (*final(state), reaction) == step(*old(state), flags, *config, event),
{
    let nothing = Reaction { gesture: None, toolbar: Toolbar::Keep, timer: None };
    if flags.is_blocked() {
        return nothing;
    }
    match event {
        Event::Press { at, ibeam } => handle_mouse_press(state, config, at, ibeam),
        Event::Move { to } => {
            handle_mouse_move(state, to);
            nothing
        },
        Event::Release { at, ibeam, now } => handle_mouse_release(state, config, at, ibeam, now),
        Event::Wheel => Reaction { gesture: None, toolbar: Toolbar::Hide, timer: None },
        Event::KeyPress { shift } => {
            if shift && state.shift_held {
                nothing
            } else {
                if shift {
                    state.shift_held = true;
                }
                Reaction { gesture: None, toolbar: Toolbar::Hide, timer: None }
            }
        },
        Event::KeyRelease { shift } => {
            if shift {
                state.shift_held = false;
            }
            nothing
        },
        Event::Other => nothing,
    }
}

/// Handles the waking of a long-press timer that remembers `epoch`.
///
/// The long press fires if the epoch is still the one of the state, which
/// says that the button has neither been released nor dragged since the
/// press; it fires once for a press, and not while handling is suspended or
/// paused.
pub fn handle_long_press(state: &mut GestureState, flags: HandlerFlags, epoch: u64) -> (gesture:
    Option<Gesture>)
    ensures
        (*final(state), gesture) == on_wake(*old(state), flags, epoch),
{
    let armed = match state.press {
        Some(press) => press.ibeam,
        None => false,
    };
    if !flags.is_blocked() && armed && state.epoch == epoch && !state.long_press_fired {
        state.long_press_fired = true;
        Some(Gesture::LongPress)
    } else {
        None
    }
}

/// Whether a click at `click` lies outside of the rectangle with the given
/// origin and size. The edges belong to the rectangle.
pub open spec fn outside(click: ScreenPoint, origin: ScreenPoint, width: u32, height: u32) -> bool {
    ||| click.x < origin.x
    ||| click.x > origin.x + width
    ||| click.y < origin.y
    ||| click.y > origin.y + height
}

/// Whether the toolbar is to be hidden after a click at `click`: it is
/// visible and the click lies outside of it. `origin`, `width` and `height`
/// are the outer position and size of the toolbar.
pub fn hide_toolbar(visible: bool, click: ScreenPoint, origin: ScreenPoint, width: u32, height: u32) -> (hide:
    bool)
    ensures
        hide == (visible && outside(click, origin, width, height)),
{
    let click_x: i64 = click.x as i64;
    let click_y: i64 = click.y as i64;
    let left: i64 = origin.x as i64;
    let top: i64 = origin.y as i64;
    visible && (click_x < left || click_x > left + width as i64 || click_y < top || click_y > top
        + height as i64)
}

/// Whether a gesture or a hot-key may go on to capture the selection:
/// handling is neither suspended nor paused, and the frontmost application
/// or web site is not on the blacklist.
pub fn may_capture(flags: HandlerFlags, blocked: bool) -> (b: bool)
    ensures
        b == (!flags.blocks() && !blocked),
{
    !flags.is_blocked() && !blocked
}

/// The name under which a gesture is reported.
pub open spec fn label_of(gesture: Gesture) -> Seq<char> {
    match gesture {
        Gesture::DragSelect => "MouseClick+MouseMove"@,
        Gesture::DoubleClick => "MouseClick+MouseClick"@,
        Gesture::ShiftClick => "Shift+MouseClick"@,
        Gesture::LongPress => "MouseLongPress"@,
    }
}

impl Gesture {
    /// The name under which the gesture is reported.
    pub fn label(&self) -> (name: &'static str)
        ensures
            name@ == label_of(*self),
    {
        match self {
            Gesture::DragSelect => "MouseClick+MouseMove",
            Gesture::DoubleClick => "MouseClick+MouseClick",
            Gesture::ShiftClick => "Shift+MouseClick",
            Gesture::LongPress => "MouseLongPress",
        }
    }
}

/// What is reported when a selection has been captured: the name of what
/// triggered the capture, and the selected text.
#[derive(Debug)]
pub struct SelectionEvent {
    pub shortcut: String,
    pub selection: String,
}

/// The event to report for a gesture, once the selection has been
/// captured. A selection that is empty or holds white space only is not
/// reported.
pub fn emit_event(gesture: Gesture, selection: String) -> (event: Option<SelectionEvent>)
    ensures
        match event {
            Some(e) => !is_blank(selection@) && e.shortcut@ == label_of(gesture) && e.selection
                == selection,
            None => is_blank(selection@),
        },
{
    if str_is_blank(selection.as_str()) {
        None
    } else {
        Some(SelectionEvent { shortcut: String::from_str(gesture.label()), selection })
    }
}

/// A click that pairs with the last click makes one double click, and no
/// third click pairs with the first.
///
/// The state holds a last click `first`, and shift is not held. A second
/// click follows: a press, and a release that is close to `first` in time
/// and place, the cursor being an I-beam at one of the two clicks. The
/// press emits nothing and the release emits the double click, after which
/// no last click is held. So whatever third click follows, wherever and
/// whenever, its release emits no double click.
pub proof fn lemma_double_click(
    state: GestureState,
    flags: HandlerFlags,
    config: GestureConfig,
    first: Click,
    second: (ScreenPoint, bool, ScreenPoint, bool, u64),
    third: (ScreenPoint, bool, ScreenPoint, bool, u64),
)
    requires
        !flags.blocks(),
        state.last_click == Some(first),
        !state.shift_held,
        pairs_with(first, second.2, second.4, second.1 || second.3),
    ensures
        ({
            let (s1, r1) = step(state, flags, config, Event::Press { at: second.0, ibeam: second.1 });
            let (s2, r2) = step(
                s1,
                flags,
                config,
                Event::Release { at: second.2, ibeam: second.3, now: second.4 },
            );
            let (s3, r3) = step(s2, flags, config, Event::Press { at: third.0, ibeam: third.1 });
            let (s4, r4) = step(
                s3,
                flags,
                config,
                Event::Release { at: third.2, ibeam: third.3, now: third.4 },
            );
            &&& r1.gesture is None
            &&& r2.gesture == Some(Gesture::DoubleClick)
            &&& s2.last_click is None
            &&& r3.gesture is None
            &&& r4.gesture is None
        }),
{
}

/// A press, a move beyond the drag distance and a release make one
/// drag-select and nothing else, whether shift is held or not.
///
/// The cursor is an I-beam at the press or at the release; without that the
/// drag is not taken for a selection of text and nothing is emitted.
pub proof fn lemma_drag_select(
    state: GestureState,
    flags: HandlerFlags,
    config: GestureConfig,
    press: (ScreenPoint, bool),
    to: ScreenPoint,
    release: (ScreenPoint, bool, u64),
)
    requires
        !flags.blocks(),
        farther(press.0, to, MIN_DRAG_DISTANCE as int),
        press.1 || release.1,
    ensures
        ({
            let (s1, r1) = step(state, flags, config, Event::Press { at: press.0, ibeam: press.1 });
            let (s2, r2) = step(s1, flags, config, Event::Move { to });
            let (s3, r3) = step(
                s2,
                flags,
                config,
                Event::Release { at: release.0, ibeam: release.1, now: release.2 },
            );
            &&& r1.gesture is None
            &&& r2.gesture is None
            &&& r3.gesture == Some(Gesture::DragSelect)
            &&& !s3.dragging
            &&& s3.last_click == state.last_click
        }),
{
}

/// A press that is held fires one long press, and one that is released or
/// dragged before the timer wakes fires none.
///
/// Long presses are enabled and the cursor is an I-beam at the press, so
/// the press starts a timer for the configured time. If the timer wakes
/// with nothing in between, the long press fires; if it woke once more, it
/// would not fire again, and the release that follows emits nothing. If the
/// button is released, or the pointer dragged, before the timer wakes, the
/// long press does not fire.
pub proof fn lemma_long_press(
    state: GestureState,
    flags: HandlerFlags,
    config: GestureConfig,
    at: ScreenPoint,
    to: ScreenPoint,
    release: (ScreenPoint, bool, u64),
)
    requires
        !flags.blocks(),
        config.long_press_enabled,
        farther(at, to, MIN_DRAG_DISTANCE as int),
    ensures
        ({
            let (pressed, r) = step(state, flags, config, Event::Press { at, ibeam: true });
            let up = Event::Release { at: release.0, ibeam: release.1, now: release.2 };
            let (held, fired) = on_wake(pressed, flags, pressed.epoch);
            let (released, _r) = step(pressed, flags, config, up);
            let (dragged, _m) = step(pressed, flags, config, Event::Move { to });
            &&& r.timer == Some(
                LongPressTimer { epoch: pressed.epoch, millis: config.long_press_millis },
            )
            &&& fired == Some(Gesture::LongPress)
            &&& on_wake(held, flags, pressed.epoch).1 is None
            &&& step(held, flags, config, up).1.gesture is None
            &&& on_wake(released, flags, pressed.epoch).1 is None
            &&& on_wake(dragged, flags, pressed.epoch).1 is None
        }),
{
}

/// A gesture comes from the release of the button, or from a timer, and
/// from nothing else; a timer is started by a press and by nothing else.
pub proof fn lemma_sources(state: GestureState, flags: HandlerFlags, config: GestureConfig, event: Event)
    ensures
        step(state, flags, config, event).1.gesture is Some ==> event is Release,
        step(state, flags, config, event).1.gesture != Some(Gesture::LongPress),
        step(state, flags, config, event).1.timer is Some ==> event is Press,
{
}

/// While a flag is set, no event changes the state or calls for anything,
/// and no timer fires.
pub proof fn lemma_blocked(state: GestureState, flags: HandlerFlags, config: GestureConfig, event: Event, epoch: u64)
    requires
        flags.blocks(),
    ensures
        step(state, flags, config, event) == (state, Reaction::nothing()),
        on_wake(state, flags, epoch) == (state, None::<Gesture>),
{
}

} // verus!
