//! What the native selection provider decides once the accessibility tree
//! has answered: which text counts as the selection, where its anchor lies
//! on the screen, whether the focused control takes text, and which range to
//! select after a paste.
//!
//! Selection rectangles are measured in thousandths of a pixel, so that the
//! fractions reported by the accessibility interfaces are kept without
//! floating point.

use crate::error::{AppError, ErrorKind, ErrorView};
use crate::text::{contains_sub, str_contains};
use std::collections::HashMap;
use vstd::prelude::*;

verus! {

/// How many units of a selection rectangle make one pixel.
pub const UNITS_PER_PIXEL: i64 = 1000;

/// A selection rectangle must be wider than this: one pixel.
pub const MIN_VALID_WIDTH: i64 = 1000;

/// A selection rectangle must be lower than this: a hundred pixels.
pub const MAX_VALID_HEIGHT: i64 = 100_000;

/// The origin of a selection rectangle must lie below this on both axes: ten
/// thousand pixels.
pub const MAX_VALID_COORDINATE: i64 = 10_000_000;

/// A point of the screen, in whole pixels of the platform's own coordinate
/// space.
#[derive(Clone, Copy, Debug, PartialEq, Eq, Structural)]
pub struct ScreenPoint {
    pub x: i32,
    pub y: i32,
}

/// A rectangle as an accessibility interface reports it, in thousandths of a
/// pixel. Nothing is known of its fields.
#[derive(Clone, Copy, Debug, PartialEq, Eq, Structural)]
pub struct Rect {
    pub x: i64,
    pub y: i64,
    pub width: i64,
    pub height: i64,
}

impl Rect {
    /// The sanity bounds of a selection rectangle: wider than one pixel,
    /// higher than nothing and lower than a hundred pixels, its origin not
    /// negative and below ten thousand pixels on both axes.
    pub open spec fn is_valid(self) -> bool {
        &&& self.width > MIN_VALID_WIDTH
        &&& 0 < self.height < MAX_VALID_HEIGHT
        &&& 0 <= self.x < MAX_VALID_COORDINATE
        &&& 0 <= self.y < MAX_VALID_COORDINATE
    }

    /// The bottom-right corner in whole pixels, fractions dropped. A
    /// coordinate beyond the range of `i32` is held at its largest value.
    pub open spec fn corner(self) -> ScreenPoint {
        ScreenPoint {
            x: pixel((self.x + self.width) / (UNITS_PER_PIXEL as int)),
            y: pixel((self.y + self.height) / (UNITS_PER_PIXEL as int)),
        }
    }

    /// Whether the rectangle is within the sanity bounds.
    pub fn check(&self) -> (b: bool)
        ensures
            b == self.is_valid(),
    {
        self.width > MIN_VALID_WIDTH && 0 < self.height && self.height < MAX_VALID_HEIGHT && 0
            <= self.x && self.x < MAX_VALID_COORDINATE && 0 <= self.y && self.y
            < MAX_VALID_COORDINATE
    }
}

/// `n` held within the range of `i32`.
pub open spec fn pixel(n: int) -> i32 {
    if n > i32::MAX {
        i32::MAX
    } else if n < i32::MIN {
        i32::MIN
    } else {
        n as i32
    }
}

/// The bounding box of a selected range of text. A value of this type has
/// passed the sanity bounds; a rectangle that fails them never becomes one.
#[derive(Clone, Copy, Debug)]
pub struct SelectionBounds {
    rect: Rect,
}

impl View for SelectionBounds {
    type V = Rect;

    closed spec fn view(&self) -> Rect {
        self.rect
    }
}

impl SelectionBounds {
    #[verifier::type_invariant]
    spec fn within_bounds(self) -> bool {
        self.rect.is_valid()
    }

    /// Accepts `rect` if it is within the sanity bounds and fails with
    /// `InvalidBounds` if it is not.
    pub fn new(rect: Rect) -> (r: Result<SelectionBounds, AppError>)
        ensures
            match r {
                Ok(bounds) => rect.is_valid() && bounds@ == rect,
                Err(e) => !rect.is_valid() && e@ == (ErrorView {
                    kind: ErrorKind::InvalidBounds,
                    message: "Invalid bounds coordinates"@,
                }),
            },
    {
        if rect.check() {
            Ok(SelectionBounds { rect })
        } else {
            Err(AppError::with_text(ErrorKind::InvalidBounds, "Invalid bounds coordinates"))
        }
    }

    /// The rectangle, which is within the sanity bounds.
    pub fn rect(&self) -> (rect: Rect)
        ensures
            rect == self@,
            rect.is_valid(),
    {
        proof {
            use_type_invariant(self);
        }
        self.rect
    }

    /// The bottom-right corner of the rectangle: where a window that
    /// follows the selection is anchored.
    pub fn bottom_right(&self) -> (p: ScreenPoint)
        ensures
            self@.is_valid(),
            p == self@.corner(),
            p.x >= 1,
            0 <= p.y <= 10_099,
    {
        proof {
            use_type_invariant(self);
        }
        let right: i128 = (self.rect.x as i128 + self.rect.width as i128) / (UNITS_PER_PIXEL as i128);
        let bottom: i64 = (self.rect.y + self.rect.height) / UNITS_PER_PIXEL;
        let x: i32 = if right > i32::MAX as i128 {
            i32::MAX
        } else {
            right as i32
        };
        ScreenPoint { x, y: bottom as i32 }
    }
}

/// The index of the last rectangle of `rects` that is within the sanity
/// bounds, or -1 if none is.
pub open spec fn last_valid(rects: Seq<Rect>) -> int
    decreases rects.len(),
{
    if rects.len() == 0 {
        -1
    } else if rects.last().is_valid() {
        rects.len() - 1
    } else {
        last_valid(rects.drop_last())
    }
}

/// `last_valid` picks a valid rectangle behind which no valid one follows,
/// and picks none only where there is none.
pub proof fn lemma_last_valid(rects: Seq<Rect>)
    ensures
        -1 <= last_valid(rects) < rects.len(),
        last_valid(rects) >= 0 ==> rects[last_valid(rects)].is_valid(),
        forall|j: int| last_valid(rects) < j < rects.len() ==> !(#[trigger] rects[j]).is_valid(),
    decreases rects.len(),
{
    if rects.len() > 0 && !rects.last().is_valid() {
        lemma_last_valid(rects.drop_last());
        assert forall|j: int| last_valid(rects) < j < rects.len() implies !(#[trigger] rects[
            j
        ]).is_valid() by {
            if j < rects.len() - 1 {
                assert(rects.drop_last()[j] == rects[j]);
            }
        }
    }
}

/// The anchor of the selection: the bottom-right corner of the last of the
/// rectangles that bound it which is within the sanity bounds. A selection
/// on one line has one rectangle, one over several lines has several, and
/// some of them may be degenerate.
///
/// Fails with `NoSelection` where there is no rectangle at all and with
/// `InvalidBounds` where none of them is within the bounds.
pub fn get_cursor_location(rects: &Vec<Rect>) -> (r: Result<ScreenPoint, AppError>)
    ensures
        match r {
            Ok(p) => last_valid(rects@) >= 0 && p == rects@[last_valid(rects@)].corner(),
            Err(e) => last_valid(rects@) == -1 && e@ == (if rects@.len() == 0 {
                ErrorView { kind: ErrorKind::NoSelection, message: "No bounding rectangles found"@ }
            } else {
                ErrorView { kind: ErrorKind::InvalidBounds, message: "No valid rectangle found"@ }
            }),
        },
{
    if rects.len() == 0 {
        return Err(AppError::with_text(ErrorKind::NoSelection, "No bounding rectangles found"));
    }
    let mut i: usize = rects.len();
    proof {
        assert(rects@.take(i as int) =~= rects@);
    }
    while i > 0
        invariant
            i <= rects@.len(),
            last_valid(rects@) == last_valid(rects@.take(i as int)),
        decreases i,
    {
        proof {
            assert(rects@.take(i as int).drop_last() =~= rects@.take(i - 1));
            assert(rects@.take(i as int).last() == rects@[i - 1]);
        }
        match SelectionBounds::new(rects[i - 1]) {
            Ok(bounds) => {
                return Ok(bounds.bottom_right());
            },
            Err(_) => {},
        }
        i -= 1;
    }
    Err(AppError::with_text(ErrorKind::InvalidBounds, "No valid rectangle found"))
}

/// Where to anchor a window: at the selection if its location was found,
/// else at the mouse pointer. A selection that cannot be located is no
/// error; the pointer is always a usable position.
pub fn anchor_or_cursor(location: Result<ScreenPoint, AppError>, cursor: ScreenPoint) -> (p:
    ScreenPoint)
    ensures
        p == match location {
            Ok(found) => found,
            Err(_) => cursor,
        },
{
    match location {
        Ok(found) => found,
        Err(_) => cursor,
    }
}

/// A range of text: the position of its first character and the number of
/// its characters.
#[derive(Clone, Copy, Debug, PartialEq, Eq, Structural)]
pub struct TextRange {
    pub location: i64,
    pub length: i64,
}

/// `n` held within the range of `i64`.
pub open spec fn index(n: int) -> i64 {
    if n > i64::MAX {
        i64::MAX
    } else if n < i64::MIN {
        i64::MIN
    } else {
        n as i64
    }
}

/// `n` held within the range of `i64`.
fn to_index(n: i128) -> (r: i64)
    ensures
        r == index(n as int),
{
    if n > i64::MAX as i128 {
        i64::MAX
    } else if n < i64::MIN as i128 {
        i64::MIN
    } else {
        n as i64
    }
}

/// The range of the last character of a selection, whose bounding rectangle
/// stands for the end of the selection. Fails with `NoSelection` where the
/// selection is empty.
pub fn last_character(selection: TextRange) -> (r: Result<TextRange, AppError>)
    ensures
        match r {
            Ok(range) => selection.length != 0 && range == (TextRange {
                location: index(selection.location + selection.length - 1),
                length: 1,
            }),
            Err(e) => selection.length == 0 && e@ == (ErrorView {
                kind: ErrorKind::NoSelection,
                message: "No text selected"@,
            }),
        },
{
    if selection.length == 0 {
        return Err(AppError::with_text(ErrorKind::NoSelection, "No text selected"));
    }
    let last: i128 = selection.location as i128 + selection.length as i128 - 1;
    Ok(TextRange { location: to_index(last), length: 1 })
}

/// The range to select so that exactly the last `chars` characters before
/// the end of the current selection are covered: it has `chars` characters
/// and begins that many before the end, but never before the start of the
/// text. It is what lets the user overwrite at once what was just pasted.
pub fn select_backward_chars(current: TextRange, chars: usize) -> (range: TextRange)
    ensures
        range.location == (if current.location + current.length - chars < 0 {
            0
        } else {
            index(current.location + current.length - chars)
        }),
        range.length == index(chars as int),
        range.location >= 0,
{
    let start: i128 = current.location as i128 + current.length as i128 - chars as i128;
    let location: i64 = if start < 0 {
        0
    } else {
        to_index(start)
    };
    TextRange { location, length: to_index(chars as i128) }
}

/// The accessibility role of a single-line text field.
pub const ROLE_TEXT_FIELD: &'static str = "AXTextField";

/// The accessibility role of a multi-line text area.
pub const ROLE_TEXT_AREA: &'static str = "AXTextArea";

/// The accessibility role of a combo box.
pub const ROLE_COMBO_BOX: &'static str = "AXComboBox";

/// The automation control type of an edit control.
pub const CONTROL_TYPE_EDIT: i32 = 50004;

/// The automation control type of a document.
pub const CONTROL_TYPE_DOCUMENT: i32 = 50030;

/// The legacy role of an editable text.
pub const LEGACY_ROLE_TEXT: u32 = 42;

/// The legacy role of a combo box.
pub const LEGACY_ROLE_COMBO_BOX: u32 = 46;

/// What the platform could tell of the focused element. Each signal is
/// `None` where the platform has no such attribute or the query failed.
#[derive(Clone, Debug)]
pub struct FocusSignals {
    /// The accessibility role.
    pub role: Option<String>,
    /// The automation control type.
    pub control_type: Option<i32>,
    /// The role by the legacy accessibility interface.
    pub legacy_role: Option<u32>,
    /// Whether the value of the element can be written.
    pub writable: Option<bool>,
}

/// Whether a role names a control that takes text: it holds the name of a
/// text field, a text area or a combo box.
pub open spec fn editable_role(role: Seq<char>) -> bool {
    ||| contains_sub(role, ROLE_TEXT_FIELD@)
    ||| contains_sub(role, ROLE_TEXT_AREA@)
    ||| contains_sub(role, ROLE_COMBO_BOX@)
}

/// Whether the focused element takes text, by any one of the signals.
pub open spec fn editable(signals: FocusSignals) -> bool {
    ||| signals.role matches Some(role) && editable_role(role@)
    ||| signals.control_type == Some(CONTROL_TYPE_EDIT)
    ||| signals.control_type == Some(CONTROL_TYPE_DOCUMENT)
    ||| signals.writable == Some(true)
    ||| signals.legacy_role == Some(LEGACY_ROLE_TEXT)
    ||| signals.legacy_role == Some(LEGACY_ROLE_COMBO_BOX)
}

/// Whether the focused element takes text. The signals are independent: a
/// control that answers one of them wrongly, or not at all, is still found
/// by another.
pub fn is_cursor_editable(signals: &FocusSignals) -> (b: bool)
    ensures
        b == editable(*signals),
{
    let by_role = match &signals.role {
        Some(role) => str_contains(role.as_str(), ROLE_TEXT_FIELD) || str_contains(
            role.as_str(),
            ROLE_TEXT_AREA,
        ) || str_contains(role.as_str(), ROLE_COMBO_BOX),
        None => false,
    };
    let by_type = match signals.control_type {
        Some(t) => t == CONTROL_TYPE_EDIT || t == CONTROL_TYPE_DOCUMENT,
        None => false,
    };
    let by_value = match signals.writable {
        Some(w) => w,
        None => false,
    };
    let by_legacy = match signals.legacy_role {
        Some(r) => r == LEGACY_ROLE_TEXT || r == LEGACY_ROLE_COMBO_BOX,
        None => false,
    };
    by_role || by_type || by_value || by_legacy
}

/// Whether a cursor with the given hot spot is taken for the I-beam of a
/// text field. The pointer itself cannot be compared across cursor themes;
/// the I-beams in use have their hot spot at (4, 9), (16, 16) or (12, 11).
pub fn is_ibeam_cursor(hot_spot: ScreenPoint) -> (b: bool)
    ensures
        b == (hot_spot == (ScreenPoint { x: 4, y: 9 }) || hot_spot == (ScreenPoint { x: 16, y: 16 })
            || hot_spot == (ScreenPoint { x: 12, y: 11 })),
{
    (hot_spot.x == 4 && hot_spot.y == 9) || (hot_spot.x == 16 && hot_spot.y == 16) || (hot_spot.x
        == 12 && hot_spot.y == 11)
}

/// The index of the first child that has selected text, or the number of
/// children if none has.
pub open spec fn first_with_text(children: Seq<Option<String>>) -> int
    decreases children.len(),
{
    if children.len() == 0 {
        0
    } else if children[0] is Some {
        0
    } else {
        1 + first_with_text(children.skip(1))
    }
}

/// The text that counts as the selection.
pub open spec fn selected_text(focused: Option<String>, children: Seq<Option<String>>) -> Seq<
    char,
> {
    match focused {
        Some(text) => text@,
        None => if first_with_text(children) < children.len() {
            children[first_with_text(children)]->0@
        } else {
            Seq::<char>::empty()
        },
    }
}

/// `first_with_text` picks a child with text before which none has any.
pub proof fn lemma_first_with_text(children: Seq<Option<String>>)
    ensures
        0 <= first_with_text(children) <= children.len(),
        first_with_text(children) < children.len() ==> children[first_with_text(children)] is Some,
        forall|j: int| 0 <= j < first_with_text(children) ==> (#[trigger] children[j]) is None,
    decreases children.len(),
{
    if children.len() > 0 && children[0] is None {
        let rest = children.skip(1);
        lemma_first_with_text(rest);
        assert forall|j: int| 0 <= j < first_with_text(children) implies (#[trigger] children[
            j
        ]) is None by {
            if j > 0 {
                assert(rest[j - 1] == children[j]);
            }
        }
    }
}

/// The selected text of the focused element: the selected-text attribute of
/// the element itself where it has one, else that of the first of its direct
/// children that has one, else the empty string. Finding nothing is no error.
pub fn get_selection(focused: Option<String>, children: Vec<Option<String>>) -> (text: String)
    ensures
        text@ == selected_text(focused, children@),
{
    if let Some(text) = focused {
        return text;
    }
    let ghost all = children@;
    let mut rest = children;
    let mut i: usize = 0;
    proof {
        assert(all.skip(0) =~= all);
    }
    while i < rest.len()
        invariant
            focused is None,
            all == children@,
            i <= all.len(),
            rest@.len() == all.len(),
            forall|j: int| i <= j < all.len() ==> rest@[j] == all[j],
            first_with_text(all) == i + first_with_text(all.skip(i as int)),
        decreases all.len() - i,
    {
        proof {
            assert(all.skip(i as int)[0] == all[i as int]);
            assert(all.skip(i as int).skip(1) =~= all.skip(i + 1));
        }
        if rest[i].is_some() {
            let found = rest.swap_remove(i);
            proof {
                assert(found == all[i as int]);
                assert(first_with_text(all.skip(i as int)) == 0);
            }
            return found.unwrap();
        }
        i += 1;
    }
    proof {
        assert(first_with_text(all.skip(i as int)) == 0);
    }
    String::new()
}

/// For how long a process counts as processed: five seconds, in
/// nanoseconds.
pub const PID_CACHE_EXPIRE_NANOS: u64 = 5_000_000_000;

/// The processes whose accessibility tree was switched on lately, each with
/// the time of that step on a monotonic clock, in nanoseconds. Switching the
/// tree on is costly, so it is not repeated for a process before the entry
/// has expired.
pub struct ProcessedPids {
    last: HashMap<i32, u64>,
}

impl View for ProcessedPids {
    type V = Map<i32, u64>;

    closed spec fn view(&self) -> Map<i32, u64> {
        self.last@
    }
}

/// Whether process `pid` was processed less than five seconds before `now`.
/// An entry from after `now` counts as made at `now`.
pub open spec fn recently_processed(processed: Map<i32, u64>, pid: i32, now: u64) -> bool {
    processed.contains_key(pid) && (now <= processed[pid] || now - processed[pid]
        < PID_CACHE_EXPIRE_NANOS)
}

impl ProcessedPids {
    /// No process has been processed yet.
    pub fn new() -> (p: ProcessedPids)
        ensures
            p@ == Map::<i32, u64>::empty(),
    {
        ProcessedPids { last: HashMap::new() }
    }

    /// Whether the step is to be skipped for process `pid` at time `now`.
    pub fn is_recent(&self, pid: i32, now: u64) -> (b: bool)
        ensures
            b == recently_processed(self@, pid, now),
    {
        broadcast use vstd::std_specs::hash::group_hash_axioms;

        match self.last.get(&pid) {
            Some(last) => now <= *last || now - *last < PID_CACHE_EXPIRE_NANOS,
            None => false,
        }
    }

    /// Notes that process `pid` was processed at time `now`.
    pub fn record(&mut self, pid: i32, now: u64)
        ensures
            final(self)@ == old(self)@.insert(pid, now),
            recently_processed(final(self)@, pid, now),
    {
        broadcast use vstd::std_specs::hash::group_hash_axioms;

        self.last.insert(pid, now);
    }
}

} // verus!
