//! Entering text into the focused control and selecting it at once, so that
//! the user can overwrite what was entered.
//!
//! The text goes in by way of the clipboard and a paste key stroke. The
//! selection is made through the accessibility interface where that works,
//! and by key strokes for a short text where it does not.

use crate::error::AppError;
use vstd::prelude::*;
use vstd::string::StrSliceExecFns;

verus! {

/// The longest text that is selected by key strokes, in characters.
pub const MAX_KEYBOARD_SELECTION: usize = 50;

/// How a text is to be entered.
#[derive(Clone, Copy, Debug, PartialEq, Eq, Structural)]
pub struct EnterPlan {
    /// The number of characters of the text, which is the number of
    /// characters to select afterwards.
    pub chars: usize,
    /// Whether the clipboard is backed up before and restored after. If not,
    /// the text stays on the clipboard.
    pub restore_clipboard: bool,
}

/// Plans the entering of `text`; `clipboard` says whether the text is to
/// stay on the clipboard, which it does not unless asked for. An empty text
/// is not entered at all.
pub fn enter_text(text: &str, clipboard: Option<bool>) -> (plan: Option<EnterPlan>)
    ensures
        match plan {
            Some(p) => text@.len() > 0 && p.chars == text@.len() && p.restore_clipboard == (
            clipboard != Some(true)),
            None => text@.len() == 0,
        },
{
    if text.is_empty() {
        return None;
    }
    let keep = match clipboard {
        Some(keep) => keep,
        None => false,
    };
    Some(EnterPlan { chars: text.unicode_len(), restore_clipboard: !keep })
}

/// How many times the cursor is to be moved left with shift held, so as to
/// select the text that was entered: as many times as the text has
/// characters, if the selection through the accessibility interface has
/// failed and the text is short enough. Otherwise there is nothing to do.
pub fn keyboard_selection(native: &Result<(), AppError>, chars: usize) -> (steps: Option<usize>)
    ensures
        steps == (if native is Err && chars <= MAX_KEYBOARD_SELECTION {
            Some(chars)
        } else {
            None
        }),
{
    match native {
        Ok(_) => None,
        Err(_) => if chars <= MAX_KEYBOARD_SELECTION {
            Some(chars)
        } else {
            None
        },
    }
}

} // verus!
