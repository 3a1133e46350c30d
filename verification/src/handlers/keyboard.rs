//! The handler of the events of registered hot-keys.

use crate::flags::HandlerFlags;
use crate::handlers::mouse::SelectionEvent;
use crate::registry::ShortcutRegistry;
use vstd::prelude::*;
use vstd::string::StringExecFns;

verus! {

/// Whether a hot-key went down or up.
#[derive(Clone, Copy, Debug, PartialEq, Eq, Structural)]
pub enum ShortcutState {
    Pressed,
    Released,
}

/// The name under which the hot-key with identifier `id` is reported: the
/// shortcut string that is registered for it, or `Unknown` where none is.
pub open spec fn label_for(table: Map<u32, Seq<char>>, id: u32) -> Seq<char> {
    if table.contains_key(id) {
        table[id]
    } else {
        "Unknown"@
    }
}

/// Handles an event of the hot-key with identifier `id`.
///
/// The release of a hot-key calls for a capture of the selection, unless
/// handling is suspended or paused; its press calls for nothing. Where a
/// capture is called for, the name to report it under is returned.
pub fn handle_keyboard_event(
    registry: &ShortcutRegistry,
    flags: HandlerFlags,
    id: u32,
    state: ShortcutState,
) -> (trigger: Option<String>)
    ensures
        match trigger {
            Some(name) => state == ShortcutState::Released && !flags.blocks() && name@
                == label_for(registry@, id),
            None => state == ShortcutState::Pressed || flags.blocks(),
        },
{
    match state {
        ShortcutState::Pressed => None,
        ShortcutState::Released => {
            if flags.is_blocked() {
                None
            } else {
                match registry.get(id) {
                    Some(text) => Some(text),
                    None => Some(String::from_str("Unknown")),
                }
            }
        },
    }
}

/// The event to report for a hot-key, once the selection has been captured.
/// It is reported whatever the selection holds, an empty one too.
pub fn shortcut_event(trigger: String, selection: String) -> (event: SelectionEvent)
    ensures
        event.shortcut == trigger,
        event.selection == selection,
{
    SelectionEvent { shortcut: trigger, selection }
}

} // verus!
