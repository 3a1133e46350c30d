//! The two process-wide flags that silence the gesture and shortcut
//! handlers, and the token that holds one of them for a scope.

use vstd::prelude::*;

verus! {

/// The suspend and pause flags.
///
/// `suspended` is set for the short time in which the program itself
/// simulates input, so that its own key strokes are not taken for the
/// user's. `paused` is set on request and stays until handling is resumed.
/// The two are independent, and either one silences every handler.
#[derive(Clone, Copy, Debug, PartialEq, Eq, Structural)]
pub struct HandlerFlags {
    pub suspended: bool,
    pub paused: bool,
}

impl HandlerFlags {
    /// Whether a handler has to return at once.
    pub open spec fn blocks(self) -> bool {
        self.suspended || self.paused
    }

    /// Both flags clear: the state at start-up.
    pub fn new() -> (flags: HandlerFlags)
        ensures
            flags == (HandlerFlags { suspended: false, paused: false }),
    {
        HandlerFlags { suspended: false, paused: false }
    }

    /// Whether a handler has to return at once.
    pub fn is_blocked(&self) -> (b: bool)
        ensures
            b == self.blocks(),
    {
        self.suspended || self.paused
    }
}

/// The token of a suspension. It is handed out by
/// [`ShortcutHandlerGuard::suspend`] and taken back by
/// [`ShortcutHandlerGuard::release`]; whoever holds it owes the release on
/// every path out of the scope, an early return and an error included.
#[must_use]
#[derive(Debug)]
pub struct ShortcutHandlerGuard(());

impl ShortcutHandlerGuard {
    /// Sets the suspend flag and hands out the token. The pause flag is left
    /// as it is.
    pub fn suspend(flags: &mut HandlerFlags) -> (guard: ShortcutHandlerGuard)
        ensures
            *final(flags) == (HandlerFlags { suspended: true, paused: old(flags).paused }),
    {
        flags.suspended = true;
        ShortcutHandlerGuard(())
    }

    /// Takes the token back and clears the suspend flag. The pause flag is
    /// left as it is.
    pub fn release(self, flags: &mut HandlerFlags)
        ensures
            *final(flags) == (HandlerFlags { suspended: false, paused: old(flags).paused }),
    {
        flags.suspended = false;
    }
}

} // verus!
