//! The handlers of raw input: mouse and keyboard events from the global
//! hook, and the events of registered hot-keys.

pub mod keyboard;
pub mod mouse;
