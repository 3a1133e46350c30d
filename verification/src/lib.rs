//! Selection capture and input-gesture arbitration for a system-wide text
//! assistant.
//!
//! The crate holds the rules that decide *when* the text selected in a
//! foreign application is captured and *how* the capture proceeds: shortcut
//! strings and the registry of registered hot-keys, the suspend and pause
//! flags, the classification of raw mouse and keyboard events into gestures,
//! the transactional use of the clipboard, the adaptive timeout of the
//! clipboard fallback, the sanity checks on selection geometry and the
//! blacklist of applications and web sites.
//!
//! Nothing here touches the operating system. Every function works on plain
//! values and says in its contract what it returns; the caller performs the
//! input and output that the returned actions ask for.

pub mod clipboard;
pub mod error;
pub mod flags;
pub mod handlers;
pub mod identifier;
pub mod keys;
pub mod platform;
pub mod registry;
pub mod selection;
pub mod shortcut;
pub mod text;
pub mod typer;
