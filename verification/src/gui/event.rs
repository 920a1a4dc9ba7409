//! Input events as the core sees them.
//!
//! The windowing backend translates its own event values into this type;
//! the core never touches the backend's representation.

use vstd::prelude::*;
use crate::config::keys::KeyBind;

verus! {

/// An already-parsed input event.
#[derive(Clone, Copy, Debug)]
pub enum Event {
    /// The session was asked to end from outside (window closed, signal).
    Quit,
    /// The window contents were exposed and must be redrawn.
    WindowExposed,
    /// A key was pressed; the backend may not know a name for every key.
    KeyDown { keycode: Option<KeyBind> },
    /// The pointer moved by `(xrel, yrel)`, with or without the primary
    /// button held.
    MouseMotion { left_held: bool, xrel: i32, yrel: i32 },
    /// Any other event; the core ignores it.
    Other,
}

} // verus!
