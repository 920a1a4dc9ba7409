//! Configuration data consumed by the viewer core.
//!
//! The values are produced outside the library (defaults overlaid with a
//! user's configuration file); the library only consumes them.

use vstd::prelude::*;

pub mod action;
pub mod color;
pub mod grid;
pub mod keymap;
pub mod keys;

pub use action::Action;
pub use color::Color;
pub use grid::Grid;
pub use keymap::KeyMap;
pub use keys::KeyBind;

verus! {

/// The viewer's settings: the shift distance, the background grid, and the
/// key bindings.
#[derive(Clone, Debug)]
pub struct Config {
    /// Distance in pixels the shift actions move the image.
    pub shift_amount: u16,
    /// Background transparency grid settings.
    pub grid: Grid,
    /// Keybind definitions.
    pub binds: KeyMap,
}

} // verus!
