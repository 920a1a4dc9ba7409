//! Settings for the background transparency grid.

use vstd::prelude::*;
use crate::config::color::Color;

verus! {

/// Configuration options for the background transparency grid.
#[derive(Clone, Copy, Debug)]
pub struct Grid {
    /// Size of background grid squares in pixels.
    pub size: u32,
    /// Color of the darker colored grid squares.
    pub color_dark: Color,
    /// Color of the lighter colored grid squares.
    pub color_light: Color,
}

impl Default for Grid {
    /// The default grid: 16-pixel squares in two shades of gray.
    fn default() -> (g: Self)
        ensures
            g.size == 16,
            g.color_dark@ == (0x40u8, 0x40u8, 0x40u8),
            g.color_light@ == (0x80u8, 0x80u8, 0x80u8),
    {
        Self {
            size: 16,
            color_dark: Color::from_rgb(0x40, 0x40, 0x40),
            color_light: Color::from_rgb(0x80, 0x80, 0x80),
        }
    }
}

} // verus!
