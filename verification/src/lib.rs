//! Core of a minimalist single-window image viewer.
//!
//! The library owns the viewer's whole decision logic: the viewport state
//! (image placement and exponential zoom under clamping), the resolution of
//! input events into commands through a configurable keymap, the view
//! controller with its running and dirty flags, the checkerboard background
//! grid, and command-line argument parsing. A thin unverified frontend feeds
//! it already-parsed events together with the current canvas size and carries
//! out the draw instructions it returns.

pub mod cli;
pub mod config;
pub mod geometry;
pub mod gui;
