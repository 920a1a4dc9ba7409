//! The viewer's interactive core: viewport state, event handling, and the
//! draw instructions handed to the rendering backend.

pub mod appview;
pub mod background;
pub mod event;
pub mod viewport;
