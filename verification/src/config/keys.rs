//! A name for a key on the keyboard.

use vstd::prelude::*;

verus! {

/// A key a command can be bound to, named by the backend's numeric key
/// identifier. The library only compares these values; what number stands
/// for which physical key is the backend's affair.
#[derive(Clone, Copy, Debug, PartialEq, Eq, Hash, Structural)]
pub struct KeyBind(pub i32);

} // verus!
