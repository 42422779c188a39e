//! A value that behaves like a default, empty, null value: an empty set of
//! properties, an emitter that discards events, a filter that matches every
//! event, a clock that can't be read and an id generator that produces none.

use vstd::prelude::*;

verus! {

/// A type that behaves like a default, empty, null value.
#[derive(Debug, Clone, Copy)]
pub struct Empty;

impl Default for Empty {
    fn default() -> (r: Empty)
        ensures
            r == Empty,
    {
        Empty
    }
}

} // verus!
