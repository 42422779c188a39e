//! A value used through a borrow.

use vstd::prelude::*;

verus! {

/// A borrowed value.
pub struct ByRef<'a, T>(&'a T);

impl<'a, T> ByRef<'a, T> {
    /// Borrow a value.
    pub fn new(value: &'a T) -> (r: Self)
        ensures
            *r.spec_inner() == *value,
    {
        ByRef(value)
    }

    /// The borrowed value.
    pub closed spec fn spec_inner(&self) -> &'a T {
        self.0
    }

    /// The borrowed value.
    pub fn inner(&self) -> (r: &'a T)
        ensures
            *r == *self.spec_inner(),
    {
        self.0
    }
}

} // verus!
