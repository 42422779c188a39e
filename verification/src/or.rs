//! The [`Or`] combinator.

use vstd::prelude::*;

verus! {

/// Two values combined by or-ing: the left is consulted first.
pub struct Or<T, U> {
    left: T,
    right: U,
}

impl<T, U> Or<T, U> {
    /// The left-hand side.
    pub closed spec fn spec_left(&self) -> T {
        self.left
    }

    /// The right-hand side.
    pub closed spec fn spec_right(&self) -> U {
        self.right
    }

    /// Combine two values.
    pub fn new(left: T, right: U) -> (r: Self)
        ensures
            r.spec_left() == left,
            r.spec_right() == right,
    {
        Or { left, right }
    }

    /// A reference to the first, or left-hand side.
    pub fn left(&self) -> (r: &T)
        ensures
            *r == self.spec_left(),
    {
        &self.left
    }

    /// A mutable reference to the first, or left-hand side.
    pub fn left_mut(&mut self) -> (r: &mut T)
        ensures
            *r == old(self).spec_left(),
            final(self).spec_left() == *final(r),
            final(self).spec_right() == old(self).spec_right(),
    {
        &mut self.left
    }

    /// A reference to the second, or right-hand side.
    pub fn right(&self) -> (r: &U)
        ensures
            *r == self.spec_right(),
    {
        &self.right
    }

    /// A mutable reference to the second, or right-hand side.
    pub fn right_mut(&mut self) -> (r: &mut U)
        ensures
            *r == old(self).spec_right(),
            final(self).spec_right() == *final(r),
            final(self).spec_left() == old(self).spec_left(),
    {
        &mut self.right
    }

    /// Split the combined values.
    pub fn into_inner(self) -> (r: (T, U))
        ensures
            r == (self.spec_left(), self.spec_right()),
    {
        (self.left, self.right)
    }
}

} // verus!
