//! Targets receive diagnostic events, like emitters, but can't report
//! whether a flush completed.

use vstd::prelude::*;
use core::time::Duration;
use crate::empty::Empty;
use crate::duration::{duration_half, nanos_of};
use crate::event::Event;

verus! {

/// A destination for diagnostic events.
pub trait Target {
    /// Receive an event.
    fn event<P>(&self, evt: &Event<'_, P>);

    /// Block for up to `timeout`, waiting for all events received so far to be processed.
    fn blocking_flush(&self, timeout: Duration);

    /// Send events to both this target and `other`.
    fn and<U>(self, other: U) -> (r: And<Self, U>)
        where
            Self: Sized,
        ensures
            r.spec_lhs() == self,
            r.spec_rhs() == other,
    {
        And { lhs: self, rhs: other }
    }

    /// Borrow this target.
    fn by_ref(&self) -> (r: ByRef<'_, Self>)
        where
            Self: Sized,
        ensures
            *r.spec_inner() == *self,
    {
        ByRef(self)
    }
}

impl<'a, T: Target> Target for &'a T {
    fn event<P>(&self, evt: &Event<'_, P>) {
        (**self).event(evt)
    }

    /// Flush the referenced target.
    fn blocking_flush(&self, timeout: Duration)
        ensures
            call_ensures(T::blocking_flush, (*self, timeout), ()),
    {
        (**self).blocking_flush(timeout)
    }
}

impl<T: Target> Target for Option<T> {
    /// Forward the event to the target, if there is one.
    fn event<P>(&self, evt: &Event<'_, P>) {
        match self {
            Some(target) => target.event(evt),
            None => Empty.event(evt),
        }
    }

    /// Flush the target, if there is one.
    fn blocking_flush(&self, timeout: Duration)
        ensures
            self matches Some(target) ==> call_ensures(T::blocking_flush, (&target, timeout), ()),
    {
        match self {
            Some(target) => target.blocking_flush(timeout),
            None => Empty.blocking_flush(timeout),
        }
    }
}

impl Target for Empty {
    /// Discard the event.
    fn event<P>(&self, evt: &Event<'_, P>) {
    }

    /// There's nothing to flush.
    fn blocking_flush(&self, timeout: Duration) {
    }
}

/// A target from a function.
pub struct FromFn<F>(F);

impl<F> FromFn<F> {
    /// The wrapped function.
    pub closed spec fn spec_inner(&self) -> F {
        self.0
    }
}

/// Wrap a function as a target.
pub fn from_fn<F>(f: F) -> (r: FromFn<F>)
    ensures
        r.spec_inner() == f,
{
    FromFn(f)
}

/// Two targets that each receive every event.
pub struct And<T, U> {
    lhs: T,
    rhs: U,
}

impl<T, U> And<T, U> {
    /// The target that receives events first.
    pub closed spec fn spec_lhs(&self) -> T {
        self.lhs
    }

    /// The target that receives events second.
    pub closed spec fn spec_rhs(&self) -> U {
        self.rhs
    }
}

impl<T: Target, U: Target> Target for And<T, U> {
    /// Send the event to both targets, left first.
    fn event<P>(&self, evt: &Event<'_, P>) {
        self.lhs.event(evt);
        self.rhs.event(evt);
    }

    /// Flush both targets, giving each half the timeout.
    fn blocking_flush(&self, timeout: Duration)
        ensures
            exists|half: Duration|
                #[trigger] call_ensures(T::blocking_flush, (&self.spec_lhs(), half), ()) && call_ensures(
                    U::blocking_flush,
                    (&self.spec_rhs(), half),
                    (),
                ) && nanos_of(half) == nanos_of(timeout) / 2,
    {
        let half = duration_half(timeout);
        self.lhs.blocking_flush(half);
        self.rhs.blocking_flush(half);
        assert(call_ensures(T::blocking_flush, (&self.spec_lhs(), half), ()));
    }
}

/// A target used through a borrow.
pub struct ByRef<'a, T>(&'a T);

impl<'a, T> ByRef<'a, T> {
    /// The borrowed target.
    pub closed spec fn spec_inner(&self) -> &'a T {
        self.0
    }
}

impl<'a, T: Target> Target for ByRef<'a, T> {
    fn event<P>(&self, evt: &Event<'_, P>) {
        self.0.event(evt)
    }

    /// Flush the borrowed target.
    fn blocking_flush(&self, timeout: Duration)
        ensures
            call_ensures(T::blocking_flush, (self.spec_inner(), timeout), ()),
    {
        self.0.blocking_flush(timeout)
    }
}

} // verus!
