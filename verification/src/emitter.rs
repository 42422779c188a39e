//! Emitters receive diagnostic events and forward them to some outside observer.
//!
//! Emitters are asynchronous: emitted events are not guaranteed to have been
//! fully processed until a call to [`Emitter::blocking_flush`].

use vstd::prelude::*;
use core::time::Duration;
use crate::and::And;
use crate::duration::{duration_half, nanos_of};
use crate::empty::Empty;
use crate::event::Event;
use crate::filter::{Filter, FilteredEmitter};

verus! {

/// An asynchronous destination for diagnostic events.
pub trait Emitter<P> {
    /// Emit an event.
    fn emit(&self, evt: &Event<'_, P>);

    /// Block for up to `timeout`, waiting for all events emitted so far to be
    /// fully processed: `true` if the flush completed, `false` if it timed out.
    fn blocking_flush(&self, timeout: Duration) -> bool;
}

impl<'e, P, T: Emitter<P>> Emitter<P> for &'e T {
    /// Emit the event to the referenced emitter.
    fn emit(&self, evt: &Event<'_, P>)
        ensures
            call_ensures(<T as Emitter<P>>::emit, (*self, evt), ()),
    {
        (**self).emit(evt)
    }

    /// Flush the referenced emitter.
    fn blocking_flush(&self, timeout: Duration) -> (r: bool)
        ensures
            call_ensures(<T as Emitter<P>>::blocking_flush, (*self, timeout), r),
    {
        (**self).blocking_flush(timeout)
    }
}

impl<P, T: Emitter<P>> Emitter<P> for Option<T> {
    /// Emit the event to the emitter, if there is one.
    fn emit(&self, evt: &Event<'_, P>)
        ensures
            self matches Some(emitter) ==> call_ensures(<T as Emitter<P>>::emit, (&emitter, evt), ()),
    {
        match self {
            Some(target) => target.emit(evt),
            None => {},
        }
    }

    /// Flush the emitter if there is one; with none, there's nothing to wait for.
    fn blocking_flush(&self, timeout: Duration) -> (r: bool)
        ensures
            match self {
                Some(emitter) => call_ensures(<T as Emitter<P>>::blocking_flush, (emitter, timeout), r),
                None => r,
            },
    {
        match self {
            Some(target) => target.blocking_flush(timeout),
            None => true,
        }
    }
}

impl<P> Emitter<P> for Empty {
    /// Discard the event.
    fn emit(&self, evt: &Event<'_, P>) {
    }

    /// There's nothing to flush.
    fn blocking_flush(&self, timeout: Duration) -> (r: bool) {
        true
    }
}

impl<P, T: Emitter<P>, U: Emitter<P>> Emitter<P> for And<T, U> {
    /// Emit the event to both emitters, left first.
    fn emit(&self, evt: &Event<'_, P>)
        ensures
            call_ensures(<T as Emitter<P>>::emit, (&self.spec_left(), evt), ()),
            call_ensures(<U as Emitter<P>>::emit, (&self.spec_right(), evt), ()),
    {
        self.left().emit(evt);
        self.right().emit(evt);
    }

    /// Flush both emitters, giving each half the timeout; both are flushed
    /// even when the first times out.
    fn blocking_flush(&self, timeout: Duration) -> (r: bool)
        ensures
            exists|half: Duration, lhs: bool, rhs: bool|
                #[trigger] call_ensures(<T as Emitter<P>>::blocking_flush, (&self.spec_left(), half), lhs)
                    && #[trigger] call_ensures(<U as Emitter<P>>::blocking_flush, (&self.spec_right(), half), rhs)
                    && nanos_of(half) == nanos_of(timeout) / 2 && r == (lhs && rhs),
    {
        let timeout = duration_half(timeout);
        let lhs = self.left().blocking_flush(timeout);
        let rhs = self.right().blocking_flush(timeout);
        lhs && rhs
    }
}

impl<P, F: Filter<P>, E: Emitter<P>> Emitter<P> for FilteredEmitter<F, E> {
    /// Emit the event if the filter keeps it.
    fn emit(&self, evt: &Event<'_, P>)
        ensures
            self.spec_filter().spec_matches(*evt) ==> call_ensures(
                <E as Emitter<P>>::emit,
                (&self.spec_emitter(), evt),
                (),
            ),
    {
        if self.filter().matches(evt) {
            self.emitter().emit(evt);
        }
    }

    /// Flush the wrapped emitter.
    fn blocking_flush(&self, timeout: Duration) -> (r: bool)
        ensures
            call_ensures(<E as Emitter<P>>::blocking_flush, (&self.spec_emitter(), timeout), r),
    {
        self.emitter().blocking_flush(timeout)
    }
}

/// An emitter from a function.
pub struct FromFn<F>(F);

impl<F> FromFn<F> {
    /// Wrap the given emitter function.
    pub fn new(emitter: F) -> (r: FromFn<F>)
        ensures
            r.spec_inner() == emitter,
    {
        FromFn(emitter)
    }

    /// The wrapped function.
    pub closed spec fn spec_inner(&self) -> F {
        self.0
    }
}

/// Emit events to both `emitter` and `other`.
pub fn and_to<T, U>(emitter: T, other: U) -> (r: And<T, U>)
    ensures
        r.spec_left() == emitter,
        r.spec_right() == other,
{
    And::new(emitter, other)
}

} // verus!
