//! Filters limit the volume of diagnostic events by deciding which to keep.

use vstd::prelude::*;
use crate::and::And;
use crate::empty::Empty;
use crate::event::Event;
use crate::or::Or;

verus! {

/// A filter over events.
pub trait Filter<P> {
    /// Whether the filter keeps an event.
    spec fn spec_matches(&self, evt: Event<'_, P>) -> bool;

    /// Evaluate an event against the filter: `true` if it passes.
    fn matches(&self, evt: &Event<'_, P>) -> (r: bool)
        ensures
            r == self.spec_matches(*evt),
    ;
}

impl<P, F: Filter<P>> Filter<P> for Option<F> {
    /// No filter keeps every event.
    open spec fn spec_matches(&self, evt: Event<'_, P>) -> bool {
        match self {
            Some(filter) => filter.spec_matches(evt),
            None => true,
        }
    }

    fn matches(&self, evt: &Event<'_, P>) -> (r: bool) {
        match self {
            Some(filter) => filter.matches(evt),
            None => Empty.matches(evt),
        }
    }
}

impl<P> Filter<P> for Empty {
    /// The empty filter keeps every event.
    open spec fn spec_matches(&self, evt: Event<'_, P>) -> bool {
        true
    }

    fn matches(&self, evt: &Event<'_, P>) -> (r: bool) {
        true
    }
}

impl<P, T: Filter<P>, U: Filter<P>> Filter<P> for And<T, U> {
    /// Both filters keep the event; the right one is consulted only if the left keeps it.
    open spec fn spec_matches(&self, evt: Event<'_, P>) -> bool {
        self.spec_left().spec_matches(evt) && self.spec_right().spec_matches(evt)
    }

    fn matches(&self, evt: &Event<'_, P>) -> (r: bool) {
        self.left().matches(evt) && self.right().matches(evt)
    }
}

impl<P, T: Filter<P>, U: Filter<P>> Filter<P> for Or<T, U> {
    /// Either filter keeps the event; the right one is consulted only if the left doesn't.
    open spec fn spec_matches(&self, evt: Event<'_, P>) -> bool {
        self.spec_left().spec_matches(evt) || self.spec_right().spec_matches(evt)
    }

    fn matches(&self, evt: &Event<'_, P>) -> (r: bool) {
        self.left().matches(evt) || self.right().matches(evt)
    }
}

/// A filter from a function.
pub struct FromFn<F>(F);

impl<F> FromFn<F> {
    /// Wrap the given filter function.
    pub fn new(filter: F) -> (r: FromFn<F>)
        ensures
            r.spec_inner() == filter,
    {
        FromFn(filter)
    }

    /// The wrapped function.
    pub closed spec fn spec_inner(&self) -> F {
        self.0
    }
}

/// An emitter protected by a filter: only events the filter keeps are emitted.
pub struct FilteredEmitter<F, E> {
    filter: F,
    emitter: E,
}

impl<F, E> FilteredEmitter<F, E> {
    /// The filter.
    pub closed spec fn spec_filter(&self) -> F {
        self.filter
    }

    /// The emitter.
    pub closed spec fn spec_emitter(&self) -> E {
        self.emitter
    }

    /// Create a filtered emitter with the given filter and emitter.
    pub fn new(filter: F, emitter: E) -> (r: Self)
        ensures
            r.spec_filter() == filter,
            r.spec_emitter() == emitter,
    {
        FilteredEmitter { filter, emitter }
    }

    /// The filter.
    pub fn filter(&self) -> (r: &F)
        ensures
            *r == self.spec_filter(),
    {
        &self.filter
    }

    /// The emitter.
    pub fn emitter(&self) -> (r: &E)
        ensures
            *r == self.spec_emitter(),
    {
        &self.emitter
    }
}

/// Combine two filters: an event is kept if both keep it.
pub fn and_when<T, U>(filter: T, other: U) -> (r: And<T, U>)
    ensures
        r.spec_left() == filter,
        r.spec_right() == other,
{
    And::new(filter, other)
}

/// Combine two filters: an event is kept if either keeps it.
pub fn or_when<T, U>(filter: T, other: U) -> (r: Or<T, U>)
    ensures
        r.spec_left() == filter,
        r.spec_right() == other,
{
    Or::new(filter, other)
}

/// Wrap an emitter in a filter: only events that pass the filter are emitted.
pub fn wrap<F, E>(filter: F, emitter: E) -> (r: FilteredEmitter<F, E>)
    ensures
        r.spec_filter() == filter,
        r.spec_emitter() == emitter,
{
    FilteredEmitter::new(filter, emitter)
}

/// A filter that keeps every event.
pub fn always() -> (r: Empty)
    ensures
        forall|evt: Event<'static, Empty>| #[trigger] Filter::<Empty>::spec_matches(&r, evt),
{
    Empty
}

} // verus!
