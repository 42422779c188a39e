//! Runtimes combine components into an encapsulated diagnostic pipeline:
//! an emitter to receive events, a filter to limit their volume, a context,
//! a clock to timestamp events and a source of randomness for identifiers.

use vstd::prelude::*;
use crate::and::And;
use crate::clock::Clock;
use crate::ctxt::Ctxt;
use crate::emitter::Emitter;
use crate::empty::Empty;
use crate::event::Event;
use crate::extent::{ExtentView, ToExtent};
use crate::filter::Filter;
use crate::timestamp::Timestamp;

verus! {

/// A diagnostic pipeline: an emitter, a filter, a context, a clock and a
/// source of randomness, set like a builder or all at once.
pub struct Runtime<TEmitter = Empty, TFilter = Empty, TCtxt = Empty, TClock = Empty, TRng = Empty> {
    emitter: TEmitter,
    filter: TFilter,
    ctxt: TCtxt,
    clock: TClock,
    rng: TRng,
}

impl Runtime {
    /// A runtime whose components are all empty.
    pub fn new() -> (r: Runtime)
        ensures
            r.spec_emitter() == Empty,
            r.spec_filter() == Empty,
            r.spec_ctxt() == Empty,
            r.spec_clock() == Empty,
            r.spec_rng() == Empty,
    {
        Runtime { emitter: Empty, filter: Empty, ctxt: Empty, clock: Empty, rng: Empty }
    }
}

impl Default for Runtime {
    /// A runtime whose components are all empty.
    fn default() -> (r: Self)
        ensures
            r.spec_emitter() == Empty,
            r.spec_filter() == Empty,
            r.spec_ctxt() == Empty,
            r.spec_clock() == Empty,
            r.spec_rng() == Empty,
    {
        Runtime::new()
    }
}

impl<TEmitter, TFilter, TCtxt, TClock, TRng> Runtime<TEmitter, TFilter, TCtxt, TClock, TRng> {
    /// The component that is an emitter to receive events.
    pub closed spec fn spec_emitter(&self) -> TEmitter {
        self.emitter
    }

    /// The component that is a filter to limit the events emitted.
    pub closed spec fn spec_filter(&self) -> TFilter {
        self.filter
    }

    /// The component that is a context to capture ambient state.
    pub closed spec fn spec_ctxt(&self) -> TCtxt {
        self.ctxt
    }

    /// The component that is a clock to timestamp events.
    pub closed spec fn spec_clock(&self) -> TClock {
        self.clock
    }

    /// The component that is a source of randomness for identifiers.
    pub closed spec fn spec_rng(&self) -> TRng {
        self.rng
    }

    /// Create a value with the given components.
    pub fn build(emitter: TEmitter, filter: TFilter, ctxt: TCtxt, clock: TClock, rng: TRng) -> (r: Self)
        ensures
            r.spec_emitter() == emitter,
            r.spec_filter() == filter,
            r.spec_ctxt() == ctxt,
            r.spec_clock() == clock,
            r.spec_rng() == rng,
    {
        Runtime { emitter, filter, ctxt, clock, rng }
    }

    /// The component that is an emitter to receive events.
    pub fn emitter(&self) -> (r: &TEmitter)
        ensures
            *r == self.spec_emitter(),
    {
        &self.emitter
    }

    /// Replace the component that is an emitter to receive events.
    pub fn with_emitter<U>(self, emitter: U) -> (r: Runtime<U, TFilter, TCtxt, TClock, TRng>)
        ensures
            r.spec_emitter() == emitter,
            r.spec_filter() == self.spec_filter(),
            r.spec_ctxt() == self.spec_ctxt(),
            r.spec_clock() == self.spec_clock(),
            r.spec_rng() == self.spec_rng(),
    {
        Runtime { emitter, filter: self.filter, ctxt: self.ctxt, clock: self.clock, rng: self.rng }
    }

    /// Map the component that is an emitter to receive events to a new value.
    pub fn map_emitter<U, F: FnOnce(TEmitter) -> U>(self, emitter: F) -> (r: Runtime<U, TFilter, TCtxt, TClock, TRng>)
        requires
            emitter.requires((self.spec_emitter(),)),
        ensures
            emitter.ensures((self.spec_emitter(),), r.spec_emitter()),
            r.spec_filter() == self.spec_filter(),
            r.spec_ctxt() == self.spec_ctxt(),
            r.spec_clock() == self.spec_clock(),
            r.spec_rng() == self.spec_rng(),
    {
        Runtime { emitter: emitter(self.emitter), filter: self.filter, ctxt: self.ctxt, clock: self.clock, rng: self.rng }
    }

    /// The component that is a filter to limit the events emitted.
    pub fn filter(&self) -> (r: &TFilter)
        ensures
            *r == self.spec_filter(),
    {
        &self.filter
    }

    /// Replace the component that is a filter to limit the events emitted.
    pub fn with_filter<U>(self, filter: U) -> (r: Runtime<TEmitter, U, TCtxt, TClock, TRng>)
        ensures
            r.spec_filter() == filter,
            r.spec_emitter() == self.spec_emitter(),
            r.spec_ctxt() == self.spec_ctxt(),
            r.spec_clock() == self.spec_clock(),
            r.spec_rng() == self.spec_rng(),
    {
        Runtime { emitter: self.emitter, filter, ctxt: self.ctxt, clock: self.clock, rng: self.rng }
    }

    /// Map the component that is a filter to limit the events emitted to a new value.
    pub fn map_filter<U, F: FnOnce(TFilter) -> U>(self, filter: F) -> (r: Runtime<TEmitter, U, TCtxt, TClock, TRng>)
        requires
            filter.requires((self.spec_filter(),)),
        ensures
            filter.ensures((self.spec_filter(),), r.spec_filter()),
            r.spec_emitter() == self.spec_emitter(),
            r.spec_ctxt() == self.spec_ctxt(),
            r.spec_clock() == self.spec_clock(),
            r.spec_rng() == self.spec_rng(),
    {
        Runtime { emitter: self.emitter, filter: filter(self.filter), ctxt: self.ctxt, clock: self.clock, rng: self.rng }
    }

    /// The component that is a context to capture ambient state.
    pub fn ctxt(&self) -> (r: &TCtxt)
        ensures
            *r == self.spec_ctxt(),
    {
        &self.ctxt
    }

    /// Replace the component that is a context to capture ambient state.
    pub fn with_ctxt<U>(self, ctxt: U) -> (r: Runtime<TEmitter, TFilter, U, TClock, TRng>)
        ensures
            r.spec_ctxt() == ctxt,
            r.spec_emitter() == self.spec_emitter(),
            r.spec_filter() == self.spec_filter(),
            r.spec_clock() == self.spec_clock(),
            r.spec_rng() == self.spec_rng(),
    {
        Runtime { emitter: self.emitter, filter: self.filter, ctxt, clock: self.clock, rng: self.rng }
    }

    /// Map the component that is a context to capture ambient state to a new value.
    pub fn map_ctxt<U, F: FnOnce(TCtxt) -> U>(self, ctxt: F) -> (r: Runtime<TEmitter, TFilter, U, TClock, TRng>)
        requires
            ctxt.requires((self.spec_ctxt(),)),
        ensures
            ctxt.ensures((self.spec_ctxt(),), r.spec_ctxt()),
            r.spec_emitter() == self.spec_emitter(),
            r.spec_filter() == self.spec_filter(),
            r.spec_clock() == self.spec_clock(),
            r.spec_rng() == self.spec_rng(),
    {
        Runtime { emitter: self.emitter, filter: self.filter, ctxt: ctxt(self.ctxt), clock: self.clock, rng: self.rng }
    }

    /// The component that is a clock to timestamp events.
    pub fn clock(&self) -> (r: &TClock)
        ensures
            *r == self.spec_clock(),
    {
        &self.clock
    }

    /// Replace the component that is a clock to timestamp events.
    pub fn with_clock<U>(self, clock: U) -> (r: Runtime<TEmitter, TFilter, TCtxt, U, TRng>)
        ensures
            r.spec_clock() == clock,
            r.spec_emitter() == self.spec_emitter(),
            r.spec_filter() == self.spec_filter(),
            r.spec_ctxt() == self.spec_ctxt(),
            r.spec_rng() == self.spec_rng(),
    {
        Runtime { emitter: self.emitter, filter: self.filter, ctxt: self.ctxt, clock, rng: self.rng }
    }

    /// Map the component that is a clock to timestamp events to a new value.
    pub fn map_clock<U, F: FnOnce(TClock) -> U>(self, clock: F) -> (r: Runtime<TEmitter, TFilter, TCtxt, U, TRng>)
        requires
            clock.requires((self.spec_clock(),)),
        ensures
            clock.ensures((self.spec_clock(),), r.spec_clock()),
            r.spec_emitter() == self.spec_emitter(),
            r.spec_filter() == self.spec_filter(),
            r.spec_ctxt() == self.spec_ctxt(),
            r.spec_rng() == self.spec_rng(),
    {
        Runtime { emitter: self.emitter, filter: self.filter, ctxt: self.ctxt, clock: clock(self.clock), rng: self.rng }
    }

    /// The component that is a source of randomness for identifiers.
    pub fn rng(&self) -> (r: &TRng)
        ensures
            *r == self.spec_rng(),
    {
        &self.rng
    }

    /// Replace the component that is a source of randomness for identifiers.
    pub fn with_rng<U>(self, rng: U) -> (r: Runtime<TEmitter, TFilter, TCtxt, TClock, U>)
        ensures
            r.spec_rng() == rng,
            r.spec_emitter() == self.spec_emitter(),
            r.spec_filter() == self.spec_filter(),
            r.spec_ctxt() == self.spec_ctxt(),
            r.spec_clock() == self.spec_clock(),
    {
        Runtime { emitter: self.emitter, filter: self.filter, ctxt: self.ctxt, clock: self.clock, rng }
    }

    /// Map the component that is a source of randomness for identifiers to a new value.
    pub fn map_rng<U, F: FnOnce(TRng) -> U>(self, rng: F) -> (r: Runtime<TEmitter, TFilter, TCtxt, TClock, U>)
        requires
            rng.requires((self.spec_rng(),)),
        ensures
            rng.ensures((self.spec_rng(),), r.spec_rng()),
            r.spec_emitter() == self.spec_emitter(),
            r.spec_filter() == self.spec_filter(),
            r.spec_ctxt() == self.spec_ctxt(),
            r.spec_clock() == self.spec_clock(),
    {
        Runtime { emitter: self.emitter, filter: self.filter, ctxt: self.ctxt, clock: self.clock, rng: rng(self.rng) }
    }

}

impl<TEmitter, TFilter, TCtxt, TClock: Clock, TRng> Runtime<TEmitter, TFilter, TCtxt, TClock, TRng> {
    /// Whether `stamped` is `evt` as the runtime timestamps it: the same
    /// module, template and properties, and the same extent if `evt` has one;
    /// otherwise the point at a reading of the clock, or none if the reading
    /// is `None`.
    pub open spec fn is_stamped<'a, P>(&self, evt: Event<'a, P>, stamped: Event<'a, P>) -> bool {
        &&& stamped.spec_module() == evt.spec_module()
        &&& stamped.spec_tpl() == evt.spec_tpl()
        &&& stamped.spec_props() == evt.spec_props()
        &&& self.stamps(evt.spec_extent(), stamped.spec_extent())
    }

    /// Whether `stamped` is the extent the runtime gives an event with
    /// `extent`: the same extent if there is one; otherwise the point at a
    /// reading of the clock, or none if the reading is `None`.
    pub open spec fn stamps(&self, extent: Option<ExtentView>, stamped: Option<ExtentView>) -> bool {
        &&& extent is Some ==> stamped == extent
        &&& extent is None ==> exists|now: Option<Timestamp>|
            #[trigger] call_ensures(TClock::now, (&self.spec_clock(),), now) && stamped == match now {
                Some(ts) => Some(ExtentView { start: ts, end: ts, is_span: false }),
                None => None::<ExtentView>,
            }
    }

    /// Whether `e` is `evt` as the runtime emits it with the context's
    /// current properties `current`: timestamped, and with `current` after
    /// its own properties.
    pub open spec fn is_emitted_form<'a, 'c, P, C>(
        &self,
        evt: Event<'a, P>,
        current: &'c C,
        e: Event<'a, And<P, &'c C>>,
    ) -> bool {
        &&& e.spec_module() == evt.spec_module()
        &&& e.spec_tpl() == evt.spec_tpl()
        &&& e.spec_props().spec_left() == evt.spec_props()
        &&& e.spec_props().spec_right() == current
        &&& self.stamps(evt.spec_extent(), e.spec_extent())
    }

    /// Give an event without an extent the current time as a point, if the
    /// clock can be read. An event with an extent keeps it.
    pub fn timestamp<'a, P>(&self, evt: Event<'a, P>) -> (r: Event<'a, P>)
        ensures
            self.is_stamped(evt, r),
    {
        if evt.extent().is_some() {
            evt
        } else {
            let now = self.clock.now();
            let extent = match now {
                Some(ts) => ts.to_extent(),
                None => None,
            };
            proof {
                assert(call_ensures(TClock::now, (&self.spec_clock(),), now));
            }
            evt.with_extent(extent)
        }
    }
}

impl<TEmitter, TFilter, TCtxt, TClock: Clock, TRng> Runtime<TEmitter, TFilter, TCtxt, TClock, TRng> {
    /// The event as the runtime would emit it, or `None` if the filter drops
    /// it: an event without an extent is given the current time first.
    pub fn prepare<'a, P>(&self, evt: Event<'a, P>) -> (r: Option<Event<'a, P>>)
        where
            TFilter: Filter<P>,
        ensures
            r matches Some(e) ==> self.is_stamped(evt, e) && self.spec_filter().spec_matches(e),
            r is None ==> exists|e: Event<'a, P>|
                #[trigger] self.is_stamped(evt, e) && !self.spec_filter().spec_matches(e),
    {
        let evt2 = self.timestamp(evt);
        if self.filter.matches(&evt2) {
            Some(evt2)
        } else {
            assert(self.is_stamped(evt, evt2));
            None
        }
    }

    /// Whether emitting `evt` with the context's current properties
    /// `current` handed it, timestamped and with `current` attached, to the
    /// emitter if the filter kept it.
    pub open spec fn emitted_with<'a, 'c, P, C>(&self, evt: Event<'a, P>, current: &'c C) -> bool
        where
            TEmitter: Emitter<And<P, &'c C>>,
            TFilter: Filter<And<P, &'c C>>,
    {
        exists|e: Event<'a, And<P, &'c C>>|
            #[trigger] self.is_emitted_form(evt, current, e) && (self.spec_filter().spec_matches(e)
                ==> call_ensures(<TEmitter as Emitter<And<P, &'c C>>>::emit, (&self.spec_emitter(), &e), ()))
    }

    /// Emit an event with the context's current properties `current`: give
    /// it the current time if it has no extent, add `current` to its
    /// properties, and emit it if it passes the filter.
    pub fn emit_with_current<'a, 'c, P, C>(&self, evt: Event<'a, P>, current: &'c C)
        where
            TEmitter: Emitter<And<P, &'c C>>,
            TFilter: Filter<And<P, &'c C>>,
        ensures
            self.emitted_with(evt, current),
    {
        let ghost original = evt;
        let stamped = self.timestamp(evt);
        let attach = (|props: P| -> (r: And<P, &'c C>)
            ensures
                (r.spec_left() == props && r.spec_right() == current),
            { And::new(props, current) });
        let with_current = stamped.map_props(attach);
        if self.filter.matches(&with_current) {
            self.emitter.emit(&with_current);
        }
        assert(self.is_emitted_form(original, current, with_current));
    }

    /// Emit an event through the runtime: inside the context, give it the
    /// current time if it has no extent, add the context's current
    /// properties, and emit it if it passes the filter.
    pub fn emit<'a, P>(&self, evt: Event<'a, P>)
        where
            TCtxt: Ctxt,
            TEmitter: for<'c> Emitter<And<P, &'c TCtxt::Current>>,
            TFilter: for<'c> Filter<And<P, &'c TCtxt::Current>>,
        ensures
            exists|current: &TCtxt::Current| #[trigger] self.emitted_with(evt, current),
    {
        let ghost original = evt;
        let emit_in_context = (|current: &TCtxt::Current| -> (r: ())
            ensures
                (self.emitted_with(original, current)),
            { self.emit_with_current(evt, current) });
        self.ctxt.with_current(emit_in_context)
    }

    /// Wait for up to `timeout` for the emitter to process emitted events.
    pub fn blocking_flush<P>(&self, timeout: core::time::Duration) -> (r: bool)
        where
            TEmitter: Emitter<P>,
        ensures
            call_ensures(<TEmitter as Emitter<P>>::blocking_flush, (&self.spec_emitter(), timeout), r),
    {
        self.emitter.blocking_flush(timeout)
    }
}

/// A marker for a component that does not emit any diagnostics of its own.
pub struct AssertInternal<T>(pub T);

} // verus!
