//! The ambient components used to emit events.

use vstd::prelude::*;
use crate::clock::Clock;
use crate::empty::Empty;
use crate::id::{IdGen, SpanId, TraceId};
use crate::timestamp::Timestamp;

verus! {

/// The ambient components for emitting events: an emitter, a filter, a
/// context, a clock and an id generator.
pub struct Ambient<TEmitter = Empty, TFilter = Empty, TCtxt = Empty, TClock = Empty, TIdGen = Empty> {
    emitter: TEmitter,
    filter: TFilter,
    ctxt: TCtxt,
    clock: TClock,
    id_gen: TIdGen,
}

impl Ambient {
    /// Ambient components that are all empty.
    pub fn new() -> (r: Ambient)
        ensures
            r.spec_emitter() == Empty,
            r.spec_filter() == Empty,
            r.spec_ctxt() == Empty,
            r.spec_clock() == Empty,
            r.spec_id_gen() == Empty,
    {
        Ambient { emitter: Empty, filter: Empty, ctxt: Empty, clock: Empty, id_gen: Empty }
    }
}

impl Default for Ambient {
    /// Ambient components that are all empty.
    fn default() -> (r: Self)
        ensures
            r.spec_emitter() == Empty,
            r.spec_filter() == Empty,
            r.spec_ctxt() == Empty,
            r.spec_clock() == Empty,
            r.spec_id_gen() == Empty,
    {
        Ambient::new()
    }
}

impl<TEmitter, TFilter, TCtxt, TClock, TIdGen> Ambient<TEmitter, TFilter, TCtxt, TClock, TIdGen> {
    /// The component that is an emitter to receive events.
    pub closed spec fn spec_emitter(&self) -> TEmitter {
        self.emitter
    }

    /// The component that is a filter to limit the events emitted.
    pub closed spec fn spec_filter(&self) -> TFilter {
        self.filter
    }

    /// The component that is a context to capture ambient state.
    pub closed spec fn spec_ctxt(&self) -> TCtxt {
        self.ctxt
    }

    /// The component that is a clock to timestamp events.
    pub closed spec fn spec_clock(&self) -> TClock {
        self.clock
    }

    /// The component that is a generator of trace and span ids.
    pub closed spec fn spec_id_gen(&self) -> TIdGen {
        self.id_gen
    }

    /// Create a value with the given components.
    pub fn build(emitter: TEmitter, filter: TFilter, ctxt: TCtxt, clock: TClock, id_gen: TIdGen) -> (r: Self)
        ensures
            r.spec_emitter() == emitter,
            r.spec_filter() == filter,
            r.spec_ctxt() == ctxt,
            r.spec_clock() == clock,
            r.spec_id_gen() == id_gen,
    {
        Ambient { emitter, filter, ctxt, clock, id_gen }
    }

    /// The component that is an emitter to receive events.
    pub fn emitter(&self) -> (r: &TEmitter)
        ensures
            *r == self.spec_emitter(),
    {
        &self.emitter
    }

    /// Replace the component that is an emitter to receive events.
    pub fn with_emitter<U>(self, emitter: U) -> (r: Ambient<U, TFilter, TCtxt, TClock, TIdGen>)
        ensures
            r.spec_emitter() == emitter,
            r.spec_filter() == self.spec_filter(),
            r.spec_ctxt() == self.spec_ctxt(),
            r.spec_clock() == self.spec_clock(),
            r.spec_id_gen() == self.spec_id_gen(),
    {
        Ambient { emitter, filter: self.filter, ctxt: self.ctxt, clock: self.clock, id_gen: self.id_gen }
    }

    /// The component that is a filter to limit the events emitted.
    pub fn filter(&self) -> (r: &TFilter)
        ensures
            *r == self.spec_filter(),
    {
        &self.filter
    }

    /// Replace the component that is a filter to limit the events emitted.
    pub fn with_filter<U>(self, filter: U) -> (r: Ambient<TEmitter, U, TCtxt, TClock, TIdGen>)
        ensures
            r.spec_filter() == filter,
            r.spec_emitter() == self.spec_emitter(),
            r.spec_ctxt() == self.spec_ctxt(),
            r.spec_clock() == self.spec_clock(),
            r.spec_id_gen() == self.spec_id_gen(),
    {
        Ambient { emitter: self.emitter, filter, ctxt: self.ctxt, clock: self.clock, id_gen: self.id_gen }
    }

    /// The component that is a context to capture ambient state.
    pub fn ctxt(&self) -> (r: &TCtxt)
        ensures
            *r == self.spec_ctxt(),
    {
        &self.ctxt
    }

    /// Replace the component that is a context to capture ambient state.
    pub fn with_ctxt<U>(self, ctxt: U) -> (r: Ambient<TEmitter, TFilter, U, TClock, TIdGen>)
        ensures
            r.spec_ctxt() == ctxt,
            r.spec_emitter() == self.spec_emitter(),
            r.spec_filter() == self.spec_filter(),
            r.spec_clock() == self.spec_clock(),
            r.spec_id_gen() == self.spec_id_gen(),
    {
        Ambient { emitter: self.emitter, filter: self.filter, ctxt, clock: self.clock, id_gen: self.id_gen }
    }

    /// The component that is a clock to timestamp events.
    pub fn clock(&self) -> (r: &TClock)
        ensures
            *r == self.spec_clock(),
    {
        &self.clock
    }

    /// Replace the component that is a clock to timestamp events.
    pub fn with_clock<U>(self, clock: U) -> (r: Ambient<TEmitter, TFilter, TCtxt, U, TIdGen>)
        ensures
            r.spec_clock() == clock,
            r.spec_emitter() == self.spec_emitter(),
            r.spec_filter() == self.spec_filter(),
            r.spec_ctxt() == self.spec_ctxt(),
            r.spec_id_gen() == self.spec_id_gen(),
    {
        Ambient { emitter: self.emitter, filter: self.filter, ctxt: self.ctxt, clock, id_gen: self.id_gen }
    }

    /// The component that is a generator of trace and span ids.
    pub fn id_gen(&self) -> (r: &TIdGen)
        ensures
            *r == self.spec_id_gen(),
    {
        &self.id_gen
    }

    /// Replace the component that is a generator of trace and span ids.
    pub fn with_id_gen<U>(self, id_gen: U) -> (r: Ambient<TEmitter, TFilter, TCtxt, TClock, U>)
        ensures
            r.spec_id_gen() == id_gen,
            r.spec_emitter() == self.spec_emitter(),
            r.spec_filter() == self.spec_filter(),
            r.spec_ctxt() == self.spec_ctxt(),
            r.spec_clock() == self.spec_clock(),
    {
        Ambient { emitter: self.emitter, filter: self.filter, ctxt: self.ctxt, clock: self.clock, id_gen }
    }

}

impl<TEmitter, TFilter, TCtxt, TClock: Clock, TIdGen> Clock for Ambient<TEmitter, TFilter, TCtxt, TClock, TIdGen> {
    /// The reading of the clock component.
    fn now(&self) -> (r: Option<Timestamp>)
        ensures
            call_ensures(TClock::now, (&self.spec_clock(),), r),
    {
        self.clock.now()
    }
}

impl<TEmitter, TFilter, TCtxt, TClock, TIdGen: IdGen> IdGen for Ambient<TEmitter, TFilter, TCtxt, TClock, TIdGen> {
    /// An id from the id generator component.
    fn new_trace_id(&self) -> (r: Option<TraceId>)
        ensures
            call_ensures(TIdGen::new_trace_id, (&self.spec_id_gen(),), r),
    {
        self.id_gen.new_trace_id()
    }

    /// An id from the id generator component.
    fn new_span_id(&self) -> (r: Option<SpanId>)
        ensures
            call_ensures(TIdGen::new_span_id, (&self.spec_id_gen(),), r),
    {
        self.id_gen.new_span_id()
    }
}

} // verus!
