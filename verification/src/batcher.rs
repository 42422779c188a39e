//! The decisions of a batching channel between many senders and a single
//! background receiver: what a send does to the queued batch, when a flush
//! watcher fires, how the receiver swaps batches out, and how it backs off
//! between idle polls and between retries of a failed batch.
//!
//! The channel's shared state is a plain value here; whoever runs the
//! channel holds it behind a lock and performs the waits and callbacks that
//! these functions decide on.

use vstd::prelude::*;
use core::marker::PhantomData;
use crate::key::Key;
use crate::metrics::Metric;
use crate::well_known::{METRIC_AGG_COUNT, METRIC_AGG_LAST};

use vstd::arithmetic::div_mod::{
    lemma_add_mod_noop, lemma_div_by_self, lemma_div_is_ordered, lemma_fundamental_div_mod, lemma_mod_pos_bound,
    lemma_small_mod,
};

verus! {

/// A queue of items shared between a sender and a receiver.
///
/// The sender pushes items onto the channel. At some point, the receiver
/// swaps the channel out for a fresh one and processes it.
pub trait Channel: Sized {
    /// The kind of item stored in this channel.
    type Item;

    /// The items in the channel, oldest first.
    spec fn items(&self) -> Seq<Self::Item>;

    /// Create a new, empty channel.
    fn new() -> (r: Self)
        ensures
            r.items().len() == 0,
    ;

    /// Create a channel with the given capacity hint.
    fn with_capacity(capacity_hint: usize) -> (r: Self)
        ensures
            r.items().len() == 0,
    {
        Self::new()
    }

    /// Push an item onto the end of the channel.
    fn push(&mut self, item: Self::Item)
        ensures
            final(self).items() == old(self).items().push(item),
    ;

    /// The number of items in the channel.
    fn len(&self) -> (r: usize)
        ensures
            r == self.items().len(),
    ;

    /// Whether the channel has no items in it.
    fn is_empty(&self) -> (r: bool)
        ensures
            r == (self.items().len() == 0),
    {
        self.len() == 0
    }

    /// Clear everything out of the channel.
    fn clear(&mut self)
        ensures
            final(self).items().len() == 0,
    ;
}

impl<T> Channel for Vec<T> {
    type Item = T;

    open spec fn items(&self) -> Seq<T> {
        self@
    }

    fn new() -> (r: Self) {
        Vec::new()
    }

    fn with_capacity(capacity: usize) -> (r: Self) {
        Vec::with_capacity(capacity)
    }

    fn push(&mut self, item: T) {
        Vec::push(self, item);
    }

    fn len(&self) -> (r: usize) {
        Vec::len(self)
    }

    fn is_empty(&self) -> (r: bool) {
        Vec::len(self) == 0
    }

    fn clear(&mut self) {
        Vec::clear(self);
    }
}

/// The callbacks waiting for the items of a batch to be processed.
pub struct Watchers<W> {
    watchers: Vec<W>,
}

impl<W> View for Watchers<W> {
    type V = Seq<W>;

    closed spec fn view(&self) -> Seq<W> {
        self.watchers@
    }
}

impl<W> Watchers<W> {
    /// No watchers.
    pub fn new() -> (r: Self)
        ensures
            r@ == Seq::<W>::empty(),
    {
        Watchers { watchers: Vec::new() }
    }

    /// Add a watcher.
    pub fn push(&mut self, watcher: W)
        ensures
            final(self)@ == old(self)@.push(watcher),
    {
        self.watchers.push(watcher);
    }

    /// The watchers, in the order they were added, to be notified.
    pub fn into_vec(self) -> (r: Vec<W>)
        ensures
            r@ == self@,
    {
        self.watchers
    }
}

/// A batch of items and the callbacks waiting for it to be processed.
pub struct Batch<T, W> {
    /// The items.
    pub channel: T,
    /// The callbacks to notify once the items are processed.
    pub watchers: Watchers<W>,
}

impl<T: Channel, W> Batch<T, W> {
    /// An empty batch with no watchers.
    pub fn new() -> (r: Self)
        ensures
            r.channel.items().len() == 0,
            r.watchers@.len() == 0,
    {
        Batch { channel: T::new(), watchers: Watchers::new() }
    }

    /// An empty batch with no watchers, with room for `capacity` items.
    pub fn with_capacity(capacity: usize) -> (r: Self)
        ensures
            r.channel.items().len() == 0,
            r.watchers@.len() == 0,
    {
        Batch { channel: T::with_capacity(capacity), watchers: Watchers::new() }
    }
}

/// What the state shared between a sender and a receiver holds: the queued
/// items and the watchers waiting on them, oldest first, and its two flags.
#[verifier::ext_equal]
pub struct StateModel<I, W> {
    /// The items queued for the next batch.
    pub items: Seq<I>,
    /// The watchers waiting for the next batch.
    pub watchers: Seq<W>,
    /// Whether both ends of the channel are still alive.
    pub is_open: bool,
    /// Whether the receiver is processing a batch.
    pub is_in_batch: bool,
}

/// Whether a send finds the queue full, so that it's cleared first.
pub open spec fn model_overflows<I, W>(s: StateModel<I, W>, max_capacity: usize) -> bool {
    s.items.len() >= max_capacity
}

/// The state after sending `msg`: a full queue is cleared first, and a
/// closed channel drops the item.
pub open spec fn model_send<I, W>(s: StateModel<I, W>, max_capacity: usize, msg: I) -> StateModel<I, W> {
    let kept = if model_overflows(s, max_capacity) {
        Seq::empty()
    } else {
        s.items
    };
    StateModel {
        items: if s.is_open {
            kept.push(msg)
        } else {
            kept
        },
        watchers: s.watchers,
        is_open: s.is_open,
        is_in_batch: s.is_in_batch,
    }
}

/// The state after sending each of `msgs` in turn.
pub open spec fn model_send_all<I, W>(s: StateModel<I, W>, max_capacity: usize, msgs: Seq<I>) -> StateModel<I, W>
    decreases msgs.len(),
{
    if msgs.len() == 0 {
        s
    } else {
        model_send(model_send_all(s, max_capacity, msgs.drop_last()), max_capacity, msgs.last())
    }
}

/// Whether there's nothing for a flush to wait for: the receiver isn't
/// processing a batch, and nothing is queued or the channel is closed.
pub open spec fn model_is_idle<I, W>(s: StateModel<I, W>) -> bool {
    !s.is_in_batch && (s.items.len() == 0 || !s.is_open)
}

/// The state after asking to be told of the next flush: the watcher is
/// queued unless there's nothing to wait for.
pub open spec fn model_on_next_flush<I, W>(s: StateModel<I, W>, watcher: W) -> StateModel<I, W> {
    if model_is_idle(s) {
        s
    } else {
        StateModel { items: s.items, watchers: s.watchers.push(watcher), is_open: s.is_open, is_in_batch: s.is_in_batch }
    }
}

/// The receiver's turn: the state left behind, and the items and watchers
/// of the batch taken. With nothing queued the batch is empty and carries
/// the queued watchers, and the receiver is marked idle.
pub open spec fn model_take_batch<I, W>(s: StateModel<I, W>) -> (StateModel<I, W>, Seq<I>, Seq<W>) {
    if s.items.len() > 0 {
        (
            StateModel { items: Seq::empty(), watchers: Seq::empty(), is_open: s.is_open, is_in_batch: true },
            s.items,
            s.watchers,
        )
    } else {
        (
            StateModel { items: s.items, watchers: Seq::empty(), is_open: s.is_open, is_in_batch: false },
            Seq::empty(),
            s.watchers,
        )
    }
}

/// The state shared between a sender and a receiver.
pub struct State<T, W> {
    /// The batch that sends are filling.
    pub next_batch: Batch<T, W>,
    /// Whether both ends of the channel are still alive.
    pub is_open: bool,
    /// Whether the receiver is processing a batch.
    pub is_in_batch: bool,
}

impl<T: Channel, W> View for State<T, W> {
    type V = StateModel<T::Item, W>;

    open spec fn view(&self) -> StateModel<T::Item, W> {
        StateModel {
            items: self.next_batch.channel.items(),
            watchers: self.next_batch.watchers@,
            is_open: self.is_open,
            is_in_batch: self.is_in_batch,
        }
    }
}

impl<T: Channel, W> State<T, W> {
    /// The state of a fresh channel: open, idle and empty.
    pub fn new() -> (r: Self)
        ensures
            r@ == (StateModel::<T::Item, W> {
                items: Seq::empty(),
                watchers: Seq::empty(),
                is_open: true,
                is_in_batch: false,
            }),
    {
        State { next_batch: Batch::new(), is_open: true, is_in_batch: false }
    }

    /// Mark the channel closed, because one of its ends has gone.
    pub fn close(&mut self)
        ensures
            final(self)@ == (StateModel { is_open: false, ..old(self)@ }),
    {
        self.is_open = false;
    }

    /// Send an item on the channel.
    ///
    /// If the queued items already fill `max_capacity` they are dropped
    /// first, and the result is `true`. An item sent on a closed channel is
    /// dropped.
    pub fn send(&mut self, max_capacity: usize, msg: T::Item) -> (overflowed: bool)
        ensures
            overflowed == model_overflows(old(self)@, max_capacity),
            final(self)@ == model_send(old(self)@, max_capacity, msg),
    {
        let overflowed = self.next_batch.channel.len() >= max_capacity;
        if overflowed {
            self.next_batch.channel.clear();
        }
        if self.is_open {
            self.next_batch.channel.push(msg);
        }
        overflowed
    }

    /// Ask to be told once every item sent so far is processed.
    ///
    /// If the receiver isn't processing a batch and there's nothing queued
    /// (or the channel is closed) there's nothing to wait for: the watcher is
    /// handed back to be called straight away. Otherwise it's scheduled on
    /// the queued batch and `None` is returned.
    pub fn on_next_flush(&mut self, watcher: W) -> (now: Option<W>)
        ensures
            now == (if model_is_idle(old(self)@) {
                Some(watcher)
            } else {
                None
            }),
            final(self)@ == model_on_next_flush(old(self)@, watcher),
    {
        if !self.is_in_batch && (self.next_batch.channel.is_empty() || !self.is_open) {
            Some(watcher)
        } else {
            self.next_batch.watchers.push(watcher);
            None
        }
    }

    /// The receiver's turn: take the queued batch to process, leaving `fresh`
    /// in its place, and report whether the channel is still open.
    ///
    /// If nothing is queued, the receiver is marked idle and gets an empty
    /// batch carrying the queued watchers, which can be notified right away.
    pub fn take_batch(&mut self, fresh: Batch<T, W>) -> (r: (Batch<T, W>, bool))
        requires
            fresh.channel.items().len() == 0,
            fresh.watchers@.len() == 0,
        ensures
            r.1 == old(self)@.is_open,
            final(self)@ == model_take_batch(old(self)@).0,
            r.0.channel.items() == model_take_batch(old(self)@).1,
            r.0.watchers@ == model_take_batch(old(self)@).2,
    {
        if self.next_batch.channel.len() > 0 {
            self.is_in_batch = true;
            let mut current = fresh;
            core::mem::swap(&mut current, &mut self.next_batch);
            (current, self.is_open)
        } else {
            self.is_in_batch = false;
            let mut watchers = Watchers::new();
            core::mem::swap(&mut watchers, &mut self.next_batch.watchers);
            (Batch { channel: T::new(), watchers }, self.is_open)
        }
    }
}

/// A send on a channel whose queue is within a non-zero `max_capacity`
/// leaves it within that capacity: the queue never grows without bound.
pub proof fn lemma_send_within_capacity<I, W>(s: StateModel<I, W>, max_capacity: usize, msg: I)
    requires
        max_capacity > 0,
        s.items.len() <= max_capacity,
    ensures
        model_send(s, max_capacity, msg).items.len() <= max_capacity,
{
}

/// Items sent on an open channel with room for all of them reach the
/// receiver's next batch in the order they were sent, after the items
/// already queued.
pub proof fn lemma_sent_items_reach_next_batch<I, W>(s: StateModel<I, W>, max_capacity: usize, msgs: Seq<I>)
    requires
        s.is_open,
        s.items.len() + msgs.len() <= max_capacity,
    ensures
        model_take_batch(model_send_all(s, max_capacity, msgs)).1 == s.items + msgs,
        model_send_all(s, max_capacity, msgs).items == s.items + msgs,
    decreases msgs.len(),
{
    let after = model_send_all(s, max_capacity, msgs);
    if msgs.len() > 0 {
        let before = model_send_all(s, max_capacity, msgs.drop_last());
        lemma_sent_items_reach_next_batch(s, max_capacity, msgs.drop_last());
        lemma_send_all_keeps_watchers(s, max_capacity, msgs.drop_last());
        assert(before.items.len() < max_capacity);
        assert(after.items == before.items.push(msgs.last()));
        assert((s.items + msgs.drop_last()).push(msgs.last()) =~= s.items + msgs);
    } else {
        assert(s.items + msgs =~= s.items);
    }
    if after.items.len() == 0 {
        assert(after.items =~= Seq::<I>::empty());
    }
}

/// Sends never touch the watchers or the flags.
proof fn lemma_send_all_keeps_watchers<I, W>(s: StateModel<I, W>, max_capacity: usize, msgs: Seq<I>)
    ensures
        model_send_all(s, max_capacity, msgs).watchers == s.watchers,
        model_send_all(s, max_capacity, msgs).is_open == s.is_open,
        model_send_all(s, max_capacity, msgs).is_in_batch == s.is_in_batch,
    decreases msgs.len(),
{
    if msgs.len() > 0 {
        lemma_send_all_keeps_watchers(s, max_capacity, msgs.drop_last());
    }
}

/// A watcher that had to wait, because the receiver was busy or items were
/// queued, is handed to the receiver with the next batch it takes, after the
/// watchers scheduled before it, whatever is sent in between.
pub proof fn lemma_flush_watcher_taken_with_next_batch<I, W>(
    s: StateModel<I, W>,
    watcher: W,
    max_capacity: usize,
    msgs: Seq<I>,
)
    requires
        !model_is_idle(s),
    ensures
        model_take_batch(model_send_all(model_on_next_flush(s, watcher), max_capacity, msgs)).2
            == s.watchers.push(watcher),
{
    lemma_send_all_keeps_watchers(model_on_next_flush(s, watcher), max_capacity, msgs);
}

/// Once the receiver has taken a batch nothing is left queued: neither
/// items nor watchers.
pub proof fn lemma_take_batch_leaves_nothing_queued<I, W>(s: StateModel<I, W>)
    ensures
        model_take_batch(s).0.items.len() == 0,
        model_take_batch(s).0.watchers.len() == 0,
        model_take_batch(s).1 + model_take_batch(s).0.items == s.items,
{
    assert(model_take_batch(s).1 + model_take_batch(s).0.items =~= s.items);
}

/// Once the channel is closed nothing more can be queued: a send drops its
/// item, the receiver's next take gets everything still queued, and the take
/// after that finds the channel empty and closed, which is where the
/// receiver stops.
pub proof fn lemma_closed_channel_drains<I, W>(s: StateModel<I, W>, max_capacity: usize, msg: I)
    requires
        !s.is_open,
    ensures
        model_send(s, max_capacity, msg).items.len() <= s.items.len(),
        model_take_batch(s).1 == s.items,
        !model_take_batch(s).0.is_open,
        model_send(model_take_batch(s).0, max_capacity, msg).items.len() == 0,
        model_take_batch(model_take_batch(s).0).1.len() == 0,
        !model_take_batch(model_take_batch(s).0).0.is_open,
{
    if s.items.len() == 0 {
        assert(model_take_batch(s).1 =~= s.items);
    }
}

/// Whether the receiver stops after taking a batch of `len` items from a
/// channel that is open or not: only once the channel is closed and nothing
/// was left to take.
pub open spec fn receiver_stops(len: nat, is_open: bool) -> bool {
    len == 0 && !is_open
}

/// The receiver never stops while the channel is open, and once it's closed
/// the receiver stops within two takes, having taken everything that was
/// still queued: its first take gets all of it, and the second finds the
/// channel empty and closed.
pub proof fn lemma_receiver_stops_once_closed_and_drained<I, W>(s: StateModel<I, W>)
    ensures
        s.is_open ==> forall|len: nat| !#[trigger] receiver_stops(len, s.is_open),
        !s.is_open ==> {
            let (first, taken, _) = model_take_batch(s);
            let (_, rest, _) = model_take_batch(first);
            &&& taken == s.items
            &&& receiver_stops(taken.len(), first.is_open) <==> s.items.len() == 0
            &&& receiver_stops(rest.len(), first.is_open)
        },
{
    if s.items.len() == 0 {
        assert(model_take_batch(s).1 =~= s.items);
    }
}

/// One step of a channel's life, as both ends see it.
pub enum ChannelEvent<I> {
    /// The sender sends an item.
    Send(I),
    /// The receiver takes the queued batch.
    Take,
    /// An end of the channel goes away.
    Close,
}

/// The state after each of `events` in turn, and the non-empty batches of
/// items the receiver took along the way, oldest first.
pub open spec fn model_run<I, W>(
    s: StateModel<I, W>,
    max_capacity: usize,
    events: Seq<ChannelEvent<I>>,
) -> (StateModel<I, W>, Seq<Seq<I>>)
    decreases events.len(),
{
    if events.len() == 0 {
        (s, Seq::empty())
    } else {
        let (prev, batches) = model_run(s, max_capacity, events.drop_last());
        match events.last() {
            ChannelEvent::Send(msg) => (model_send(prev, max_capacity, msg), batches),
            ChannelEvent::Take => {
                let (next, items, _watchers) = model_take_batch(prev);
                (next, if items.len() > 0 { batches.push(items) } else { batches })
            },
            ChannelEvent::Close => (StateModel { is_open: false, ..prev }, batches),
        }
    }
}

/// The items of the `Send` events, in order.
pub open spec fn sent_items<I>(events: Seq<ChannelEvent<I>>) -> Seq<I>
    decreases events.len(),
{
    if events.len() == 0 {
        Seq::empty()
    } else {
        let before = sent_items(events.drop_last());
        match events.last() {
            ChannelEvent::Send(msg) => before.push(msg),
            _ => before,
        }
    }
}

/// The batches joined end to end.
pub open spec fn concat_batches<I>(batches: Seq<Seq<I>>) -> Seq<I>
    decreases batches.len(),
{
    if batches.len() == 0 {
        Seq::empty()
    } else {
        concat_batches(batches.drop_last()) + batches.last()
    }
}

/// Whether every send in `events` finds the channel open and its queue
/// below `max_capacity`, so that no item is dropped.
pub open spec fn sends_accepted<I, W>(
    s: StateModel<I, W>,
    max_capacity: usize,
    events: Seq<ChannelEvent<I>>,
) -> bool
    decreases events.len(),
{
    if events.len() == 0 {
        true
    } else {
        let prev = model_run(s, max_capacity, events.drop_last()).0;
        &&& sends_accepted(s, max_capacity, events.drop_last())
        &&& (events.last() is Send ==> prev.is_open && prev.items.len() < max_capacity)
    }
}

/// Batching loses, duplicates and reorders nothing: however sends, takes and
/// closes interleave, as long as every send is accepted, the batches the
/// receiver takes, joined in order and followed by what is still queued,
/// are exactly the items that were queued at the start followed by the items
/// sent, in the order they were sent. Every batch taken is non-empty, and
/// once the last step is a take, everything sent has been taken.
pub proof fn lemma_batches_deliver_sent_items<I, W>(
    s: StateModel<I, W>,
    max_capacity: usize,
    events: Seq<ChannelEvent<I>>,
)
    requires
        sends_accepted(s, max_capacity, events),
    ensures
        concat_batches(model_run(s, max_capacity, events).1) + model_run(s, max_capacity, events).0.items
            == s.items + sent_items(events),
        forall|i: int|
            0 <= i < model_run(s, max_capacity, events).1.len() ==> #[trigger] model_run(
                s,
                max_capacity,
                events,
            ).1[i].len() > 0,
        events.len() > 0 && events.last() is Take ==> concat_batches(model_run(s, max_capacity, events).1)
            == s.items + sent_items(events),
    decreases events.len(),
{
    let (next, batches) = model_run(s, max_capacity, events);
    if events.len() == 0 {
        assert(concat_batches(batches) =~= Seq::<I>::empty());
        assert(s.items + sent_items(events) =~= s.items);
        assert(concat_batches(batches) + next.items =~= s.items);
    } else {
        let rest = events.drop_last();
        lemma_batches_deliver_sent_items(s, max_capacity, rest);
        let (prev, before) = model_run(s, max_capacity, rest);
        let sent_before = sent_items(rest);
        assert(concat_batches(before) + prev.items == s.items + sent_before);
        match events.last() {
            ChannelEvent::Send(msg) => {
                assert(next.items == prev.items.push(msg));
                assert(sent_items(events) == sent_before.push(msg));
                assert(concat_batches(before) + prev.items.push(msg) =~= (concat_batches(before)
                    + prev.items).push(msg));
                assert(s.items + sent_before.push(msg) =~= (s.items + sent_before).push(msg));
            },
            ChannelEvent::Take => {
                assert(sent_items(events) == sent_before);
                if prev.items.len() > 0 {
                    assert(batches == before.push(prev.items));
                    assert(batches.drop_last() =~= before);
                    assert(concat_batches(batches) == concat_batches(before) + prev.items);
                    assert(next.items =~= Seq::<I>::empty());
                    assert(concat_batches(batches) + next.items =~= concat_batches(batches));
                    assert forall|i: int| 0 <= i < batches.len() implies #[trigger] batches[i].len() > 0 by {
                        if i < before.len() {
                            assert(batches[i] == before[i]);
                        }
                    }
                } else {
                    assert(prev.items =~= Seq::<I>::empty());
                    assert(concat_batches(before) + prev.items =~= concat_batches(before));
                }
            },
            ChannelEvent::Close => {
                assert(sent_items(events) == sent_before);
            },
        }
    }
}

/// An error encountered processing a batch, possibly with part of the batch to retry.
pub struct BatchError<T> {
    retryable: Option<T>,
}

impl<T> BatchError<T> {
    /// The part of the batch to retry, if any.
    pub closed spec fn spec_retryable(&self) -> Option<T> {
        self.retryable
    }

    /// An error that can't be retried.
    pub fn no_retry<E>(err: E) -> (r: Self)
        ensures
            r.spec_retryable() is None,
    {
        let _ = err;
        BatchError { retryable: None }
    }

    /// An error that can be retried with the given part of the batch.
    pub fn retry<E>(err: E, retryable: T) -> (r: Self)
        ensures
            r.spec_retryable() == Some(retryable),
    {
        let _ = err;
        BatchError { retryable: Some(retryable) }
    }

    /// The part of the batch to retry, or `None` if the error is not retryable.
    pub fn into_retryable(self) -> (r: Option<T>)
        ensures
            r == self.spec_retryable(),
    {
        self.retryable
    }

    /// Map the part of the batch to retry; the result is retryable if `f` returns `Some`.
    pub fn map_retryable<U, F: FnOnce(Option<T>) -> Option<U>>(self, f: F) -> (r: BatchError<U>)
        requires
            f.requires((self.spec_retryable(),)),
        ensures
            f.ensures((self.spec_retryable(),), r.spec_retryable()),
    {
        BatchError { retryable: f(self.retryable) }
    }
}

/// A delay that grows from `step` by doubling, up to `max`, measured in milliseconds.
pub struct Delay {
    current: u64,
    step: u64,
    max: u64,
}

impl View for Delay {
    /// The current, step and maximum delays.
    type V = (u64, u64, u64);

    closed spec fn view(&self) -> (u64, u64, u64) {
        (self.current, self.step, self.max)
    }
}

/// The delay that follows `current`: double it and add a step, but no more than `max`.
pub open spec fn next_delay(current: int, step: int, max: int) -> int {
    if current * 2 + step < max {
        current * 2 + step
    } else {
        max
    }
}

/// Each delay is at least the one before it and never more than the
/// maximum: backoff only grows, and stays bounded.
pub proof fn lemma_next_delay_grows_within_max(current: int, step: int, max: int)
    requires
        0 <= current <= max,
        0 <= step,
    ensures
        current <= next_delay(current, step, max) <= max,
{
}

impl Delay {
    #[verifier::type_invariant]
    closed spec fn inv(self) -> bool {
        self.current <= self.max
    }

    /// A delay that starts at zero.
    pub fn new(step: u64, max: u64) -> (r: Delay)
        ensures
            r@ == (0u64, step, max),
    {
        Delay { current: 0, step, max }
    }

    /// Go back to a delay of zero.
    pub fn reset(&mut self)
        ensures
            final(self)@ == (0u64, old(self)@.1, old(self)@.2),
    {
        proof {
            use_type_invariant(&*self);
        }
        self.current = 0;
    }

    /// Grow the delay and return it.
    pub fn next(&mut self) -> (r: u64)
        ensures
            r == next_delay(old(self)@.0 as int, old(self)@.1 as int, old(self)@.2 as int),
            final(self)@ == (r, old(self)@.1, old(self)@.2),
            r <= old(self)@.2,
    {
        proof {
            use_type_invariant(&*self);
        }
        let grown: u128 = self.current as u128 * 2 + self.step as u128;
        self.current = if grown < self.max as u128 {
            grown as u64
        } else {
            self.max
        };
        self.current
    }
}

/// The number of recent batch lengths remembered for sizing the next batch.
pub const CAPACITY_WINDOW: usize = 16;

/// The largest element of a non-empty sequence.
pub open spec fn seq_max(s: Seq<usize>) -> usize
    decreases s.len(),
{
    if s.len() <= 1 {
        if s.len() == 1 {
            s[0]
        } else {
            0
        }
    } else {
        let m = seq_max(s.drop_last());
        if s.last() > m {
            s.last()
        } else {
            m
        }
    }
}

proof fn lemma_seq_max_bounds(s: Seq<usize>)
    requires
        s.len() > 0,
    ensures
        forall|i: int| 0 <= i < s.len() ==> s[i] <= seq_max(s),
        exists|i: int| 0 <= i < s.len() && s[i] == seq_max(s),
    decreases s.len(),
{
    if s.len() == 1 {
        assert(s[0] == seq_max(s));
    } else {
        lemma_seq_max_bounds(s.drop_last());
        let m = seq_max(s.drop_last());
        let w = choose|i: int| 0 <= i < s.len() - 1 && s.drop_last()[i] == m;
        if s.last() > m {
            assert(s[s.len() - 1] == seq_max(s));
        } else {
            assert(s[w] == seq_max(s));
        }
        assert forall|i: int| 0 <= i < s.len() implies s[i] <= seq_max(s) by {
            if i < s.len() - 1 {
                assert(s[i] == s.drop_last()[i]);
            }
        }
    }
}

/// A window of recent batch lengths, to size the next batch's allocation.
pub struct Capacity {
    window: [usize; 16],
    slot: usize,
}

impl View for Capacity {
    /// The remembered lengths and the slot the next length is recorded in.
    type V = (Seq<usize>, usize);

    closed spec fn view(&self) -> (Seq<usize>, usize) {
        (self.window@, self.slot)
    }
}

impl Capacity {
    /// A window that remembers lengths of one.
    pub fn new() -> (r: Capacity)
        ensures
            r@.0 == Seq::new(16, |i: int| 1usize),
            r@.1 == 0,
    {
        let r = Capacity { window: [1usize; 16], slot: 0 };
        assert(r.window@ =~= Seq::new(16, |i: int| 1usize));
        r
    }

    /// Record the length of the last batch in the current slot and return
    /// the largest remembered length. The slot doesn't advance.
    pub fn next(&mut self, last_len: usize) -> (r: usize)
        ensures
            final(self)@.0 == old(self)@.0.update((old(self)@.1 % 16) as int, last_len),
            final(self)@.1 == old(self)@.1,
            r == seq_max(final(self)@.0),
            r >= last_len,
    {
        let ghost w0 = self.window@;
        self.window[self.slot % CAPACITY_WINDOW] = last_len;
        let mut best: usize = self.window[0];
        let mut i: usize = 1;
        assert(self.window@.take(1) =~= seq![self.window@[0]]);
        while i < CAPACITY_WINDOW
            invariant
                1 <= i <= 16,
                self.window@.len() == 16,
                best == seq_max(self.window@.take(i as int)),
            decreases 16 - i,
        {
            assert(self.window@.take(i + 1).drop_last() =~= self.window@.take(i as int));
            if self.window[i] > best {
                best = self.window[i];
            }
            i = i + 1;
        }
        assert(self.window@.take(16) =~= self.window@);
        proof {
            lemma_seq_max_bounds(self.window@);
            assert(self.window@[(self.slot % 16) as int] == last_len);
        }
        best
    }
}

/// One more attempt counted from `current`: the new count, and whether it's
/// within `max`.
pub open spec fn retry_step(current: u32, max: u32) -> (u32, bool) {
    let next = if current < u32::MAX {
        (current + 1) as u32
    } else {
        current
    };
    (next, next <= max)
}

/// The count after `n` attempts counted from `current`.
pub open spec fn retry_steps(current: u32, max: u32, n: nat) -> u32
    decreases n,
{
    if n == 0 {
        current
    } else {
        retry_step(retry_steps(current, max, (n - 1) as nat), max).0
    }
}

/// Counting from a reset, the first `max` attempts are allowed and the one
/// after them is not: a batch is retried at most `max` times.
pub proof fn lemma_retry_allows_max_attempts(max: u32, n: nat)
    requires
        n < u32::MAX,
    ensures
        retry_steps(0, max, n) == n,
        retry_step(retry_steps(0, max, n), max).1 <==> n + 1 <= max,
    decreases n,
{
    if n > 0 {
        lemma_retry_allows_max_attempts(max, (n - 1) as nat);
    }
}

/// A count of attempts at a batch, up to a maximum number of retries.
pub struct Retry {
    current: u32,
    max: u32,
}

impl View for Retry {
    /// The attempts counted and the maximum.
    type V = (u32, u32);

    closed spec fn view(&self) -> (u32, u32) {
        (self.current, self.max)
    }
}

impl Retry {
    /// Allow up to `max` retries.
    pub fn new(max: u32) -> (r: Retry)
        ensures
            r@ == (0u32, max),
    {
        Retry { current: 0, max }
    }

    /// Start counting again.
    pub fn reset(&mut self)
        ensures
            final(self)@ == (0u32, old(self)@.1),
    {
        self.current = 0;
    }

    /// Count another attempt, returning whether it's within the maximum.
    pub fn next(&mut self) -> (r: bool)
        ensures
            final(self)@ == (retry_step(old(self)@.0, old(self)@.1).0, old(self)@.1),
            r == retry_step(old(self)@.0, old(self)@.1).1,
    {
        self.current = self.current.saturating_add(1);
        self.current <= self.max
    }
}

/// A monotonic counter of events in the channel.
pub struct Counter {
    value: usize,
}

impl View for Counter {
    type V = usize;

    closed spec fn view(&self) -> usize {
        self.value
    }
}

impl Counter {
    /// A counter at zero.
    pub fn new() -> (r: Counter)
        ensures
            r@ == 0,
    {
        Counter { value: 0 }
    }

    /// Count one more event.
    pub fn increment(&mut self)
        ensures
            final(self)@ == old(self)@.wrapping_add(1),
    {
        self.increment_by(1);
    }

    /// Count `by` more events.
    pub fn increment_by(&mut self, by: usize)
        ensures
            final(self)@ == old(self)@.wrapping_add(by),
    {
        self.value = self.value.wrapping_add(by);
    }

    /// The number of events counted.
    pub fn sample(&self) -> (r: usize)
        ensures
            r == self@,
    {
        self.value
    }
}


/// The count after adding each of `bys` in turn, wrapping past `usize::MAX`.
pub open spec fn count_all(start: usize, bys: Seq<usize>) -> usize
    decreases bys.len(),
{
    if bys.len() == 0 {
        start
    } else {
        count_all(start, bys.drop_last()).wrapping_add(bys.last())
    }
}

/// The sum of the amounts.
pub open spec fn sum_of(bys: Seq<usize>) -> int
    decreases bys.len(),
{
    if bys.len() == 0 {
        0
    } else {
        sum_of(bys.drop_last()) + bys.last()
    }
}

/// A counter loses no increment: after adding each of `bys` in turn to a
/// counter at `start`, it holds `start` plus their sum, wrapping past
/// `usize::MAX`.
pub proof fn lemma_counter_counts_every_increment(start: usize, bys: Seq<usize>)
    ensures
        count_all(start, bys) == (start + sum_of(bys)) % (usize::MAX as int + 1),
    decreases bys.len(),
{
    let m = usize::MAX as int + 1;
    if bys.len() == 0 {
        lemma_small_mod(start as nat, m as nat);
    } else {
        let rest = bys.drop_last();
        let b = bys.last();
        lemma_counter_counts_every_increment(start, rest);
        let before = count_all(start, rest);
        let total = start + sum_of(rest);
        assert(before == total % m);
        lemma_add_mod_noop(total, b as int, m);
        lemma_small_mod(b as nat, m as nat);
        assert((before + b) % m == (total + b) % m);
        if before + b > usize::MAX {
            lemma_mod_subtraction_of_range(before + b, m);
        } else {
            lemma_small_mod((before + b) as nat, m as nat);
        }
    }
}

/// `x - m` is `x % m` for `m <= x < 2m`.
proof fn lemma_mod_subtraction_of_range(x: int, m: int)
    requires
        0 < m <= x < 2 * m,
    ensures
        x % m == x - m,
{
    lemma_fundamental_div_mod(x, m);
    lemma_div_bounds_within_range(x, m);
    assert(x % m == x - m) by (nonlinear_arith)
        requires
            x == m * (x / m) + x % m,
            x / m == 1,
    ;
}

/// `x / m` is one for `m <= x < 2m`.
proof fn lemma_div_bounds_within_range(x: int, m: int)
    requires
        0 < m <= x < 2 * m,
    ensures
        x / m == 1,
{
    lemma_div_is_ordered(m, x, m);
    lemma_div_by_self(m);
    lemma_div_is_ordered(x, 2 * m - 1, m);
    lemma_div_plus_one_bound(m);
}

/// `(2m - 1) / m` is at most one.
proof fn lemma_div_plus_one_bound(m: int)
    requires
        0 < m,
    ensures
        (2 * m - 1) / m <= 1,
{
    lemma_fundamental_div_mod(2 * m - 1, m);
    lemma_mod_pos_bound(2 * m - 1, m);
    assert((2 * m - 1) / m <= 1) by (nonlinear_arith)
        requires
            0 < m,
            2 * m - 1 == m * ((2 * m - 1) / m) + (2 * m - 1) % m,
            0 <= (2 * m - 1) % m < m,
    ;
}

/// The source the batcher's own metrics are reported under.
pub const METRIC_SOURCE: &'static str = "emit_batcher";

/// A metric sample and the component that reported it.
pub struct SourcedMetric {
    /// The component the sample comes from.
    pub source: Key<'static>,
    /// The sample.
    pub metric: Metric<'static, usize>,
}

/// Counters of what happened to batches in a channel.
pub struct InternalMetrics {
    /// Times the queue overflowed and was cleared.
    pub queue_overflow: Counter,
    /// Batches processed successfully.
    pub queue_batch_processed: Counter,
    /// Batches that failed.
    pub queue_batch_failed: Counter,
    /// Batches whose processing panicked.
    pub queue_batch_panicked: Counter,
    /// Batches retried.
    pub queue_batch_retry: Counter,
}

impl InternalMetrics {
    /// All counters at zero.
    pub fn new() -> (r: InternalMetrics)
        ensures
            r.queue_overflow@ == 0,
            r.queue_batch_processed@ == 0,
            r.queue_batch_failed@ == 0,
            r.queue_batch_panicked@ == 0,
            r.queue_batch_retry@ == 0,
    {
        InternalMetrics {
            queue_overflow: Counter::new(),
            queue_batch_processed: Counter::new(),
            queue_batch_failed: Counter::new(),
            queue_batch_panicked: Counter::new(),
            queue_batch_retry: Counter::new(),
        }
    }

    /// Whether `r` starts with a count sample of each counter, named after
    /// it, and every sample in `r` comes from the batcher.
    pub open spec fn is_sampled_by(&self, r: Seq<SourcedMetric>) -> bool {
        &&& r.len() >= 5
        &&& r[0].metric.spec_name() == "queue_overflow"@ && r[0].metric.spec_value() == self.queue_overflow@
        &&& r[1].metric.spec_name() == "queue_batch_processed"@ && r[1].metric.spec_value()
            == self.queue_batch_processed@
        &&& r[2].metric.spec_name() == "queue_batch_failed"@ && r[2].metric.spec_value()
            == self.queue_batch_failed@
        &&& r[3].metric.spec_name() == "queue_batch_panicked"@ && r[3].metric.spec_value()
            == self.queue_batch_panicked@
        &&& r[4].metric.spec_name() == "queue_batch_retry"@ && r[4].metric.spec_value() == self.queue_batch_retry@
        &&& forall|i: int| 0 <= i < 5 ==> #[trigger] r[i].metric.spec_kind() == METRIC_AGG_COUNT@
        &&& forall|i: int| 0 <= i < r.len() ==> #[trigger] r[i].source@ == METRIC_SOURCE@
    }

    /// A count sample of each counter, named after it, from the batcher.
    pub fn sample(&self) -> (r: Vec<SourcedMetric>)
        ensures
            r@.len() == 5,
            self.is_sampled_by(r@),
    {
        let mut r: Vec<SourcedMetric> = Vec::new();
        r.push(count_sample("queue_overflow", self.queue_overflow.sample()));
        r.push(count_sample("queue_batch_processed", self.queue_batch_processed.sample()));
        r.push(count_sample("queue_batch_failed", self.queue_batch_failed.sample()));
        r.push(count_sample("queue_batch_panicked", self.queue_batch_panicked.sample()));
        r.push(count_sample("queue_batch_retry", self.queue_batch_retry.sample()));
        r
    }
}

/// A sample from the batcher of the given aggregation.
fn batcher_sample(agg: &'static str, name: &'static str, value: usize) -> (r: SourcedMetric)
    ensures
        r.source@ == METRIC_SOURCE@,
        r.metric.spec_kind() == agg@,
        r.metric.spec_name() == name@,
        r.metric.spec_value() == value,
{
    SourcedMetric { source: Key::new(METRIC_SOURCE), metric: Metric::new(Key::new(agg), Key::new(name), value) }
}

/// A count sample from the batcher.
fn count_sample(name: &'static str, value: usize) -> (r: SourcedMetric)
    ensures
        r.source@ == METRIC_SOURCE@,
        r.metric.spec_kind() == METRIC_AGG_COUNT@,
        r.metric.spec_name() == name@,
        r.metric.spec_value() == value,
{
    batcher_sample(METRIC_AGG_COUNT, name, value)
}

/// The instrumentation of a channel: its counters and the length of its queue.
pub struct ChannelMetrics<'a, T, W> {
    metrics: &'a InternalMetrics,
    state: &'a State<T, W>,
}

impl<'a, T: Channel, W> ChannelMetrics<'a, T, W> {
    /// The counters sampled.
    pub closed spec fn spec_metrics(&self) -> InternalMetrics {
        *self.metrics
    }

    /// The state whose queue is measured.
    pub closed spec fn spec_state(&self) -> StateModel<T::Item, W> {
        self.state@
    }

    /// Instrumentation over the given counters and shared state.
    pub fn new(metrics: &'a InternalMetrics, state: &'a State<T, W>) -> (r: Self)
        ensures
            r.spec_metrics() == *metrics,
            r.spec_state() == state@,
    {
        ChannelMetrics { metrics, state }
    }

    /// A sample of each counter, then the current length of the queue.
    pub fn sample_metrics(&self) -> (r: Vec<SourcedMetric>)
        ensures
            r@.len() == 6,
            self.spec_metrics().is_sampled_by(r@),
            r@[5].metric.spec_name() == "queue_length"@,
            r@[5].metric.spec_kind() == METRIC_AGG_LAST@,
            r@[5].metric.spec_value() == self.spec_state().items.len(),
    {
        let queue_length = self.state.next_batch.channel.len();
        let mut r = self.metrics.sample();
        r.push(batcher_sample(METRIC_AGG_LAST, "queue_length", queue_length));
        assert(self.metrics.is_sampled_by(r@));
        r
    }
}

/// The sending half of a channel: the limit it keeps the queue under.
pub struct Sender<T> {
    max_capacity: usize,
    _marker: PhantomData<T>,
}

impl<T: Channel> Sender<T> {
    /// The most items the queue holds before it's cleared.
    pub closed spec fn spec_max_capacity(&self) -> usize {
        self.max_capacity
    }

    /// The most items the queue holds before it's cleared.
    pub fn max_capacity(&self) -> (r: usize)
        ensures
            r == self.spec_max_capacity(),
    {
        self.max_capacity
    }

    /// Send an item on the channel, recording an overflow in `metrics`.
    ///
    /// If pushing the item would overflow the maximum capacity of the channel
    /// it is cleared first. An item sent on a closed channel is dropped.
    pub fn send<W>(&self, state: &mut State<T, W>, metrics: &mut InternalMetrics, msg: T::Item)
        ensures
            final(state)@ == model_send(old(state)@, self.spec_max_capacity(), msg),
            final(metrics).queue_overflow@ == if model_overflows(old(state)@, self.spec_max_capacity()) {
                old(metrics).queue_overflow@.wrapping_add(1)
            } else {
                old(metrics).queue_overflow@
            },
            final(metrics).queue_batch_processed@ == old(metrics).queue_batch_processed@,
            final(metrics).queue_batch_failed@ == old(metrics).queue_batch_failed@,
            final(metrics).queue_batch_panicked@ == old(metrics).queue_batch_panicked@,
            final(metrics).queue_batch_retry@ == old(metrics).queue_batch_retry@,
    {
        if state.send(self.max_capacity, msg) {
            metrics.queue_overflow.increment();
        }
    }

    /// Ask to be told once every item sent so far is processed: the watcher
    /// is handed back to call straight away when there's nothing to wait for.
    pub fn on_next_flush<W>(&self, state: &mut State<T, W>, watcher: W) -> (now: Option<W>)
        ensures
            now == (if model_is_idle(old(state)@) {
                Some(watcher)
            } else {
                None
            }),
            final(state)@ == model_on_next_flush(old(state)@, watcher),
    {
        state.on_next_flush(watcher)
    }
}

/// The receiving half of a channel: its backoff between idle polls and
/// between retries, and its sizing of batches.
pub struct Receiver<T> {
    idle_delay: Delay,
    retry: Retry,
    retry_delay: Delay,
    capacity: Capacity,
    _marker: PhantomData<T>,
}

/// How a call of the processing callback on a batch ended.
#[derive(Clone, Copy, PartialEq, Eq, Structural, Debug)]
pub enum BatchOutcome {
    /// The batch was processed.
    Processed,
    /// The batch failed, with this many items to retry if any are retryable.
    Failed(Option<usize>),
    /// The callback panicked.
    Panicked,
}

/// What the receiver does with the batch it took.
#[derive(Clone, Copy, PartialEq, Eq, Structural, Debug)]
pub enum Taken {
    /// Process the batch, then allocate this many items for the next one.
    Process { capacity: usize },
    /// Nothing was queued: wait this many milliseconds before looking again.
    Idle { wait_ms: u64 },
    /// The channel is closed and drained: stop.
    Closed,
}

/// What the receiver does after a batch fails.
#[derive(Clone, Copy, PartialEq, Eq, Structural, Debug)]
pub enum Retrying {
    /// Wait this many milliseconds, then process the retryable part again.
    After(u64),
    /// Give up on the batch.
    GiveUp,
}

impl<T: Channel> Receiver<T> {
    /// The retry count.
    pub closed spec fn spec_retry(&self) -> (u32, u32) {
        self.retry@
    }

    /// The delay before the next retry.
    pub closed spec fn spec_retry_delay(&self) -> (u64, u64, u64) {
        self.retry_delay@
    }

    /// The delay before the next idle poll.
    pub closed spec fn spec_idle_delay(&self) -> (u64, u64, u64) {
        self.idle_delay@
    }

    /// The recent batch lengths remembered for sizing the next batch, and
    /// the slot the next length is recorded in.
    pub closed spec fn spec_capacity(&self) -> (Seq<usize>, usize) {
        self.capacity@
    }

    /// A batch of `len` items was taken: start the retry count and both
    /// delays over, and return the capacity to allocate for the next batch.
    pub fn begin_batch(&mut self, len: usize) -> (capacity: usize)
        ensures
            final(self).spec_retry() == (0u32, old(self).spec_retry().1),
            final(self).spec_retry_delay().0 == 0,
            final(self).spec_retry_delay().1 == old(self).spec_retry_delay().1,
            final(self).spec_retry_delay().2 == old(self).spec_retry_delay().2,
            final(self).spec_idle_delay().0 == 0,
            final(self).spec_idle_delay().1 == old(self).spec_idle_delay().1,
            final(self).spec_idle_delay().2 == old(self).spec_idle_delay().2,
            final(self).spec_capacity() == (
                old(self).spec_capacity().0.update((old(self).spec_capacity().1 % 16) as int, len),
                old(self).spec_capacity().1,
            ),
            capacity == seq_max(final(self).spec_capacity().0),
            capacity >= len,
    {
        self.retry.reset();
        self.retry_delay.reset();
        self.idle_delay.reset();
        self.capacity.next(len)
    }

    /// A batch failed with `retryable_len` items to retry, if any: retry
    /// after the next retry delay while some items remain and retries are
    /// left, otherwise give up.
    pub fn on_batch_failed(&mut self, retryable_len: Option<usize>) -> (r: Retrying)
        ensures
            match retryable_len {
                Some(n) if n > 0 => {
                    &&& final(self).spec_retry().0 == if old(self).spec_retry().0 < u32::MAX {
                        (old(self).spec_retry().0 + 1) as u32
                    } else {
                        old(self).spec_retry().0
                    }
                    &&& final(self).spec_retry().0 <= old(self).spec_retry().1 ==> r == Retrying::After(
                        next_delay(
                            old(self).spec_retry_delay().0 as int,
                            old(self).spec_retry_delay().1 as int,
                            old(self).spec_retry_delay().2 as int,
                        ) as u64,
                    )
                    &&& final(self).spec_retry().0 > old(self).spec_retry().1 ==> r == Retrying::GiveUp
                },
                _ => r == Retrying::GiveUp && final(self).spec_retry() == old(self).spec_retry(),
            },
            final(self).spec_retry().1 == old(self).spec_retry().1,
            final(self).spec_idle_delay() == old(self).spec_idle_delay(),
            final(self).spec_retry_delay() == match r {
                Retrying::After(ms) => (ms, old(self).spec_retry_delay().1, old(self).spec_retry_delay().2),
                Retrying::GiveUp => old(self).spec_retry_delay(),
            },
    {
        match retryable_len {
            Some(n) => {
                if n > 0 {
                    if self.retry.next() {
                        return Retrying::After(self.retry_delay.next());
                    }
                }
                Retrying::GiveUp
            },
            None => Retrying::GiveUp,
        }
    }

    /// A batch was handed to the processing callback with this outcome:
    /// count it in `metrics`, and decide whether to retry. Only a failure
    /// with items left to retry, within the retry limit, is retried.
    pub fn on_batch_outcome(&mut self, metrics: &mut InternalMetrics, outcome: BatchOutcome) -> (r: Retrying)
        ensures
            match outcome {
                BatchOutcome::Processed => {
                    &&& r == Retrying::GiveUp
                    &&& final(metrics).queue_batch_processed@ == old(metrics).queue_batch_processed@.wrapping_add(1)
                    &&& final(metrics).queue_batch_failed@ == old(metrics).queue_batch_failed@
                    &&& final(metrics).queue_batch_panicked@ == old(metrics).queue_batch_panicked@
                    &&& final(metrics).queue_batch_retry@ == old(metrics).queue_batch_retry@
                    &&& final(self).spec_retry() == old(self).spec_retry()
                },
                BatchOutcome::Panicked => {
                    &&& r == Retrying::GiveUp
                    &&& final(metrics).queue_batch_processed@ == old(metrics).queue_batch_processed@
                    &&& final(metrics).queue_batch_failed@ == old(metrics).queue_batch_failed@
                    &&& final(metrics).queue_batch_panicked@ == old(metrics).queue_batch_panicked@.wrapping_add(1)
                    &&& final(metrics).queue_batch_retry@ == old(metrics).queue_batch_retry@
                    &&& final(self).spec_retry() == old(self).spec_retry()
                },
                BatchOutcome::Failed(retryable_len) => {
                    &&& final(metrics).queue_batch_processed@ == old(metrics).queue_batch_processed@
                    &&& final(metrics).queue_batch_failed@ == old(metrics).queue_batch_failed@.wrapping_add(1)
                    &&& final(metrics).queue_batch_panicked@ == old(metrics).queue_batch_panicked@
                    &&& final(metrics).queue_batch_retry@ == if r is After {
                        old(metrics).queue_batch_retry@.wrapping_add(1)
                    } else {
                        old(metrics).queue_batch_retry@
                    }
                    &&& final(self).spec_retry().0 == match retryable_len {
                        Some(n) if n > 0 => if old(self).spec_retry().0 < u32::MAX {
                            (old(self).spec_retry().0 + 1) as u32
                        } else {
                            old(self).spec_retry().0
                        },
                        _ => old(self).spec_retry().0,
                    }
                    &&& (r is After <==> (match retryable_len {
                        Some(n) => n > 0 && final(self).spec_retry().0 <= old(self).spec_retry().1,
                        None => false,
                    }))
                    &&& r is After ==> r == Retrying::After(
                        next_delay(
                            old(self).spec_retry_delay().0 as int,
                            old(self).spec_retry_delay().1 as int,
                            old(self).spec_retry_delay().2 as int,
                        ) as u64,
                    )
                },
            },
            final(metrics).queue_overflow@ == old(metrics).queue_overflow@,
            final(self).spec_retry().1 == old(self).spec_retry().1,
            final(self).spec_idle_delay() == old(self).spec_idle_delay(),
            final(self).spec_retry_delay() == match r {
                Retrying::After(ms) => (ms, old(self).spec_retry_delay().1, old(self).spec_retry_delay().2),
                Retrying::GiveUp => old(self).spec_retry_delay(),
            },
    {
        match outcome {
            BatchOutcome::Processed => {
                metrics.queue_batch_processed.increment();
                Retrying::GiveUp
            },
            BatchOutcome::Panicked => {
                metrics.queue_batch_panicked.increment();
                Retrying::GiveUp
            },
            BatchOutcome::Failed(retryable_len) => {
                metrics.queue_batch_failed.increment();
                let r = self.on_batch_failed(retryable_len);
                if let Retrying::After(_) = r {
                    metrics.queue_batch_retry.increment();
                }
                r
            },
        }
    }

    /// The receiver took a batch of `len` items from a channel that is open
    /// or not: process a non-empty batch, allocating `capacity` for the next;
    /// stop once the channel is closed and drained; otherwise wait the next
    /// idle delay before looking again. The watchers taken with the batch
    /// are notified in every case, after processing.
    pub fn on_taken(&mut self, len: usize, is_open: bool) -> (r: Taken)
        ensures
            len > 0 ==> ((r matches Taken::Process { capacity }) && r->capacity >= len
                && final(self).spec_retry() == (0u32, old(self).spec_retry().1)
                && final(self).spec_retry_delay().0 == 0 && final(self).spec_idle_delay().0 == 0
                && final(self).spec_capacity() == (
                    old(self).spec_capacity().0.update((old(self).spec_capacity().1 % 16) as int, len),
                    old(self).spec_capacity().1,
                ) && r->capacity == seq_max(final(self).spec_capacity().0)),
            (r == Taken::Closed) == receiver_stops(len as nat, is_open),
            len == 0 && !is_open ==> final(self).spec_idle_delay() == old(self).spec_idle_delay(),
            len == 0 && is_open ==> r == (Taken::Idle {
                wait_ms: next_delay(
                    old(self).spec_idle_delay().0 as int,
                    old(self).spec_idle_delay().1 as int,
                    old(self).spec_idle_delay().2 as int,
                ) as u64,
            }) && final(self).spec_idle_delay().0 == r->wait_ms,
            len == 0 ==> final(self).spec_retry() == old(self).spec_retry()
                && final(self).spec_retry_delay() == old(self).spec_retry_delay()
                && final(self).spec_capacity() == old(self).spec_capacity(),
            final(self).spec_retry().1 == old(self).spec_retry().1,
            final(self).spec_retry_delay().1 == old(self).spec_retry_delay().1,
            final(self).spec_retry_delay().2 == old(self).spec_retry_delay().2,
            final(self).spec_idle_delay().1 == old(self).spec_idle_delay().1,
            final(self).spec_idle_delay().2 == old(self).spec_idle_delay().2,
    {
        if len > 0 {
            Taken::Process { capacity: self.begin_batch(len) }
        } else if !is_open {
            Taken::Closed
        } else {
            Taken::Idle { wait_ms: self.on_idle() }
        }
    }

    /// Nothing was queued: return the milliseconds to wait before looking again.
    pub fn on_idle(&mut self) -> (r: u64)
        ensures
            r == next_delay(
                old(self).spec_idle_delay().0 as int,
                old(self).spec_idle_delay().1 as int,
                old(self).spec_idle_delay().2 as int,
            ),
            final(self).spec_idle_delay() == (r, old(self).spec_idle_delay().1, old(self).spec_idle_delay().2),
            final(self).spec_retry() == old(self).spec_retry(),
            final(self).spec_retry_delay() == old(self).spec_retry_delay(),
            final(self).spec_capacity() == old(self).spec_capacity(),
    {
        self.idle_delay.next()
    }
}

/// Create a sender and receiver pair for a channel of type `T`, whose queue
/// is cleared when it would exceed `max_capacity` items.
///
/// The receiver waits from 1ms growing to 500ms between idle polls, and
/// retries a failed batch up to 10 times, waiting from 50ms growing to 1s.
pub fn bounded<T: Channel>(max_capacity: usize) -> (r: (Sender<T>, Receiver<T>))
    ensures
        r.0.spec_max_capacity() == max_capacity,
        r.1.spec_retry() == (0u32, 10u32),
        r.1.spec_idle_delay() == (0u64, 1u64, 500u64),
        r.1.spec_retry_delay() == (0u64, 50u64, 1000u64),
        r.1.spec_capacity() == (Seq::new(16, |i: int| 1usize), 0usize),
{
    (
        Sender { max_capacity, _marker: PhantomData },
        Receiver {
            idle_delay: Delay::new(1, 500),
            retry: Retry::new(10),
            retry_delay: Delay::new(50, 1000),
            capacity: Capacity::new(),
            _marker: PhantomData,
        },
    )
}

/// Create a channel: a sender and receiver as [`bounded`] makes them, and
/// the state they share, fresh: open, with nothing queued, no watchers and
/// every counter at zero.
pub fn bounded_channel<T: Channel, W>(max_capacity: usize) -> (r: (
    Sender<T>,
    Receiver<T>,
    State<T, W>,
    InternalMetrics,
))
    ensures
        r.0.spec_max_capacity() == max_capacity,
        r.1.spec_retry() == (0u32, 10u32),
        r.1.spec_idle_delay() == (0u64, 1u64, 500u64),
        r.1.spec_retry_delay() == (0u64, 50u64, 1000u64),
        r.1.spec_capacity() == (Seq::new(16, |i: int| 1usize), 0usize),
        r.2@ == (StateModel::<T::Item, W> {
            items: Seq::empty(),
            watchers: Seq::empty(),
            is_open: true,
            is_in_batch: false,
        }),
        r.3.queue_overflow@ == 0,
        r.3.queue_batch_processed@ == 0,
        r.3.queue_batch_failed@ == 0,
        r.3.queue_batch_panicked@ == 0,
        r.3.queue_batch_retry@ == 0,
{
    let (sender, receiver) = bounded::<T>(max_capacity);
    (sender, receiver, State::new(), InternalMetrics::new())
}

/// What a caller waiting for a flush does after a wait ends.
#[derive(Clone, Copy, PartialEq, Eq, Structural, Debug)]
pub enum FlushWait {
    /// The flush happened.
    Flushed,
    /// The time allowed ran out first.
    TimedOut,
    /// Nothing happened yet: wait again, for this many nanoseconds.
    WaitAgain(u128),
}

/// A caller waiting up to `remaining_nanos` for a flush looks at the flush
/// flag, before its first wait and after each wake-up `elapsed_nanos` into
/// the wait: once the flush has happened it's done, whatever the wait
/// reported; otherwise it has timed out if the wait did or no time is left,
/// and waits again for what's left of the time allowed if the wake-up was
/// spurious.
pub fn on_flush_wakeup(flushed: bool, timed_out: bool, remaining_nanos: u128, elapsed_nanos: u128) -> (r: FlushWait)
    ensures
        flushed ==> r == FlushWait::Flushed,
        !flushed && timed_out ==> r == FlushWait::TimedOut,
        !flushed && !timed_out ==> r == if elapsed_nanos <= remaining_nanos {
            FlushWait::WaitAgain((remaining_nanos - elapsed_nanos) as u128)
        } else {
            FlushWait::TimedOut
        },
{
    if flushed {
        FlushWait::Flushed
    } else if timed_out {
        FlushWait::TimedOut
    } else if elapsed_nanos <= remaining_nanos {
        FlushWait::WaitAgain(remaining_nanos - elapsed_nanos)
    } else {
        FlushWait::TimedOut
    }
}

} // verus!
