use emit::batcher::{
    bounded, bounded_channel, Delay, on_flush_wakeup, FlushWait, Batch, BatchError, BatchOutcome, ChannelMetrics, Channel, Counter, InternalMetrics,
    Retrying, State, Taken,
};
use emit::well_known::{METRIC_AGG_COUNT, METRIC_AGG_LAST};

fn items(state: &State<Vec<u32>, &'static str>) -> Vec<u32> {
    state.next_batch.channel.clone()
}

#[test]
fn send_queues_items_in_order() {
    let (sender, _receiver) = bounded::<Vec<u32>>(10);
    let mut state: State<Vec<u32>, &'static str> = State::new();
    let mut metrics = InternalMetrics::new();

    sender.send(&mut state, &mut metrics, 1);
    sender.send(&mut state, &mut metrics, 2);
    sender.send(&mut state, &mut metrics, 3);

    assert_eq!(items(&state), vec![1, 2, 3]);
    assert_eq!(metrics.queue_overflow.sample(), 0);
}

#[test]
fn send_clears_a_full_queue_first() {
    let (sender, _receiver) = bounded::<Vec<u32>>(2);
    let mut state: State<Vec<u32>, &'static str> = State::new();
    let mut metrics = InternalMetrics::new();

    sender.send(&mut state, &mut metrics, 1);
    sender.send(&mut state, &mut metrics, 2);
    assert_eq!(items(&state), vec![1, 2]);

    sender.send(&mut state, &mut metrics, 3);
    assert_eq!(items(&state), vec![3]);
    assert_eq!(metrics.queue_overflow.sample(), 1);
}

#[test]
fn send_on_closed_channel_drops_item() {
    let mut state: State<Vec<u32>, &'static str> = State::new();
    assert!(!state.send(5, 1));
    state.close();
    assert!(!state.is_open);
    assert!(!state.send(5, 2));
    assert_eq!(items(&state), vec![1]);
}

#[test]
fn send_with_zero_capacity_overflows_every_time() {
    let mut state: State<Vec<u32>, &'static str> = State::new();
    assert!(state.send(0, 1));
    assert!(state.send(0, 2));
    assert_eq!(items(&state), vec![2]);
}

#[test]
fn flush_with_nothing_queued_fires_now() {
    let mut state: State<Vec<u32>, &'static str> = State::new();
    assert_eq!(state.on_next_flush("now"), Some("now"));
    assert_eq!(state.next_batch.watchers.into_vec().len(), 0);
}

#[test]
fn flush_on_closed_channel_fires_now() {
    let mut state: State<Vec<u32>, &'static str> = State::new();
    state.send(5, 1);
    state.close();
    assert_eq!(state.on_next_flush("closed"), Some("closed"));
}

#[test]
fn flush_watcher_is_taken_with_next_batch() {
    let mut state: State<Vec<u32>, &'static str> = State::new();
    state.send(10, 1);
    assert_eq!(state.on_next_flush("first"), None);
    state.send(10, 2);
    assert_eq!(state.on_next_flush("second"), None);

    let (batch, is_open) = state.take_batch(Batch::new());
    assert!(is_open);
    assert!(state.is_in_batch);
    assert_eq!(batch.channel, vec![1, 2]);
    assert_eq!(batch.watchers.into_vec(), vec!["first", "second"]);
    assert_eq!(state.next_batch.channel.len(), 0);
}

#[test]
fn flush_while_in_batch_waits_for_next_take() {
    let mut state: State<Vec<u32>, &'static str> = State::new();
    state.send(10, 1);
    let _ = state.take_batch(Batch::new());
    assert!(state.is_in_batch);

    assert_eq!(state.on_next_flush("busy"), None);

    let (batch, _) = state.take_batch(Batch::new());
    assert!(!state.is_in_batch);
    assert!(batch.channel.is_empty());
    assert_eq!(batch.watchers.into_vec(), vec!["busy"]);
}

#[test]
fn take_batch_reports_closed_channel() {
    let mut state: State<Vec<u32>, &'static str> = State::new();
    state.send(10, 7);
    state.close();
    let (batch, is_open) = state.take_batch(Batch::with_capacity(4));
    assert!(!is_open);
    assert_eq!(batch.channel, vec![7]);
}

#[test]
fn receiver_idle_backoff_doubles_up_to_max() {
    let (_sender, mut receiver) = bounded::<Vec<u32>>(10);
    let mut delays = Vec::new();
    for _ in 0..12 {
        delays.push(receiver.on_idle());
    }
    assert_eq!(delays, vec![1, 3, 7, 15, 31, 63, 127, 255, 500, 500, 500, 500]);

    receiver.begin_batch(3);
    assert_eq!(receiver.on_idle(), 1);
}

#[test]
fn receiver_retries_up_to_ten_times() {
    let (_sender, mut receiver) = bounded::<Vec<u32>>(10);
    let mut metrics = InternalMetrics::new();
    receiver.begin_batch(5);

    let mut delays = Vec::new();
    loop {
        match receiver.on_batch_outcome(&mut metrics, BatchOutcome::Failed(Some(5))) {
            Retrying::After(ms) => delays.push(ms),
            Retrying::GiveUp => break,
        }
    }
    assert_eq!(delays, vec![50, 150, 350, 750, 1000, 1000, 1000, 1000, 1000, 1000]);
    assert_eq!(metrics.queue_batch_failed.sample(), 11);
    assert_eq!(metrics.queue_batch_retry.sample(), 10);

    // A new batch starts the count over.
    receiver.begin_batch(5);
    assert_eq!(receiver.on_batch_failed(Some(1)), Retrying::After(50));
}

#[test]
fn receiver_gives_up_without_retryable_items() {
    let (_sender, mut receiver) = bounded::<Vec<u32>>(10);
    let mut metrics = InternalMetrics::new();
    receiver.begin_batch(1);
    assert_eq!(receiver.on_batch_failed(None), Retrying::GiveUp);
    assert_eq!(receiver.on_batch_failed(Some(0)), Retrying::GiveUp);
    assert_eq!(receiver.on_batch_outcome(&mut metrics, BatchOutcome::Processed), Retrying::GiveUp);
    assert_eq!(receiver.on_batch_outcome(&mut metrics, BatchOutcome::Panicked), Retrying::GiveUp);
    assert_eq!(metrics.queue_batch_processed.sample(), 1);
    assert_eq!(metrics.queue_batch_panicked.sample(), 1);
    assert_eq!(metrics.queue_batch_failed.sample(), 0);
}

#[test]
fn begin_batch_sizes_next_batch_for_last_length() {
    let (_sender, mut receiver) = bounded::<Vec<u32>>(10);
    assert_eq!(receiver.begin_batch(0), 1);
    assert_eq!(receiver.begin_batch(40), 40);
    assert_eq!(receiver.begin_batch(3), 3);
}

#[test]
fn bounded_keeps_max_capacity() {
    let (sender, _receiver) = bounded::<Vec<u32>>(1024);
    assert_eq!(sender.max_capacity(), 1024);
}

#[test]
fn counter_wraps_on_overflow() {
    let mut counter = Counter::new();
    counter.increment_by(usize::MAX);
    assert_eq!(counter.sample(), usize::MAX);
    counter.increment();
    assert_eq!(counter.sample(), 0);
}

#[test]
fn channel_metrics_sample_counters_then_queue_length() {
    let mut state: State<Vec<u32>, &'static str> = State::new();
    let mut metrics = InternalMetrics::new();
    let (sender, _receiver) = bounded::<Vec<u32>>(2);
    sender.send(&mut state, &mut metrics, 1);
    sender.send(&mut state, &mut metrics, 2);
    sender.send(&mut state, &mut metrics, 3);

    let sample = ChannelMetrics::new(&metrics, &state).sample_metrics();
    let names: Vec<&str> = sample.iter().map(|m| m.metric.name().as_str()).collect();
    assert_eq!(
        names,
        vec![
            "queue_overflow",
            "queue_batch_processed",
            "queue_batch_failed",
            "queue_batch_panicked",
            "queue_batch_retry",
            "queue_length"
        ]
    );
    assert_eq!(*sample[0].metric.value(), 1);
    assert_eq!(*sample[5].metric.value(), 1);
    assert_eq!(sample[0].metric.kind().as_str(), METRIC_AGG_COUNT);
    assert_eq!(sample[5].metric.kind().as_str(), METRIC_AGG_LAST);
    assert!(sample.iter().all(|m| m.source.as_str() == "emit_batcher"));
}

#[test]
fn batch_error_retryable() {
    let err: BatchError<Vec<u32>> = BatchError::no_retry("failed");
    assert!(err.into_retryable().is_none());

    let err = BatchError::retry("failed", vec![1, 2]);
    assert_eq!(err.into_retryable(), Some(vec![1, 2]));

    let err = BatchError::retry("failed", vec![1, 2]);
    let mapped = err.map_retryable(|r| r.map(|v| v.len()));
    assert_eq!(mapped.into_retryable(), Some(2));
}

#[test]
fn vec_channel_basics() {
    let mut c: Vec<u32> = Channel::new();
    assert!(Channel::is_empty(&c));
    Channel::push(&mut c, 4);
    assert_eq!(Channel::len(&c), 1);
    Channel::clear(&mut c);
    assert!(Channel::is_empty(&c));
}

#[test]
fn flush_wakeup_decisions() {
    assert_eq!(on_flush_wakeup(true, false, 100, 10), FlushWait::Flushed);
    assert_eq!(on_flush_wakeup(true, true, 100, 10), FlushWait::Flushed);
    assert_eq!(on_flush_wakeup(false, true, 100, 10), FlushWait::TimedOut);
    assert_eq!(on_flush_wakeup(true, false, 0, 0), FlushWait::Flushed);
    assert_eq!(on_flush_wakeup(false, false, 100, 10), FlushWait::WaitAgain(90));
    assert_eq!(on_flush_wakeup(false, false, 100, 100), FlushWait::WaitAgain(0));
    assert_eq!(on_flush_wakeup(false, false, 100, 101), FlushWait::TimedOut);
}

#[test]
fn receiver_decides_what_to_do_with_taken_batch() {
    let (_sender, mut receiver) = bounded::<Vec<u32>>(10);
    assert_eq!(receiver.on_taken(0, true), Taken::Idle { wait_ms: 1 });
    assert_eq!(receiver.on_taken(0, true), Taken::Idle { wait_ms: 3 });
    assert_eq!(receiver.on_taken(5, true), Taken::Process { capacity: 5 });
    assert_eq!(receiver.on_taken(0, true), Taken::Idle { wait_ms: 1 });
    assert_eq!(receiver.on_taken(2, false), Taken::Process { capacity: 2 });
    assert_eq!(receiver.on_taken(0, false), Taken::Closed);
}

#[test]
fn batches_taken_join_to_items_sent() {
    let mut state: State<Vec<u32>, &'static str> = State::new();
    let mut taken: Vec<Vec<u32>> = Vec::new();

    state.send(10, 1);
    state.send(10, 2);
    let (batch, open) = state.take_batch(Batch::new());
    assert!(open);
    taken.push(batch.channel);
    let (batch, _) = state.take_batch(Batch::new());
    assert!(batch.channel.is_empty());
    state.send(10, 3);
    state.close();
    let (batch, open) = state.take_batch(Batch::new());
    assert!(!open);
    taken.push(batch.channel);

    assert_eq!(taken, vec![vec![1, 2], vec![3]]);
    assert_eq!(taken.concat(), vec![1, 2, 3]);
    assert!(items(&state).is_empty());

    // Closed and drained: a send is dropped, and the next take is empty.
    state.send(10, 4);
    let (batch, open) = state.take_batch(Batch::new());
    assert!(batch.channel.is_empty());
    assert!(!open);
    let (_sender, mut receiver) = bounded::<Vec<u32>>(10);
    assert!(receiver.on_taken(0, open) == Taken::Closed);
}

#[test]
fn delay_grows_to_max_without_overflow() {
    let mut delay = Delay::new(u64::MAX / 2, u64::MAX);
    assert_eq!(delay.next(), u64::MAX / 2);
    assert_eq!(delay.next(), u64::MAX);
    assert_eq!(delay.next(), u64::MAX);

    let mut delay = Delay::new(1, 10);
    assert_eq!(delay.next(), 1);
    assert_eq!(delay.next(), 3);
    assert_eq!(delay.next(), 7);
    assert_eq!(delay.next(), 10);
    delay.reset();
    assert_eq!(delay.next(), 1);
}

#[test]
fn internal_metrics_sample_counts_from_batcher() {
    let mut m = InternalMetrics::new();
    m.queue_overflow.increment_by(1);
    m.queue_batch_processed.increment_by(2);
    m.queue_batch_failed.increment_by(3);
    m.queue_batch_panicked.increment_by(4);
    m.queue_batch_retry.increment_by(5);
    let sample = m.sample();
    let seen: Vec<(&str, &str, &str, usize)> = sample
        .iter()
        .map(|s| (s.source.as_str(), s.metric.kind().as_str(), s.metric.name().as_str(), *s.metric.value()))
        .collect();
    assert_eq!(
        seen,
        vec![
            ("emit_batcher", "count", "queue_overflow", 1),
            ("emit_batcher", "count", "queue_batch_processed", 2),
            ("emit_batcher", "count", "queue_batch_failed", 3),
            ("emit_batcher", "count", "queue_batch_panicked", 4),
            ("emit_batcher", "count", "queue_batch_retry", 5),
        ]
    );
}

#[test]
fn bounded_channel_starts_fresh() {
    let (sender, _receiver, mut state, metrics) = bounded_channel::<Vec<u32>, &'static str>(4);
    assert_eq!(sender.max_capacity(), 4);
    assert!(state.is_open);
    assert!(items(&state).is_empty());
    assert_eq!(state.on_next_flush("now"), Some("now"));
    let sample = ChannelMetrics::new(&metrics, &state).sample_metrics();
    assert!(sample.iter().all(|m| *m.metric.value() == 0));
}

#[test]
fn counter_counts_every_increment() {
    let mut c = Counter::new();
    c.increment_by(3);
    c.increment();
    c.increment_by(usize::MAX);
    assert_eq!(c.sample(), 3);
}

#[test]
fn receiver_sizes_batches_and_grows_idle_waits() {
    let (_sender, mut receiver) = bounded::<Vec<u32>>(10);
    assert_eq!(receiver.on_taken(5, true), Taken::Process { capacity: 5 });
    assert_eq!(receiver.on_taken(2, true), Taken::Process { capacity: 2 });
    assert_eq!(receiver.on_taken(0, true), Taken::Idle { wait_ms: 1 });
    assert_eq!(receiver.on_taken(0, true), Taken::Idle { wait_ms: 3 });
    assert_eq!(receiver.on_taken(0, true), Taken::Idle { wait_ms: 7 });
    assert_eq!(receiver.on_taken(0, false), Taken::Closed);
}
