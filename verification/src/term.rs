//! The parts of writing events to a terminal that decide what is written:
//! the colours that tell traces, spans and levels apart at a glance, and the
//! friendly unit a span's duration is shown in, and the order in which the
//! pieces of an event's first line are written.

use vstd::prelude::*;
use core::time::Duration;
use crate::duration::{duration_as_nanos, nanos_of};
use crate::extent::{Extent, ExtentView};
use crate::timestamp::{Timestamp, ts_le, ts_nanos};
use crate::id::{SpanId, TraceId};
use crate::level::Level;

verus! {

/// Byte `i` of `v` in little-endian order.
pub open spec fn le_byte_u128(v: u128, i: nat) -> u8 {
    ((v >> ((8 * i) as u32)) & 0xff) as u8
}

/// Byte `i` of `v` in little-endian order.
pub open spec fn le_byte_u64(v: u64, i: nat) -> u8 {
    ((v >> ((8 * i) as u32)) & 0xff) as u8
}

/// The exclusive or of the first `n` little-endian bytes of `v`.
pub open spec fn xor_le_bytes_u128(v: u128, n: nat) -> u8
    decreases n,
{
    if n == 0 {
        0
    } else {
        xor_le_bytes_u128(v, (n - 1) as nat) ^ le_byte_u128(v, (n - 1) as nat)
    }
}

/// The exclusive or of the first `n` little-endian bytes of `v`.
pub open spec fn xor_le_bytes_u64(v: u64, n: nat) -> u8
    decreases n,
{
    if n == 0 {
        0
    } else {
        xor_le_bytes_u64(v, (n - 1) as nat) ^ le_byte_u64(v, (n - 1) as nat)
    }
}

/// The 256-colour palette entry a trace is marked with: the exclusive or of
/// the bytes of its id.
pub fn trace_id_color(trace_id: &TraceId) -> (r: u8)
    ensures
        r == xor_le_bytes_u128(trace_id@, 16),
{
    let v = trace_id.to_u128();
    let mut hash: u8 = 0;
    let mut i: u32 = 0;
    while i < 16
        invariant
            i <= 16,
            v == trace_id@,
            hash == xor_le_bytes_u128(v, i as nat),
        decreases 16 - i,
    {
        let b = ((v >> (8 * i)) & 0xff) as u8;
        hash = hash ^ b;
        i = i + 1;
    }
    hash
}

/// The 256-colour palette entry a span is marked with: the exclusive or of
/// the bytes of its id.
pub fn span_id_color(span_id: &SpanId) -> (r: u8)
    ensures
        r == xor_le_bytes_u64(span_id@, 8),
{
    let v = span_id.to_u64();
    let mut hash: u8 = 0;
    let mut i: u32 = 0;
    while i < 8
        invariant
            i <= 8,
            v == span_id@,
            hash == xor_le_bytes_u64(v, i as nat),
        decreases 8 - i,
    {
        let b = ((v >> (8 * i)) & 0xff) as u8;
        hash = hash ^ b;
        i = i + 1;
    }
    hash
}

/// The 256-colour palette entry a level is written in, or `None` for the
/// terminal's own colour.
pub fn level_color(level: &Level) -> (r: Option<u8>)
    ensures
        r == match *level {
            Level::Debug => Some(244u8),
            Level::Info => None,
            Level::Warn => Some(202u8),
            Level::Error => Some(124u8),
        },
{
    match level {
        Level::Debug => Some(244),
        Level::Info => None,
        Level::Warn => Some(202),
        Level::Error => Some(124),
    }
}

/// A duration as a whole number of some unit.
pub struct FriendlyDuration {
    /// The number of whole units.
    pub value: u128,
    /// The unit.
    pub unit: &'static str,
}

/// Nanoseconds in a microsecond.
pub const NANOS_PER_MICRO: u128 = 1000;
/// Nanoseconds in a millisecond.
pub const NANOS_PER_MILLI: u128 = 1_000_000;
/// Nanoseconds in a second.
pub const NANOS_PER_SEC: u128 = 1_000_000_000;
/// Nanoseconds in a minute.
pub const NANOS_PER_MIN: u128 = 60_000_000_000;

/// The number of whole units and the unit a duration of `nanos` is shown
/// in: the largest unit of which it is at least two.
pub open spec fn friendly(nanos: u128) -> (u128, Seq<char>) {
    if nanos < NANOS_PER_MICRO * 2 {
        (nanos, "ns"@)
    } else if nanos < NANOS_PER_MILLI * 2 {
        (nanos / NANOS_PER_MICRO, "μs"@)
    } else if nanos < NANOS_PER_SEC * 2 {
        (nanos / NANOS_PER_MILLI, "ms"@)
    } else if nanos < NANOS_PER_MIN * 2 {
        (nanos / NANOS_PER_SEC, "s"@)
    } else {
        (nanos / NANOS_PER_MIN, "m"@)
    }
}

/// A duration of `nanos` nanoseconds as a whole number of the largest unit
/// of which it is at least two: nanoseconds, microseconds, milliseconds,
/// seconds or minutes.
pub fn friendly_duration_nanos(nanos: u128) -> (r: FriendlyDuration)
    ensures
        (r.value, r.unit@) == friendly(nanos),
{
    if nanos < NANOS_PER_MICRO * 2 {
        FriendlyDuration { value: nanos, unit: "ns" }
    } else if nanos < NANOS_PER_MILLI * 2 {
        FriendlyDuration { value: nanos / NANOS_PER_MICRO, unit: "μs" }
    } else if nanos < NANOS_PER_SEC * 2 {
        FriendlyDuration { value: nanos / NANOS_PER_MILLI, unit: "ms" }
    } else if nanos < NANOS_PER_MIN * 2 {
        FriendlyDuration { value: nanos / NANOS_PER_SEC, unit: "s" }
    } else {
        FriendlyDuration { value: nanos / NANOS_PER_MIN, unit: "m" }
    }
}

/// A duration as a whole number of the largest unit of which it is at least
/// two.
pub fn friendly_duration(duration: Duration) -> (r: FriendlyDuration)
    ensures
        (r.value, r.unit@) == friendly(nanos_of(duration) as u128),
{
    friendly_duration_nanos(duration_as_nanos(&duration))
}

/// One piece of the first line written for an event.
#[derive(Clone, Copy)]
pub enum LinePiece {
    /// The trace: a block in its colour, then the first six hex digits of its id.
    Trace { color: u8, trace_id: TraceId },
    /// The blank left where a span has no trace.
    NoTrace,
    /// The span: a block in its colour, then the first four hex digits of its id.
    Span { color: u8, span_id: SpanId },
    /// A span's end, then its length in nanoseconds, written in friendly units.
    SpanEnd { end: Timestamp, len_nanos: u128 },
    /// A span whose length can't be taken: its start and its end.
    SpanRange { start: Timestamp, end: Timestamp },
    /// A point in time.
    Point { ts: Timestamp },
    /// The event's kind.
    Kind,
    /// The event's level, in its foreground colour if it has one.
    Level { level: Level, fg: Option<u8> },
    /// The event's module.
    Module,
    /// The event's rendered message.
    Message,
}

/// The colour a level is written in, as `level_color` gives it.
pub open spec fn spec_level_color(level: Level) -> Option<u8> {
    match level {
        Level::Debug => Some(244u8),
        Level::Info => None,
        Level::Warn => Some(202u8),
        Level::Error => Some(124u8),
    }
}

/// The pieces that mark an event's trace and span: nothing without a span,
/// and a blank in place of a missing trace.
pub open spec fn spec_id_pieces(trace: Option<TraceId>, span: Option<SpanId>) -> Seq<LinePiece> {
    match span {
        None => Seq::empty(),
        Some(s) => {
            let span_piece = LinePiece::Span { color: xor_le_bytes_u64(s@, 8), span_id: s };
            match trace {
                Some(t) => seq![LinePiece::Trace { color: xor_le_bytes_u128(t@, 16), trace_id: t }, span_piece],
                None => seq![LinePiece::NoTrace, span_piece],
            }
        },
    }
}

/// The piece that shows an event's extent: a span's end and length, or a
/// point.
pub open spec fn spec_extent_pieces(extent: Option<ExtentView>) -> Seq<LinePiece> {
    match extent {
        None => Seq::empty(),
        Some(e) => if e.is_span {
            if ts_le(e.start@, e.end@) {
                seq![LinePiece::SpanEnd { end: e.end, len_nanos: (ts_nanos(e.end@) - ts_nanos(e.start@)) as u128 }]
            } else {
                seq![LinePiece::SpanRange { start: e.start, end: e.end }]
            }
        } else {
            seq![LinePiece::Point { ts: e.end }]
        },
    }
}

/// The first line of an event, piece by piece: its trace and span, its
/// extent, its kind, its level, its module and its message.
pub open spec fn spec_line(
    trace: Option<TraceId>,
    span: Option<SpanId>,
    extent: Option<ExtentView>,
    has_kind: bool,
    level: Option<Level>,
) -> Seq<LinePiece> {
    spec_id_pieces(trace, span) + spec_extent_pieces(extent) + (if has_kind {
        seq![LinePiece::Kind]
    } else {
        Seq::empty()
    }) + match level {
        Some(l) => seq![LinePiece::Level { level: l, fg: spec_level_color(l) }],
        None => Seq::empty(),
    } + seq![LinePiece::Module, LinePiece::Message]
}

/// The pieces of the first line written for an event, in order, given its
/// trace and span ids, its extent, whether it has a kind, and its level.
pub fn line_pieces(
    trace: Option<TraceId>,
    span: Option<SpanId>,
    extent: Option<&Extent>,
    has_kind: bool,
    level: Option<Level>,
) -> (r: Vec<LinePiece>)
    ensures
        r@ == spec_line(
            trace,
            span,
            match extent {
                Some(e) => Some(e@),
                None => None,
            },
            has_kind,
            level,
        ),
{
    let mut pieces: Vec<LinePiece> = Vec::new();
    if let Some(span_id) = span {
        match trace {
            Some(trace_id) => pieces.push(LinePiece::Trace { color: trace_id_color(&trace_id), trace_id }),
            None => pieces.push(LinePiece::NoTrace),
        }
        pieces.push(LinePiece::Span { color: span_id_color(&span_id), span_id });
    }
    let ghost ids = pieces@;
    assert(ids == spec_id_pieces(trace, span));
    if let Some(extent) = extent {
        if extent.is_span() {
            match extent.len() {
                Some(len) => {
                    let len_nanos = duration_as_nanos(&len);
                    pieces.push(LinePiece::SpanEnd { end: *extent.as_point(), len_nanos });
                },
                None => {
                    let range = extent.as_range();
                    pieces.push(LinePiece::SpanRange { start: range.start, end: range.end });
                },
            }
        } else {
            pieces.push(LinePiece::Point { ts: *extent.as_point() });
        }
    }
    let ghost with_extent = pieces@;
    assert(with_extent == ids + spec_extent_pieces(
        match extent {
            Some(e) => Some(e@),
            None => None,
        },
    ));
    if has_kind {
        pieces.push(LinePiece::Kind);
    }
    if let Some(level) = level {
        pieces.push(LinePiece::Level { level, fg: level_color(&level) });
    }
    pieces.push(LinePiece::Module);
    pieces.push(LinePiece::Message);
    pieces
}

} // verus!
