use emit::id::{SpanId, TraceId};
use emit::level::Level;
use emit::extent::Extent;
use emit::term::{
    friendly_duration, friendly_duration_nanos, level_color, line_pieces, span_id_color, trace_id_color, LinePiece,
};
use emit::timestamp::Timestamp;
use std::time::Duration;

#[test]
fn id_colors_xor_bytes() {
    assert_eq!(trace_id_color(&TraceId::new(0x0102)), 3);
    assert_eq!(trace_id_color(&TraceId::new(u128::MAX)), 0);
    assert_eq!(trace_id_color(&TraceId::new(0xff << 120)), 0xff);
    assert_eq!(span_id_color(&SpanId::new(0x0f00_0000_0000_00f0)), 0xff);
    assert_eq!(span_id_color(&SpanId::new(1)), 1);
}

#[test]
fn level_colors() {
    assert_eq!(level_color(&Level::Debug), Some(244));
    assert_eq!(level_color(&Level::Info), None);
    assert_eq!(level_color(&Level::Warn), Some(202));
    assert_eq!(level_color(&Level::Error), Some(124));
}

fn friendly(nanos: u128) -> (u128, &'static str) {
    let d = friendly_duration_nanos(nanos);
    (d.value, d.unit)
}

#[test]
fn friendly_duration_units() {
    assert_eq!(friendly(0), (0, "ns"));
    assert_eq!(friendly(1999), (1999, "ns"));
    assert_eq!(friendly(2000), (2, "μs"));
    assert_eq!(friendly(1_999_999), (1999, "μs"));
    assert_eq!(friendly(2_000_000), (2, "ms"));
    assert_eq!(friendly(1_999_999_999), (1999, "ms"));
    assert_eq!(friendly(2_000_000_000), (2, "s"));
    assert_eq!(friendly(119_999_999_999), (119, "s"));
    assert_eq!(friendly(120_000_000_000), (2, "m"));
    let d = friendly_duration(Duration::from_secs(300));
    assert_eq!((d.value, d.unit), (5, "m"));
}

#[test]
fn line_pieces_for_span_with_trace() {
    let start = Timestamp::from_parts(10, 0).unwrap();
    let end = Timestamp::from_parts(10, 2_500).unwrap();
    let extent = Extent::span(start..end);
    let pieces = line_pieces(Some(TraceId::new(0x0102)), Some(SpanId::new(1)), Some(&extent), true, Some(Level::Warn));
    assert_eq!(pieces.len(), 7);
    assert!(matches!(pieces[0], LinePiece::Trace { color: 3, .. }));
    assert!(matches!(pieces[1], LinePiece::Span { color: 1, .. }));
    match pieces[2] {
        LinePiece::SpanEnd { end: e, len_nanos } => {
            assert!(e == end);
            assert_eq!(len_nanos, 2_500);
        }
        _ => panic!("expected the span's end"),
    }
    assert!(matches!(pieces[3], LinePiece::Kind));
    assert!(matches!(pieces[4], LinePiece::Level { level: Level::Warn, fg: Some(202) }));
    assert!(matches!(pieces[5], LinePiece::Module));
    assert!(matches!(pieces[6], LinePiece::Message));
}

#[test]
fn line_pieces_for_point_without_trace() {
    let ts = Timestamp::from_parts(5, 0).unwrap();
    let extent = Extent::point(ts);
    let pieces = line_pieces(None, Some(SpanId::new(1)), Some(&extent), false, Some(Level::Info));
    assert_eq!(pieces.len(), 6);
    assert!(matches!(pieces[0], LinePiece::NoTrace));
    assert!(matches!(pieces[2], LinePiece::Point { .. }));
    assert!(matches!(pieces[3], LinePiece::Level { level: Level::Info, fg: None }));

    let pieces = line_pieces(Some(TraceId::new(1)), None, None, false, None);
    assert_eq!(pieces.len(), 2);
    assert!(matches!(pieces[0], LinePiece::Module));
    assert!(matches!(pieces[1], LinePiece::Message));
}
