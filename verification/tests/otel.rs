use emit::id::{SpanId, TraceId};
use emit::level::Level;
use emit::extent::Extent;
use emit::otel_log::{plan_log, plan_span, LogProp, SeverityText, SpanOutcome};
use emit::timestamp::Timestamp;

fn prop(key: &str) -> LogProp {
    LogProp { key: key.to_string(), level: None, trace_id: None, span_id: None }
}

#[test]
fn log_plan_reads_level_ids_and_attributes() {
    let props = vec![
        LogProp { level: Some(Level::Warn), ..prop("lvl") },
        LogProp { trace_id: Some(TraceId::new(7)), ..prop("trace_id") },
        LogProp { span_id: Some(SpanId::new(3)), ..prop("span_id") },
        LogProp { span_id: Some(SpanId::new(2)), ..prop("span_parent") },
        prop("user"),
        prop("span_parent"),
    ];
    let plan = plan_log(&props);
    assert!(matches!(plan.severity_number, Some(Level::Warn)));
    assert!(matches!(plan.severity_text, Some(SeverityText::Level(Level::Warn))));
    assert!(plan.trace_id == Some(TraceId::new(7)));
    assert!(plan.span_id == Some(SpanId::new(3)));
    assert_eq!(plan.attributes, vec![4, 5]);
    assert!(plan.span_context() == Some((TraceId::new(7), SpanId::new(3))));
}

#[test]
fn log_plan_keeps_unreadable_ids_as_attributes() {
    let props = vec![prop("lvl"), prop("trace_id"), LogProp { span_id: Some(SpanId::new(1)), ..prop("span_id") }];
    let plan = plan_log(&props);
    assert!(plan.severity_number.is_none());
    assert!(matches!(plan.severity_text, Some(SeverityText::Prop(0))));
    assert!(plan.trace_id.is_none());
    assert_eq!(plan.attributes, vec![1]);
    assert!(plan.span_context().is_none());
}

#[test]
fn span_event_for_active_span_completes_it() {
    let start = Timestamp::from_parts(1, 0).unwrap();
    let end = Timestamp::from_parts(2, 0).unwrap();
    let extent = Extent::span(start..end);
    let props = vec![
        LogProp { level: Some(Level::Error), ..prop("lvl") },
        prop("err"),
        LogProp { span_id: Some(SpanId::new(3)), ..prop("span_id") },
        prop("span_name"),
        prop("user"),
    ];
    let outcome = plan_span(true, true, Some(SpanId::new(3)), Some(SpanId::new(3)), Some(&extent), &props);
    match outcome {
        SpanOutcome::End(plan) => {
            assert!(plan.is_error);
            assert_eq!(plan.exceptions, vec![1]);
            assert_eq!(plan.attributes, vec![4]);
            assert!(plan.end == Some(end));
        }
        _ => panic!("expected the span to end"),
    }
}

#[test]
fn span_plan_keeps_other_levels_as_attributes() {
    let props = vec![LogProp { level: Some(Level::Info), ..prop("lvl") }];
    match plan_span(true, true, Some(SpanId::new(1)), Some(SpanId::new(1)), None, &props) {
        SpanOutcome::End(plan) => {
            assert!(!plan.is_error);
            assert_eq!(plan.attributes, vec![0]);
            assert!(plan.end.is_none());
        }
        _ => panic!("expected the span to end"),
    }
}

#[test]
fn span_plan_unexpected_and_not_span() {
    let props = Vec::new();
    assert!(matches!(plan_span(true, true, Some(SpanId::new(1)), Some(SpanId::new(2)), None, &props), SpanOutcome::Unexpected));
    assert!(matches!(plan_span(true, false, Some(SpanId::new(1)), Some(SpanId::new(1)), None, &props), SpanOutcome::Unexpected));
    assert!(matches!(plan_span(true, true, None, Some(SpanId::new(1)), None, &props), SpanOutcome::Unexpected));
    assert!(matches!(plan_span(false, true, Some(SpanId::new(1)), Some(SpanId::new(1)), None, &props), SpanOutcome::NotSpan));
}
