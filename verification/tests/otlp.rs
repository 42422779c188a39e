use emit::event::Event;
use emit::extent::Extent;
use emit::otlp_metrics::{
    metric_data, metric_prop_role, metric_window, plan_metric, AggregationTemporality, MetricData,
    MetricPropRole,
};
use emit::path::Path;
use emit::str::Str;
use emit::template::Template;
use emit::timestamp::Timestamp;
use emit::otlp::{
    grpc, http, logs_grpc_proto, logs_http_json, logs_http_proto, logs_json, logs_proto,
    metrics_grpc_proto, metrics_http_json, metrics_proto, new, telemetry_sdk_language,
    telemetry_sdk_name, telemetry_sdk_version, traces_grpc_proto, traces_http_proto,
    traces_json, Encoding, OtlpLogsBuilder, OtlpMetricsBuilder, OtlpTracesBuilder, Protocol,
    LOGS_GRPC_PATH, METRICS_GRPC_PATH, TRACES_GRPC_PATH,
};

#[test]
fn sdk_resource_values() {
    assert_eq!(telemetry_sdk_name(), "emit_otlp");
    assert_eq!(telemetry_sdk_language(), "rust");
    assert_eq!(telemetry_sdk_version(), "0.11.0-alpha.1");
}

#[test]
fn grpc_proto_uses_service_paths() {
    let logs = logs_grpc_proto(String::from("http://localhost:4319"));
    assert_eq!(logs.encoding, Encoding::Proto);
    assert_eq!(logs.transport.protocol, Protocol::Grpc);
    assert_eq!(logs.transport.url_base, "http://localhost:4319");
    assert_eq!(logs.transport.url_path, Some(LOGS_GRPC_PATH));
    assert_eq!(
        LOGS_GRPC_PATH,
        "opentelemetry.proto.collector.logs.v1.LogsService/Export"
    );

    let traces = traces_grpc_proto(String::from("http://localhost:4319"));
    assert_eq!(traces.transport.url_path, Some(TRACES_GRPC_PATH));

    let metrics = metrics_grpc_proto(String::from("http://localhost:4319"));
    assert_eq!(metrics.transport.url_path, Some(METRICS_GRPC_PATH));
}

#[test]
fn http_endpoints_are_used_as_given() {
    let logs = logs_http_proto(String::from("http://localhost:4318/v1/logs"));
    assert_eq!(logs.transport.protocol, Protocol::Http);
    assert_eq!(logs.transport.url_path, None);
    assert_eq!(logs.encoding, Encoding::Proto);

    let logs = logs_http_json(String::from("http://localhost:4318/v1/logs"));
    assert_eq!(logs.encoding, Encoding::Json);
    assert_eq!(logs.transport.url_path, None);

    let traces = traces_http_proto(String::from("http://localhost:4318/v1/traces"));
    assert_eq!(traces.transport.url_path, None);

    let metrics = metrics_http_json(String::from("http://localhost:4318/v1/metrics"));
    assert_eq!(metrics.encoding, Encoding::Json);
}

#[test]
fn proto_over_grpc_transport_sets_path_but_json_does_not() {
    let logs = logs_proto(grpc(String::from("http://collector")));
    assert_eq!(logs.transport.url_path, Some(LOGS_GRPC_PATH));
    let logs = logs_json(grpc(String::from("http://collector")));
    assert_eq!(logs.transport.url_path, None);
    let logs = logs_proto(http(String::from("http://collector/v1/logs")));
    assert_eq!(logs.transport.url_path, None);

    let traces = traces_json(http(String::from("http://collector/v1/traces")));
    assert_eq!(traces.encoding, Encoding::Json);
    let metrics = metrics_proto(grpc(String::from("http://collector")));
    assert_eq!(metrics.transport.url_path, Some(METRICS_GRPC_PATH));
}

#[test]
fn transport_options() {
    let t = http(String::from("http://collector"))
        .allow_compression(false)
        .header(String::from("authorization"), String::from("token"))
        .header(String::from("x-b"), String::from("2"));
    assert!(!t.allow_compression);
    assert_eq!(
        t.headers,
        vec![
            (String::from("authorization"), String::from("token")),
            (String::from("x-b"), String::from("2"))
        ]
    );
    assert_eq!(t.url_base, "http://collector");
    let t = grpc(String::from("http://collector"));
    assert!(t.allow_compression);
    assert!(t.headers.is_empty());
}

#[test]
fn builder_collects_signals() {
    let b = new();
    assert!(b.logs.is_none() && b.traces.is_none() && b.metrics.is_none());
    let b = b
        .logs(OtlpLogsBuilder::http_json(String::from("http://c/v1/logs")))
        .traces(OtlpTracesBuilder::grpc_proto(String::from("http://c")))
        .metrics(OtlpMetricsBuilder::http_proto(String::from("http://c/v1/metrics")));
    assert!(b.logs.is_some() && b.traces.is_some() && b.metrics.is_some());
    assert_eq!(b.traces.unwrap().transport.url_path, Some(TRACES_GRPC_PATH));
}

fn metric_props() -> Vec<(Str<'static>, u32)> {
    vec![
        (Str::new("metric_name"), 0),
        (Str::new("metric_value"), 1),
        (Str::new("metric_unit"), 2),
        (Str::new("host"), 3),
        (Str::new("trace_id"), 4),
        (Str::new("metric_unit"), 5),
        (Str::new("region"), 6),
    ]
}

#[test]
fn metric_window_of_span_point_and_none() {
    let start = Timestamp::from_parts(1, 5).unwrap();
    let end = Timestamp::from_parts(3, 0).unwrap();
    assert_eq!(
        metric_window(Some(&Extent::span(start..end))),
        (1_000_000_005, 3_000_000_000, AggregationTemporality::Delta)
    );
    assert_eq!(
        metric_window(Some(&Extent::point(end))),
        (3_000_000_000, 3_000_000_000, AggregationTemporality::Cumulative)
    );
    assert_eq!(metric_window(None), (0, 0, AggregationTemporality::Unspecified));
}

#[test]
fn metric_data_by_aggregation() {
    assert_eq!(metric_data(Some("sum")), MetricData::Sum { is_monotonic: false });
    assert_eq!(metric_data(Some("count")), MetricData::Sum { is_monotonic: true });
    assert_eq!(metric_data(Some("last")), MetricData::Gauge);
    assert_eq!(metric_data(None), MetricData::Gauge);
}

#[test]
fn metric_prop_roles() {
    assert_eq!(metric_prop_role("metric_unit"), MetricPropRole::Unit);
    assert_eq!(metric_prop_role("metric_value"), MetricPropRole::Reserved);
    assert_eq!(metric_prop_role("span_parent"), MetricPropRole::Reserved);
    assert_eq!(metric_prop_role("event_kind"), MetricPropRole::Reserved);
    assert_eq!(metric_prop_role("host"), MetricPropRole::Attribute);
}

#[test]
fn plan_metric_for_metric_event() {
    let end = Timestamp::from_parts(2, 0).unwrap();
    let evt = Event::new(Path::new("app"), Some(Extent::point(end)), Template::literal("requests"), metric_props());
    let plan = plan_metric(&evt, Some("metric"), Some("count")).unwrap();
    assert_eq!(plan.start_time_unix_nano, 2_000_000_000);
    assert_eq!(plan.time_unix_nano, 2_000_000_000);
    assert_eq!(plan.aggregation_temporality, AggregationTemporality::Cumulative);
    assert_eq!(plan.data, MetricData::Sum { is_monotonic: true });
    assert_eq!(plan.name, Some(0));
    assert_eq!(plan.unit, Some(5));
    assert_eq!(plan.attributes, vec![3, 6]);
}

#[test]
fn plan_metric_skips_other_events() {
    let evt = Event::new(Path::new("app"), None, Template::literal("requests"), metric_props());
    assert!(plan_metric(&evt, Some("span"), None).is_none());
    assert!(plan_metric(&evt, None, None).is_none());
    let no_value: Vec<(Str<'static>, u32)> = vec![(Str::new("metric_name"), 0)];
    let evt = Event::new(Path::new("app"), None, Template::literal("requests"), no_value);
    assert!(plan_metric(&evt, Some("metric"), None).is_none());
}
