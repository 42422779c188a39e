//! Configuration of an emitter that sends events over the OpenTelemetry
//! Protocol: the transport, encoding and destination of each signal.

use vstd::prelude::*;

verus! {

/// A value to use as `telemetry.sdk.name` in a resource.
pub fn telemetry_sdk_name() -> (r: &'static str)
    ensures
        r@ == "emit_otlp"@,
{
    "emit_otlp"
}

/// A value to use as `telemetry.sdk.version` in a resource.
pub fn telemetry_sdk_version() -> (r: &'static str)
    ensures
        r@ == "0.11.0-alpha.1"@,
{
    "0.11.0-alpha.1"
}

/// A value to use as `telemetry.sdk.language` in a resource.
pub fn telemetry_sdk_language() -> (r: &'static str)
    ensures
        r@ == "rust"@,
{
    "rust"
}

/// The protocol requests are sent with.
#[derive(Clone, Copy, PartialEq, Eq, Structural, Debug)]
pub enum Protocol {
    /// Plain HTTP.
    Http,
    /// gRPC, which routes requests by a well-known path.
    Grpc,
}

/// The encoding of request payloads.
#[derive(Clone, Copy, PartialEq, Eq, Structural, Debug)]
pub enum Encoding {
    /// Protobuf.
    Proto,
    /// JSON.
    Json,
}

/// A builder for the transport of a signal: where and how requests are sent.
pub struct OtlpTransportBuilder {
    /// The protocol.
    pub protocol: Protocol,
    /// The endpoint.
    pub url_base: String,
    /// The path appended to the endpoint, if any.
    pub url_path: Option<&'static str>,
    /// Extra headers sent with each request.
    pub headers: Vec<(String, String)>,
    /// Whether payloads may be compressed.
    pub allow_compression: bool,
}

impl OtlpTransportBuilder {
    /// A transport sending to `dst` over gRPC.
    pub fn grpc(dst: String) -> (r: Self)
        ensures
            r.protocol == Protocol::Grpc,
            r.url_base@ == dst@,
            r.url_path is None,
            r.headers@.len() == 0,
            r.allow_compression,
    {
        OtlpTransportBuilder { protocol: Protocol::Grpc, url_base: dst, url_path: None, headers: Vec::new(), allow_compression: true }
    }

    /// A transport sending to `dst` over HTTP; `dst` is the complete endpoint.
    pub fn http(dst: String) -> (r: Self)
        ensures
            r.protocol == Protocol::Http,
            r.url_base@ == dst@,
            r.url_path is None,
            r.headers@.len() == 0,
            r.allow_compression,
    {
        OtlpTransportBuilder { protocol: Protocol::Http, url_base: dst, url_path: None, headers: Vec::new(), allow_compression: true }
    }

    /// Allow or forbid compressing payloads.
    pub fn allow_compression(self, allow: bool) -> (r: Self)
        ensures
            r.allow_compression == allow,
            r.protocol == self.protocol,
            r.url_base@ == self.url_base@,
            r.url_path == self.url_path,
            r.headers@ == self.headers@,
    {
        OtlpTransportBuilder { allow_compression: allow, ..self }
    }

    /// Add a header to send with each request.
    pub fn header(self, name: String, value: String) -> (r: Self)
        ensures
            r.headers@ == self.headers@.push((name, value)),
            r.protocol == self.protocol,
            r.url_base@ == self.url_base@,
            r.url_path == self.url_path,
            r.allow_compression == self.allow_compression,
    {
        let mut headers = self.headers;
        headers.push((name, value));
        OtlpTransportBuilder { headers, ..self }
    }
}

/// A builder for an emitter over OTLP: which signals it sends where.
pub struct OtlpBuilder {
    /// The logs signal, if configured.
    pub logs: Option<OtlpLogsBuilder>,
    /// The traces signal, if configured.
    pub traces: Option<OtlpTracesBuilder>,
    /// The metrics signal, if configured.
    pub metrics: Option<OtlpMetricsBuilder>,
}

impl OtlpBuilder {
    /// A builder with no signals configured.
    pub fn new() -> (r: Self)
        ensures
            r.logs is None && r.traces is None && r.metrics is None,
    {
        OtlpBuilder { logs: None, traces: None, metrics: None }
    }

    /// Configure the logs signal.
    pub fn logs(self, builder: OtlpLogsBuilder) -> (r: Self)
        ensures
            r.logs == Some(builder),
            r.traces == self.traces,
            r.metrics == self.metrics,
    {
        OtlpBuilder { logs: Some(builder), ..self }
    }

    /// Configure the traces signal.
    pub fn traces(self, builder: OtlpTracesBuilder) -> (r: Self)
        ensures
            r.traces == Some(builder),
            r.logs == self.logs,
            r.metrics == self.metrics,
    {
        OtlpBuilder { traces: Some(builder), ..self }
    }

    /// Configure the metrics signal.
    pub fn metrics(self, builder: OtlpMetricsBuilder) -> (r: Self)
        ensures
            r.metrics == Some(builder),
            r.logs == self.logs,
            r.traces == self.traces,
    {
        OtlpBuilder { metrics: Some(builder), ..self }
    }
}

/// The gRPC path of the service that exports the logs signal.
pub const LOGS_GRPC_PATH: &'static str = "opentelemetry.proto.collector.logs.v1.LogsService/Export";

/// A builder for the logs signal.
pub struct OtlpLogsBuilder {
    /// The encoding of payloads.
    pub encoding: Encoding,
    /// The transport requests are sent with.
    pub transport: OtlpTransportBuilder,
}

impl OtlpLogsBuilder {
    /// The logs signal with protobuf encoding over the given transport; over
    /// gRPC the request path is the export service's.
    pub fn proto(transport: OtlpTransportBuilder) -> (r: Self)
        ensures
            r.encoding == Encoding::Proto,
            r.transport.protocol == transport.protocol,
            r.transport.url_base@ == transport.url_base@,
            r.transport.headers@ == transport.headers@,
            r.transport.allow_compression == transport.allow_compression,
            r.transport.url_path == if transport.protocol == Protocol::Grpc {
                Some(LOGS_GRPC_PATH)
            } else {
                transport.url_path
            },
    {
        let mut transport = transport;
        if let Protocol::Grpc = transport.protocol {
            transport.url_path = Some(LOGS_GRPC_PATH);
        }
        OtlpLogsBuilder { encoding: Encoding::Proto, transport }
    }

    /// The logs signal with JSON encoding over the given transport.
    pub fn json(transport: OtlpTransportBuilder) -> (r: Self)
        ensures
            r.encoding == Encoding::Json,
            r.transport == transport,
    {
        OtlpLogsBuilder { encoding: Encoding::Json, transport }
    }

    /// The logs signal with protobuf over HTTP to the complete endpoint `dst`.
    pub fn http_proto(dst: String) -> (r: Self)
        ensures
            r.encoding == Encoding::Proto,
            r.transport.protocol == Protocol::Http,
            r.transport.url_base@ == dst@,
            r.transport.headers@.len() == 0,
            r.transport.allow_compression,
            r.transport.url_path is None,
    {
        Self::proto(OtlpTransportBuilder::http(dst))
    }

    /// The logs signal with protobuf over gRPC to the service root `dst`.
    pub fn grpc_proto(dst: String) -> (r: Self)
        ensures
            r.encoding == Encoding::Proto,
            r.transport.protocol == Protocol::Grpc,
            r.transport.url_base@ == dst@,
            r.transport.headers@.len() == 0,
            r.transport.allow_compression,
            r.transport.url_path == Some(LOGS_GRPC_PATH),
    {
        Self::proto(OtlpTransportBuilder::grpc(dst))
    }

    /// The logs signal with JSON over HTTP to the complete endpoint `dst`.
    pub fn http_json(dst: String) -> (r: Self)
        ensures
            r.encoding == Encoding::Json,
            r.transport.protocol == Protocol::Http,
            r.transport.url_base@ == dst@,
            r.transport.headers@.len() == 0,
            r.transport.allow_compression,
            r.transport.url_path is None,
    {
        Self::json(OtlpTransportBuilder::http(dst))
    }
}

/// A builder for the logs signal with protobuf over gRPC to the service root `dst`.
pub fn logs_grpc_proto(dst: String) -> (r: OtlpLogsBuilder)
    ensures
        r.encoding == Encoding::Proto,
        r.transport.protocol == Protocol::Grpc,
        r.transport.url_base@ == dst@,
        r.transport.headers@.len() == 0,
        r.transport.allow_compression,
        r.transport.url_path == Some(LOGS_GRPC_PATH),
{
    OtlpLogsBuilder::grpc_proto(dst)
}

/// A builder for the logs signal with protobuf over HTTP to the complete endpoint `dst`.
pub fn logs_http_proto(dst: String) -> (r: OtlpLogsBuilder)
    ensures
        r.encoding == Encoding::Proto,
        r.transport.protocol == Protocol::Http,
        r.transport.url_base@ == dst@,
        r.transport.headers@.len() == 0,
        r.transport.allow_compression,
        r.transport.url_path is None,
{
    OtlpLogsBuilder::http_proto(dst)
}

/// A builder for the logs signal with JSON over HTTP to the complete endpoint `dst`.
pub fn logs_http_json(dst: String) -> (r: OtlpLogsBuilder)
    ensures
        r.encoding == Encoding::Json,
        r.transport.protocol == Protocol::Http,
        r.transport.url_base@ == dst@,
        r.transport.headers@.len() == 0,
        r.transport.allow_compression,
        r.transport.url_path is None,
{
    OtlpLogsBuilder::http_json(dst)
}

/// A builder for the logs signal with protobuf over the given transport.
pub fn logs_proto(transport: OtlpTransportBuilder) -> (r: OtlpLogsBuilder)
    ensures
        r.encoding == Encoding::Proto,
        r.transport.protocol == transport.protocol,
        r.transport.url_base@ == transport.url_base@,
        r.transport.url_path == if transport.protocol == Protocol::Grpc {
            Some(LOGS_GRPC_PATH)
        } else {
            transport.url_path
        },
{
    OtlpLogsBuilder::proto(transport)
}

/// A builder for the logs signal with JSON over the given transport.
pub fn logs_json(transport: OtlpTransportBuilder) -> (r: OtlpLogsBuilder)
    ensures
        r.encoding == Encoding::Json,
        r.transport == transport,
{
    OtlpLogsBuilder::json(transport)
}

/// The gRPC path of the service that exports the traces signal.
pub const TRACES_GRPC_PATH: &'static str = "opentelemetry.proto.collector.trace.v1.TraceService/Export";

/// A builder for the traces signal.
pub struct OtlpTracesBuilder {
    /// The encoding of payloads.
    pub encoding: Encoding,
    /// The transport requests are sent with.
    pub transport: OtlpTransportBuilder,
}

impl OtlpTracesBuilder {
    /// The traces signal with protobuf encoding over the given transport; over
    /// gRPC the request path is the export service's.
    pub fn proto(transport: OtlpTransportBuilder) -> (r: Self)
        ensures
            r.encoding == Encoding::Proto,
            r.transport.protocol == transport.protocol,
            r.transport.url_base@ == transport.url_base@,
            r.transport.headers@ == transport.headers@,
            r.transport.allow_compression == transport.allow_compression,
            r.transport.url_path == if transport.protocol == Protocol::Grpc {
                Some(TRACES_GRPC_PATH)
            } else {
                transport.url_path
            },
    {
        let mut transport = transport;
        if let Protocol::Grpc = transport.protocol {
            transport.url_path = Some(TRACES_GRPC_PATH);
        }
        OtlpTracesBuilder { encoding: Encoding::Proto, transport }
    }

    /// The traces signal with JSON encoding over the given transport.
    pub fn json(transport: OtlpTransportBuilder) -> (r: Self)
        ensures
            r.encoding == Encoding::Json,
            r.transport == transport,
    {
        OtlpTracesBuilder { encoding: Encoding::Json, transport }
    }

    /// The traces signal with protobuf over HTTP to the complete endpoint `dst`.
    pub fn http_proto(dst: String) -> (r: Self)
        ensures
            r.encoding == Encoding::Proto,
            r.transport.protocol == Protocol::Http,
            r.transport.url_base@ == dst@,
            r.transport.headers@.len() == 0,
            r.transport.allow_compression,
            r.transport.url_path is None,
    {
        Self::proto(OtlpTransportBuilder::http(dst))
    }

    /// The traces signal with protobuf over gRPC to the service root `dst`.
    pub fn grpc_proto(dst: String) -> (r: Self)
        ensures
            r.encoding == Encoding::Proto,
            r.transport.protocol == Protocol::Grpc,
            r.transport.url_base@ == dst@,
            r.transport.headers@.len() == 0,
            r.transport.allow_compression,
            r.transport.url_path == Some(TRACES_GRPC_PATH),
    {
        Self::proto(OtlpTransportBuilder::grpc(dst))
    }

    /// The traces signal with JSON over HTTP to the complete endpoint `dst`.
    pub fn http_json(dst: String) -> (r: Self)
        ensures
            r.encoding == Encoding::Json,
            r.transport.protocol == Protocol::Http,
            r.transport.url_base@ == dst@,
            r.transport.headers@.len() == 0,
            r.transport.allow_compression,
            r.transport.url_path is None,
    {
        Self::json(OtlpTransportBuilder::http(dst))
    }
}

/// A builder for the traces signal with protobuf over gRPC to the service root `dst`.
pub fn traces_grpc_proto(dst: String) -> (r: OtlpTracesBuilder)
    ensures
        r.encoding == Encoding::Proto,
        r.transport.protocol == Protocol::Grpc,
        r.transport.url_base@ == dst@,
        r.transport.headers@.len() == 0,
        r.transport.allow_compression,
        r.transport.url_path == Some(TRACES_GRPC_PATH),
{
    OtlpTracesBuilder::grpc_proto(dst)
}

/// A builder for the traces signal with protobuf over HTTP to the complete endpoint `dst`.
pub fn traces_http_proto(dst: String) -> (r: OtlpTracesBuilder)
    ensures
        r.encoding == Encoding::Proto,
        r.transport.protocol == Protocol::Http,
        r.transport.url_base@ == dst@,
        r.transport.headers@.len() == 0,
        r.transport.allow_compression,
        r.transport.url_path is None,
{
    OtlpTracesBuilder::http_proto(dst)
}

/// A builder for the traces signal with JSON over HTTP to the complete endpoint `dst`.
pub fn traces_http_json(dst: String) -> (r: OtlpTracesBuilder)
    ensures
        r.encoding == Encoding::Json,
        r.transport.protocol == Protocol::Http,
        r.transport.url_base@ == dst@,
        r.transport.headers@.len() == 0,
        r.transport.allow_compression,
        r.transport.url_path is None,
{
    OtlpTracesBuilder::http_json(dst)
}

/// A builder for the traces signal with protobuf over the given transport.
pub fn traces_proto(transport: OtlpTransportBuilder) -> (r: OtlpTracesBuilder)
    ensures
        r.encoding == Encoding::Proto,
        r.transport.protocol == transport.protocol,
        r.transport.url_base@ == transport.url_base@,
        r.transport.url_path == if transport.protocol == Protocol::Grpc {
            Some(TRACES_GRPC_PATH)
        } else {
            transport.url_path
        },
{
    OtlpTracesBuilder::proto(transport)
}

/// A builder for the traces signal with JSON over the given transport.
pub fn traces_json(transport: OtlpTransportBuilder) -> (r: OtlpTracesBuilder)
    ensures
        r.encoding == Encoding::Json,
        r.transport == transport,
{
    OtlpTracesBuilder::json(transport)
}

/// The gRPC path of the service that exports the metrics signal.
pub const METRICS_GRPC_PATH: &'static str = "opentelemetry.proto.collector.metrics.v1.MetricsService/Export";

/// A builder for the metrics signal.
pub struct OtlpMetricsBuilder {
    /// The encoding of payloads.
    pub encoding: Encoding,
    /// The transport requests are sent with.
    pub transport: OtlpTransportBuilder,
}

impl OtlpMetricsBuilder {
    /// The metrics signal with protobuf encoding over the given transport; over
    /// gRPC the request path is the export service's.
    pub fn proto(transport: OtlpTransportBuilder) -> (r: Self)
        ensures
            r.encoding == Encoding::Proto,
            r.transport.protocol == transport.protocol,
            r.transport.url_base@ == transport.url_base@,
            r.transport.headers@ == transport.headers@,
            r.transport.allow_compression == transport.allow_compression,
            r.transport.url_path == if transport.protocol == Protocol::Grpc {
                Some(METRICS_GRPC_PATH)
            } else {
                transport.url_path
            },
    {
        let mut transport = transport;
        if let Protocol::Grpc = transport.protocol {
            transport.url_path = Some(METRICS_GRPC_PATH);
        }
        OtlpMetricsBuilder { encoding: Encoding::Proto, transport }
    }

    /// The metrics signal with JSON encoding over the given transport.
    pub fn json(transport: OtlpTransportBuilder) -> (r: Self)
        ensures
            r.encoding == Encoding::Json,
            r.transport == transport,
    {
        OtlpMetricsBuilder { encoding: Encoding::Json, transport }
    }

    /// The metrics signal with protobuf over HTTP to the complete endpoint `dst`.
    pub fn http_proto(dst: String) -> (r: Self)
        ensures
            r.encoding == Encoding::Proto,
            r.transport.protocol == Protocol::Http,
            r.transport.url_base@ == dst@,
            r.transport.headers@.len() == 0,
            r.transport.allow_compression,
            r.transport.url_path is None,
    {
        Self::proto(OtlpTransportBuilder::http(dst))
    }

    /// The metrics signal with protobuf over gRPC to the service root `dst`.
    pub fn grpc_proto(dst: String) -> (r: Self)
        ensures
            r.encoding == Encoding::Proto,
            r.transport.protocol == Protocol::Grpc,
            r.transport.url_base@ == dst@,
            r.transport.headers@.len() == 0,
            r.transport.allow_compression,
            r.transport.url_path == Some(METRICS_GRPC_PATH),
    {
        Self::proto(OtlpTransportBuilder::grpc(dst))
    }

    /// The metrics signal with JSON over HTTP to the complete endpoint `dst`.
    pub fn http_json(dst: String) -> (r: Self)
        ensures
            r.encoding == Encoding::Json,
            r.transport.protocol == Protocol::Http,
            r.transport.url_base@ == dst@,
            r.transport.headers@.len() == 0,
            r.transport.allow_compression,
            r.transport.url_path is None,
    {
        Self::json(OtlpTransportBuilder::http(dst))
    }
}

/// A builder for the metrics signal with protobuf over gRPC to the service root `dst`.
pub fn metrics_grpc_proto(dst: String) -> (r: OtlpMetricsBuilder)
    ensures
        r.encoding == Encoding::Proto,
        r.transport.protocol == Protocol::Grpc,
        r.transport.url_base@ == dst@,
        r.transport.headers@.len() == 0,
        r.transport.allow_compression,
        r.transport.url_path == Some(METRICS_GRPC_PATH),
{
    OtlpMetricsBuilder::grpc_proto(dst)
}

/// A builder for the metrics signal with protobuf over HTTP to the complete endpoint `dst`.
pub fn metrics_http_proto(dst: String) -> (r: OtlpMetricsBuilder)
    ensures
        r.encoding == Encoding::Proto,
        r.transport.protocol == Protocol::Http,
        r.transport.url_base@ == dst@,
        r.transport.headers@.len() == 0,
        r.transport.allow_compression,
        r.transport.url_path is None,
{
    OtlpMetricsBuilder::http_proto(dst)
}

/// A builder for the metrics signal with JSON over HTTP to the complete endpoint `dst`.
pub fn metrics_http_json(dst: String) -> (r: OtlpMetricsBuilder)
    ensures
        r.encoding == Encoding::Json,
        r.transport.protocol == Protocol::Http,
        r.transport.url_base@ == dst@,
        r.transport.headers@.len() == 0,
        r.transport.allow_compression,
        r.transport.url_path is None,
{
    OtlpMetricsBuilder::http_json(dst)
}

/// A builder for the metrics signal with protobuf over the given transport.
pub fn metrics_proto(transport: OtlpTransportBuilder) -> (r: OtlpMetricsBuilder)
    ensures
        r.encoding == Encoding::Proto,
        r.transport.protocol == transport.protocol,
        r.transport.url_base@ == transport.url_base@,
        r.transport.url_path == if transport.protocol == Protocol::Grpc {
            Some(METRICS_GRPC_PATH)
        } else {
            transport.url_path
        },
{
    OtlpMetricsBuilder::proto(transport)
}

/// A builder for the metrics signal with JSON over the given transport.
pub fn metrics_json(transport: OtlpTransportBuilder) -> (r: OtlpMetricsBuilder)
    ensures
        r.encoding == Encoding::Json,
        r.transport == transport,
{
    OtlpMetricsBuilder::json(transport)
}

/// Start a builder for an emitter over OTLP, with no signals configured.
pub fn new() -> (r: OtlpBuilder)
    ensures
        r.logs is None && r.traces is None && r.metrics is None,
{
    OtlpBuilder::new()
}

/// A transport builder for gRPC to the service root `dst`.
pub fn grpc(dst: String) -> (r: OtlpTransportBuilder)
    ensures
        r.protocol == Protocol::Grpc,
        r.url_base@ == dst@,
        r.url_path is None,
        r.headers@.len() == 0,
        r.allow_compression,
{
    OtlpTransportBuilder::grpc(dst)
}

/// A transport builder for HTTP to the complete endpoint `dst`.
pub fn http(dst: String) -> (r: OtlpTransportBuilder)
    ensures
        r.protocol == Protocol::Http,
        r.url_base@ == dst@,
        r.url_path is None,
        r.headers@.len() == 0,
        r.allow_compression,
{
    OtlpTransportBuilder::http(dst)
}

} // verus!
