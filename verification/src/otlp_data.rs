//! The shapes of OTLP export requests: a request holds resources, each
//! resource holds the scopes that produced its records, and each scope holds
//! the records themselves. The wire encoding of these shapes is done by the
//! serializer that drives them.

use vstd::prelude::*;

verus! {

/// The instrumentation scope that produced a set of records.
pub struct InstrumentationScope<'a, N: ?Sized = str> {
    /// The name of the scope.
    pub name: &'a N,
}

/// A request exporting log records, grouped by resource.
pub struct ExportLogsServiceRequest<'a, RL: ?Sized> {
    /// The log records of each resource.
    pub resource_logs: &'a RL,
}

/// The log records of a single resource, grouped by scope.
pub struct ResourceLogs<'a, R: ?Sized, SL: ?Sized> {
    /// The resource that produced the records.
    pub resource: &'a R,
    /// The log records of each scope.
    pub scope_logs: &'a SL,
}

/// The log records of a single scope.
pub struct ScopeLogs<'a, IS: ?Sized, LR: ?Sized> {
    /// The scope that produced the records.
    pub scope: &'a IS,
    /// The records.
    pub log_records: &'a LR,
}

/// A request exporting metrics, grouped by resource.
pub struct ExportMetricsServiceRequest<'a, RM: ?Sized> {
    /// The metrics of each resource.
    pub resource_metrics: &'a RM,
}

/// The metrics of a single resource, grouped by scope.
pub struct ResourceMetrics<'a, R: ?Sized, SM: ?Sized> {
    /// The resource that produced the metrics.
    pub resource: &'a R,
    /// The metrics of each scope.
    pub scope_metrics: &'a SM,
}

/// The metrics of a single scope.
pub struct ScopeMetrics<'a, IS: ?Sized, M: ?Sized> {
    /// The scope that produced the metrics.
    pub scope: &'a IS,
    /// The metrics.
    pub metrics: &'a M,
}

} // verus!
