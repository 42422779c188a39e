//! Well-known property keys and values that change how components
//! interpret an event.

use vstd::prelude::*;

verus! {

/// The module an event came from.
pub const KEY_MODULE: &'static str = "module";
/// The time an event was active, or the end of its span.
pub const KEY_TS: &'static str = "ts";
/// The start of an event's span.
pub const KEY_TS_START: &'static str = "ts_start";
/// The template of an event.
pub const KEY_TPL: &'static str = "tpl";
/// The rendered message of an event.
pub const KEY_MSG: &'static str = "msg";
/// The kind of extension the event belongs to.
pub const KEY_EVENT_KIND: &'static str = "event_kind";

/// The event is a span in a distributed trace.
pub const EVENT_KIND_SPAN: &'static str = "span";
/// The event is a metric sample.
pub const EVENT_KIND_METRIC: &'static str = "metric";

/// A severity level to categorize the event by.
pub const KEY_LVL: &'static str = "lvl";
/// A weakly informative event.
pub const LVL_DEBUG: &'static str = "debug";
/// An informative event.
pub const LVL_INFO: &'static str = "info";
/// A weakly erroneous event.
pub const LVL_WARN: &'static str = "warn";
/// An erroneous event.
pub const LVL_ERROR: &'static str = "error";

/// An error associated with the event.
pub const KEY_ERR: &'static str = "err";

/// The informative name of a span.
pub const KEY_SPAN_NAME: &'static str = "span_name";
/// The trace id.
pub const KEY_TRACE_ID: &'static str = "trace_id";
/// The span id.
pub const KEY_SPAN_ID: &'static str = "span_id";
/// The parent span id.
pub const KEY_SPAN_PARENT: &'static str = "span_parent";

/// The name of the underlying data source of a metric.
pub const KEY_METRIC_NAME: &'static str = "metric_name";
/// The aggregation applied to the data source to produce a sample.
pub const KEY_METRIC_AGG: &'static str = "metric_agg";
/// The sample itself.
pub const KEY_METRIC_VALUE: &'static str = "metric_value";
/// The measurement unit the sample is in.
pub const KEY_METRIC_UNIT: &'static str = "metric_unit";

/// The sample is the possibly non-monotonic sum of values.
pub const METRIC_AGG_SUM: &'static str = "sum";
/// The sample is the count of defined values: non-negative and monotonic.
pub const METRIC_AGG_COUNT: &'static str = "count";
/// The sample is the minimum defined value.
pub const METRIC_AGG_MIN: &'static str = "min";
/// The sample is the maximum defined value.
pub const METRIC_AGG_MAX: &'static str = "max";
/// The sample is the last or most recent value.
pub const METRIC_AGG_LAST: &'static str = "last";

} // verus!
