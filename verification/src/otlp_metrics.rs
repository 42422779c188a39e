//! How a metric event becomes an OTLP metric: its time window and how its
//! points aggregate over it, whether it's a sum or a gauge, its unit, and
//! which of its properties become attributes. Writing the points themselves
//! is left to the serializer, which reads each value.

use vstd::prelude::*;
use crate::duration::{duration_as_nanos, nanos_of};
use crate::event::Event;
use crate::extent::{Extent, ExtentView};
use crate::props::{find_first, Props};
use crate::text::str_eq;
use crate::timestamp::ts_nanos;
use crate::well_known::{
    EVENT_KIND_METRIC, KEY_EVENT_KIND, KEY_METRIC_AGG, KEY_METRIC_NAME, KEY_METRIC_UNIT,
    KEY_METRIC_VALUE, KEY_SPAN_ID, KEY_SPAN_PARENT, KEY_TRACE_ID, METRIC_AGG_COUNT, METRIC_AGG_SUM,
};

verus! {

/// How the points of a metric aggregate over its time window.
#[derive(Clone, Copy, PartialEq, Eq, Structural, Debug)]
pub enum AggregationTemporality {
    /// The event has no time window.
    Unspecified,
    /// Each point covers only the event's span.
    Delta,
    /// Each point covers everything up to the event's point in time.
    Cumulative,
}

/// The kind of data a metric carries.
#[derive(Clone, Copy, PartialEq, Eq, Structural, Debug)]
pub enum MetricData {
    /// A sum of values; a monotonic sum only ever grows.
    Sum { is_monotonic: bool },
    /// A value sampled at a moment.
    Gauge,
}

/// What a property of a metric event is used for.
#[derive(Clone, Copy, PartialEq, Eq, Structural, Debug)]
pub enum MetricPropRole {
    /// The unit of the metric's values.
    Unit,
    /// A property the metric is already built from, or that belongs to
    /// traces: left out.
    Reserved,
    /// Any other property: an attribute of each point.
    Attribute,
}

/// The start, end and temporality of a metric: nanoseconds since the Unix
/// epoch, truncated to 64 bits. A span aggregates as a delta, a point as
/// cumulative, and an event without an extent has no window at all.
pub open spec fn spec_metric_window(extent: Option<ExtentView>) -> (u64, u64, AggregationTemporality) {
    match extent {
        Some(e) => (
            ts_nanos(e.start@) as u64,
            ts_nanos(e.end@) as u64,
            if e.is_span {
                AggregationTemporality::Delta
            } else {
                AggregationTemporality::Cumulative
            },
        ),
        None => (0, 0, AggregationTemporality::Unspecified),
    }
}

/// The data kind for an aggregation: `sum` is a sum that can go down,
/// `count` a sum that only grows, and anything else a gauge.
pub open spec fn spec_metric_data(agg: Option<Seq<char>>) -> MetricData {
    match agg {
        Some(a) => if a == METRIC_AGG_SUM@ {
            MetricData::Sum { is_monotonic: false }
        } else if a == METRIC_AGG_COUNT@ {
            MetricData::Sum { is_monotonic: true }
        } else {
            MetricData::Gauge
        },
        None => MetricData::Gauge,
    }
}

/// What a property with this key is used for.
pub open spec fn spec_metric_prop_role(key: Seq<char>) -> MetricPropRole {
    if key == KEY_METRIC_UNIT@ {
        MetricPropRole::Unit
    } else if key == KEY_METRIC_NAME@ || key == KEY_METRIC_VALUE@ || key == KEY_METRIC_AGG@
        || key == KEY_SPAN_ID@ || key == KEY_SPAN_PARENT@ || key == KEY_TRACE_ID@
        || key == KEY_EVENT_KIND@ {
        MetricPropRole::Reserved
    } else {
        MetricPropRole::Attribute
    }
}

/// The positions among the first `n` properties that are attributes, in order.
pub open spec fn attribute_positions<V>(props: Seq<(Seq<char>, V)>, n: int) -> Seq<usize>
    decreases n,
{
    if n <= 0 {
        Seq::empty()
    } else {
        let before = attribute_positions(props, n - 1);
        if spec_metric_prop_role(props[n - 1].0) == MetricPropRole::Attribute {
            before.push((n - 1) as usize)
        } else {
            before
        }
    }
}

/// The position of the last unit among the first `n` properties: a later
/// unit replaces an earlier one.
pub open spec fn unit_position<V>(props: Seq<(Seq<char>, V)>, n: int) -> Option<usize>
    decreases n,
{
    if n <= 0 {
        None
    } else if spec_metric_prop_role(props[n - 1].0) == MetricPropRole::Unit {
        Some((n - 1) as usize)
    } else {
        unit_position(props, n - 1)
    }
}

/// The position of the first property with this key among the first `n`.
pub open spec fn first_position<V>(props: Seq<(Seq<char>, V)>, key: Seq<char>, n: int) -> Option<usize>
    decreases n,
{
    if n <= 0 {
        None
    } else {
        match first_position(props, key, n - 1) {
            Some(p) => Some(p),
            None => if props[n - 1].0 == key {
                Some((n - 1) as usize)
            } else {
                None
            },
        }
    }
}

/// Whether a key names something a metric is built from (its name, value,
/// aggregation or unit), or identifies a trace, a span or an event's kind.
pub open spec fn is_metric_own_key(key: Seq<char>) -> bool {
    key == "metric_name"@ || key == "metric_value"@ || key == "metric_agg"@ || key == "metric_unit"@
        || key == "span_id"@ || key == "span_parent"@ || key == "trace_id"@ || key == "event_kind"@
}

/// Reveal the text of every key a metric is built from.
proof fn reveal_metric_keys()
    ensures
        KEY_METRIC_NAME@ == "metric_name"@,
        KEY_METRIC_VALUE@ == "metric_value"@,
        KEY_METRIC_AGG@ == "metric_agg"@,
        KEY_METRIC_UNIT@ == "metric_unit"@,
        KEY_SPAN_ID@ == "span_id"@,
        KEY_SPAN_PARENT@ == "span_parent"@,
        KEY_TRACE_ID@ == "trace_id"@,
        KEY_EVENT_KIND@ == "event_kind"@,
{
    reveal_strlit("metric_name");
    reveal_strlit("metric_value");
    reveal_strlit("metric_agg");
    reveal_strlit("metric_unit");
    reveal_strlit("span_id");
    reveal_strlit("span_parent");
    reveal_strlit("trace_id");
    reveal_strlit("event_kind");
}

/// The unit is the unit; the name, value and aggregation of a metric, and
/// the trace, span, parent span and event kind, are reserved; any other key
/// is an attribute.
pub proof fn lemma_metric_prop_roles(key: Seq<char>)
    ensures
        key == "metric_unit"@ ==> spec_metric_prop_role(key) == MetricPropRole::Unit,
        (key == "metric_name"@ || key == "metric_value"@ || key == "metric_agg"@ || key == "span_id"@
            || key == "span_parent"@ || key == "trace_id"@ || key == "event_kind"@)
            ==> spec_metric_prop_role(key) == MetricPropRole::Reserved,
        !is_metric_own_key(key) ==> spec_metric_prop_role(key) == MetricPropRole::Attribute,
{
    reveal_metric_keys();
    reveal_strlit("metric_name");
    reveal_strlit("metric_value");
    reveal_strlit("metric_agg");
    reveal_strlit("metric_unit");
    reveal_strlit("span_id");
    reveal_strlit("span_parent");
    reveal_strlit("trace_id");
    reveal_strlit("event_kind");
    assert("metric_name"@[7] != "metric_unit"@[7]);
    assert("span_parent"@[0] != "metric_unit"@[0]);
    assert("metric_name"@ != "metric_unit"@);
    assert("span_parent"@ != "metric_unit"@);
    assert("metric_value"@ != "metric_unit"@);
    assert("metric_agg"@ != "metric_unit"@);
    assert("span_id"@ != "metric_unit"@);
    assert("trace_id"@ != "metric_unit"@);
    assert("event_kind"@ != "metric_unit"@);
}

/// The attributes of a metric are exactly the properties whose key isn't
/// one the metric is built from or one that identifies a trace, span or
/// event kind, in the order they come: no attribute holds `metric_agg`,
/// `trace_id` or any other such key, and no other property is left out.
pub proof fn lemma_metric_attributes<V>(props: Seq<(Seq<char>, V)>, n: int)
    requires
        0 <= n <= props.len() <= usize::MAX,
    ensures
        forall|j: int|
            #![trigger attribute_positions(props, n)[j]]
            0 <= j < attribute_positions(props, n).len() ==> 0 <= attribute_positions(props, n)[j] < n
                && !is_metric_own_key(props[attribute_positions(props, n)[j] as int].0),
        forall|j: int, k: int|
            0 <= j < k < attribute_positions(props, n).len() ==> attribute_positions(props, n)[j]
                < attribute_positions(props, n)[k],
        forall|i: int|
            0 <= i < n && !is_metric_own_key(#[trigger] props[i].0) ==> attribute_positions(props, n).contains(
                i as usize,
            ),
    decreases n,
{
    if n > 0 {
        lemma_metric_attributes(props, n - 1);
        lemma_metric_prop_roles(props[n - 1].0);
        let before = attribute_positions(props, n - 1);
        let after = attribute_positions(props, n);
        assert forall|i: int| 0 <= i < n && !is_metric_own_key(#[trigger] props[i].0) implies after.contains(
            i as usize,
        ) by {
            if i < n - 1 {
                let j = choose|j: int| 0 <= j < before.len() && before[j] == i as usize;
                if after != before {
                    assert(after[j] == before[j]);
                }
            } else {
                assert(after.last() == i as usize);
            }
        }
    }
}

/// The unit of a metric is the last property keyed `metric_unit`, and its
/// name the first keyed `metric_name`; each is absent only when no property
/// has that key.
pub proof fn lemma_metric_unit_and_name<V>(props: Seq<(Seq<char>, V)>, n: int)
    requires
        0 <= n <= props.len() <= usize::MAX,
    ensures
        unit_position(props, n) matches Some(p) ==> 0 <= p < n && props[p as int].0 == "metric_unit"@
            && forall|q: int| p < q < n ==> (#[trigger] props[q]).0 != "metric_unit"@,
        unit_position(props, n) is None ==> forall|q: int| 0 <= q < n ==> (#[trigger] props[q]).0 != "metric_unit"@,
        first_position(props, KEY_METRIC_NAME@, n) matches Some(p) ==> 0 <= p < n && props[p as int].0
            == "metric_name"@ && forall|q: int| 0 <= q < p ==> (#[trigger] props[q]).0 != "metric_name"@,
        first_position(props, KEY_METRIC_NAME@, n) is None ==> forall|q: int|
            0 <= q < n ==> (#[trigger] props[q]).0 != "metric_name"@,
    decreases n,
{
    if n > 0 {
        lemma_metric_unit_and_name(props, n - 1);
        lemma_metric_prop_roles(props[n - 1].0);
        reveal_metric_keys();
    }
}

/// Everything the encoding of a metric event decides, before its points
/// are written.
pub struct MetricPlan {
    /// The start of the window, in nanoseconds since the Unix epoch.
    pub start_time_unix_nano: u64,
    /// The end of the window, in nanoseconds since the Unix epoch.
    pub time_unix_nano: u64,
    /// How the points aggregate over the window.
    pub aggregation_temporality: AggregationTemporality,
    /// Whether the metric is a sum or a gauge.
    pub data: MetricData,
    /// The position of the property holding the metric's name; without
    /// one, the event's message names the metric.
    pub name: Option<usize>,
    /// The position of the property holding the unit, if there is one.
    pub unit: Option<usize>,
    /// The positions of the properties that become attributes, in order.
    pub attributes: Vec<usize>,
}

/// The time window of a metric: its start and end in nanoseconds since the
/// Unix epoch, truncated to 64 bits, and how its points aggregate.
pub fn metric_window(extent: Option<&Extent>) -> (r: (u64, u64, AggregationTemporality))
    ensures
        r == spec_metric_window(match extent {
            Some(e) => Some(e@),
            None => None,
        }),
{
    match extent {
        Some(extent) => {
            let range = extent.as_range();
            let start = range.start.to_unix();
            let end = range.end.to_unix();
            let start_nanos = duration_as_nanos(&start);
            let end_nanos = duration_as_nanos(&end);
            proof {
                assert(nanos_of(start) == ts_nanos(extent@.start@));
                assert(nanos_of(end) == ts_nanos(extent@.end@));
            }
            let temporality = if extent.is_span() {
                AggregationTemporality::Delta
            } else {
                AggregationTemporality::Cumulative
            };
            (start_nanos as u64, end_nanos as u64, temporality)
        },
        None => (0, 0, AggregationTemporality::Unspecified),
    }
}

/// Whether a metric with this aggregation is a sum or a gauge.
pub fn metric_data(agg: Option<&str>) -> (r: MetricData)
    ensures
        r == spec_metric_data(match agg {
            Some(a) => Some(a@),
            None => None,
        }),
{
    match agg {
        Some(a) => if str_eq(a, METRIC_AGG_SUM) {
            MetricData::Sum { is_monotonic: false }
        } else if str_eq(a, METRIC_AGG_COUNT) {
            MetricData::Sum { is_monotonic: true }
        } else {
            MetricData::Gauge
        },
        None => MetricData::Gauge,
    }
}

/// What a property with this key is used for in a metric.
pub fn metric_prop_role(key: &str) -> (r: MetricPropRole)
    ensures
        r == spec_metric_prop_role(key@),
{
    if str_eq(key, KEY_METRIC_UNIT) {
        MetricPropRole::Unit
    } else if str_eq(key, KEY_METRIC_NAME) || str_eq(key, KEY_METRIC_VALUE) || str_eq(
        key,
        KEY_METRIC_AGG,
    ) || str_eq(key, KEY_SPAN_ID) || str_eq(key, KEY_SPAN_PARENT) || str_eq(key, KEY_TRACE_ID)
        || str_eq(key, KEY_EVENT_KIND) {
        MetricPropRole::Reserved
    } else {
        MetricPropRole::Attribute
    }
}

/// Plan the encoding of an event as an OTLP metric.
///
/// `event_kind` and `agg` are the event's kind and aggregation as text,
/// where the event has them. Only a metric event with a value is encoded:
/// anything else gives `None`.
pub fn plan_metric<'a, V, P: Props<V>>(
    evt: &Event<'a, P>,
    event_kind: Option<&str>,
    agg: Option<&str>,
) -> (r: Option<MetricPlan>)
    requires
        evt.spec_props().spec_props().len() <= usize::MAX,
    ensures
        r is Some <==> (event_kind matches Some(k) && k@ == EVENT_KIND_METRIC@ && find_first(
            evt.spec_props().spec_props(),
            KEY_METRIC_VALUE@,
        ) is Some),
        r matches Some(plan) ==> {
            let props = evt.spec_props().spec_props();
            &&& (plan.start_time_unix_nano, plan.time_unix_nano, plan.aggregation_temporality)
                == spec_metric_window(evt.spec_extent())
            &&& plan.data == spec_metric_data(
                match agg {
                    Some(a) => Some(a@),
                    None => None,
                },
            )
            &&& plan.name == first_position(props, KEY_METRIC_NAME@, props.len() as int)
            &&& plan.unit == unit_position(props, props.len() as int)
            &&& plan.attributes@ == attribute_positions(props, props.len() as int)
            &&& forall|j: int|
                0 <= j < plan.attributes@.len() ==> !is_metric_own_key(
                    props[#[trigger] plan.attributes@[j] as int].0,
                )
        },
{
    let is_metric = match event_kind {
        Some(k) => str_eq(k, EVENT_KIND_METRIC),
        None => false,
    };
    if !is_metric {
        return None;
    }
    let props = evt.props();
    if props.get(KEY_METRIC_VALUE).is_none() {
        return None;
    }
    let (start_time_unix_nano, time_unix_nano, aggregation_temporality) = metric_window(evt.extent());
    let data = metric_data(agg);
    let n = props.len();
    let mut name: Option<usize> = None;
    let mut unit: Option<usize> = None;
    let mut attributes: Vec<usize> = Vec::new();
    let mut i: usize = 0;
    while i < n
        invariant
            n == props.spec_props().len(),
            i <= n,
            name == first_position(props.spec_props(), KEY_METRIC_NAME@, i as int),
            unit == unit_position(props.spec_props(), i as int),
            attributes@ == attribute_positions(props.spec_props(), i as int),
        decreases n - i,
    {
        let key = props.key_at(i);
        if name.is_none() && str_eq(key, KEY_METRIC_NAME) {
            name = Some(i);
        }
        match metric_prop_role(key) {
            MetricPropRole::Unit => {
                unit = Some(i);
            },
            MetricPropRole::Reserved => {},
            MetricPropRole::Attribute => {
                attributes.push(i);
            },
        }
        i = i + 1;
    }
    proof {
        lemma_metric_attributes(props.spec_props(), n as int);
    }
    Some(MetricPlan { start_time_unix_nano, time_unix_nano, aggregation_temporality, data, name, unit, attributes })
}

} // verus!
