//! Metric samples: a named value with the kind of aggregation that produced it.

use vstd::prelude::*;
use crate::key::Key;
use crate::text::str_eq;

verus! {

/// The kind of a metric that is the sum of its values.
pub const METRIC_KIND_SUM: &'static str = "sum";
/// The kind of a metric that is the least of its values.
pub const METRIC_KIND_MIN: &'static str = "min";
/// The kind of a metric that is the greatest of its values.
pub const METRIC_KIND_MAX: &'static str = "max";

/// A metric sample: its name, the kind of aggregation, and its value.
pub struct Metric<'m, T> {
    name: Key<'m>,
    kind: Key<'m>,
    value: T,
}

impl<'m, T> Metric<'m, T> {
    /// The name of the metric.
    pub closed spec fn spec_name(&self) -> Seq<char> {
        self.name@
    }

    /// The kind of aggregation.
    pub closed spec fn spec_kind(&self) -> Seq<char> {
        self.kind@
    }

    /// The value of the sample.
    pub closed spec fn spec_value(&self) -> T {
        self.value
    }

    /// Create a metric sample of the given kind.
    pub fn new(kind: Key<'m>, name: Key<'m>, value: T) -> (r: Self)
        ensures
            r.spec_kind() == kind@,
            r.spec_name() == name@,
            r.spec_value() == value,
    {
        Metric { name, kind, value }
    }

    /// Create a metric sample that is a sum.
    pub fn sum(name: Key<'m>, value: T) -> (r: Self)
        ensures
            r.spec_kind() == METRIC_KIND_SUM@,
            r.spec_name() == name@,
            r.spec_value() == value,
    {
        Metric::new(Key::new(METRIC_KIND_SUM), name, value)
    }

    /// Whether the sample is a sum.
    pub fn is_sum(&self) -> (r: bool)
        ensures
            r == (self.spec_kind() == METRIC_KIND_SUM@),
    {
        str_eq(self.kind.as_str(), METRIC_KIND_SUM)
    }

    /// Create a metric sample that is a minimum.
    pub fn min(name: Key<'m>, value: T) -> (r: Self)
        ensures
            r.spec_kind() == METRIC_KIND_MIN@,
            r.spec_name() == name@,
            r.spec_value() == value,
    {
        Metric::new(Key::new(METRIC_KIND_MIN), name, value)
    }

    /// Whether the sample is a minimum.
    pub fn is_min(&self) -> (r: bool)
        ensures
            r == (self.spec_kind() == METRIC_KIND_MIN@),
    {
        str_eq(self.kind.as_str(), METRIC_KIND_MIN)
    }

    /// Create a metric sample that is a maximum.
    pub fn max(name: Key<'m>, value: T) -> (r: Self)
        ensures
            r.spec_kind() == METRIC_KIND_MAX@,
            r.spec_name() == name@,
            r.spec_value() == value,
    {
        Metric::new(Key::new(METRIC_KIND_MAX), name, value)
    }

    /// Whether the sample is a maximum.
    pub fn is_max(&self) -> (r: bool)
        ensures
            r == (self.spec_kind() == METRIC_KIND_MAX@),
    {
        str_eq(self.kind.as_str(), METRIC_KIND_MAX)
    }

    /// The name of the metric.
    pub fn name(&self) -> (r: &Key<'m>)
        ensures
            r@ == self.spec_name(),
    {
        &self.name
    }

    /// The kind of aggregation.
    pub fn kind(&self) -> (r: &Key<'m>)
        ensures
            r@ == self.spec_kind(),
    {
        &self.kind
    }

    /// The value of the sample.
    pub fn value(&self) -> (r: &T)
        ensures
            *r == self.spec_value(),
    {
        &self.value
    }

    /// The value of the sample, to change in place.
    pub fn value_mut(&mut self) -> (r: &mut T)
        ensures
            *r == old(self).spec_value(),
            final(self).spec_value() == *final(r),
            final(self).spec_name() == old(self).spec_name(),
            final(self).spec_kind() == old(self).spec_kind(),
    {
        &mut self.value
    }
}

/// Whether a metric kind is one of the three known kinds: each known kind
/// is recognised by exactly one of the checks.
pub proof fn lemma_metric_kinds_distinct()
    ensures
        METRIC_KIND_SUM@ != METRIC_KIND_MIN@,
        METRIC_KIND_SUM@ != METRIC_KIND_MAX@,
        METRIC_KIND_MIN@ != METRIC_KIND_MAX@,
{
    reveal_strlit("sum");
    reveal_strlit("min");
    reveal_strlit("max");
    assert(METRIC_KIND_SUM@[1] != METRIC_KIND_MIN@[1]);
    assert(METRIC_KIND_SUM@[0] != METRIC_KIND_MAX@[0]);
    assert(METRIC_KIND_MIN@[1] != METRIC_KIND_MAX@[1]);
}

} // verus!
