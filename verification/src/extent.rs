//! The time for which an event is active: a point for an event that occurred
//! at a particular time, or a span for an event that was active over a period.

use vstd::prelude::*;
use core::ops::Range;
use core::time::Duration;
use crate::empty::Empty;
use crate::duration::nanos_of;
use crate::timestamp::{Timestamp, ts_le, ts_nanos};

verus! {

/// Either a single timestamp for a point in time, or a pair of timestamps for a timespan.
pub struct Extent {
    range: Range<Timestamp>,
    is_span: bool,
}

/// The abstract value of an extent: its start, its end, and whether it's a span.
pub struct ExtentView {
    pub start: Timestamp,
    pub end: Timestamp,
    pub is_span: bool,
}

impl View for Extent {
    type V = ExtentView;

    closed spec fn view(&self) -> ExtentView {
        ExtentView { start: self.range.start, end: self.range.end, is_span: self.is_span }
    }
}

impl Clone for Extent {
    fn clone(&self) -> (r: Self)
        ensures
            r@ == self@,
    {
        proof {
            use_type_invariant(self);
        }
        Extent { range: Range { start: self.range.start, end: self.range.end }, is_span: self.is_span }
    }
}

impl Extent {
    #[verifier::type_invariant]
    closed spec fn inv(self) -> bool {
        !self.is_span ==> self.range.start == self.range.end
    }

    /// Create an extent for a point in time.
    pub fn point(ts: Timestamp) -> (r: Extent)
        ensures
            r@ == (ExtentView { start: ts, end: ts, is_span: false }),
    {
        Extent { range: Range { start: ts, end: ts }, is_span: false }
    }

    /// Create an extent for a timespan.
    ///
    /// The end of the range should be after the start, but an empty range is
    /// still considered a span.
    pub fn span(ts: Range<Timestamp>) -> (r: Extent)
        ensures
            r@ == (ExtentView { start: ts.start, end: ts.end, is_span: true }),
    {
        Extent { range: ts, is_span: true }
    }

    /// The extent as a range of timestamps: an empty range for a point, the
    /// range the extent was created from for a span.
    pub fn as_range(&self) -> (r: &Range<Timestamp>)
        ensures
            r.start == self@.start,
            r.end == self@.end,
    {
        &self.range
    }

    /// The extent as a point in time: the point itself, or the end of a span.
    pub fn as_point(&self) -> (r: &Timestamp)
        ensures
            *r == self@.end,
    {
        &self.range.end
    }

    /// The extent as a timespan, or `None` for a point, even an empty span being `Some`.
    pub fn as_span(&self) -> (r: Option<&Range<Timestamp>>)
        ensures
            self@.is_span == r is Some,
            r matches Some(range) ==> range.start == self@.start && range.end == self@.end,
    {
        if self.is_span() {
            Some(&self.range)
        } else {
            None
        }
    }

    /// The extent's only timestamp if it is a point, or `None` for a span.
    pub fn to_point(&self) -> (r: Option<&Timestamp>)
        ensures
            self@.is_span == r is None,
            r matches Some(ts) ==> *ts == self@.start && *ts == self@.end,
    {
        proof {
            use_type_invariant(self);
        }
        if self.is_span {
            None
        } else {
            Some(&self.range.start)
        }
    }

    /// The length of a span, `None` for a point or for a span whose end is
    /// before its start.
    pub fn len(&self) -> (r: Option<Duration>)
        ensures
            r is Some == (self@.is_span && ts_le(self@.start@, self@.end@)),
            r matches Some(d) ==> nanos_of(d) == ts_nanos(self@.end@) - ts_nanos(self@.start@),
    {
        if self.is_span() {
            self.range.end.duration_since(&self.range.start)
        } else {
            None
        }
    }

    /// Whether the extent is a point in time.
    pub fn is_point(&self) -> (r: bool)
        ensures
            r == !self@.is_span,
    {
        !self.is_span()
    }

    /// Whether the extent is a timespan.
    pub fn is_span(&self) -> (r: bool)
        ensures
            r == self@.is_span,
    {
        self.is_span
    }
}

/// Try convert a value into an [`Extent`].
pub trait ToExtent {
    /// Perform the conversion.
    fn to_extent(&self) -> Option<Extent>;
}

impl<'a, T: ToExtent> ToExtent for &'a T {
    /// The conversion of the referenced value.
    fn to_extent(&self) -> (r: Option<Extent>)
        ensures
            call_ensures(T::to_extent, (*self,), r),
    {
        (**self).to_extent()
    }
}

impl ToExtent for Empty {
    fn to_extent(&self) -> (r: Option<Extent>)
        ensures
            r is None,
    {
        None
    }
}

impl<T: ToExtent> ToExtent for Option<T> {
    /// The conversion of the value, if there is one.
    fn to_extent(&self) -> (r: Option<Extent>)
        ensures
            match self {
                Some(value) => call_ensures(T::to_extent, (value,), r),
                None => r is None,
            },
    {
        match self {
            Some(ts) => ts.to_extent(),
            None => None,
        }
    }
}

impl ToExtent for Extent {
    fn to_extent(&self) -> (r: Option<Extent>)
        ensures
            r matches Some(e) && e@ == self@,
    {
        Some(self.clone())
    }
}

impl ToExtent for Timestamp {
    fn to_extent(&self) -> (r: Option<Extent>)
        ensures
            r matches Some(e) && e@ == (ExtentView { start: *self, end: *self, is_span: false }),
    {
        Some(Extent::point(*self))
    }
}

impl ToExtent for Range<Timestamp> {
    fn to_extent(&self) -> (r: Option<Extent>)
        ensures
            r matches Some(e) && e@ == (ExtentView { start: self.start, end: self.end, is_span: true }),
    {
        Some(Extent::span(Range { start: self.start, end: self.end }))
    }
}

impl ToExtent for Range<Option<Timestamp>> {
    fn to_extent(&self) -> (r: Option<Extent>)
        ensures
            match (self.start, self.end) {
                (Some(start), Some(end)) => r matches Some(e) && e@ == (ExtentView {
                    start,
                    end,
                    is_span: true,
                }),
                (Some(start), None) => r matches Some(e) && e@ == (ExtentView {
                    start,
                    end: start,
                    is_span: false,
                }),
                (None, Some(end)) => r matches Some(e) && e@ == (ExtentView {
                    start: end,
                    end,
                    is_span: false,
                }),
                (None, None) => r is None,
            },
    {
        match (self.start, self.end) {
            (Some(start), Some(end)) => (Range { start, end }).to_extent(),
            (Some(start), None) => start.to_extent(),
            (None, Some(end)) => end.to_extent(),
            (None, None) => None::<Timestamp>.to_extent(),
        }
    }
}

} // verus!
