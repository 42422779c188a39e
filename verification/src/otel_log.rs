//! How an event reaches OpenTelemetry: a span event that belongs to the
//! active span completes it, with its status, exceptions and attributes;
//! anything else becomes a log record, with its severity, the trace and span
//! it belongs to, and its attributes. Converting each value, and the active
//! span itself, are left to the OpenTelemetry SDK.

use vstd::prelude::*;
use crate::extent::{Extent, ExtentView};
use crate::id::{SpanId, TraceId};
use crate::level::Level;
use crate::text::str_eq;
use crate::timestamp::Timestamp;
use crate::well_known::{
    KEY_ERR, KEY_EVENT_KIND, KEY_LVL, KEY_SPAN_ID, KEY_SPAN_NAME, KEY_SPAN_PARENT, KEY_TRACE_ID,
};

verus! {

/// A property of an event, with what its value can be read as.
pub struct LogProp {
    /// The key of the property.
    pub key: String,
    /// The value read as a level, if it is one.
    pub level: Option<Level>,
    /// The value read as a trace id, if it is one.
    pub trace_id: Option<TraceId>,
    /// The value read as a span id, if it is one.
    pub span_id: Option<SpanId>,
}

/// The text a record's severity is given.
#[derive(Clone, Copy)]
pub enum SeverityText {
    /// The name of a level.
    Level(Level),
    /// The value of the property at this position, written as text.
    Prop(usize),
}

/// What the encoding of an event as a log record decides.
pub struct LogPlan {
    /// The severity number, from the last level property that reads as a level.
    pub severity_number: Option<Level>,
    /// The severity text, from the last level property.
    pub severity_text: Option<SeverityText>,
    /// The trace the record belongs to.
    pub trace_id: Option<TraceId>,
    /// The span the record belongs to.
    pub span_id: Option<SpanId>,
    /// The positions of the properties that become attributes, in order.
    pub attributes: Vec<usize>,
}

/// What a log record is built from, as the properties are visited in turn.
pub struct LogPlanView {
    /// The severity number.
    pub severity_number: Option<Level>,
    /// The severity text.
    pub severity_text: Option<SeverityText>,
    /// The trace the record belongs to.
    pub trace_id: Option<TraceId>,
    /// The span the record belongs to.
    pub span_id: Option<SpanId>,
    /// The positions of the properties that become attributes.
    pub attributes: Seq<usize>,
}

/// The record after visiting the property at position `i`: a level sets the
/// severity; a trace or span id that reads as one sets the record's trace or
/// span; a parent span that reads as a span id is left out; anything else
/// becomes an attribute.
pub open spec fn log_step(st: LogPlanView, i: int, p: LogProp) -> LogPlanView {
    if p.key@ == KEY_LVL@ {
        match p.level {
            Some(l) => LogPlanView {
                severity_number: Some(l),
                severity_text: Some(SeverityText::Level(l)),
                ..st
            },
            None => LogPlanView { severity_text: Some(SeverityText::Prop(i as usize)), ..st },
        }
    } else if p.key@ == KEY_TRACE_ID@ && p.trace_id is Some {
        LogPlanView { trace_id: p.trace_id, ..st }
    } else if p.key@ == KEY_SPAN_ID@ && p.span_id is Some {
        LogPlanView { span_id: p.span_id, ..st }
    } else if p.key@ == KEY_SPAN_PARENT@ && p.span_id is Some {
        st
    } else {
        LogPlanView { attributes: st.attributes.push(i as usize), ..st }
    }
}

/// The record built from the first `n` properties.
pub open spec fn log_plan(props: Seq<LogProp>, n: int) -> LogPlanView
    decreases n,
{
    if n <= 0 {
        LogPlanView {
            severity_number: None,
            severity_text: None,
            trace_id: None,
            span_id: None,
            attributes: Seq::empty(),
        }
    } else {
        log_step(log_plan(props, n - 1), n - 1, props[n - 1])
    }
}

/// Whether a property is left out of a log record's attributes: the level
/// becomes its severity, and a trace id, span id or parent span id that
/// reads as one places the record in its trace instead.
pub open spec fn is_left_out_of_log(p: LogProp) -> bool {
    ||| p.key@ == "lvl"@
    ||| (p.key@ == "trace_id"@ && p.trace_id is Some)
    ||| (p.key@ == "span_id"@ && p.span_id is Some)
    ||| (p.key@ == "span_parent"@ && p.span_id is Some)
}

/// Reveal the text of the keys a log record is built from.
proof fn reveal_log_keys()
    ensures
        KEY_LVL@ == "lvl"@,
        KEY_TRACE_ID@ == "trace_id"@,
        KEY_SPAN_ID@ == "span_id"@,
        KEY_SPAN_PARENT@ == "span_parent"@,
        "lvl"@ != "trace_id"@ && "lvl"@ != "span_id"@ && "lvl"@ != "span_parent"@,
        "trace_id"@ != "span_id"@ && "trace_id"@ != "span_parent"@ && "span_id"@ != "span_parent"@,
{
    reveal_strlit("lvl");
    reveal_strlit("trace_id");
    reveal_strlit("span_id");
    reveal_strlit("span_parent");
    assert("lvl"@.len() == 3 && "trace_id"@.len() == 8 && "span_id"@.len() == 7);
    assert("span_parent"@.len() == 11);
}

/// A log record built from the first `n` properties: its attributes are
/// exactly the properties that aren't left out, in order, so none is the
/// level or a trace, span or parent span id that reads as one; its trace,
/// span and severity number each come from a property that reads as one,
/// and are absent only when no property does.
pub proof fn lemma_log_plan(props: Seq<LogProp>, n: int)
    requires
        0 <= n <= props.len() <= usize::MAX,
    ensures
        forall|j: int|
            #![trigger log_plan(props, n).attributes[j]]
            0 <= j < log_plan(props, n).attributes.len() ==> 0 <= log_plan(props, n).attributes[j] < n
                && !is_left_out_of_log(props[log_plan(props, n).attributes[j] as int]),
        forall|j: int, k: int|
            0 <= j < k < log_plan(props, n).attributes.len() ==> log_plan(props, n).attributes[j]
                < log_plan(props, n).attributes[k],
        forall|i: int|
            0 <= i < n && !is_left_out_of_log(#[trigger] props[i]) ==> log_plan(props, n).attributes.contains(
                i as usize,
            ),
        log_plan(props, n).trace_id is Some <==> exists|i: int|
            0 <= i < n && (#[trigger] props[i]).key@ == "trace_id"@ && props[i].trace_id is Some,
        log_plan(props, n).trace_id matches Some(t) ==> exists|i: int|
            0 <= i < n && (#[trigger] props[i]).key@ == "trace_id"@ && props[i].trace_id == Some(t),
        log_plan(props, n).span_id is Some <==> exists|i: int|
            0 <= i < n && (#[trigger] props[i]).key@ == "span_id"@ && props[i].span_id is Some,
        log_plan(props, n).span_id matches Some(s) ==> exists|i: int|
            0 <= i < n && (#[trigger] props[i]).key@ == "span_id"@ && props[i].span_id == Some(s),
        log_plan(props, n).severity_number is Some <==> exists|i: int|
            0 <= i < n && (#[trigger] props[i]).key@ == "lvl"@ && props[i].level is Some,
        log_plan(props, n).severity_number matches Some(l) ==> exists|i: int|
            0 <= i < n && (#[trigger] props[i]).key@ == "lvl"@ && props[i].level == Some(l),
    decreases n,
{
    reveal_log_keys();
    if n > 0 {
        lemma_log_plan(props, n - 1);
        let before = log_plan(props, n - 1);
        let after = log_plan(props, n);
        assert forall|i: int| 0 <= i < n && !is_left_out_of_log(#[trigger] props[i]) implies after.attributes.contains(
            i as usize,
        ) by {
            if i < n - 1 {
                let j = choose|j: int| 0 <= j < before.attributes.len() && before.attributes[j] == i as usize;
                if after.attributes != before.attributes {
                    assert(after.attributes[j] == before.attributes[j]);
                }
            } else {
                assert(after.attributes.last() == i as usize);
            }
        }
        if before.trace_id is Some {
            let i = choose|i: int|
                0 <= i < n - 1 && (#[trigger] props[i]).key@ == "trace_id"@ && props[i].trace_id is Some;
            assert(0 <= i < n && props[i].key@ == "trace_id"@);
        }
        if let Some(t) = before.trace_id {
            let i = choose|i: int|
                0 <= i < n - 1 && (#[trigger] props[i]).key@ == "trace_id"@ && props[i].trace_id == Some(t);
            assert(0 <= i < n && props[i].key@ == "trace_id"@);
        }
        if before.span_id is Some {
            let i = choose|i: int|
                0 <= i < n - 1 && (#[trigger] props[i]).key@ == "span_id"@ && props[i].span_id is Some;
            assert(0 <= i < n && props[i].key@ == "span_id"@);
        }
        if let Some(s) = before.span_id {
            let i = choose|i: int|
                0 <= i < n - 1 && (#[trigger] props[i]).key@ == "span_id"@ && props[i].span_id == Some(s);
            assert(0 <= i < n && props[i].key@ == "span_id"@);
        }
        if before.severity_number is Some {
            let i = choose|i: int|
                0 <= i < n - 1 && (#[trigger] props[i]).key@ == "lvl"@ && props[i].level is Some;
            assert(0 <= i < n && props[i].key@ == "lvl"@);
        }
        if let Some(l) = before.severity_number {
            let i = choose|i: int|
                0 <= i < n - 1 && (#[trigger] props[i]).key@ == "lvl"@ && props[i].level == Some(l);
            assert(0 <= i < n && props[i].key@ == "lvl"@);
        }
    }
}

impl LogPlan {
    /// The plan as a value of its view.
    pub open spec fn view_of(&self) -> LogPlanView {
        LogPlanView {
            severity_number: self.severity_number,
            severity_text: self.severity_text,
            trace_id: self.trace_id,
            span_id: self.span_id,
            attributes: self.attributes@,
        }
    }

    /// The span context of the record: its trace and span, when it has both.
    pub fn span_context(&self) -> (r: Option<(TraceId, SpanId)>)
        ensures
            r == (match (self.trace_id, self.span_id) {
                (Some(t), Some(s)) => Some((t, s)),
                _ => None,
            }),
    {
        match (self.trace_id, self.span_id) {
            (Some(t), Some(s)) => Some((t, s)),
            _ => None,
        }
    }
}

/// Plan the log record for an event with these properties, visited in order.
pub fn plan_log(props: &Vec<LogProp>) -> (r: LogPlan)
    ensures
        r.view_of() == log_plan(props@, props@.len() as int),
        forall|j: int|
            0 <= j < r.attributes@.len() ==> !is_left_out_of_log(props@[#[trigger] r.attributes@[j] as int]),
{
    let mut plan = LogPlan {
        severity_number: None,
        severity_text: None,
        trace_id: None,
        span_id: None,
        attributes: Vec::new(),
    };
    let mut i: usize = 0;
    while i < props.len()
        invariant
            i <= props@.len(),
            plan.view_of() == log_plan(props@, i as int),
        decreases props@.len() - i,
    {
        let p = &props[i];
        let key = p.key.as_str();
        if str_eq(key, KEY_LVL) {
            match p.level {
                Some(l) => {
                    plan.severity_number = Some(l);
                    plan.severity_text = Some(SeverityText::Level(l));
                },
                None => {
                    plan.severity_text = Some(SeverityText::Prop(i));
                },
            }
        } else if str_eq(key, KEY_TRACE_ID) && p.trace_id.is_some() {
            plan.trace_id = p.trace_id;
        } else if str_eq(key, KEY_SPAN_ID) && p.span_id.is_some() {
            plan.span_id = p.span_id;
        } else if str_eq(key, KEY_SPAN_PARENT) && p.span_id.is_some() {
        } else {
            plan.attributes.push(i);
        }
        i = i + 1;
    }
    proof {
        lemma_log_plan(props@, props@.len() as int);
    }
    plan
}

/// What completing a span decides.
pub struct SpanPlan {
    /// Whether the span's status is set to an error.
    pub is_error: bool,
    /// The positions of the errors recorded as exception events, in order.
    pub exceptions: Vec<usize>,
    /// The positions of the properties that become attributes, in order.
    pub attributes: Vec<usize>,
    /// The time the span ends at: the end of the event's span, or the
    /// current time if it has none.
    pub end: Option<Timestamp>,
}

/// What is built from a span's properties, as they're visited in turn.
pub struct SpanPlanView {
    /// Whether the status is an error.
    pub is_error: bool,
    /// The positions of the errors recorded as exceptions.
    pub exceptions: Seq<usize>,
    /// The positions of the properties that become attributes.
    pub attributes: Seq<usize>,
}

/// Whether a key is one the span already carries, and so is left out.
pub open spec fn is_span_key(key: Seq<char>) -> bool {
    key == KEY_TRACE_ID@ || key == KEY_SPAN_ID@ || key == KEY_SPAN_PARENT@ || key == KEY_SPAN_NAME@
        || key == KEY_EVENT_KIND@
}

/// The span after visiting the property at position `i`: an error level
/// sets the error status; an error is recorded as an exception; the keys the
/// span carries are left out; anything else, other levels included, becomes
/// an attribute.
pub open spec fn span_step(st: SpanPlanView, i: int, p: LogProp) -> SpanPlanView {
    if p.key@ == KEY_LVL@ && p.level matches Some(Level::Error) {
        SpanPlanView { is_error: true, ..st }
    } else if p.key@ == KEY_ERR@ {
        SpanPlanView { exceptions: st.exceptions.push(i as usize), ..st }
    } else if is_span_key(p.key@) {
        st
    } else {
        SpanPlanView { attributes: st.attributes.push(i as usize), ..st }
    }
}

/// The span built from the first `n` properties.
pub open spec fn span_plan(props: Seq<LogProp>, n: int) -> SpanPlanView
    decreases n,
{
    if n <= 0 {
        SpanPlanView { is_error: false, exceptions: Seq::empty(), attributes: Seq::empty() }
    } else {
        span_step(span_plan(props, n - 1), n - 1, props[n - 1])
    }
}

/// Whether a property is left out of a completed span's attributes: the
/// span already carries its trace, span, parent, name and kind; an error is
/// recorded as an exception instead; an error level sets the status instead.
pub open spec fn is_left_out_of_span(p: LogProp) -> bool {
    ||| p.key@ == "trace_id"@
    ||| p.key@ == "span_id"@
    ||| p.key@ == "span_parent"@
    ||| p.key@ == "span_name"@
    ||| p.key@ == "event_kind"@
    ||| p.key@ == "err"@
    ||| (p.key@ == "lvl"@ && p.level matches Some(Level::Error))
}

/// Reveal the text of the keys a span is completed from.
proof fn reveal_span_keys()
    ensures
        KEY_TRACE_ID@ == "trace_id"@,
        KEY_SPAN_ID@ == "span_id"@,
        KEY_SPAN_PARENT@ == "span_parent"@,
        KEY_SPAN_NAME@ == "span_name"@,
        KEY_EVENT_KIND@ == "event_kind"@,
        KEY_ERR@ == "err"@,
        KEY_LVL@ == "lvl"@,
        "err"@ != "lvl"@,
        "err"@ != "trace_id"@ && "err"@ != "span_id"@ && "err"@ != "span_parent"@
            && "err"@ != "span_name"@ && "err"@ != "event_kind"@,
        "lvl"@ != "trace_id"@ && "lvl"@ != "span_id"@ && "lvl"@ != "span_parent"@
            && "lvl"@ != "span_name"@ && "lvl"@ != "event_kind"@,
{
    reveal_strlit("trace_id");
    reveal_strlit("span_id");
    reveal_strlit("span_parent");
    reveal_strlit("span_name");
    reveal_strlit("event_kind");
    reveal_strlit("err");
    reveal_strlit("lvl");
    assert("err"@[0] != "lvl"@[0]);
    assert("err"@.len() == 3 && "lvl"@.len() == 3);
    assert("trace_id"@.len() == 8 && "span_id"@.len() == 7 && "span_parent"@.len() == 11);
    assert("span_name"@.len() == 9 && "event_kind"@.len() == 10);
}

/// Completing a span from the first `n` properties: its attributes are
/// exactly the properties that aren't left out, in order, so none of them
/// holds the trace id, span id, parent, span name, event kind, an error or
/// an error level; its exceptions are exactly the properties keyed `err`,
/// in order; and its status is an error exactly when some property keyed
/// `lvl` reads as the error level.
pub proof fn lemma_span_plan<'a>(props: Seq<LogProp>, n: int)
    requires
        0 <= n <= props.len() <= usize::MAX,
    ensures
        forall|j: int|
            #![trigger span_plan(props, n).attributes[j]]
            0 <= j < span_plan(props, n).attributes.len() ==> 0 <= span_plan(props, n).attributes[j] < n
                && !is_left_out_of_span(props[span_plan(props, n).attributes[j] as int]),
        forall|j: int, k: int|
            0 <= j < k < span_plan(props, n).attributes.len() ==> span_plan(props, n).attributes[j]
                < span_plan(props, n).attributes[k],
        forall|i: int|
            0 <= i < n && !is_left_out_of_span(#[trigger] props[i]) ==> span_plan(props, n).attributes.contains(
                i as usize,
            ),
        forall|j: int|
            #![trigger span_plan(props, n).exceptions[j]]
            0 <= j < span_plan(props, n).exceptions.len() ==> 0 <= span_plan(props, n).exceptions[j] < n
                && props[span_plan(props, n).exceptions[j] as int].key@ == "err"@,
        forall|i: int|
            0 <= i < n && (#[trigger] props[i]).key@ == "err"@ ==> span_plan(props, n).exceptions.contains(
                i as usize,
            ),
        span_plan(props, n).is_error <==> exists|i: int|
            0 <= i < n && (#[trigger] props[i]).key@ == "lvl"@ && props[i].level matches Some(Level::Error),
    decreases n,
{
    reveal_span_keys();
    if n > 0 {
        lemma_span_plan(props, n - 1);
        let before = span_plan(props, n - 1);
        let after = span_plan(props, n);
        assert forall|i: int| 0 <= i < n && !is_left_out_of_span(#[trigger] props[i]) implies after.attributes.contains(
            i as usize,
        ) by {
            if i < n - 1 {
                let j = choose|j: int| 0 <= j < before.attributes.len() && before.attributes[j] == i as usize;
                if after.attributes != before.attributes {
                    assert(after.attributes[j] == before.attributes[j]);
                }
            } else {
                assert(after.attributes.last() == i as usize);
            }
        }
        assert forall|i: int| 0 <= i < n && (#[trigger] props[i]).key@ == "err"@ implies after.exceptions.contains(
            i as usize,
        ) by {
            if i < n - 1 {
                let j = choose|j: int| 0 <= j < before.exceptions.len() && before.exceptions[j] == i as usize;
                if after.exceptions != before.exceptions {
                    assert(after.exceptions[j] == before.exceptions[j]);
                }
            } else {
                assert(after.exceptions.last() == i as usize);
            }
        }
        if after.is_error && !before.is_error {
            assert(props[n - 1].key@ == "lvl"@);
        }
        if before.is_error {
            let i = choose|i: int|
                0 <= i < n - 1 && (#[trigger] props[i]).key@ == "lvl"@ && props[i].level matches Some(Level::Error);
            assert(0 <= i < n && props[i].key@ == "lvl"@);
        }
    }
}

/// What happens to an event when it reaches OpenTelemetry.
pub enum SpanOutcome {
    /// The event completes the active span.
    End(SpanPlan),
    /// A span event that doesn't belong to the active span, or whose span
    /// was already completed: counted as unexpected, then written as a log
    /// record.
    Unexpected,
    /// Not a span event: written as a log record.
    NotSpan,
}

/// The end of an event's span, if its extent is a span.
pub open spec fn span_end(extent: Option<ExtentView>) -> Option<Timestamp> {
    match extent {
        Some(e) => if e.is_span {
            Some(e.end)
        } else {
            None
        },
        None => None,
    }
}

impl SpanPlan {
    /// The plan's properties as a value of its view.
    pub open spec fn view_of(&self) -> SpanPlanView {
        SpanPlanView { is_error: self.is_error, exceptions: self.exceptions@, attributes: self.attributes@ }
    }
}

/// Decide what happens to an event when it reaches OpenTelemetry.
///
/// `is_span_event` says whether the event is a span; `end_on_close` whether
/// the active frame still has a span to complete, and `active_span` that
/// span's id; `evt_span_id` is the event's span id, if it reads as one.
/// Only a span event for the active span completes it.
pub fn plan_span(
    is_span_event: bool,
    end_on_close: bool,
    active_span: Option<SpanId>,
    evt_span_id: Option<SpanId>,
    extent: Option<&Extent>,
    props: &Vec<LogProp>,
) -> (r: SpanOutcome)
    ensures
        !is_span_event ==> r is NotSpan,
        is_span_event ==> (r is End <==> (end_on_close && active_span is Some && active_span == evt_span_id)),
        is_span_event ==> !(r is NotSpan),
        r matches SpanOutcome::End(plan) ==> plan.view_of() == span_plan(props@, props@.len() as int)
            && plan.end == span_end(
            match extent {
                Some(e) => Some(e@),
                None => None,
            },
        ),
        r matches SpanOutcome::End(plan) ==> forall|j: int|
            0 <= j < plan.attributes@.len() ==> !is_left_out_of_span(props@[#[trigger] plan.attributes@[j] as int]),
{
    if !is_span_event {
        return SpanOutcome::NotSpan;
    }
    let ends = match (active_span, evt_span_id) {
        (Some(a), Some(e)) => end_on_close && a == e,
        _ => false,
    };
    if !ends {
        return SpanOutcome::Unexpected;
    }
    let mut plan = SpanPlan { is_error: false, exceptions: Vec::new(), attributes: Vec::new(), end: None };
    let mut i: usize = 0;
    while i < props.len()
        invariant
            i <= props@.len(),
            plan.view_of() == span_plan(props@, i as int),
        decreases props@.len() - i,
    {
        let p = &props[i];
        let key = p.key.as_str();
        let is_error_level = match p.level {
            Some(Level::Error) => true,
            _ => false,
        };
        if str_eq(key, KEY_LVL) && is_error_level {
            plan.is_error = true;
        } else if str_eq(key, KEY_ERR) {
            plan.exceptions.push(i);
        } else if str_eq(key, KEY_TRACE_ID) || str_eq(key, KEY_SPAN_ID) || str_eq(key, KEY_SPAN_PARENT)
            || str_eq(key, KEY_SPAN_NAME) || str_eq(key, KEY_EVENT_KIND) {
        } else {
            plan.attributes.push(i);
        }
        i = i + 1;
    }
    plan.end = match extent {
        Some(e) => match e.as_span() {
            Some(range) => Some(range.end),
            None => None,
        },
        None => None,
    };
    proof {
        lemma_span_plan(props@, props@.len() as int);
    }
    SpanOutcome::End(plan)
}

} // verus!
