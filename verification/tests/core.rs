use emit::ctxt::Ctxt;
use emit::emitter::Emitter;
use std::cell::RefCell;
use emit::and::And;
use emit::ambient::Ambient;
use emit::by_ref::ByRef;
use emit::calendar::date_from_days;
use emit::clock::Clock;
use emit::empty::Empty;
use emit::event::Event;
use emit::extent::{Extent, ToExtent};
use emit::filter::{and_when, always, or_when, Filter};
use emit::hex::{decode_u128, encode_u128, hex_digit, nibble_char};
use emit::id::{IdGen, SpanId, TraceId};
use emit::key::Key;
use emit::level::Level;
use emit::metrics::{Metric, METRIC_KIND_MAX, METRIC_KIND_MIN, METRIC_KIND_SUM};
use emit::or::Or;
use emit::path::Path;
use emit::rng::{from_le_bytes, Rng};
use emit::runtime::Runtime;
use emit::str::Str;
use emit::target::Target;
use emit::template::Template;
use emit::timestamp::Timestamp;
use std::borrow::Cow;

struct FixedClock(u64);

impl Clock for FixedClock {
    fn now(&self) -> Option<Timestamp> {
        Timestamp::from_parts(self.0, 0)
    }
}

struct CountingRng;

impl Rng for CountingRng {
    fn fill<const N: usize>(&self, mut arr: [u8; N]) -> Option<[u8; N]> {
        for (i, b) in arr.iter_mut().enumerate() {
            *b = (i + 1) as u8;
        }
        Some(arr)
    }
}

fn ts(secs: u64) -> Timestamp {
    Timestamp::from_parts(secs, 0).unwrap()
}

#[test]
fn level_display_text() {
    assert_eq!(Level::Debug.as_str(), "DEBUG");
    assert_eq!(Level::Info.as_str(), "INFO");
    assert_eq!(Level::Warn.as_str(), "WARN");
    assert_eq!(Level::Error.as_str(), "ERROR");
    assert_eq!(Level::default().as_str(), "INFO");
}

#[test]
fn key_equality_ignores_storage() {
    let owned = Key::new_owned(String::from("a"));
    let borrowed_text = String::from("a");
    let borrowed = Key::new_ref(&borrowed_text);
    assert!(Key::new("a") == owned);
    assert!(owned == borrowed);
    assert!(Key::new("a") != Key::new("b"));
    assert_eq!(Key::new("a").as_static_str(), Some("a"));
    assert_eq!(owned.as_static_str(), None);
    assert!(matches!(Key::new("a").to_cow(), Cow::Borrowed("a")));
    assert!(matches!(owned.to_cow(), Cow::Owned(_)));
    assert_eq!(Key::new_cow_ref(Cow::Owned(String::from("c"))).as_str(), "c");
    assert_eq!(borrowed.to_owned().as_str(), "a");
}

#[test]
fn str_equality_ignores_storage() {
    let shared = Str::new_shared(String::from("text"));
    let owned = Str::new_owned(String::from("text"));
    assert!(shared == owned);
    assert!(Str::new("text") == shared);
    assert_eq!(shared.get(), "text");
    assert_eq!(Str::new("s").get_static(), Some("s"));
    assert_eq!(owned.get_static(), None);
    assert_eq!(owned.to_shared().get(), "text");
    assert_eq!(owned.by_ref().get(), "text");
    assert!(Str::new("x") != Str::new("y"));
}

#[test]
fn metric_kinds() {
    let sum = Metric::sum(Key::new("requests"), 5u64);
    assert!(sum.is_sum() && !sum.is_min() && !sum.is_max());
    assert_eq!(sum.kind().as_str(), METRIC_KIND_SUM);
    assert_eq!(sum.name().as_str(), "requests");
    assert_eq!(*sum.value(), 5);

    let mut min = Metric::min(Key::new("latency"), 1u64);
    assert!(min.is_min() && !min.is_sum());
    assert_eq!(min.kind().as_str(), METRIC_KIND_MIN);
    *min.value_mut() = 2;
    assert_eq!(*min.value(), 2);

    let max = Metric::max(Key::new("latency"), 9u64);
    assert!(max.is_max());
    assert_eq!(max.kind().as_str(), METRIC_KIND_MAX);

    let custom = Metric::new(Key::new("sum"), Key::new("x"), 0u8);
    assert!(custom.is_sum());
}

#[test]
fn extent_point_and_span() {
    let p = Extent::point(ts(5));
    assert!(p.is_point() && !p.is_span());
    assert!(p.as_span().is_none());
    assert!(*p.as_point() == ts(5));
    assert!(p.to_point().is_some());
    assert!(p.len().is_none());

    let s = Extent::span(ts(1)..ts(4));
    assert!(s.is_span());
    assert!(*s.as_point() == ts(4));
    assert!(s.to_point().is_none());
    assert!(s.as_range().start == ts(1));
    assert_eq!(s.len(), Some(std::time::Duration::from_secs(3)));

    let empty = Extent::span(ts(2)..ts(2));
    assert!(empty.is_span());
    assert!(empty.as_span().is_some());
}

#[test]
fn to_extent_conversions() {
    assert!(Empty.to_extent().is_none());
    assert!(ts(1).to_extent().unwrap().is_point());
    assert!((ts(1)..ts(2)).to_extent().unwrap().is_span());
    assert!((Some(ts(1))..Some(ts(2))).to_extent().unwrap().is_span());
    assert!(*(None..Some(ts(2))).to_extent().unwrap().as_point() == ts(2));
    assert!(*(Some(ts(1))..None::<Timestamp>).to_extent().unwrap().as_point() == ts(1));
    assert!((None::<Timestamp>..None::<Timestamp>).to_extent().is_none());
    assert!(None::<Timestamp>.to_extent().is_none());
}

#[test]
fn hex_helpers() {
    assert_eq!(hex_digit(b'7'), Some(7));
    assert_eq!(hex_digit(b'a'), Some(10));
    assert_eq!(hex_digit(b'F'), Some(15));
    assert_eq!(hex_digit(b'g'), None);
    assert_eq!(nibble_char(11), b'b');
    assert_eq!(encode_u128(0xbeef, 6), b"00beef".to_vec());
    assert_eq!(decode_u128(b"00BEEF"), Some(0xbeef));
    assert_eq!(decode_u128(b"00beeg"), None);
    assert_eq!(decode_u128(&encode_u128(u128::MAX, 32)), Some(u128::MAX));
}

#[test]
fn little_endian_bytes() {
    assert_eq!(from_le_bytes(&[]), 0);
    assert_eq!(from_le_bytes(&[1, 2]), 0x0201);
    assert_eq!(from_le_bytes(&[0xff; 16]), u128::MAX);
}

#[test]
fn rng_generates_from_filled_bytes() {
    assert_eq!(CountingRng.gen_u64(), Some(0x0807060504030201));
    assert_eq!(Some(CountingRng).gen_u64(), Some(0x0807060504030201));
    assert_eq!(CountingRng.gen_u128(), Some(0x100f0e0d0c0b0a090807060504030201));
    assert_eq!(Empty.gen_u64(), None);
    assert_eq!(None::<CountingRng>.gen_u128(), None);
}

#[test]
fn calendar_dates() {
    assert_eq!(date_from_days(0), (1970, 1, 1));
    assert_eq!(date_from_days(11016), (2000, 2, 29));
    assert_eq!(date_from_days(11017), (2000, 3, 1));
    assert_eq!(date_from_days(2932896), (9999, 12, 31));
}

#[test]
fn filters_combine() {
    let evt = Event::new(Path::new("app"), None, Template::literal("msg"), Empty);
    assert!(always().matches(&evt));
    assert!(Some(Empty).matches(&evt));
    assert!(None::<Empty>.matches(&evt));
    assert!(and_when(Empty, Empty).matches(&evt));
    assert!(or_when(Empty, Empty).matches(&evt));
    let both = And::new(Empty, Empty);
    assert!(both.matches(&evt));
    let either = Or::new(Empty, Empty);
    assert!(either.matches(&evt));
}

#[test]
fn runtime_timestamps_events_without_extent() {
    let rt = Runtime::new().with_clock(FixedClock(42));
    let evt = Event::new(Path::new("app"), None, Template::literal("msg"), Empty);
    let stamped = rt.timestamp(evt);
    assert!(*stamped.extent().unwrap().as_point() == ts(42));

    let evt = Event::new(Path::new("app"), Some(Extent::point(ts(7))), Template::literal("msg"), Empty);
    let kept = rt.timestamp(evt);
    assert!(*kept.extent().unwrap().as_point() == ts(7));

    let rt = Runtime::new();
    let evt = Event::new(Path::new("app"), None, Template::literal("msg"), Empty);
    assert!(rt.timestamp(evt).extent().is_none());
}

#[test]
fn runtime_prepare_keeps_passing_events() {
    let rt = Runtime::new().with_clock(FixedClock(1));
    let evt = Event::new(Path::new("app::mod"), None, Template::literal("msg"), 3u8);
    let prepared = rt.prepare(evt).unwrap();
    assert_eq!(prepared.module().as_str(), "app::mod");
    assert_eq!(*prepared.props(), 3u8);
    assert!(prepared.extent().is_some());
}

#[test]
fn ambient_defers_to_components() {
    let ambient = Ambient::new().with_clock(FixedClock(9));
    assert!(ambient.now().unwrap() == ts(9));
    assert!(ambient.new_trace_id().is_none());
    assert!(Ambient::new().now().is_none());
}

#[test]
fn empty_components() {
    assert!(Empty.now().is_none());
    assert!(Empty.new_span_id().is_none());
    assert!(Empty.new_trace_id().is_none());
    assert!(Some(FixedClock(3)).now().unwrap() == ts(3));
    assert!(TraceId::from_u128(1).is_some());
    assert!(SpanId::from_u64(1).is_some());
}

#[test]
fn event_accessors() {
    let evt = Event::new(Path::new("a::b"), Some(Extent::point(ts(1))), Template::literal("msg"), 5u8);
    let borrowed = evt.by_ref();
    assert_eq!(borrowed.module().as_str(), "a::b");
    assert_eq!(*borrowed.props().inner(), 5u8);
    assert!(*borrowed.tpl() == Template::literal("msg"));
    assert_eq!(evt.msg().as_literal().map(|s| s.get()), Some("msg"));
    let moved = evt.with_extent(None);
    assert!(moved.extent().is_none());
    let r = ByRef::new(&7u8);
    assert_eq!(*r.inner(), 7);
}

struct CountingTarget(std::cell::Cell<usize>);

impl Target for CountingTarget {
    fn event<P>(&self, _: &Event<'_, P>) {
        self.0.set(self.0.get() + 1);
    }

    fn blocking_flush(&self, _: std::time::Duration) {}
}

#[test]
fn targets_forward_events() {
    let a = CountingTarget(std::cell::Cell::new(0));
    let b = CountingTarget(std::cell::Cell::new(0));
    let evt = Event::new(Path::new("app"), None, Template::literal("msg"), Empty);
    {
        let both = (&a).and(&b);
        both.event(&evt);
        both.blocking_flush(std::time::Duration::from_millis(10));
    }
    assert_eq!(a.0.get(), 1);
    assert_eq!(b.0.get(), 1);
    a.by_ref().event(&evt);
    Some(&b).event(&evt);
    None::<CountingTarget>.event(&evt);
    Empty.event(&evt);
    assert_eq!(a.0.get(), 2);
    assert_eq!(b.0.get(), 2);
}

#[test]
fn shared_str_clones_share_text() {
    let shared = Str::new_shared(String::from("shared"));
    let copy = shared.clone();
    assert_eq!(copy.get(), "shared");
    assert!(copy == shared);
    let static_copy = Str::new("s").clone();
    assert_eq!(static_copy.get_static(), Some("s"));
}

#[test]
fn text_orders_by_bytes() {
    assert!(Str::new("a") < Str::new("b"));
    assert!(Str::new("a") < Str::new_owned(String::from("ab")));
    assert!(Str::new("B") < Str::new("a"));
    assert_eq!(Str::new("x").partial_cmp(&Str::new("x")), Some(std::cmp::Ordering::Equal));
    assert!(Key::new("lvl") > Key::new("err"));
    assert!(Path::new("a::b") > Path::new("a"));
    assert_eq!(emit::order::compare_text("é", "z"), std::cmp::Ordering::Greater);
}

#[test]
fn defaults_are_empty() {
    let rt: Runtime = Runtime::default();
    let evt = Event::new(Path::new("app"), None, Template::literal("msg"), Empty);
    assert!(rt.timestamp(evt).extent().is_none());
    let ambient: Ambient = Ambient::default();
    assert!(ambient.now().is_none());
    assert!(ambient.new_span_id().is_none());
}

#[test]
fn metric_well_known() {
    let metric = Metric::sum(Key::new("metric"), 1usize);

    assert_eq!("metric", metric.name().as_str());
    assert_eq!("sum", metric.kind().as_str());
    assert!(metric.is_sum());
    assert_eq!(1usize, *metric.value());
}

struct CtxtProps(Vec<(Str<'static>, u32)>);

impl Ctxt for CtxtProps {
    type Current = Vec<(Str<'static>, u32)>;

    fn with_current<R, F: FnOnce(&Self::Current) -> R>(&self, with: F) -> R {
        with(&self.0)
    }
}

struct Recorder(RefCell<Vec<(String, u8, Vec<u32>, Option<u64>)>>);

impl<'c> Emitter<And<u8, &'c Vec<(Str<'static>, u32)>>> for Recorder {
    fn emit(&self, evt: &Event<'_, And<u8, &'c Vec<(Str<'static>, u32)>>>) {
        let current: Vec<u32> = evt.props().right().iter().map(|p| p.1).collect();
        let at = evt.extent().map(|e| e.as_point().to_unix().as_secs());
        self.0.borrow_mut().push((evt.module().as_str().to_string(), *evt.props().left(), current, at));
    }

    fn blocking_flush(&self, _: std::time::Duration) -> bool {
        true
    }
}

#[test]
fn runtime_emit_attaches_context_and_time() {
    let rt = Runtime::build(
        Recorder(RefCell::new(Vec::new())),
        Empty,
        CtxtProps(vec![(Str::new("request"), 7), (Str::new("user"), 9)]),
        FixedClock(42),
        Empty,
    );
    rt.emit(Event::new(Path::new("app"), None, Template::literal("msg"), 3u8));
    rt.emit(Event::new(Path::new("app::db"), Some(Extent::point(ts(5))), Template::literal("msg"), 4u8));

    let seen = rt.emitter().0.borrow();
    assert_eq!(seen.len(), 2);
    assert_eq!(seen[0], ("app".to_string(), 3, vec![7, 9], Some(42)));
    assert_eq!(seen[1], ("app::db".to_string(), 4, vec![7, 9], Some(5)));
}
