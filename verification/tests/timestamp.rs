use emit::timestamp::Timestamp;
use std::time::Duration;

fn render(secs: u64, nanos: u32, precision: Option<usize>) -> Option<String> {
    Timestamp::new(Duration::new(secs, nanos)).to_rfc3339(precision)
}

#[test]
fn rfc3339_epoch() {
    assert_eq!(render(0, 0, None).unwrap(), "1970-01-01T00:00:00.000000000Z");
    assert_eq!(render(0, 0, Some(0)).unwrap(), "1970-01-01T00:00:00Z");
}

#[test]
fn rfc3339_known_points() {
    assert_eq!(render(1716804019, 165847000, None).unwrap(), "2024-05-27T10:00:19.165847000Z");
    assert_eq!(render(951782400, 0, Some(0)).unwrap(), "2000-02-29T00:00:00Z");
    assert_eq!(render(951868800, 0, Some(0)).unwrap(), "2000-03-01T00:00:00Z");
    assert_eq!(render(4107542400, 0, Some(0)).unwrap(), "2100-03-01T00:00:00Z");
    assert_eq!(render(4107456000, 0, Some(0)).unwrap(), "2100-02-28T00:00:00Z");
    assert_eq!(render(253402300799, 999999999, Some(3)).unwrap(), "9999-12-31T23:59:59.999Z");
}

#[test]
fn rfc3339_precision() {
    assert_eq!(render(0, 123456789, Some(1)).unwrap(), "1970-01-01T00:00:00.1Z");
    assert_eq!(render(0, 123456789, Some(6)).unwrap(), "1970-01-01T00:00:00.123456Z");
    assert_eq!(render(0, 123456789, Some(20)).unwrap(), "1970-01-01T00:00:00.123456789Z");
}

#[test]
fn rfc3339_out_of_range() {
    assert!(render(253402300800, 0, None).is_none());
}

#[test]
fn duration_since_orders_timestamps() {
    let a = Timestamp::from_parts(10, 500).unwrap();
    let b = Timestamp::from_parts(12, 100).unwrap();
    assert_eq!(b.duration_since_parts(&a), Some((1, 999_999_600)));
    assert_eq!(a.duration_since_parts(&b), None);
    assert_eq!(b.duration_since(&a), Some(Duration::new(1, 999_999_600)));
    assert!(Timestamp::from_parts(1, 1_000_000_000).is_none());
}

#[test]
fn to_system_time_and_unix() {
    let ts = Timestamp::from_parts(5, 7).unwrap();
    assert_eq!(
        ts.to_system_time(),
        Some(std::time::SystemTime::UNIX_EPOCH + Duration::new(5, 7))
    );
    assert_eq!(ts.to_unix(), Duration::new(5, 7));
    assert_eq!(ts.unix_secs(), 5);
    assert_eq!(ts.subsec_nanos(), 7);
    let back = Timestamp::new(ts.to_unix());
    assert!(back == ts);
}
