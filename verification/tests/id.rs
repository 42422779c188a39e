use emit::id::{SpanId, TraceId};

#[test]
fn span_id_roundtrip() {
    let id = SpanId::new(u64::MAX / 2);

    let fmt = String::from_utf8(id.to_hex().to_vec()).unwrap();

    let parsed = SpanId::parse_str(&fmt).unwrap();

    assert_eq!(id, parsed, "{}", fmt);
}

#[test]
fn trace_id_roundtrip() {
    let id = TraceId::new(u128::MAX / 2);

    let fmt = String::from_utf8(id.to_hex().to_vec()).unwrap();

    let parsed = TraceId::parse_str(&fmt).unwrap();

    assert_eq!(id, parsed, "{}", fmt);
}

#[test]
fn hex_rendering_is_fixed_width_lower_case() {
    let id = TraceId::from_u128(0xA8).unwrap();
    assert_eq!(&id.to_hex(), b"000000000000000000000000000000a8");
    let id = SpanId::from_u64(0xdeadBEEF).unwrap();
    assert_eq!(&id.to_hex(), b"00000000deadbeef");
}

#[test]
fn hex_parsing_accepts_either_case() {
    let id = SpanId::try_from_hex_slice(b"00000000DEADbeef").unwrap();
    assert_eq!(id.to_u64(), 0xdeadbeef);
    let id = TraceId::try_from_hex_slice(b"0123456789ABCDEFabcdef0123456789").unwrap();
    assert_eq!(id.to_u128(), 0x0123456789ABCDEFabcdef0123456789);
}

#[test]
fn hex_parsing_rejects_bad_input() {
    assert!(SpanId::try_from_hex_slice(b"00000000deadbee").is_err());
    assert!(SpanId::try_from_hex_slice(b"00000000deadbeeg").is_err());
    assert!(SpanId::try_from_hex_slice(b"0000000000000000").is_err());
    assert!(TraceId::try_from_hex_slice(b"00000000000000000000000000000000").is_err());
    assert!(TraceId::try_from_hex_slice(b"0000000000000000000000000000000100").is_err());
    assert!(TraceId::from_u128(0).is_none());
    assert!(SpanId::from_u64(0).is_none());
}
