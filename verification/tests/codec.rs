use hoptrace::codec::{decode, encode, DecodeError};
use hoptrace::span::SpanContext;

const HEADER: &str = "v1-4bf92f3577b34da6a3ce929d0e0e4736-00f067aa0ba902b7-01";

#[test]
fn decode_known_header() {
    let r = decode(HEADER.as_bytes()).unwrap();
    assert_eq!(r.trace_id, 0x4bf92f3577b34da6a3ce929d0e0e4736u128);
    assert_eq!(r.span_id, 0x00f067aa0ba902b7u64);
    assert!(r.sampled);
}

#[test]
fn encode_known_value() {
    let ctx = SpanContext {
        trace_id: 0x4bf92f3577b34da6a3ce929d0e0e4736,
        span_id: 0x00f067aa0ba902b7,
        sampled: true,
    };
    assert_eq!(String::from_utf8(encode(&ctx)).unwrap(), HEADER);
}

#[test]
fn encode_unsampled_flag() {
    let ctx = SpanContext { trace_id: 1, span_id: 2, sampled: false };
    let s = String::from_utf8(encode(&ctx)).unwrap();
    assert_eq!(s, "v1-00000000000000000000000000000001-0000000000000002-00");
}

#[test]
fn round_trip_values() {
    let cases = [
        SpanContext { trace_id: 0, span_id: 0, sampled: false },
        SpanContext { trace_id: u128::MAX, span_id: u64::MAX, sampled: true },
        SpanContext { trace_id: 0xdeadbeef, span_id: 0x1234, sampled: true },
        SpanContext { trace_id: 1 << 127, span_id: 1 << 63, sampled: false },
    ];
    for ctx in cases {
        assert_eq!(decode(&encode(&ctx)).unwrap(), ctx);
    }
}

#[test]
fn decode_rejects_wrong_length() {
    assert_eq!(decode(b""), Err(DecodeError::Malformed));
    assert_eq!(decode(b"v1"), Err(DecodeError::Malformed));
    // One digit short in the trace id field.
    assert_eq!(
        decode(b"v1-4bf92f3577b34da6a3ce929d0e0e473-00f067aa0ba902b7-01"),
        Err(DecodeError::Malformed)
    );
    // One digit too many in the span id field.
    assert_eq!(
        decode(b"v1-4bf92f3577b34da6a3ce929d0e0e4736-00f067aa0ba902b7a-01"),
        Err(DecodeError::Malformed)
    );
}

#[test]
fn decode_rejects_wrong_version() {
    assert_eq!(
        decode(b"v2-4bf92f3577b34da6a3ce929d0e0e4736-00f067aa0ba902b7-01"),
        Err(DecodeError::Malformed)
    );
    assert_eq!(
        decode(b"w1-4bf92f3577b34da6a3ce929d0e0e4736-00f067aa0ba902b7-01"),
        Err(DecodeError::Malformed)
    );
}

#[test]
fn decode_rejects_wrong_field_count() {
    // A stray delimiter inside the trace id field splits it in two.
    assert_eq!(
        decode(b"v1-4bf92f3577b34da6-a3ce929d0e0e4736-00f067aa0ba902b7-01"),
        Err(DecodeError::Malformed)
    );
    // Delimiter in place of a flags digit.
    assert_eq!(
        decode(b"v1-4bf92f3577b34da6a3ce929d0e0e4736-00f067aa0ba902b7-0-"),
        Err(DecodeError::Malformed)
    );
}

#[test]
fn decode_rejects_non_hex() {
    assert_eq!(
        decode(b"v1-4bf92f3577b34da6a3ce929d0e0e473g-00f067aa0ba902b7-01"),
        Err(DecodeError::InvalidHex)
    );
    assert_eq!(
        decode(b"v1-4bf92f3577b34da6a3ce929d0e0e4736-00f067aa0ba902z7-01"),
        Err(DecodeError::InvalidHex)
    );
    assert_eq!(
        decode(b"v1-4bf92f3577b34da6a3ce929d0e0e4736-00f067aa0ba902b7-0!"),
        Err(DecodeError::InvalidHex)
    );
}

#[test]
fn decode_accepts_uppercase_hex() {
    let r = decode(b"v1-4BF92F3577B34DA6A3CE929D0E0E4736-00F067AA0BA902B7-01").unwrap();
    assert_eq!(r.trace_id, 0x4bf92f3577b34da6a3ce929d0e0e4736u128);
    assert_eq!(r.span_id, 0x00f067aa0ba902b7u64);
}

#[test]
fn sampled_is_low_bit_of_flags() {
    let on = decode(b"v1-4bf92f3577b34da6a3ce929d0e0e4736-00f067aa0ba902b7-ff").unwrap();
    assert!(on.sampled);
    let off = decode(b"v1-4bf92f3577b34da6a3ce929d0e0e4736-00f067aa0ba902b7-fe").unwrap();
    assert!(!off.sampled);
}
