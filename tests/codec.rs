use fastrace_tonic::codec::decode_traceparent;
use fastrace_tonic::codec::encode_traceparent;
use fastrace_tonic::codec::is_traceparent_format;
use fastrace_tonic::codec::TraceContext;

fn sample() -> TraceContext {
    TraceContext {
        trace_id: 0x4bf92f3577b34da6a3ce929d0e0e4736,
        span_id: 0x00f067aa0ba902b7,
        sampled: true,
    }
}

#[test]
fn encode_known_context() {
    assert_eq!(
        encode_traceparent(&sample()),
        "00-4bf92f3577b34da6a3ce929d0e0e4736-00f067aa0ba902b7-01"
    );
}

#[test]
fn encode_pads_small_ids_and_unsampled_flag() {
    let c = TraceContext { trace_id: 12, span_id: 34, sampled: false };
    assert_eq!(
        encode_traceparent(&c),
        "00-0000000000000000000000000000000c-0000000000000022-00"
    );
}

#[test]
fn decode_known_header() {
    let c = decode_traceparent("00-4bf92f3577b34da6a3ce929d0e0e4736-00f067aa0ba902b7-01");
    assert_eq!(c, Some(sample()));
}

#[test]
fn decode_flags_low_bit_is_sampled() {
    let c = decode_traceparent("00-4bf92f3577b34da6a3ce929d0e0e4736-00f067aa0ba902b7-02").unwrap();
    assert!(!c.sampled);
    let c = decode_traceparent("00-4bf92f3577b34da6a3ce929d0e0e4736-00f067aa0ba902b7-03").unwrap();
    assert!(c.sampled);
}

#[test]
fn round_trip_of_valid_contexts() {
    let contexts = [
        sample(),
        TraceContext { trace_id: 1, span_id: 1, sampled: false },
        TraceContext { trace_id: u128::MAX, span_id: u64::MAX, sampled: true },
    ];
    for c in contexts {
        assert_eq!(decode_traceparent(&encode_traceparent(&c)), Some(c));
    }
}

#[test]
fn decode_rejects_malformed_values() {
    let bad = [
        "",
        "00-4bf92f3577b34da6a3ce929d0e0e4736-00f067aa0ba902b7",
        "00-4bf92f3577b34da6a3ce929d0e0e4736-00f067aa0ba902b7-01-00",
        "01-4bf92f3577b34da6a3ce929d0e0e4736-00f067aa0ba902b7-01",
        "00-4BF92F3577B34DA6A3CE929D0E0E4736-00F067AA0BA902B7-01",
        "00-4bf92f3577b34da6a3ce929d0e0e473g-00f067aa0ba902b7-01",
        "00-c-22-01",
        "00-+bf92f3577b34da6a3ce929d0e0e4736-00f067aa0ba902b7-01",
        "00-4bf92f3577b34da6a3ce929d0e0e47360-0f067aa0ba902b7-01",
        "00-4bf92f3577b34da6a3ce929d0e0e4736-00f067aa0ba902b7-1",
        "00_4bf92f3577b34da6a3ce929d0e0e4736-00f067aa0ba902b7-01",
        "00-4bf92f3577b34da6a3ce929d0e0e4736-00f067aa0ba902b\u{e9}-01",
    ];
    for s in bad {
        assert!(!is_traceparent_format(s), "{s}");
        assert_eq!(decode_traceparent(s), None, "{s}");
    }
}

#[test]
fn decode_rejects_zero_ids() {
    assert!(is_traceparent_format("00-00000000000000000000000000000000-00f067aa0ba902b7-01"));
    assert_eq!(decode_traceparent("00-00000000000000000000000000000000-00f067aa0ba902b7-01"), None);
    assert_eq!(decode_traceparent("00-4bf92f3577b34da6a3ce929d0e0e4736-0000000000000000-01"), None);
}
