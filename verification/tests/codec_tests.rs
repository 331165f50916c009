use traceagg::codec::{extract, inject, parse_header, Carrier, TraceContext};

#[test]
fn parse_well_formed_header() {
    let r = parse_header("00-0af7651916cd43dd8448eb211c80319c-b7ad6b7169203331-01");
    let t = r.expect("well-formed header must parse");
    assert_eq!(t.trace_id, 0x0af7651916cd43dd8448eb211c80319cu128);
    assert_eq!(t.parent_span_id, 0xb7ad6b7169203331u64);
    assert!(t.sampled);
}

#[test]
fn parse_unsampled_header() {
    let r = parse_header("00-0af7651916cd43dd8448eb211c80319c-b7ad6b7169203331-00");
    let t = r.expect("well-formed header must parse");
    assert!(!t.sampled);
}

#[test]
fn malformed_headers_yield_no_context() {
    // Wrong length.
    assert!(parse_header("").is_none());
    assert!(parse_header("00-abc").is_none());
    // Wrong version.
    assert!(parse_header("01-0af7651916cd43dd8448eb211c80319c-b7ad6b7169203331-01").is_none());
    // Missing dash.
    assert!(parse_header("00x0af7651916cd43dd8448eb211c80319c-b7ad6b7169203331-01").is_none());
    // Uppercase hex is not accepted.
    assert!(parse_header("00-0AF7651916CD43DD8448EB211C80319C-B7AD6B7169203331-01").is_none());
    // Non-hex characters.
    assert!(parse_header("00-0af7651916cd43dd8448eb211c80319z-b7ad6b7169203331-01").is_none());
    // All-zero trace id.
    assert!(parse_header("00-00000000000000000000000000000000-b7ad6b7169203331-01").is_none());
    // All-zero parent span id.
    assert!(parse_header("00-0af7651916cd43dd8448eb211c80319c-0000000000000000-01").is_none());
}

#[test]
fn absent_header_yields_no_context() {
    let c = Carrier { traceparent: None };
    assert!(extract(&c).is_none());
}

#[test]
fn malformed_carrier_yields_no_context() {
    let c = Carrier { traceparent: Some(String::from("not a traceparent")) };
    assert!(extract(&c).is_none());
}

#[test]
fn inject_writes_canonical_header() {
    let t = TraceContext {
        trace_id: 0x0af7651916cd43dd8448eb211c80319cu128,
        parent_span_id: 0xb7ad6b7169203331u64,
        sampled: true,
    };
    let c = inject(&t);
    let v = c.traceparent.expect("inject always writes the header");
    assert_eq!(v, "00-0af7651916cd43dd8448eb211c80319c-b7ad6b7169203331-01");
}

#[test]
fn inject_normalizes_unsampled_flag() {
    let t = TraceContext { trace_id: 1, parent_span_id: 2, sampled: false };
    let c = inject(&t);
    let v = c.traceparent.expect("inject always writes the header");
    assert_eq!(v, "00-00000000000000000000000000000001-0000000000000002-00");
}

#[test]
fn extract_inject_round_trip() {
    let inbound = Carrier {
        traceparent: Some(String::from(
            "00-4bf92f3577b34da6a3ce929d0e0e4736-00f067aa0ba902b7-03",
        )),
    };
    let t = extract(&inbound).expect("well-formed carrier must extract");
    let outbound = inject(&t);
    let u = extract(&outbound).expect("injected carrier must extract");
    assert_eq!(t.trace_id, u.trace_id);
    assert_eq!(t.parent_span_id, u.parent_span_id);
    assert_eq!(t.sampled, u.sampled);
    // Flag byte 03 carries the sampled bit.
    assert!(t.sampled);
}

#[test]
fn fake_1() {
    let s = "one";
    assert_eq!("one", s);
}
