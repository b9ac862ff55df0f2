use rustpaymentapi::carrier::Carrier;
use rustpaymentapi::context::{SpanContext, TraceContext};
use rustpaymentapi::propagator::{
    extract, format_traceparent_value, inject, parse_traceparent_value, traceparent_name_vec,
};

fn carrier_with(name: &str, value: &str) -> Carrier {
    let mut c = Carrier::new();
    c.push_header(name.as_bytes().to_vec(), value.as_bytes().to_vec());
    c
}

const VALID: &str = "00-0af7651916cd43dd8448eb211c80319c-b7ad6b7169203331-01";

#[test]
fn extract_valid_header() {
    let c = carrier_with("traceparent", VALID);
    let ctx = extract(&c);
    let parent = ctx.parent.expect("a valid header must extract");
    assert_eq!(parent.trace_id, 0x0af7651916cd43dd8448eb211c80319cu128);
    assert_eq!(parent.span_id, 0xb7ad6b7169203331u64);
    assert_eq!(parent.flags, 1);
}

#[test]
fn extract_is_case_insensitive_on_the_header_name() {
    let c = carrier_with("TraceParent", VALID);
    assert!(extract(&c).parent.is_some());
}

#[test]
fn extract_no_recognizable_header_yields_empty() {
    let mut c = Carrier::new();
    c.push_header(b"content-type".to_vec(), b"application/json".to_vec());
    c.push_header(b"accept".to_vec(), b"*/*".to_vec());
    assert!(extract(&c).parent.is_none());
    assert!(extract(&Carrier::new()).parent.is_none());
}

#[test]
fn extract_malformed_yields_empty_never_fails() {
    let bad = [
        "",
        "00",
        "00-0af7651916cd43dd8448eb211c80319c-b7ad6b7169203331",
        "ff-0af7651916cd43dd8448eb211c80319c-b7ad6b7169203331-01",
        "00-00000000000000000000000000000000-b7ad6b7169203331-01",
        "00-0af7651916cd43dd8448eb211c80319c-0000000000000000-01",
        "00-0AF7651916CD43DD8448EB211C80319C-B7AD6B7169203331-01",
        "00-0af7651916cd43dd8448eb211c80319c-b7ad6b7169203331-01-extra",
        "0g-0af7651916cd43dd8448eb211c80319c-b7ad6b7169203331-01",
        "00_0af7651916cd43dd8448eb211c80319c-b7ad6b7169203331-01",
    ];
    for value in bad {
        let c = carrier_with("traceparent", value);
        assert!(extract(&c).parent.is_none(), "value {value:?} must be rejected");
    }
}

#[test]
fn extract_takes_the_first_valid_header() {
    let mut c = Carrier::new();
    c.push_header(b"traceparent".to_vec(), VALID.as_bytes().to_vec());
    c.push_header(
        b"traceparent".to_vec(),
        b"00-11111111111111111111111111111111-2222222222222222-00".to_vec(),
    );
    let parent = extract(&c).parent.expect("first header is valid");
    assert_eq!(parent.trace_id, 0x0af7651916cd43dd8448eb211c80319cu128);
}

#[test]
fn later_version_with_extension_suffix_is_accepted() {
    let c = carrier_with(
        "traceparent",
        "01-0af7651916cd43dd8448eb211c80319c-b7ad6b7169203331-01-what-ever",
    );
    let parent = extract(&c).parent.expect("a later version may carry extensions");
    assert_eq!(parent.span_id, 0xb7ad6b7169203331u64);
}

#[test]
fn extract_then_inject_round_trips_the_trace_id() {
    let c = carrier_with("traceparent", VALID);
    let ctx = extract(&c);
    let before = ctx.parent.expect("valid header");

    let mut fresh = Carrier::new();
    inject(&ctx, &mut fresh);
    let again = extract(&fresh).parent.expect("injected header must extract");
    assert_eq!(again.trace_id, before.trace_id);
    assert_eq!(again.span_id, before.span_id);
    assert_eq!(again.flags, before.flags);
}

#[test]
fn inject_of_empty_context_writes_nothing() {
    let mut fresh = Carrier::new();
    inject(&TraceContext::empty(), &mut fresh);
    assert!(fresh.get(&traceparent_name_vec()).is_none());
    assert_eq!(fresh.keys().len(), 0);
}

#[test]
fn format_writes_the_exact_header_value() {
    let ctx = SpanContext {
        trace_id: 0x0af7651916cd43dd8448eb211c80319cu128,
        span_id: 0xb7ad6b7169203331u64,
        flags: 1,
    };
    let v = format_traceparent_value(&ctx);
    assert_eq!(v, VALID.as_bytes().to_vec());
}

#[test]
fn parse_value_accepts_exactly_the_well_formed() {
    let some = parse_traceparent_value(&VALID.as_bytes().to_vec());
    assert!(some.is_some());
    let none = parse_traceparent_value(&b"not-a-header".to_vec());
    assert!(none.is_none());
}
