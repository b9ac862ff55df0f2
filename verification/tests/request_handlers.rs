use rustpaymentapi::carrier::Carrier;
use rustpaymentapi::exporter::init_telemetry;
use rustpaymentapi::handlers::{greeting, hello_response, payment_response, process_payment};
use rustpaymentapi::payment::{approve_from_draw, decide_payment, draw_below, payment_status};

fn provider() -> rustpaymentapi::exporter::TracerProvider {
    init_telemetry(Some("http://localhost:4317".to_string()), 16)
}

#[test]
fn greeting_builds_the_exact_message() {
    assert_eq!(greeting("Ada"), "Hello Ada!".to_string());
    assert_eq!(greeting(""), "Hello !".to_string());
}

#[test]
fn hello_ada_answers_and_creates_exactly_one_named_span() {
    let mut p = provider();
    let msg = hello_response(&mut p, &Carrier::new(), "Ada");
    assert_eq!(msg, "Hello Ada!".to_string());
    let out = p.flush();
    assert_eq!(out.len(), 1, "exactly one span per request");
    assert_eq!(out[0].name, "hello");
    assert_eq!(out[0].parent_span_id, 0, "no headers supplied, so a new root");
}

#[test]
fn hello_span_is_parented_to_the_extracted_context() {
    let mut headers = Carrier::new();
    headers.push_header(
        b"traceparent".to_vec(),
        b"00-0af7651916cd43dd8448eb211c80319c-b7ad6b7169203331-01".to_vec(),
    );
    let mut p = provider();
    let _ = hello_response(&mut p, &headers, "Ada");
    let out = p.flush();
    assert_eq!(out.len(), 1);
    assert_eq!(out[0].trace_id, 0x0af7651916cd43dd8448eb211c80319cu128);
    assert_eq!(out[0].parent_span_id, 0xb7ad6b7169203331u64);
}

#[test]
fn payment_status_is_exactly_one_of_two_words() {
    assert_eq!(payment_status(true), "success");
    assert_eq!(payment_status(false), "declined");
}

#[test]
fn approval_threshold_sits_at_eight_of_ten() {
    for draw in 0..8 {
        assert!(approve_from_draw(draw));
    }
    for draw in 8..10 {
        assert!(!approve_from_draw(draw));
    }
}

#[test]
fn payment_answers_by_the_draw_with_one_span_either_way() {
    let mut p = provider();
    assert_eq!(payment_response(&mut p, &Carrier::new(), 3), "success");
    assert_eq!(p.flush().len(), 1, "one span on approval");
    assert_eq!(payment_response(&mut p, &Carrier::new(), 9), "declined");
    let out = p.flush();
    assert_eq!(out.len(), 1, "one span on decline too");
    assert_eq!(out[0].name, "process_payment");
}

#[test]
fn process_payment_never_answers_a_third_status() {
    let mut p = provider();
    for _ in 0..200 {
        let status = process_payment(&mut p, &Carrier::new());
        assert!(status == "success" || status == "declined");
    }
    assert_eq!(p.flush().len(), 16, "one span per request, up to the buffer bound");
}

#[test]
fn the_draw_stays_below_its_bound() {
    assert_eq!(draw_below(1), 0);
    for _ in 0..1000 {
        assert!(draw_below(10) < 10);
    }
    let _ = decide_payment();
}
