//! The compute parts of the two request handlers. The HTTP layer hands
//! them the header carrier and plain values, and sends back what they
//! return; each runs exactly one span around its work, parented to
//! whatever context the request's headers carry.

use vstd::prelude::*;
use vstd::string::StringExecFns;

use crate::carrier::Carrier;
use crate::exporter::{SpanRecord, TracerProvider, offered};
use crate::payment::{approve_from_draw, draw_below, payment_status};
use crate::propagator::{extract, spec_extract};
use crate::span::{child_record_of, get_tracer};

verus! {

/// The greeting body of `GET /hello/{name}`: `Hello {name}!`.
pub fn greeting(name: &str) -> (msg: String)
    ensures
        msg@ == "Hello "@ + name@ + "!"@,
{
    let mut s = String::from_str("Hello ");
    s.append(name);
    s.append("!");
    s
}

/// The compute part of `GET /hello/{name}`: extracts the parent context
/// from the request headers, runs exactly one span named `hello` around
/// building the greeting, and returns `Hello {name}!`.
pub fn hello_response(provider: &mut TracerProvider, headers: &Carrier, name: &str) -> (msg:
    String)
    requires
        old(provider).wf(),
    ensures
        msg@ == "Hello "@ + name@ + "!"@,
        final(provider).wf(),
        exists|rec: SpanRecord|
            #[trigger] offered(*old(provider), *final(provider), rec) && child_record_of(
                rec,
                "hello"@,
                spec_extract(headers.entries@),
            ),
{
    let parent = extract(headers);
    let tracer = get_tracer(String::from_str("rustpaymentapi"));
    let mut span = tracer.start_span(String::from_str("hello"), &parent);
    let ghost span0 = span;
    let msg = greeting(name);
    let ghost pre = *provider;
    span.end(provider);
    proof {
        let t = choose|t: u64| offered(pre, *provider, span0.record_at(t));
        assert(offered(*old(provider), *provider, span0.record_at(t)));
        assert(child_record_of(span0.record_at(t), "hello"@, spec_extract(headers.entries@)));
    }
    msg
}

/// The compute part of `POST /payment`, downstream of the approval draw:
/// runs exactly one span named `process_payment` around the decision, and
/// answers `"success"` exactly when the draw approves, `"declined"`
/// otherwise — never any other value.
pub fn payment_response(provider: &mut TracerProvider, headers: &Carrier, draw: u32) -> (status:
    &'static str)
    requires
        old(provider).wf(),
    ensures
        draw < 8 ==> status@ == "success"@,
        draw >= 8 ==> status@ == "declined"@,
        final(provider).wf(),
        exists|rec: SpanRecord|
            #[trigger] offered(*old(provider), *final(provider), rec) && child_record_of(
                rec,
                "process_payment"@,
                spec_extract(headers.entries@),
            ),
{
    let parent = extract(headers);
    let tracer = get_tracer(String::from_str("rustpaymentapi"));
    let mut span = tracer.start_span(String::from_str("process_payment"), &parent);
    let ghost span0 = span;
    let approved = approve_from_draw(draw);
    let status = payment_status(approved);
    let ghost pre = *provider;
    span.end(provider);
    proof {
        let t = choose|t: u64| offered(pre, *provider, span0.record_at(t));
        assert(offered(*old(provider), *provider, span0.record_at(t)));
        assert(child_record_of(
            span0.record_at(t),
            "process_payment"@,
            spec_extract(headers.entries@),
        ));
    }
    status
}

/// The whole `POST /payment` decision: draws the placeholder approval,
/// then answers as `payment_response` does. The draw is random, so which
/// of the two statuses comes back is not pinned — but no third value can.
pub fn process_payment(provider: &mut TracerProvider, headers: &Carrier) -> (status: &'static str)
    requires
        old(provider).wf(),
    ensures
        status@ == "success"@ || status@ == "declined"@,
        final(provider).wf(),
        exists|rec: SpanRecord|
            #[trigger] offered(*old(provider), *final(provider), rec) && child_record_of(
                rec,
                "process_payment"@,
                spec_extract(headers.entries@),
            ),
{
    let draw = draw_below(10);
    payment_response(provider, headers, draw)
}

} // verus!
