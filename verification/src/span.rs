//! Span lifecycle: starting a span under an extracted context and ending
//! it exactly once.
//!
//! A span has two states, started and ended, and no other: ending is the
//! one transition, it hands the finished record to the pipeline, and
//! ending again is a safe no-op — a tracing bug must never take down
//! request serving.

use vstd::prelude::*;

use crate::context::{SpanContext, TraceContext};
use crate::exporter::{SpanRecord, TracerProvider, offered};

verus! {

/// Whether `rec` is the record of one span named `name`, parented to
/// whatever `parent` holds: the span joins the parent's trace when one is
/// there, and roots a new trace otherwise.
pub open spec fn child_record_of(rec: SpanRecord, name: Seq<char>, parent: TraceContext) -> bool {
    &&& rec.name@ == name
    &&& match parent.parent {
        Some(p) => rec.trace_id == p.trace_id && rec.parent_span_id == p.span_id && rec.flags
            == p.flags,
        None => rec.parent_span_id == 0,
    }
    &&& rec.trace_id != 0
    &&& rec.span_id != 0
}

/// A named, in-process tracer handle, cheap to obtain per request.
pub struct Tracer {
    pub name: String,
}

/// Obtains the tracer handle bound to an instrumentation name.
pub fn get_tracer(name: String) -> (t: Tracer)
    ensures
        t.name == name,
{
    Tracer { name }
}

/// Relies on `rand::Rng::gen` (through `rand::thread_rng`): 64 fresh
/// random bits. Nothing is promised of the value.
#[verifier::external_body]
fn random_u64() -> u64 {
    rand::Rng::gen(&mut rand::thread_rng())
}

/// Relies on `rand::Rng::gen` (through `rand::thread_rng`): 128 fresh
/// random bits. Nothing is promised of the value.
#[verifier::external_body]
fn random_u128() -> u128 {
    rand::Rng::gen(&mut rand::thread_rng())
}

/// Relies on `std::time::SystemTime::now`: nanoseconds since the Unix
/// epoch, truncated to 64 bits, zero for a clock before the epoch.
/// Nothing is promised of a clock reading.
#[verifier::external_body]
fn now_unix_nanos() -> u64 {
    match std::time::SystemTime::now().duration_since(std::time::UNIX_EPOCH) {
        Ok(d) => d.as_nanos() as u64,
        Err(_) => 0,
    }
}

/// A fresh span id: random, with the all-zero value (which the header
/// format reserves for "no span") mapped away.
fn fresh_span_id() -> (id: u64)
    ensures
        id != 0,
{
    let r = random_u64();
    if r == 0 {
        1
    } else {
        r
    }
}

/// A fresh trace id: random, with the reserved all-zero value mapped
/// away.
fn fresh_trace_id() -> (id: u128)
    ensures
        id != 0,
{
    let r = random_u128();
    if r == 0 {
        1
    } else {
        r
    }
}

/// A unit of work in flight: started (with its timestamp taken
/// immediately), and ended at most once.
pub struct Span {
    pub name: String,
    pub context: SpanContext,
    pub parent_span_id: u64,
    pub start_time: u64,
    pub ended: bool,
}

impl Span {
    /// Well-formed: the span's own identity is valid for the header
    /// format.
    pub open spec fn wf(self) -> bool {
        self.context.wf()
    }

    /// The record this span hands to the pipeline when it ends at time
    /// `end_time`.
    pub open spec fn record_at(self, end_time: u64) -> SpanRecord {
        SpanRecord {
            name: self.name,
            trace_id: self.context.trace_id,
            span_id: self.context.span_id,
            parent_span_id: self.parent_span_id,
            flags: self.context.flags,
            start_time: self.start_time,
            end_time: end_time,
        }
    }

    /// The context a downstream call inherits from this span.
    pub fn trace_context(&self) -> (c: TraceContext)
        ensures
            c == (TraceContext { parent: Some(self.context) }),
    {
        TraceContext { parent: Some(self.context) }
    }

    /// Ends the span: records the end timestamp and hands the finished
    /// record to the pipeline, exactly once. Ending an already ended span
    /// is an idempotent no-op: no duplicate export, no fault.
    pub fn end(&mut self, provider: &mut TracerProvider)
        ensures
            final(self).ended,
            final(self).name == old(self).name,
            final(self).context == old(self).context,
            final(self).parent_span_id == old(self).parent_span_id,
            final(self).start_time == old(self).start_time,
            old(self).ended ==> *final(self) == *old(self) && *final(provider) == *old(provider),
            !old(self).ended ==> exists|t: u64|
                offered(*old(provider), *final(provider), old(self).record_at(t)),
            old(provider).wf() ==> final(provider).wf(),
    {
        if self.ended {
            return ;
        }
        self.ended = true;
        let end_time = now_unix_nanos();
        let rec = SpanRecord {
            name: self.name.clone(),
            trace_id: self.context.trace_id,
            span_id: self.context.span_id,
            parent_span_id: self.parent_span_id,
            flags: self.context.flags,
            start_time: self.start_time,
            end_time,
        };
        proof {
            assert(rec == old(self).record_at(end_time));
        }
        provider.offer(rec);
    }
}

impl Tracer {
    /// Starts a span named `name` under `parent`: the span joins the
    /// parent's trace (same trace id and flags, parented to the parent's
    /// span) when one was extracted, and roots a new trace with sampling
    /// on otherwise. Its own span id is fresh and its start timestamp is
    /// taken immediately.
    pub fn start_span(&self, name: String, parent: &TraceContext) -> (s: Span)
        requires
            parent.wf(),
        ensures
            s.wf(),
            !s.ended,
            s.name == name,
            match parent.parent {
                Some(p) => s.context.trace_id == p.trace_id && s.parent_span_id == p.span_id
                    && s.context.flags == p.flags,
                None => s.parent_span_id == 0,
            },
    {
        let start_time = now_unix_nanos();
        match &parent.parent {
            Some(p) => Span {
                name,
                context: SpanContext {
                    trace_id: p.trace_id,
                    span_id: fresh_span_id(),
                    flags: p.flags,
                },
                parent_span_id: p.span_id,
                start_time,
                ended: false,
            },
            None => Span {
                name,
                context: SpanContext {
                    trace_id: fresh_trace_id(),
                    span_id: fresh_span_id(),
                    flags: 1,
                },
                parent_span_id: 0,
                start_time,
                ended: false,
            },
        }
    }
}

/// Runs `body` inside one span: starts the span under `parent`, hands the
/// body the span's own context, ends the span when the body returns (so no
/// exit path of the caller can leak a started span), and passes the body's
/// result through unchanged.
pub fn run_in_span<R, F: FnOnce(TraceContext) -> R>(
    tracer: &Tracer,
    provider: &mut TracerProvider,
    name: String,
    parent: &TraceContext,
    body: F,
) -> (r: R)
    requires
        old(provider).wf(),
        parent.wf(),
        forall|cx: TraceContext|
            cx.wf() && cx.parent is Some ==> #[trigger] body.requires((cx,)),
    ensures
        final(provider).wf(),
        exists|cx: TraceContext| #[trigger] body.ensures((cx,), r),
        exists|rec: SpanRecord| #[trigger] offered(*old(provider), *final(provider), rec)
            && child_record_of(rec, name@, *parent),
{
    let mut span = tracer.start_span(name, parent);
    let ghost span0 = span;
    let cx = span.trace_context();
    let r = body(cx);
    let ghost pre = *provider;
    span.end(provider);
    proof {
        let t = choose|t: u64| offered(pre, *provider, span0.record_at(t));
        assert(offered(*old(provider), *provider, span0.record_at(t)));
        assert(child_record_of(span0.record_at(t), name@, *parent));
    }
    r
}

} // verus!
