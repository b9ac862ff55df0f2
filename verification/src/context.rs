//! Trace contexts: the identity a span inherits from its caller.

use vstd::prelude::*;

verus! {

/// The identity of one span within one trace, as the trace-context header
/// carries it: a 128-bit trace id, a 64-bit span id, and the trace flags.
#[derive(Clone, Copy, Debug, PartialEq, Eq, Structural)]
pub struct SpanContext {
    pub trace_id: u128,
    pub span_id: u64,
    pub flags: u8,
}

impl SpanContext {
    /// Well-formed per the header format: neither id is all zeroes.
    pub open spec fn wf(self) -> bool {
        self.trace_id != 0 && self.span_id != 0
    }
}

/// An extracted parent context: at most one parent, or empty when no valid
/// trace-context header was present. Extraction never fails — absence of
/// valid headers yields an empty context, never a fault.
#[derive(Clone, Copy, Debug, PartialEq, Eq)]
pub struct TraceContext {
    pub parent: Option<SpanContext>,
}

impl TraceContext {
    /// Well-formed: an extracted parent, if any, is itself well-formed.
    pub open spec fn wf(self) -> bool {
        match self.parent {
            Some(p) => p.wf(),
            None => true,
        }
    }

    /// The empty context: no parent at all. A span started under it
    /// becomes the root of a new trace.
    pub fn empty() -> (c: TraceContext)
        ensures
            c.parent is None,
    {
        TraceContext { parent: None }
    }

    /// Whether this context carries no parent.
    pub fn is_empty(&self) -> (r: bool)
        ensures
            r == (self.parent is None),
    {
        self.parent.is_none()
    }
}

} // verus!
