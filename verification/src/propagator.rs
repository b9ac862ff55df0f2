//! The trace-context propagator: parsing and serializing the `traceparent`
//! header.
//!
//! The header value has the form `vv-tttt...t-ssss...s-ff`: a two-digit
//! version, a 32-digit trace id, a 16-digit span id and two flag digits,
//! all lowercase hexadecimal, dash-separated. A value is rejected when the
//! version is `ff`, when either id is all zeroes, when any digit is not a
//! lowercase hexadecimal digit, or when trailing bytes follow a version-00
//! value (later versions may carry `-`-separated extensions). Rejection
//! always degrades to the empty context, never to an error. Of several
//! `traceparent` headers the first one wins, deterministically.

use vstd::prelude::*;

use crate::carrier::{Carrier, HeaderEntry, lemma_spec_get_skip, lower_bytes, name_matches,
    spec_get};
use crate::context::{SpanContext, TraceContext};
use crate::hex::{all_hex_digits, hex_fmt, hex_val, is_hex_digit, is_hex_digit_byte,
    lemma_hex_fmt_val, lemma_hex_val_bound, lemma_hex_val_two, lemma_pow16_16, lemma_pow16_2,
    lemma_pow16_32, parse_hex, push_hex};

verus! {

/// The name of the trace-context header, `traceparent`, as bytes.
pub open spec fn traceparent_name() -> Seq<u8> {
    seq![116u8, 114u8, 97u8, 99u8, 101u8, 112u8, 97u8, 114u8, 101u8, 110u8, 116u8]
}

/// The header name `traceparent`, as a byte vector.
pub fn traceparent_name_vec() -> (v: Vec<u8>)
    ensures
        v@ == traceparent_name(),
{
    let mut v: Vec<u8> = Vec::new();
    v.push(116);
    v.push(114);
    v.push(97);
    v.push(99);
    v.push(101);
    v.push(112);
    v.push(97);
    v.push(114);
    v.push(101);
    v.push(110);
    v.push(116);
    proof {
        assert(v@ =~= traceparent_name());
    }
    v
}

/// Whether `v` is a well-formed `traceparent` header value.
pub open spec fn traceparent_wf(v: Seq<u8>) -> bool {
    &&& v.len() >= 55
    &&& all_hex_digits(v.subrange(0, 2))
    &&& v[2] == 45u8
    &&& all_hex_digits(v.subrange(3, 35))
    &&& v[35] == 45u8
    &&& all_hex_digits(v.subrange(36, 52))
    &&& v[52] == 45u8
    &&& all_hex_digits(v.subrange(53, 55))
    &&& hex_val(v.subrange(0, 2)) != 0xff
    &&& hex_val(v.subrange(3, 35)) != 0
    &&& hex_val(v.subrange(36, 52)) != 0
    &&& (hex_val(v.subrange(0, 2)) == 0 ==> v.len() == 55)
    &&& (hex_val(v.subrange(0, 2)) != 0 ==> v.len() == 55 || v[55] == 45u8)
}

/// The span context a well-formed `traceparent` value denotes, or `None`
/// for a malformed value.
pub open spec fn parse_traceparent(v: Seq<u8>) -> Option<SpanContext> {
    if traceparent_wf(v) {
        Some(
            SpanContext {
                trace_id: hex_val(v.subrange(3, 35)) as u128,
                span_id: hex_val(v.subrange(36, 52)) as u64,
                flags: hex_val(v.subrange(53, 55)) as u8,
            },
        )
    } else {
        None
    }
}

/// Whether the `len` bytes of `v` from `start` on are all lowercase
/// hexadecimal digits.
fn check_hex_range(v: &Vec<u8>, start: usize, len: usize) -> (r: bool)
    requires
        start + len <= v@.len(),
    ensures
        r == all_hex_digits(v@.subrange(start as int, (start + len) as int)),
{
    let ghost digits = v@.subrange(start as int, (start + len) as int);
    let n = v.len();
    let mut i: usize = 0;
    while i < len
        invariant
            n == v@.len(),
            start + len <= v@.len(),
            i <= len,
            digits == v@.subrange(start as int, (start + len) as int),
            forall|j: int| 0 <= j < i ==> is_hex_digit(#[trigger] digits[j]),
        decreases len - i,
    {
        proof {
            assert(digits[i as int] == v@[(start + i) as int]);
        }
        if !is_hex_digit_byte(v[start + i]) {
            return false;
        }
        i += 1;
    }
    true
}

/// Parses one `traceparent` header value. A malformed value yields `None`,
/// never an error; a parsed context is well-formed.
pub fn parse_traceparent_value(v: &Vec<u8>) -> (r: Option<SpanContext>)
    ensures
        r == parse_traceparent(v@),
        r matches Some(c) ==> c.wf(),
{
    if v.len() < 55 {
        return None;
    }
    if !(v[2] == 45 && v[35] == 45 && v[52] == 45) {
        return None;
    }
    if !check_hex_range(v, 0, 2) {
        return None;
    }
    if !check_hex_range(v, 3, 32) {
        return None;
    }
    if !check_hex_range(v, 36, 16) {
        return None;
    }
    if !check_hex_range(v, 53, 2) {
        return None;
    }
    proof {
        lemma_hex_val_bound(v@.subrange(0, 2));
        lemma_hex_val_bound(v@.subrange(3, 35));
        lemma_hex_val_bound(v@.subrange(36, 52));
        lemma_hex_val_bound(v@.subrange(53, 55));
        lemma_pow16_2();
        lemma_pow16_16();
        lemma_pow16_32();
    }
    let version = parse_hex(v, 0, 2);
    if version == 0xff {
        return None;
    }
    if version == 0 {
        if v.len() != 55 {
            return None;
        }
    } else {
        if v.len() != 55 && v[55] != 45 {
            return None;
        }
    }
    let trace = parse_hex(v, 3, 32);
    if trace == 0 {
        return None;
    }
    let span128 = parse_hex(v, 36, 16);
    if span128 == 0 {
        return None;
    }
    let flags128 = parse_hex(v, 53, 2);
    Some(SpanContext { trace_id: trace, span_id: span128 as u64, flags: flags128 as u8 })
}

/// The `traceparent` rendering of a span context: version 00, the ids and
/// the flags in lowercase hexadecimal, dash-separated.
pub open spec fn format_traceparent(c: SpanContext) -> Seq<u8> {
    seq![48u8, 48u8, 45u8] + hex_fmt(c.trace_id as nat, 32) + seq![45u8] + hex_fmt(
        c.span_id as nat,
        16,
    ) + seq![45u8] + hex_fmt(c.flags as nat, 2)
}

/// Renders a span context as a `traceparent` header value.
pub fn format_traceparent_value(c: &SpanContext) -> (v: Vec<u8>)
    ensures
        v@ == format_traceparent(*c),
{
    proof {
        lemma_pow16_2();
        lemma_pow16_16();
        lemma_pow16_32();
    }
    let mut out: Vec<u8> = Vec::new();
    out.push(48);
    out.push(48);
    out.push(45);
    push_hex(&mut out, c.trace_id, 32);
    out.push(45);
    push_hex(&mut out, c.span_id as u128, 16);
    out.push(45);
    push_hex(&mut out, c.flags as u128, 2);
    proof {
        assert(out@ =~= format_traceparent(*c));
    }
    out
}

/// Rendering a well-formed span context as a `traceparent` value and
/// parsing the rendering back yields the same context: trace id, span id
/// and flags all survive the round trip.
pub proof fn lemma_format_parse_roundtrip(c: SpanContext)
    requires
        c.wf(),
    ensures
        parse_traceparent(format_traceparent(c)) == Some(c),
{
    lemma_pow16_2();
    lemma_pow16_16();
    lemma_pow16_32();
    lemma_hex_fmt_val(c.trace_id as nat, 32);
    lemma_hex_fmt_val(c.span_id as nat, 16);
    lemma_hex_fmt_val(c.flags as nat, 2);
    let v = format_traceparent(c);
    let t = hex_fmt(c.trace_id as nat, 32);
    let s = hex_fmt(c.span_id as nat, 16);
    let f = hex_fmt(c.flags as nat, 2);
    assert(v.len() == 55);
    assert(v.subrange(0, 2) =~= seq![48u8, 48u8]);
    assert(v.subrange(3, 35) =~= t);
    assert(v.subrange(36, 52) =~= s);
    assert(v.subrange(53, 55) =~= f);
    assert(v[2] == 45u8 && v[35] == 45u8 && v[52] == 45u8);
    let z = seq![48u8, 48u8];
    lemma_hex_val_two(48u8, 48u8);
    assert(hex_val(z) == 0);
    assert(all_hex_digits(z)) by {
        assert(forall|i: int| 0 <= i < 2 ==> #[trigger] z[i] == 48u8);
    };
    assert(traceparent_wf(v));
}

/// The context a carrier denotes: its first `traceparent` header
/// (ignoring ASCII case), parsed; empty when none is present or the value
/// is malformed.
pub open spec fn spec_extract(entries: Seq<HeaderEntry>) -> TraceContext {
    match spec_get(entries, traceparent_name()) {
        Some(value) => match parse_traceparent(value) {
            Some(c) => TraceContext { parent: Some(c) },
            None => TraceContext { parent: None },
        },
        None => TraceContext { parent: None },
    }
}

/// Parses the trace-context header of `carrier`. A missing, malformed or
/// duplicate-shadowed header degrades to the empty context — extraction
/// never fails.
pub fn extract(carrier: &Carrier) -> (r: TraceContext)
    ensures
        r == spec_extract(carrier.entries@),
        r.wf(),
{
    let key = traceparent_name_vec();
    match carrier.get(&key) {
        Some(value) => match parse_traceparent_value(value) {
            Some(c) => TraceContext { parent: Some(c) },
            None => TraceContext::empty(),
        },
        None => TraceContext::empty(),
    }
}

/// Writes `ctx` into the carrier as a `traceparent` header, so that
/// extraction from the written carrier yields `ctx` again; the empty
/// context injects nothing and leaves the carrier as it was. Headers of
/// other names are untouched either way.
pub fn inject(ctx: &TraceContext, carrier: &mut Carrier)
    requires
        ctx.wf(),
    ensures
        ctx.parent is Some ==> spec_extract(final(carrier).entries@) == *ctx,
        ctx.parent is None ==> *final(carrier) == *old(carrier),
        forall|k: Seq<u8>|
            lower_bytes(k) != lower_bytes(traceparent_name()) ==> spec_get(
                final(carrier).entries@,
                k,
            ) == spec_get(old(carrier).entries@, k),
{
    match &ctx.parent {
        Some(c) => {
            let value = format_traceparent_value(c);
            let key = traceparent_name_vec();
            carrier.set(key, value);
            proof {
                lemma_format_parse_roundtrip(*c);
                assert(lower_bytes(traceparent_name()) == lower_bytes(traceparent_name()));
                assert(spec_get(carrier.entries@, traceparent_name()) == Some(
                    format_traceparent(*c),
                ));
            }
        },
        None => {},
    }
}

/// A fresh carrier holding one `traceparent` header rendered from a
/// well-formed span context denotes exactly that context again: the
/// extract-after-inject round trip keeps the trace id, the span id and
/// the flags.
pub proof fn lemma_inject_extract_roundtrip(c: SpanContext, entry: HeaderEntry)
    requires
        c.wf(),
        entry.name@ == traceparent_name(),
        entry.value@ == format_traceparent(c),
    ensures
        spec_extract(seq![entry]) == (TraceContext { parent: Some(c) }),
{
    lemma_format_parse_roundtrip(c);
    assert(seq![entry][0] == entry);
    assert(name_matches(entry.name@, traceparent_name()));
    assert(spec_get(seq![entry], traceparent_name()) == Some(entry.value@));
}

/// For a carrier in which no header is named `traceparent` (up to ASCII
/// case), extraction yields the empty context — never an error.
pub proof fn lemma_extract_no_header(entries: Seq<HeaderEntry>)
    requires
        forall|i: int|
            0 <= i < entries.len() ==> !name_matches(
                #[trigger] entries[i].name@,
                traceparent_name(),
            ),
    ensures
        spec_extract(entries) == (TraceContext { parent: None::<SpanContext> }),
{
    lemma_spec_get_skip(entries, traceparent_name(), entries.len() as int);
    assert(entries.skip(entries.len() as int) =~= Seq::<HeaderEntry>::empty());
}

} // verus!
