//! Startup configuration: host and port, derived once from environment
//! variable values handed in by the process edge.
//!
//! An unparsable port value falls back to the default port with a warning
//! flag, as a configuration nuisance, not a fault; a missing value is the
//! plain default, no warning.

use vstd::prelude::*;
use vstd::string::StrSliceExecFns;
use vstd::string::StringExecFns;

verus! {

/// Whether `c` is a decimal digit.
pub open spec fn is_digit(c: char) -> bool {
    '0' <= c && c <= '9'
}

/// The value of a decimal digit; zero for anything else.
pub open spec fn digit_val(c: char) -> nat {
    if is_digit(c) {
        ((c as u32) - 48) as nat
    } else {
        0
    }
}

/// Whether every character of `s` is a decimal digit.
pub open spec fn all_digits(s: Seq<char>) -> bool {
    forall|i: int| 0 <= i < s.len() ==> is_digit(#[trigger] s[i])
}

/// The value of a big-endian run of decimal digits.
pub open spec fn dec_val(s: Seq<char>) -> nat
    decreases s.len(),
{
    if s.len() == 0 {
        0
    } else {
        dec_val(s.drop_last()) * 10 + digit_val(s.last())
    }
}

/// A longer digit run never has a smaller value than its prefix.
pub proof fn lemma_dec_val_prefix(s: Seq<char>, j: int)
    requires
        0 <= j <= s.len(),
    ensures
        dec_val(s.subrange(0, j)) <= dec_val(s),
    decreases s.len() - j,
{
    if j == s.len() {
        assert(s.subrange(0, j) =~= s);
    } else {
        lemma_dec_val_prefix(s, j + 1);
        assert(s.subrange(0, j + 1).drop_last() =~= s.subrange(0, j));
        assert(s.subrange(0, j + 1).last() == s[j]);
        assert(dec_val(s.subrange(0, j + 1)) == dec_val(s.subrange(0, j)) * 10 + digit_val(s[j]));
    }
}

/// The digit run of a port spelling: everything after one optional
/// leading `+` sign.
pub open spec fn port_digits(s: Seq<char>) -> Seq<char> {
    if s.len() > 0 && s[0] == '+' {
        s.subrange(1, s.len() as int)
    } else {
        s
    }
}

/// Whether `s` spells a port: an optional `+`, then at least one decimal
/// digit, with a value that fits 16 bits.
pub open spec fn parses_as_port(s: Seq<char>) -> bool {
    &&& port_digits(s).len() > 0
    &&& all_digits(port_digits(s))
    &&& dec_val(port_digits(s)) <= 65535
}

/// The port a well-formed spelling denotes.
pub open spec fn port_value(s: Seq<char>) -> u16 {
    dec_val(port_digits(s)) as u16
}

/// Parses a port spelling. `Some` exactly on the spellings that
/// `parses_as_port` allows, carrying their value.
pub fn parse_port(s: &str) -> (r: Option<u16>)
    ensures
        parses_as_port(s@) ==> r == Some(port_value(s@)),
        !parses_as_port(s@) ==> r is None,
{
    let n = s.unicode_len();
    let start: usize = if n > 0 && s.get_char(0) == '+' {
        1
    } else {
        0
    };
    if n == start {
        return None;
    }
    let ghost t = port_digits(s@);
    proof {
        assert(t =~= s@.subrange(start as int, n as int));
    }
    let mut acc: u32 = 0;
    let mut i: usize = start;
    while i < n
        invariant
            start <= i <= n,
            n == s@.len(),
            start < n,
            t == port_digits(s@),
            t =~= s@.subrange(start as int, n as int),
            all_digits(t.subrange(0, (i - start) as int)),
            acc as nat == dec_val(t.subrange(0, (i - start) as int)),
            acc <= 65535,
        decreases n - i,
    {
        let c = s.get_char(i);
        proof {
            assert(t[(i - start) as int] == s@[i as int]);
        }
        if c < '0' || c > '9' {
            return None;
        }
        let d: u32 = (c as u32) - 48;
        let acc2: u32 = acc * 10 + d;
        proof {
            assert(t.subrange(0, (i - start + 1) as int).drop_last() =~= t.subrange(
                0,
                (i - start) as int,
            ));
            assert(t.subrange(0, (i - start + 1) as int).last() == t[(i - start) as int]);
        }
        if acc2 > 65535 {
            proof {
                lemma_dec_val_prefix(t, (i - start + 1) as int);
            }
            return None;
        }
        acc = acc2;
        i += 1;
    }
    proof {
        assert(t.subrange(0, (n - start) as int) =~= t);
    }
    Some(acc as u16)
}

/// The port the service listens on, from the `PAYMENT_API_PORT` value: a
/// missing value is the default `8080`; an unparsable one falls back to
/// `8080` with the warning flag set, and the service starts anyway.
pub fn effective_port(value: Option<String>) -> (r: (u16, bool))
    ensures
        match value {
            None => r == (8080u16, false),
            Some(s) => if parses_as_port(s@) {
                r == (port_value(s@), false)
            } else {
                r == (8080u16, true)
            },
        },
{
    match value {
        None => (8080, false),
        Some(s) => match parse_port(s.as_str()) {
            Some(p) => (p, false),
            None => (8080, true),
        },
    }
}

/// The host the service binds, from the `PAYMENT_API_HOST` value: the
/// value verbatim, or the default `127.0.0.1` when missing.
pub fn effective_host(value: Option<String>) -> (h: String)
    ensures
        match value {
            None => h@ == "127.0.0.1"@,
            Some(s) => h@ == s@,
        },
{
    match value {
        Some(s) => s,
        None => String::from_str("127.0.0.1"),
    }
}

} // verus!
