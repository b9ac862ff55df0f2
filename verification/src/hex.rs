//! Lowercase hexadecimal digits, as the trace-context header format uses
//! them: parsing a big-endian digit run into an integer, and rendering an
//! integer as a fixed-width digit run, with the round trip proved.

use vstd::prelude::*;

verus! {

/// Whether `b` is a lowercase hexadecimal digit (`0`-`9` or `a`-`f`).
pub open spec fn is_hex_digit(b: u8) -> bool {
    (48 <= b && b <= 57) || (97 <= b && b <= 102)
}

/// The numeric value of a lowercase hexadecimal digit.
pub open spec fn hex_digit_val(b: u8) -> nat {
    if 48 <= b && b <= 57 {
        (b - 48) as nat
    } else if 97 <= b && b <= 102 {
        (b - 87) as nat
    } else {
        0
    }
}

/// The lowercase hexadecimal digit whose value is `d`, for `d < 16`.
pub open spec fn hex_digit_of(d: nat) -> u8 {
    if d < 10 {
        (48 + d) as u8
    } else {
        (87 + d) as u8
    }
}

/// Whether every byte of `s` is a lowercase hexadecimal digit.
pub open spec fn all_hex_digits(s: Seq<u8>) -> bool {
    forall|i: int| 0 <= i < s.len() ==> is_hex_digit(#[trigger] s[i])
}

/// The value of a big-endian run of lowercase hexadecimal digits.
pub open spec fn hex_val(s: Seq<u8>) -> nat
    decreases s.len(),
{
    if s.len() == 0 {
        0
    } else {
        hex_val(s.drop_last()) * 16 + hex_digit_val(s.last())
    }
}

/// 16 to the power `n`: the number of values that `n` hexadecimal digits
/// can take.
pub open spec fn pow16(n: nat) -> nat
    decreases n,
{
    if n == 0 {
        1
    } else {
        16 * pow16((n - 1) as nat)
    }
}

/// The big-endian lowercase hexadecimal rendering of `n`, `len` digits wide.
pub open spec fn hex_fmt(n: nat, len: nat) -> Seq<u8>
    decreases len,
{
    if len == 0 {
        Seq::empty()
    } else {
        hex_fmt(n / 16, (len - 1) as nat).push(hex_digit_of(n % 16))
    }
}

/// A run of hexadecimal digits takes fewer values than 16 to its length.
pub proof fn lemma_hex_val_bound(s: Seq<u8>)
    ensures
        hex_val(s) < pow16(s.len()),
    decreases s.len(),
{
    if s.len() > 0 {
        lemma_hex_val_bound(s.drop_last());
    }
}

/// `pow16` never decreases as the exponent grows.
pub proof fn lemma_pow16_le(a: nat, b: nat)
    requires
        a <= b,
    ensures
        pow16(a) <= pow16(b),
    decreases b,
{
    if a < b {
        lemma_pow16_le(a, (b - 1) as nat);
    }
}

/// Rendering `n` over `len` digits and reading the digits back yields `n`
/// again, whenever `n` fits in `len` digits.
pub proof fn lemma_hex_fmt_val(n: nat, len: nat)
    requires
        n < pow16(len),
    ensures
        hex_fmt(n, len).len() == len,
        all_hex_digits(hex_fmt(n, len)),
        hex_val(hex_fmt(n, len)) == n,
    decreases len,
{
    if len > 0 {
        assert(n / 16 < pow16((len - 1) as nat)) by {
            assert(n < 16 * pow16((len - 1) as nat));
        };
        lemma_hex_fmt_val(n / 16, (len - 1) as nat);
        let front = hex_fmt(n / 16, (len - 1) as nat);
        let s = hex_fmt(n, len);
        assert(s == front.push(hex_digit_of(n % 16)));
        assert(s.drop_last() =~= front);
        assert(hex_digit_val(hex_digit_of(n % 16)) == n % 16);
        assert(forall|i: int| 0 <= i < s.len() ==> is_hex_digit(#[trigger] s[i])) by {
            assert(forall|i: int| 0 <= i < front.len() ==> is_hex_digit(#[trigger] front[i]));
            assert(is_hex_digit(hex_digit_of(n % 16)));
        };
        assert(hex_val(s) == hex_val(front) * 16 + n % 16);
    }
}

/// The number of values of 32 hexadecimal digits, written out: one more
/// than the largest 128-bit integer.
pub proof fn lemma_pow16_32()
    ensures
        pow16(32) == 0x1_0000_0000_0000_0000_0000_0000_0000_0000,
{
    reveal_with_fuel(pow16, 33);
}

/// The number of values of 16 hexadecimal digits: one more than the
/// largest 64-bit integer.
pub proof fn lemma_pow16_16()
    ensures
        pow16(16) == 0x1_0000_0000_0000_0000,
{
    reveal_with_fuel(pow16, 17);
}

/// The number of values of 2 hexadecimal digits: one more than the largest
/// 8-bit integer.
pub proof fn lemma_pow16_2()
    ensures
        pow16(2) == 256,
{
    reveal_with_fuel(pow16, 3);
}

/// The value of a two-digit run, written out.
pub proof fn lemma_hex_val_two(a: u8, b: u8)
    ensures
        hex_val(seq![a, b]) == hex_digit_val(a) * 16 + hex_digit_val(b),
{
    let s = seq![a, b];
    assert(s.last() == b);
    assert(s.drop_last() =~= seq![a]);
    assert(seq![a].last() == a);
    assert(seq![a].drop_last() =~= Seq::<u8>::empty());
    assert(hex_val(Seq::<u8>::empty()) == 0);
    assert(hex_val(seq![a]) == hex_digit_val(a));
    assert(hex_val(s) == hex_val(s.drop_last()) * 16 + hex_digit_val(b));
}

/// Whether `b` is a lowercase hexadecimal digit.
pub fn is_hex_digit_byte(b: u8) -> (r: bool)
    ensures
        r == is_hex_digit(b),
{
    (48 <= b && b <= 57) || (97 <= b && b <= 102)
}

/// The numeric value of one lowercase hexadecimal digit byte.
fn hex_digit_value(b: u8) -> (d: u8)
    requires
        is_hex_digit(b),
    ensures
        d as nat == hex_digit_val(b),
        d < 16,
{
    if b <= 57 {
        b - 48
    } else {
        b - 87
    }
}

/// The lowercase hexadecimal digit byte for a value below 16.
fn hex_digit_byte(d: u8) -> (b: u8)
    requires
        d < 16,
    ensures
        b == hex_digit_of(d as nat),
        is_hex_digit(b),
{
    if d < 10 {
        48 + d
    } else {
        87 + d
    }
}

/// Reads the `len` lowercase hexadecimal digits of `v` that start at
/// `start`, big-endian, into an integer.
pub fn parse_hex(v: &Vec<u8>, start: usize, len: usize) -> (r: u128)
    requires
        start + len <= v.len(),
        len <= 32,
        all_hex_digits(v@.subrange(start as int, (start + len) as int)),
    ensures
        r as nat == hex_val(v@.subrange(start as int, (start + len) as int)),
{
    let digits = Ghost(v@.subrange(start as int, (start + len) as int));
    let mut acc: u128 = 0;
    let mut i: usize = 0;
    while i < len
        invariant
            i <= len,
            len <= 32,
            start + len <= v.len(),
            digits@ == v@.subrange(start as int, (start + len) as int),
            all_hex_digits(digits@),
            acc as nat == hex_val(digits@.subrange(0, i as int)),
            (acc as nat) < pow16(i as nat),
        decreases len - i,
    {
        proof {
            assert(digits@[i as int] == v@[(start + i) as int]);
            assert(digits@.subrange(0, (i + 1) as int).drop_last() =~= digits@.subrange(
                0,
                i as int,
            ));
            assert(digits@.subrange(0, (i + 1) as int).last() == digits@[i as int]);
            lemma_pow16_le(i as nat, 31);
            assert(pow16(31) * 16 == pow16(32)) by {
                assert(pow16(32) == 16 * pow16(31));
            };
            lemma_pow16_32();
        }
        let d = hex_digit_value(v[start + i]);
        acc = acc * 16 + d as u128;
        i += 1;
    }
    proof {
        assert(digits@.subrange(0, len as int) =~= digits@);
    }
    acc
}

/// Appends the `len`-digit lowercase hexadecimal rendering of `n` to `out`.
pub fn push_hex(out: &mut Vec<u8>, n: u128, len: usize)
    requires
        len <= 32,
        (n as nat) < pow16(len as nat),
    ensures
        final(out)@ == old(out)@ + hex_fmt(n as nat, len as nat),
    decreases len,
{
    if len == 0 {
        proof {
            assert(old(out)@ + hex_fmt(n as nat, 0) =~= old(out)@);
        }
    } else {
        proof {
            assert((n as nat) / 16 < pow16((len - 1) as nat)) by {
                assert((n as nat) < 16 * pow16((len - 1) as nat));
            };
            assert((n / 16) as nat == (n as nat) / 16);
        }
        push_hex(out, n / 16, len - 1);
        let d = hex_digit_byte((n % 16) as u8);
        out.push(d);
        proof {
            assert(final(out)@ =~= old(out)@ + hex_fmt(n as nat, len as nat));
        }
    }
}

} // verus!
