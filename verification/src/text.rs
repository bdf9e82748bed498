//! Decimal wire-text codec.
//!
//! Command parameters and reply values travel as decimal ASCII text. This
//! module defines the canonical decimal rendering of a number, the value of a
//! digit string, renderers and parsers for the integer widths the protocol
//! uses, and the round-trip laws between them.

use vstd::prelude::*;

use crate::ascii::{D0, D9};

verus! {

/// A byte is a decimal digit.
pub open spec fn is_dec_digit(b: u8) -> bool {
    D0 <= b && b <= D9
}

/// Numeric value of a decimal digit.
pub open spec fn dec_digit_val(b: u8) -> nat
    recommends
        is_dec_digit(b),
{
    (b - D0) as nat
}

/// Every byte of the sequence is a decimal digit.
pub open spec fn all_dec_digits(s: Seq<u8>) -> bool {
    forall|i: int| 0 <= i < s.len() ==> is_dec_digit(#[trigger] s[i])
}

/// The number denoted by a digit string (most significant digit first).
pub open spec fn dec_seq_val(s: Seq<u8>) -> nat
    recommends
        all_dec_digits(s),
    decreases s.len(),
{
    if s.len() == 0 {
        0
    } else {
        dec_seq_val(s.drop_last()) * 10 + dec_digit_val(s.last())
    }
}

/// The canonical decimal rendering of a number: no sign, no leading zeros.
pub open spec fn dec_rep(n: nat) -> Seq<u8>
    decreases n,
{
    if n < 10 {
        seq![(D0 + n) as u8]
    } else {
        dec_rep(n / 10).push((D0 + n % 10) as u8)
    }
}

/// A digit string is canonical: non-empty, digits only, no leading zero.
pub open spec fn is_canonical_dec(s: Seq<u8>) -> bool {
    &&& s.len() > 0
    &&& all_dec_digits(s)
    &&& (s.len() == 1 || s[0] != D0)
}

/// The canonical rendering evaluates back to the number and is canonical.
pub proof fn lemma_dec_rep_val(n: nat)
    ensures
        dec_seq_val(dec_rep(n)) == n,
        is_canonical_dec(dec_rep(n)),
        n >= 1 ==> dec_rep(n)[0] != D0,
    decreases n,
{
    if n < 10 {
        let s = dec_rep(n);
        assert(s.len() == 1 && s.last() == (D0 + n) as u8);
        assert(s.drop_last() =~= Seq::<u8>::empty());
        assert(dec_seq_val(Seq::<u8>::empty()) == 0);
        assert(dec_seq_val(s) == dec_seq_val(s.drop_last()) * 10 + dec_digit_val(s.last()));
        assert(dec_digit_val((D0 + n) as u8) == n);
    } else {
        lemma_dec_rep_val(n / 10);
        let s0 = dec_rep(n / 10);
        let s = dec_rep(n);
        assert(s.drop_last() =~= s0);
        assert(s.last() == (D0 + n % 10) as u8);
        assert(dec_seq_val(s) == (n / 10) * 10 + n % 10);
        assert((n / 10) * 10 + n % 10 == n);
        assert(s[0] == s0[0]);
        assert(n / 10 >= 1);
    }
}

/// A digit string whose leading digit is not zero denotes a positive number.
proof fn lemma_leading_nonzero_positive(s: Seq<u8>)
    requires
        s.len() > 0,
        all_dec_digits(s),
        s[0] != D0,
    ensures
        dec_seq_val(s) >= 1,
    decreases s.len(),
{
    if s.len() == 1 {
    } else {
        let s0 = s.drop_last();
        lemma_leading_nonzero_positive(s0);
    }
}

/// Canonical digit strings are exactly the canonical renderings: rendering
/// the value of a canonical string reproduces the string.
pub proof fn lemma_canonical_dec_rep(s: Seq<u8>)
    requires
        is_canonical_dec(s),
    ensures
        dec_rep(dec_seq_val(s)) == s,
    decreases s.len(),
{
    if s.len() == 1 {
        assert(s.drop_last() =~= Seq::<u8>::empty());
        assert(dec_seq_val(Seq::<u8>::empty()) == 0);
        assert(s.last() == s[0]);
        assert(dec_seq_val(s) == dec_seq_val(s.drop_last()) * 10 + dec_digit_val(s.last()));
        assert(dec_seq_val(s) == dec_digit_val(s[0]));
        assert(dec_rep(dec_seq_val(s)) =~= s);
    } else {
        let s0 = s.drop_last();
        let d = dec_digit_val(s.last());
        let v0 = dec_seq_val(s0);
        let v = dec_seq_val(s);
        assert(s0[0] == s[0]);
        lemma_leading_nonzero_positive(s0);
        lemma_canonical_dec_rep(s0);
        assert(v == v0 * 10 + d);
        assert(v0 >= 1);
        assert(v >= 10);
        assert(v / 10 == v0 && v % 10 == d) by {
            assert(v == v0 * 10 + d && d < 10);
        }
        assert(dec_rep(v) == dec_rep(v0).push((D0 + v % 10) as u8));
        assert((D0 + v % 10) as u8 == s.last());
        assert(s0.push(s.last()) =~= s);
    }
}

/// The value of a prefix never exceeds the value of the whole digit string.
proof fn lemma_dec_val_take_le(s: Seq<u8>, k: int)
    requires
        all_dec_digits(s),
        0 <= k <= s.len(),
    ensures
        dec_seq_val(s.take(k)) <= dec_seq_val(s),
    decreases s.len() - k,
{
    if k == s.len() {
        assert(s.take(k) =~= s);
    } else {
        assert(s.take(k + 1).drop_last() =~= s.take(k));
        assert(s.take(k + 1).last() == s[k]);
        assert(dec_seq_val(s.take(k + 1)) == dec_seq_val(s.take(k)) * 10 + dec_digit_val(s[k]));
        lemma_dec_val_take_le(s, k + 1);
    }
}

/// The number of consecutive decimal digits of `s` starting at `i`.
pub open spec fn digit_run_len(s: Seq<u8>, i: int) -> int
    recommends
        0 <= i <= s.len(),
    decreases s.len() - i when 0 <= i <= s.len()
{
    if i < s.len() && is_dec_digit(s[i]) {
        1 + digit_run_len(s, i + 1)
    } else {
        0
    }
}

/// What the digit run at `i` looks like: digits up to its end, then a
/// non-digit or the end of the sequence.
pub proof fn lemma_digit_run(s: Seq<u8>, i: int)
    requires
        0 <= i <= s.len(),
    ensures
        0 <= digit_run_len(s, i),
        i + digit_run_len(s, i) <= s.len(),
        forall|j: int| i <= j < i + digit_run_len(s, i) ==> is_dec_digit(#[trigger] s[j]),
        i + digit_run_len(s, i) == s.len() || !is_dec_digit(s[i + digit_run_len(s, i)]),
    decreases s.len() - i,
{
    if i < s.len() && is_dec_digit(s[i]) {
        lemma_digit_run(s, i + 1);
    }
}

/// The digit run is the only stretch of digits bounded by a non-digit or the
/// end: any such end is its end.
pub proof fn lemma_digit_run_unique(s: Seq<u8>, i: int, e: int)
    requires
        0 <= i <= e <= s.len(),
        forall|j: int| i <= j < e ==> is_dec_digit(#[trigger] s[j]),
        e == s.len() || !is_dec_digit(s[e]),
    ensures
        digit_run_len(s, i) == e - i,
    decreases e - i,
{
    if i < e {
        lemma_digit_run_unique(s, i + 1, e);
    }
}

/// The index just past the decimal digits that start at `start`.
pub fn digit_run_end(s: &[u8], start: usize) -> (r: usize)
    requires
        start <= s@.len(),
    ensures
        r as int == start + digit_run_len(s@, start as int),
        start <= r <= s@.len(),
{
    let mut i: usize = start;
    while i < s.len() && D0 <= s[i] && s[i] <= D9
        invariant
            start <= i <= s@.len(),
            forall|j: int| start <= j < i ==> is_dec_digit(#[trigger] s@[j]),
        decreases s@.len() - i,
    {
        i = i + 1;
    }
    proof {
        lemma_digit_run_unique(s@, start as int, i as int);
    }
    i
}

/// Copies the byte range `s[lo..hi]`.
pub fn copy_range(s: &[u8], lo: usize, hi: usize) -> (r: Vec<u8>)
    requires
        lo <= hi <= s@.len(),
    ensures
        r@ == s@.subrange(lo as int, hi as int),
{
    let mut out: Vec<u8> = Vec::new();
    let mut i: usize = lo;
    while i < hi
        invariant
            lo <= i <= hi <= s@.len(),
            out@ == s@.subrange(lo as int, i as int),
        decreases hi - i,
    {
        out.push(s[i]);
        i = i + 1;
        proof {
            assert(out@ =~= s@.subrange(lo as int, i as int));
        }
    }
    out
}

/// Appends the canonical decimal rendering of `n`.
pub fn append_dec_u32(out: &mut Vec<u8>, n: u32)
    ensures
        final(out)@ == old(out)@ + dec_rep(n as nat),
    decreases n,
{
    if n < 10 {
        out.push(D0 + (n as u8));
        proof {
            assert(out@ =~= old(out)@ + dec_rep(n as nat));
        }
    } else {
        append_dec_u32(out, n / 10);
        out.push(D0 + ((n % 10) as u8));
        proof {
            assert(out@ =~= old(out)@ + dec_rep(n as nat));
        }
    }
}

/// The canonical decimal rendering of `n` as bytes.
pub fn dec_of_u32(n: u32) -> (r: Vec<u8>)
    ensures
        r@ == dec_rep(n as nat),
{
    let mut out: Vec<u8> = Vec::new();
    append_dec_u32(&mut out, n);
    proof {
        assert(out@ =~= dec_rep(n as nat));
    }
    out
}

/// Parses the digit string `s[lo..hi]` as an unsigned 32-bit number.
///
/// Succeeds exactly when the range is non-empty, all digits, and the value
/// fits; rejecting anything else is what lets a reply parser treat any
/// failure as a shape mismatch.
pub fn parse_u32_range(s: &[u8], lo: usize, hi: usize) -> (r: Option<u32>)
    requires
        lo <= hi <= s@.len(),
    ensures
        ({
            let sub = s@.subrange(lo as int, hi as int);
            &&& r is Some <==> (sub.len() > 0 && all_dec_digits(sub) && dec_seq_val(sub)
                <= u32::MAX)
            &&& r matches Some(v) ==> v as nat == dec_seq_val(sub)
        }),
{
    let ghost sub = s@.subrange(lo as int, hi as int);
    if lo == hi {
        return None;
    }
    let mut acc: u32 = 0;
    let mut i: usize = lo;
    while i < hi
        invariant
            lo <= i <= hi <= s@.len(),
            sub == s@.subrange(lo as int, hi as int),
            all_dec_digits(sub.take(i - lo)),
            acc as nat == dec_seq_val(sub.take(i - lo)),
        decreases hi - i,
    {
        let b = s[i];
        proof {
            assert(sub[i - lo] == s@[i as int]);
        }
        if !(D0 <= b && b <= D9) {
            return None;
        }
        let d = (b - D0) as u32;
        proof {
            assert(sub.take(i + 1 - lo).drop_last() =~= sub.take(i - lo));
            assert(sub.take(i + 1 - lo).last() == sub[i - lo]);
        }
        if acc > (u32::MAX - d) / 10 {
            proof {
                assert(acc * 10 + d > u32::MAX) by {
                    assert(acc >= (u32::MAX - d) / 10 + 1);
                    assert(((u32::MAX - d) / 10 + 1) * 10 >= u32::MAX - d + 1) by (nonlinear_arith);
                    assert(acc * 10 >= ((u32::MAX - d) / 10 + 1) * 10) by (nonlinear_arith)
                        requires
                            acc >= (u32::MAX - d) / 10 + 1,
                    ;
                }
                assert(dec_seq_val(sub.take(i + 1 - lo)) > u32::MAX);
                if all_dec_digits(sub) {
                    lemma_dec_val_take_le(sub, i + 1 - lo);
                }
            }
            return None;
        }
        proof {
            assert(acc <= (u32::MAX - d) / 10);
            assert(acc * 10 <= ((u32::MAX - d) / 10) * 10) by (nonlinear_arith)
                requires
                    acc <= (u32::MAX - d) / 10,
            ;
            assert(((u32::MAX - d) / 10) * 10 <= u32::MAX - d);
        }
        acc = acc * 10 + d;
        i = i + 1;
    }
    proof {
        assert(sub.take(hi - lo) =~= sub);
    }
    Some(acc)
}

/// Parses a whole slice as an unsigned 32-bit number.
pub fn parse_u32(s: &[u8]) -> (r: Option<u32>)
    ensures
        r is Some <==> (s@.len() > 0 && all_dec_digits(s@) && dec_seq_val(s@) <= u32::MAX),
        r matches Some(v) ==> v as nat == dec_seq_val(s@),
{
    let r = parse_u32_range(s, 0, s.len());
    proof {
        assert(s@.subrange(0, s@.len() as int) =~= s@);
    }
    r
}

/// Parses a whole slice as an unsigned 16-bit number.
pub fn parse_u16(s: &[u8]) -> (r: Option<u16>)
    ensures
        r is Some <==> (s@.len() > 0 && all_dec_digits(s@) && dec_seq_val(s@) <= u16::MAX),
        r matches Some(v) ==> v as nat == dec_seq_val(s@),
{
    match parse_u32(s) {
        Some(v) => if v <= 65535 {
            Some(v as u16)
        } else {
            None
        },
        _ => None,
    }
}

/// Parses a whole slice as an unsigned 8-bit number.
pub fn parse_u8(s: &[u8]) -> (r: Option<u8>)
    ensures
        r is Some <==> (s@.len() > 0 && all_dec_digits(s@) && dec_seq_val(s@) <= u8::MAX),
        r matches Some(v) ==> v as nat == dec_seq_val(s@),
{
    match parse_u32(s) {
        Some(v) => if v <= 255 {
            Some(v as u8)
        } else {
            None
        },
        _ => None,
    }
}

} // verus!
