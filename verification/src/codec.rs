//! Payload codec: binary to hex text and back.
//!
//! Packet payloads travel inside text commands as hexadecimal text: each byte
//! becomes two uppercase hex digits, concatenated without separators.
//! Decoding accepts both digit cases and requires an even length; it fails
//! with `RadioError::MalformedHex` otherwise, never dropping trailing bytes.

use vstd::prelude::*;

use crate::RadioError;
use crate::ascii::{D0, D9, A, F, LA, LF};

verus! {

/// A byte is a hexadecimal digit (either case accepted).
pub open spec fn is_hex_digit(b: u8) -> bool {
    (D0 <= b && b <= D9) || (A <= b && b <= F) || (LA <= b && b <= LF)
}

/// Numeric value of a hex digit.
pub open spec fn hex_digit_val(b: u8) -> nat
    recommends
        is_hex_digit(b),
{
    if D0 <= b && b <= D9 {
        (b - D0) as nat
    } else if A <= b && b <= F {
        (b - A + 10) as nat
    } else {
        (b - LA + 10) as nat
    }
}

/// The uppercase hex digit for a value below 16.
pub open spec fn hex_digit_upper(d: nat) -> u8
    recommends
        d < 16,
{
    if d < 10 {
        (D0 + d) as u8
    } else {
        (A + (d - 10)) as u8
    }
}

/// Canonical hex rendering of a byte sequence: two uppercase digits per byte,
/// high nibble first.
pub open spec fn hex_rep(bytes: Seq<u8>) -> Seq<u8> {
    Seq::new(
        bytes.len() * 2,
        |i: int|
            if i % 2 == 0 {
                hex_digit_upper((bytes[i / 2] / 16) as nat)
            } else {
                hex_digit_upper((bytes[i / 2] % 16) as nat)
            },
    )
}

/// A sequence is well-formed hex text: even length, every byte a hex digit.
pub open spec fn is_hex_text(s: Seq<u8>) -> bool {
    &&& s.len() % 2 == 0
    &&& forall|i: int| 0 <= i < s.len() ==> is_hex_digit(#[trigger] s[i])
}

/// The bytes denoted by a well-formed hex text.
pub open spec fn hex_parse(s: Seq<u8>) -> Seq<u8>
    recommends
        is_hex_text(s),
{
    Seq::new(s.len() / 2, |i: int| (hex_digit_val(s[2 * i]) * 16 + hex_digit_val(s[2 * i + 1])) as u8)
}

/// Hex text with every lowercase digit raised to uppercase.
pub open spec fn to_upper_hex(s: Seq<u8>) -> Seq<u8> {
    s.map(|i: int, b: u8| if LA <= b && b <= LF { (b - 32) as u8 } else { b })
}

fn hex_digit_byte_upper(d: u8) -> (r: u8)
    requires
        d < 16,
    ensures
        r == hex_digit_upper(d as nat),
{
    if d < 10 {
        D0 + d
    } else {
        A + (d - 10)
    }
}

fn is_hex_digit_byte(b: u8) -> (r: bool)
    ensures
        r == is_hex_digit(b),
{
    (D0 <= b && b <= D9) || (A <= b && b <= F) || (LA <= b && b <= LF)
}

fn hex_digit_byte_val(b: u8) -> (r: u8)
    requires
        is_hex_digit(b),
    ensures
        r as nat == hex_digit_val(b),
        r < 16,
{
    if D0 <= b && b <= D9 {
        b - D0
    } else if A <= b && b <= F {
        b - A + 10
    } else {
        b - LA + 10
    }
}

/// Renders each byte as two uppercase hex digits, concatenated.
pub fn encode(data: &[u8]) -> (r: Vec<u8>)
    ensures
        r@ == hex_rep(data@),
{
    let mut out: Vec<u8> = Vec::new();
    let mut i: usize = 0;
    while i < data.len()
        invariant
            i <= data.len(),
            out@ == hex_rep(data@.take(i as int)),
        decreases data.len() - i,
    {
        let b = data[i];
        out.push(hex_digit_byte_upper(b / 16));
        out.push(hex_digit_byte_upper(b % 16));
        i = i + 1;
        proof {
            assert(out@ =~= hex_rep(data@.take(i as int)));
        }
    }
    proof {
        assert(data@.take(data@.len() as int) =~= data@);
    }
    out
}

/// Decodes hex text back to bytes.
///
/// Succeeds exactly on even-length sequences of hex digits (either case) and
/// then yields one byte per digit pair; any other input is rejected with
/// `MalformedHex`.
pub fn decode(s: &[u8]) -> (r: Result<Vec<u8>, RadioError>)
    ensures
        r is Ok <==> is_hex_text(s@),
        r matches Ok(v) ==> v@ == hex_parse(s@) && v@.len() == s@.len() / 2,
        r matches Err(e) ==> e == RadioError::MalformedHex,
{
    if s.len() % 2 != 0 {
        return Err(RadioError::MalformedHex);
    }
    let mut out: Vec<u8> = Vec::new();
    let mut i: usize = 0;
    while i < s.len()
        invariant
            s@.len() % 2 == 0,
            i % 2 == 0,
            i <= s.len(),
            forall|j: int| 0 <= j < i ==> is_hex_digit(#[trigger] s@[j]),
            out@ == hex_parse(s@.take(i as int)),
        decreases s.len() - i,
    {
        let hi = s[i];
        let lo = s[i + 1];
        if !is_hex_digit_byte(hi) || !is_hex_digit_byte(lo) {
            return Err(RadioError::MalformedHex);
        }
        out.push(hex_digit_byte_val(hi) * 16 + hex_digit_byte_val(lo));
        i = i + 2;
        proof {
            assert(out@ =~= hex_parse(s@.take(i as int)));
        }
    }
    proof {
        assert(s@.take(s@.len() as int) =~= s@);
    }
    Ok(out)
}

proof fn lemma_hex_digit_upper_maps_back(d: nat)
    requires
        d < 16,
    ensures
        is_hex_digit(hex_digit_upper(d)),
        hex_digit_val(hex_digit_upper(d)) == d,
        !(LA <= hex_digit_upper(d) && hex_digit_upper(d) <= LF),
{
}

/// Round trip: decoding a canonical hex rendering recovers the bytes.
pub proof fn lemma_decode_encode(bytes: Seq<u8>)
    ensures
        is_hex_text(hex_rep(bytes)),
        hex_parse(hex_rep(bytes)) == bytes,
{
    let h = hex_rep(bytes);
    assert forall|i: int| 0 <= i < h.len() implies is_hex_digit(#[trigger] h[i]) by {
        if i % 2 == 0 {
            lemma_hex_digit_upper_maps_back((bytes[i / 2] / 16) as nat);
        } else {
            lemma_hex_digit_upper_maps_back((bytes[i / 2] % 16) as nat);
        }
    }
    assert forall|i: int| 0 <= i < bytes.len() implies #[trigger] hex_parse(h)[i] == bytes[i] by {
        lemma_hex_digit_upper_maps_back((bytes[i] / 16) as nat);
        lemma_hex_digit_upper_maps_back((bytes[i] % 16) as nat);
        assert(h[2 * i] == hex_digit_upper((bytes[i] / 16) as nat));
        assert(h[2 * i + 1] == hex_digit_upper((bytes[i] % 16) as nat));
    }
    assert(hex_parse(h) =~= bytes);
}

/// Re-encoding a decoded hex text reproduces it in canonical uppercase.
pub proof fn lemma_encode_decode(s: Seq<u8>)
    requires
        is_hex_text(s),
    ensures
        hex_rep(hex_parse(s)) == to_upper_hex(s),
{
    let p = hex_parse(s);
    assert forall|j: int| 0 <= j < hex_rep(p).len() implies #[trigger] hex_rep(p)[j]
        == to_upper_hex(s)[j] by {
        let k = j / 2;
        let hi = hex_digit_val(s[2 * k]);
        let lo = hex_digit_val(s[2 * k + 1]);
        assert(is_hex_digit(s[2 * k]));
        assert(is_hex_digit(s[2 * k + 1]));
        assert(hi < 16 && lo < 16);
        assert(p[k] == (hi * 16 + lo) as u8);
        assert((hi * 16 + lo) / 16 == hi);
        assert((hi * 16 + lo) % 16 == lo);
        if j % 2 == 0 {
            lemma_upper_of_digit(s[2 * k]);
        } else {
            lemma_upper_of_digit(s[2 * k + 1]);
        }
    }
    assert(hex_rep(p) =~= to_upper_hex(s));
}

proof fn lemma_upper_of_digit(b: u8)
    requires
        is_hex_digit(b),
    ensures
        hex_digit_upper(hex_digit_val(b)) == (if LA <= b && b <= LF {
            (b - 32) as u8
        } else {
            b
        }),
{
}

} // verus!
