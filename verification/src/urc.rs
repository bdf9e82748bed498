//! Unsolicited-notification parser.
//!
//! The device emits unsolicited lines prefixed by the five-byte sentinel
//! `+EVT:`. After the sentinel, a line is either a signal-quality report —
//! `RXP2P, RSSI <int>, SNR <int>`, optionally followed by `, <hex>` carrying
//! a payload — or a bare hex payload. Anything else, including a line
//! shorter than the sentinel or an empty remainder, yields no event; a
//! malformed line never aborts the caller's polling loop.

use vstd::prelude::*;

use crate::ascii::{COLON, COMMA, D2, E, I, MINUS, N, P, PLUS, R, S, SPACE, T, V, X};
use crate::codec::{decode, hex_parse, is_hex_text};
use crate::text::{
    copy_range, dec_seq_val, digit_run_end, digit_run_len, lemma_digit_run, parse_u32_range,
};

verus! {

/// A decoded unsolicited notification.
///
/// `PeerToPeerData` carries a decoded payload; `PeerToPeerInfo` a
/// signal-quality report; `PeerToPeerMessage` the combined shape one
/// protocol revision uses.
#[derive(Clone, Debug, PartialEq, Eq)]
pub enum URCMessages {
    PeerToPeerData(Vec<u8>),
    PeerToPeerInfo { rssi: i16, snr: i16 },
    PeerToPeerMessage { rssi: i16, snr: i16, data: Vec<u8> },
}

/// The mathematical shape of a notification.
pub enum UrcView {
    Data(Seq<u8>),
    Info { rssi: int, snr: int },
    Message { rssi: int, snr: int, data: Seq<u8> },
}

impl View for URCMessages {
    type V = UrcView;

    open spec fn view(&self) -> UrcView {
        match self {
            URCMessages::PeerToPeerData(d) => UrcView::Data(d@),
            URCMessages::PeerToPeerInfo { rssi, snr } => UrcView::Info {
                rssi: *rssi as int,
                snr: *snr as int,
            },
            URCMessages::PeerToPeerMessage { rssi, snr, data } => UrcView::Message {
                rssi: *rssi as int,
                snr: *snr as int,
                data: data@,
            },
        }
    }
}

/// The sentinel that marks an unsolicited line.
pub open spec fn evt_sentinel() -> Seq<u8> {
    seq![PLUS, E, V, T, COLON]
}

/// The token that opens a signal-quality report.
pub open spec fn rxp2p_token() -> Seq<u8> {
    seq![R, X, P, D2, P]
}

/// The label before the first report integer.
pub open spec fn rssi_label() -> Seq<u8> {
    seq![COMMA, SPACE, R, S, S, I, SPACE]
}

/// The label before the second report integer.
pub open spec fn snr_label() -> Seq<u8> {
    seq![COMMA, SPACE, S, N, R, SPACE]
}

/// Where the digits of the number at `i` begin (an optional minus sign).
pub open spec fn num_start(s: Seq<u8>, i: int) -> int {
    if i < s.len() && s[i] == MINUS {
        i + 1
    } else {
        i
    }
}

/// Where the number at `i` ends.
pub open spec fn num_end(s: Seq<u8>, i: int) -> int {
    num_start(s, i) + digit_run_len(s, num_start(s, i))
}

/// A number stands at `i`: at least one digit after the optional sign.
pub open spec fn num_ok(s: Seq<u8>, i: int) -> bool {
    digit_run_len(s, num_start(s, i)) > 0
}

/// The value of the number at `i`.
pub open spec fn num_val(s: Seq<u8>, i: int) -> int
    recommends
        0 <= i <= s.len(),
        num_ok(s, i),
{
    let mag = dec_seq_val(s.subrange(num_start(s, i), num_end(s, i))) as int;
    if i < s.len() && s[i] == MINUS {
        -mag
    } else {
        mag
    }
}

/// Classifies a body that opens with the report token.
pub open spec fn classify_info(b: Seq<u8>) -> Option<UrcView>
    recommends
        b.len() >= 5 && b.subrange(0, 5) == rxp2p_token(),
{
    if !(b.len() >= 12 && b.subrange(5, 12) == rssi_label()) {
        Option::<UrcView>::None
    } else if !(num_ok(b, 12) && i16::MIN <= num_val(b, 12) <= i16::MAX) {
        Option::<UrcView>::None
    } else {
        let rssi = num_val(b, 12);
        let e1 = num_end(b, 12);
        if !(e1 + 6 <= b.len() && b.subrange(e1, e1 + 6) == snr_label()) {
            Option::<UrcView>::None
        } else if !(num_ok(b, e1 + 6) && i16::MIN <= num_val(b, e1 + 6) <= i16::MAX) {
            Option::<UrcView>::None
        } else {
            let snr = num_val(b, e1 + 6);
            let e2 = num_end(b, e1 + 6);
            if e2 == b.len() {
                Some(UrcView::Info { rssi, snr })
            } else if e2 + 2 < b.len() && b[e2] == COMMA && b[e2 + 1] == SPACE && is_hex_text(
                b.subrange(e2 + 2, b.len() as int),
            ) {
                Some(
                    UrcView::Message {
                        rssi,
                        snr,
                        data: hex_parse(b.subrange(e2 + 2, b.len() as int)),
                    },
                )
            } else {
                Option::<UrcView>::None
            }
        }
    }
}

/// Classifies the remainder of a sentinel-prefixed line.
pub open spec fn classify_body(b: Seq<u8>) -> Option<UrcView> {
    if b.len() >= 5 && b.subrange(0, 5) == rxp2p_token() {
        classify_info(b)
    } else if b.len() > 0 && is_hex_text(b) {
        Some(UrcView::Data(hex_parse(b)))
    } else {
        Option::<UrcView>::None
    }
}

/// The notification denoted by a raw line, if any.
pub open spec fn parse_urc_spec(line: Seq<u8>) -> Option<UrcView> {
    if line.len() >= 5 && line.subrange(0, 5) == evt_sentinel() {
        classify_body(line.skip(5))
    } else {
        Option::<UrcView>::None
    }
}

fn match_bytes(s: &[u8], at: usize, pat: &[u8]) -> (r: bool)
    requires
        at <= s@.len(),
    ensures
        r == (at + pat@.len() <= s@.len() && s@.subrange(at as int, at + pat@.len()) == pat@),
{
    if s.len() - at < pat.len() {
        return false;
    }
    let total = s.len();
    let mut i: usize = 0;
    while i < pat.len()
        invariant
            at + pat@.len() <= s@.len(),
            s@.len() == total,
            i <= pat@.len(),
            forall|j: int| 0 <= j < i ==> s@[at + j] == pat@[j],
        decreases pat@.len() - i,
    {
        if s[at + i] != pat[i] {
            proof {
                if s@.subrange(at as int, at + pat@.len()) == pat@ {
                    assert(s@.subrange(at as int, at + pat@.len())[i as int] == s@[at + i]);
                }
            }
            return false;
        }
        i = i + 1;
    }
    proof {
        assert(s@.subrange(at as int, at + pat@.len()) =~= pat@);
    }
    true
}

fn evt_sentinel_bytes() -> (r: Vec<u8>)
    ensures
        r@ == evt_sentinel(),
{
    let mut v: Vec<u8> = Vec::new();
    v.push(PLUS);
    v.push(E);
    v.push(V);
    v.push(T);
    v.push(COLON);
    proof {
        assert(v@ =~= evt_sentinel());
    }
    v
}

fn rxp2p_token_bytes() -> (r: Vec<u8>)
    ensures
        r@ == rxp2p_token(),
{
    let mut v: Vec<u8> = Vec::new();
    v.push(R);
    v.push(X);
    v.push(P);
    v.push(D2);
    v.push(P);
    proof {
        assert(v@ =~= rxp2p_token());
    }
    v
}

fn rssi_label_bytes() -> (r: Vec<u8>)
    ensures
        r@ == rssi_label(),
{
    let mut v: Vec<u8> = Vec::new();
    v.push(COMMA);
    v.push(SPACE);
    v.push(R);
    v.push(S);
    v.push(S);
    v.push(I);
    v.push(SPACE);
    proof {
        assert(v@ =~= rssi_label());
    }
    v
}

fn snr_label_bytes() -> (r: Vec<u8>)
    ensures
        r@ == snr_label(),
{
    let mut v: Vec<u8> = Vec::new();
    v.push(COMMA);
    v.push(SPACE);
    v.push(S);
    v.push(N);
    v.push(R);
    v.push(SPACE);
    proof {
        assert(v@ =~= snr_label());
    }
    v
}

fn scan_i16(s: &[u8], start: usize) -> (r: Option<(i16, usize)>)
    requires
        start <= s@.len(),
    ensures
        r is Some <==> (num_ok(s@, start as int) && i16::MIN <= num_val(s@, start as int)
            <= i16::MAX),
        r matches Some(p) ==> p.0 as int == num_val(s@, start as int) && p.1 as int == num_end(
            s@,
            start as int,
        ) && p.1 <= s@.len(),
{
    let negative = start < s.len() && s[start] == MINUS;
    let ns = if negative {
        start + 1
    } else {
        start
    };
    proof {
        assert(ns as int == num_start(s@, start as int));
    }
    let e = digit_run_end(s, ns);
    if e == ns {
        return None;
    }
    proof {
        lemma_digit_run(s@, ns as int);
    }
    let parsed = parse_u32_range(s, ns, e);
    match parsed {
        Some(mag) => {
            if negative {
                if mag <= 32768 {
                    Some(((0 - mag as i32) as i16, e))
                } else {
                    None
                }
            } else {
                if mag <= 32767 {
                    Some((mag as i16, e))
                } else {
                    None
                }
            }
        },
        _ => {
            proof {
                assert(dec_seq_val(s@.subrange(ns as int, e as int)) > u32::MAX);
            }
            None
        },
    }
}

impl URCMessages {
    /// Whether a raw line opens with the unsolicited-event sentinel; the
    /// transport's framing check.
    pub fn matches_sentinel(buf: &[u8]) -> (r: bool)
        ensures
            r == (buf@.len() >= 5 && buf@.subrange(0, 5) == evt_sentinel()),
    {
        let sentinel = evt_sentinel_bytes();
        match_bytes(buf, 0, sentinel.as_slice())
    }

    /// Parses one raw unsolicited line into a notification, or nothing.
    pub fn parse(resp: &[u8]) -> (r: Option<URCMessages>)
        ensures
            r is Some <==> parse_urc_spec(resp@) is Some,
            r matches Some(u) ==> parse_urc_spec(resp@) == Some(u@),
    {
        let sentinel = evt_sentinel_bytes();
        if !match_bytes(resp, 0, sentinel.as_slice()) {
            return None;
        }
        let body = copy_range(resp, 5, resp.len());
        let ghost b = resp@.skip(5);
        proof {
            assert(body@ =~= b);
        }
        let token = rxp2p_token_bytes();
        if match_bytes(body.as_slice(), 0, token.as_slice()) {
            // A signal-quality report.
            let rssi_l = rssi_label_bytes();
            if !match_bytes(body.as_slice(), 5, rssi_l.as_slice()) {
                return None;
            }
            let first = scan_i16(body.as_slice(), 12);
            match first {
                Some((rssi, e1)) => {
                    let snr_l = snr_label_bytes();
                    if !match_bytes(body.as_slice(), e1, snr_l.as_slice()) {
                        return None;
                    }
                    let second = scan_i16(body.as_slice(), e1 + 6);
                    match second {
                        Some((snr, e2)) => {
                            if e2 == body.len() {
                                Some(URCMessages::PeerToPeerInfo { rssi, snr })
                            } else if e2 + 2 < body.len() && body[e2] == COMMA && body[e2 + 1]
                                == SPACE {
                                let tail = copy_range(body.as_slice(), e2 + 2, body.len());
                                match decode(tail.as_slice()) {
                                    Ok(data) => Some(
                                        URCMessages::PeerToPeerMessage { rssi, snr, data },
                                    ),
                                    _ => None,
                                }
                            } else {
                                None
                            }
                        },
                        _ => None,
                    }
                },
                _ => None,
            }
        } else {
            // A bare hex payload.
            if body.len() == 0 {
                return None;
            }
            match decode(body.as_slice()) {
                Ok(data) => Some(URCMessages::PeerToPeerData(data)),
                _ => None,
            }
        }
    }
}

} // verus!
