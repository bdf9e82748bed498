//! Typed replies of the point-to-point Get commands, with their parsers.
//!
//! A reply is the bare value text; a reply that does not match the
//! descriptor's grammar is a `ReplyShapeMismatch`, never retried here.

use vstd::prelude::*;

use crate::RadioError;
use crate::commands::p2p::{
    Bandwidth, CodeRate, Encrypted, WorkingMode, bandwidth_code, bandwidth_wf, code_rate_code,
    encrypted_code, working_mode_code,
};
use crate::ascii::COMMA;
use crate::text::{
    all_dec_digits, copy_range, dec_digit_val, dec_rep, dec_seq_val, is_canonical_dec,
    lemma_canonical_dec_rep, lemma_dec_rep_val, parse_u16, parse_u32, parse_u8,
};
use vstd::slice::slice_to_vec;

verus! {

/// The working mode denoted by reply text, if any.
pub open spec fn working_mode_from_wire(s: Seq<u8>) -> Option<WorkingMode> {
    if s.len() > 0 && all_dec_digits(s) {
        if dec_seq_val(s) == 0 {
            Some(WorkingMode::LoRaP2P)
        } else if dec_seq_val(s) == 1 {
            Some(WorkingMode::LoRaWan)
        } else if dec_seq_val(s) == 2 {
            Some(WorkingMode::FskP2P)
        } else {
            Option::<WorkingMode>::None
        }
    } else {
        Option::<WorkingMode>::None
    }
}

/// The code rate denoted by reply text, if any.
pub open spec fn code_rate_from_wire(s: Seq<u8>) -> Option<CodeRate> {
    if s.len() > 0 && all_dec_digits(s) {
        if dec_seq_val(s) == 0 {
            Some(CodeRate::PCR4_5)
        } else if dec_seq_val(s) == 1 {
            Some(CodeRate::PCR4_6)
        } else if dec_seq_val(s) == 2 {
            Some(CodeRate::PCR4_7)
        } else if dec_seq_val(s) == 3 {
            Some(CodeRate::PCR4_8)
        } else {
            Option::<CodeRate>::None
        }
    } else {
        Option::<CodeRate>::None
    }
}

/// The encryption flag denoted by reply text, if any.
pub open spec fn encrypted_from_wire(s: Seq<u8>) -> Option<Encrypted> {
    if s.len() > 0 && all_dec_digits(s) {
        if dec_seq_val(s) == 0 {
            Some(Encrypted::False)
        } else if dec_seq_val(s) == 1 {
            Some(Encrypted::True)
        } else {
            Option::<Encrypted>::None
        }
    } else {
        Option::<Encrypted>::None
    }
}

/// The bandwidth denoted by reply text, if any: a single digit selects a
/// LoRa width, any other number is a frequency-shift-keying rate.
pub open spec fn bandwidth_from_wire(s: Seq<u8>) -> Option<Bandwidth> {
    if s.len() > 0 && all_dec_digits(s) && dec_seq_val(s) <= u32::MAX {
        if s.len() == 1 {
            if dec_seq_val(s) == 0 {
                Some(Bandwidth::LoRa125KHz)
            } else if dec_seq_val(s) == 1 {
                Some(Bandwidth::LoRa250KHz)
            } else if dec_seq_val(s) == 2 {
                Some(Bandwidth::LoRa500KHz)
            } else if dec_seq_val(s) == 3 {
                Some(Bandwidth::LoRa7_8MHz)
            } else if dec_seq_val(s) == 4 {
                Some(Bandwidth::LoRa10_4MHz)
            } else if dec_seq_val(s) == 5 {
                Some(Bandwidth::LoRa15_63MHz)
            } else if dec_seq_val(s) == 6 {
                Some(Bandwidth::LoRa20_83MHz)
            } else if dec_seq_val(s) == 7 {
                Some(Bandwidth::LoRa31_25MHz)
            } else if dec_seq_val(s) == 8 {
                Some(Bandwidth::LoRa41_67MHz)
            } else {
                Some(Bandwidth::LoRa62_5MHz)
            }
        } else {
            Some(Bandwidth::FSK(dec_seq_val(s) as u32))
        }
    } else {
        Option::<Bandwidth>::None
    }
}

/// A working mode read back from its own wire code is itself.
pub proof fn lemma_working_mode_round_trip(m: WorkingMode)
    ensures
        working_mode_from_wire(dec_rep(working_mode_code(m))) == Some(m),
{
    lemma_dec_rep_val(working_mode_code(m));
}

/// A code rate read back from its own wire code is itself.
pub proof fn lemma_code_rate_round_trip(c: CodeRate)
    ensures
        code_rate_from_wire(dec_rep(code_rate_code(c))) == Some(c),
{
    lemma_dec_rep_val(code_rate_code(c));
}

/// An encryption flag read back from its own wire code is itself.
pub proof fn lemma_encrypted_round_trip(e: Encrypted)
    ensures
        encrypted_from_wire(dec_rep(encrypted_code(e))) == Some(e),
{
    lemma_dec_rep_val(encrypted_code(e));
}

/// A well-formed bandwidth read back from its own wire text is itself.
pub proof fn lemma_bandwidth_round_trip(b: Bandwidth)
    requires
        bandwidth_wf(b),
    ensures
        bandwidth_from_wire(bandwidth_code(b)) == Some(b),
{
    match b {
        Bandwidth::LoRa125KHz => lemma_dec_rep_val(0),
        Bandwidth::LoRa250KHz => lemma_dec_rep_val(1),
        Bandwidth::LoRa500KHz => lemma_dec_rep_val(2),
        Bandwidth::LoRa7_8MHz => lemma_dec_rep_val(3),
        Bandwidth::LoRa10_4MHz => lemma_dec_rep_val(4),
        Bandwidth::LoRa15_63MHz => lemma_dec_rep_val(5),
        Bandwidth::LoRa20_83MHz => lemma_dec_rep_val(6),
        Bandwidth::LoRa31_25MHz => lemma_dec_rep_val(7),
        Bandwidth::LoRa41_67MHz => lemma_dec_rep_val(8),
        Bandwidth::LoRa62_5MHz => lemma_dec_rep_val(9),
        Bandwidth::FSK(r) => {
            lemma_dec_rep_val(r as nat);
            lemma_dec_rep_val((r as nat) / 10);
            assert(dec_rep(r as nat).len() >= 2);
        },
    }
}

/// A canonical bandwidth reply re-encodes to the same wire text.
pub proof fn lemma_bandwidth_reply_canonical(s: Seq<u8>)
    requires
        is_canonical_dec(s),
        bandwidth_from_wire(s) is Some,
    ensures
        bandwidth_from_wire(s) matches Some(b) ==> bandwidth_code(b) == s,
{
    lemma_canonical_dec_rep(s);
    if s.len() == 1 {
        assert(s.drop_last() =~= Seq::<u8>::empty());
        assert(dec_seq_val(Seq::<u8>::empty()) == 0);
        assert(s.last() == s[0]);
        assert(dec_seq_val(s) == dec_seq_val(s.drop_last()) * 10 + dec_digit_val(s.last()));
        assert(dec_seq_val(s) <= 9);
    }
}

/// A canonical code-rate reply re-encodes to the same wire text.
pub proof fn lemma_code_rate_reply_canonical(s: Seq<u8>)
    requires
        is_canonical_dec(s),
        code_rate_from_wire(s) is Some,
    ensures
        code_rate_from_wire(s) matches Some(c) ==> dec_rep(code_rate_code(c)) == s,
{
    lemma_canonical_dec_rep(s);
}

/// A canonical working-mode reply re-encodes to the same wire text.
pub proof fn lemma_working_mode_reply_canonical(s: Seq<u8>)
    requires
        is_canonical_dec(s),
        working_mode_from_wire(s) is Some,
    ensures
        working_mode_from_wire(s) matches Some(m) ==> dec_rep(working_mode_code(m)) == s,
{
    lemma_canonical_dec_rep(s);
}

/// Reply to a working-mode query.
#[derive(Clone, Copy, Debug, PartialEq, Eq, Structural)]
pub struct NetworkWorkingModeResponse {
    pub mode: WorkingMode,
}

impl NetworkWorkingModeResponse {
    /// Parses a working-mode reply.
    pub fn parse(line: &[u8]) -> (r: Result<Self, RadioError>)
        ensures
            r is Ok <==> working_mode_from_wire(line@) is Some,
            r matches Ok(resp) ==> working_mode_from_wire(line@) == Some(resp.mode),
            r matches Err(e) ==> e == RadioError::ReplyShapeMismatch,
    {
        match parse_u32(line) {
            Some(0) => Ok(NetworkWorkingModeResponse { mode: WorkingMode::LoRaP2P }),
            Some(1) => Ok(NetworkWorkingModeResponse { mode: WorkingMode::LoRaWan }),
            Some(2) => Ok(NetworkWorkingModeResponse { mode: WorkingMode::FskP2P }),
            _ => Err(RadioError::ReplyShapeMismatch),
        }
    }
}

/// Reply to a frequency query.
#[derive(Clone, Copy, Debug, PartialEq, Eq, Structural)]
pub struct P2PFrequencyResponse {
    pub frequency: u32,
}

impl P2PFrequencyResponse {
    /// Parses a frequency reply.
    pub fn parse(line: &[u8]) -> (r: Result<Self, RadioError>)
        ensures
            r is Ok <==> (line@.len() > 0 && all_dec_digits(line@) && dec_seq_val(line@)
                <= u32::MAX),
            r matches Ok(resp) ==> resp.frequency as nat == dec_seq_val(line@),
            r matches Err(e) ==> e == RadioError::ReplyShapeMismatch,
    {
        match parse_u32(line) {
            Some(v) => Ok(P2PFrequencyResponse { frequency: v }),
            _ => Err(RadioError::ReplyShapeMismatch),
        }
    }
}

/// Reply to a spreading-factor query.
#[derive(Clone, Copy, Debug, PartialEq, Eq, Structural)]
pub struct P2PSpreadingFactorResponse {
    pub spreading_factor: u8,
}

impl P2PSpreadingFactorResponse {
    /// Parses a spreading-factor reply.
    pub fn parse(line: &[u8]) -> (r: Result<Self, RadioError>)
        ensures
            r is Ok <==> (line@.len() > 0 && all_dec_digits(line@) && dec_seq_val(line@)
                <= u8::MAX),
            r matches Ok(resp) ==> resp.spreading_factor as nat == dec_seq_val(line@),
            r matches Err(e) ==> e == RadioError::ReplyShapeMismatch,
    {
        match parse_u8(line) {
            Some(v) => Ok(P2PSpreadingFactorResponse { spreading_factor: v }),
            _ => Err(RadioError::ReplyShapeMismatch),
        }
    }
}

/// Reply to a bandwidth query.
#[derive(Clone, Copy, Debug, PartialEq, Eq, Structural)]
pub struct P2PBandwidth {
    pub bandwidth: Bandwidth,
}

impl P2PBandwidth {
    /// Parses a bandwidth reply.
    pub fn parse(line: &[u8]) -> (r: Result<Self, RadioError>)
        ensures
            r is Ok <==> bandwidth_from_wire(line@) is Some,
            r matches Ok(resp) ==> bandwidth_from_wire(line@) == Some(resp.bandwidth),
            r matches Err(e) ==> e == RadioError::ReplyShapeMismatch,
    {
        match parse_u32(line) {
            Some(v) => if line.len() == 1 {
                let b = if v == 0 {
                    Bandwidth::LoRa125KHz
                } else if v == 1 {
                    Bandwidth::LoRa250KHz
                } else if v == 2 {
                    Bandwidth::LoRa500KHz
                } else if v == 3 {
                    Bandwidth::LoRa7_8MHz
                } else if v == 4 {
                    Bandwidth::LoRa10_4MHz
                } else if v == 5 {
                    Bandwidth::LoRa15_63MHz
                } else if v == 6 {
                    Bandwidth::LoRa20_83MHz
                } else if v == 7 {
                    Bandwidth::LoRa31_25MHz
                } else if v == 8 {
                    Bandwidth::LoRa41_67MHz
                } else {
                    Bandwidth::LoRa62_5MHz
                };
                Ok(P2PBandwidth { bandwidth: b })
            } else {
                Ok(P2PBandwidth { bandwidth: Bandwidth::FSK(v) })
            },
            _ => Err(RadioError::ReplyShapeMismatch),
        }
    }
}

/// Reply to a code-rate query.
#[derive(Clone, Copy, Debug, PartialEq, Eq, Structural)]
pub struct P2PCodeRate {
    pub code_rate: CodeRate,
}

impl P2PCodeRate {
    /// Parses a code-rate reply.
    pub fn parse(line: &[u8]) -> (r: Result<Self, RadioError>)
        ensures
            r is Ok <==> code_rate_from_wire(line@) is Some,
            r matches Ok(resp) ==> code_rate_from_wire(line@) == Some(resp.code_rate),
            r matches Err(e) ==> e == RadioError::ReplyShapeMismatch,
    {
        match parse_u32(line) {
            Some(0) => Ok(P2PCodeRate { code_rate: CodeRate::PCR4_5 }),
            Some(1) => Ok(P2PCodeRate { code_rate: CodeRate::PCR4_6 }),
            Some(2) => Ok(P2PCodeRate { code_rate: CodeRate::PCR4_7 }),
            Some(3) => Ok(P2PCodeRate { code_rate: CodeRate::PCR4_8 }),
            _ => Err(RadioError::ReplyShapeMismatch),
        }
    }
}

/// Reply to a preamble-length query.
#[derive(Clone, Copy, Debug, PartialEq, Eq, Structural)]
pub struct P2PPreambleLength {
    pub preamble_length: u16,
}

impl P2PPreambleLength {
    /// Parses a preamble-length reply.
    pub fn parse(line: &[u8]) -> (r: Result<Self, RadioError>)
        ensures
            r is Ok <==> (line@.len() > 0 && all_dec_digits(line@) && dec_seq_val(line@)
                <= u16::MAX),
            r matches Ok(resp) ==> resp.preamble_length as nat == dec_seq_val(line@),
            r matches Err(e) ==> e == RadioError::ReplyShapeMismatch,
    {
        match parse_u16(line) {
            Some(v) => Ok(P2PPreambleLength { preamble_length: v }),
            _ => Err(RadioError::ReplyShapeMismatch),
        }
    }
}

/// Reply to a transmit-power query.
#[derive(Clone, Copy, Debug, PartialEq, Eq, Structural)]
pub struct P2PTxPower {
    pub tx_power: u8,
}

impl P2PTxPower {
    /// Parses a transmit-power reply.
    pub fn parse(line: &[u8]) -> (r: Result<Self, RadioError>)
        ensures
            r is Ok <==> (line@.len() > 0 && all_dec_digits(line@) && dec_seq_val(line@)
                <= u8::MAX),
            r matches Ok(resp) ==> resp.tx_power as nat == dec_seq_val(line@),
            r matches Err(e) ==> e == RadioError::ReplyShapeMismatch,
    {
        match parse_u8(line) {
            Some(v) => Ok(P2PTxPower { tx_power: v }),
            _ => Err(RadioError::ReplyShapeMismatch),
        }
    }
}

/// Reply to an encryption-mode query.
#[derive(Clone, Copy, Debug, PartialEq, Eq, Structural)]
pub struct P2PEncryptionMode {
    pub encryption: Encrypted,
}

impl P2PEncryptionMode {
    /// Parses an encryption-mode reply.
    pub fn parse(line: &[u8]) -> (r: Result<Self, RadioError>)
        ensures
            r is Ok <==> encrypted_from_wire(line@) is Some,
            r matches Ok(resp) ==> encrypted_from_wire(line@) == Some(resp.encryption),
            r matches Err(e) ==> e == RadioError::ReplyShapeMismatch,
    {
        match parse_u32(line) {
            Some(0) => Ok(P2PEncryptionMode { encryption: Encrypted::False }),
            Some(1) => Ok(P2PEncryptionMode { encryption: Encrypted::True }),
            _ => Err(RadioError::ReplyShapeMismatch),
        }
    }
}

/// Reply to an encryption-key query: the key text itself, at most 16 bytes.
#[derive(Clone, Debug, PartialEq, Eq)]
pub struct P2PEncryptionKey {
    pub encryption_key: Vec<u8>,
}

impl P2PEncryptionKey {
    /// Parses an encryption-key reply.
    pub fn parse(line: &[u8]) -> (r: Result<Self, RadioError>)
        ensures
            r is Ok <==> line@.len() <= 16,
            r matches Ok(resp) ==> resp.encryption_key@ == line@,
            r matches Err(e) ==> e == RadioError::ReplyShapeMismatch,
    {
        if line.len() <= 16 {
            Ok(P2PEncryptionKey { encryption_key: slice_to_vec(line) })
        } else {
            Err(RadioError::ReplyShapeMismatch)
        }
    }
}

/// The number of bytes of `s` from `i` up to the next parameter separator.
pub open spec fn field_len(s: Seq<u8>, i: int) -> int
    recommends
        0 <= i <= s.len(),
    decreases s.len() - i when 0 <= i <= s.len()
{
    if i < s.len() && s[i] != COMMA {
        1 + field_len(s, i + 1)
    } else {
        0
    }
}

proof fn lemma_field_run_unique(s: Seq<u8>, i: int, e: int)
    requires
        0 <= i <= e <= s.len(),
        forall|j: int| i <= j < e ==> #[trigger] s[j] != COMMA,
        e == s.len() || s[e] == COMMA,
    ensures
        field_len(s, i) == e - i,
    decreases e - i,
{
    if i < e {
        lemma_field_run_unique(s, i + 1, e);
    }
}

fn field_end(s: &[u8], start: usize) -> (r: usize)
    requires
        start <= s@.len(),
    ensures
        r as int == start + field_len(s@, start as int),
        start <= r <= s@.len(),
{
    let mut i: usize = start;
    while i < s.len() && s[i] != COMMA
        invariant
            start <= i <= s@.len(),
            forall|j: int| start <= j < i ==> #[trigger] s@[j] != COMMA,
        decreases s@.len() - i,
    {
        i = i + 1;
    }
    proof {
        lemma_field_run_unique(s@, start as int, i as int);
    }
    i
}

/// The combined point-to-point parameters denoted by reply text, if any:
/// six comma-separated fields in the configure order.
pub open spec fn p2p_params_from_wire(s: Seq<u8>) -> Option<P2Pparameters> {
    let e1 = field_len(s, 0);
    if e1 >= s.len() {
        Option::<P2Pparameters>::None
    } else {
        let b2 = e1 + 1;
        let e2 = b2 + field_len(s, b2);
        if e2 >= s.len() {
            Option::<P2Pparameters>::None
        } else {
            let b3 = e2 + 1;
            let e3 = b3 + field_len(s, b3);
            if e3 >= s.len() {
                Option::<P2Pparameters>::None
            } else {
                let b4 = e3 + 1;
                let e4 = b4 + field_len(s, b4);
                if e4 >= s.len() {
                    Option::<P2Pparameters>::None
                } else {
                    let b5 = e4 + 1;
                    let e5 = b5 + field_len(s, b5);
                    if e5 >= s.len() {
                        Option::<P2Pparameters>::None
                    } else {
                        let b6 = e5 + 1;
                        let e6 = b6 + field_len(s, b6);
                        if e6 != s.len() {
                            Option::<P2Pparameters>::None
                        } else {
                            p2p_params_from_fields(
                                s.subrange(0, e1),
                                s.subrange(b2, e2),
                                s.subrange(b3, e3),
                                s.subrange(b4, e4),
                                s.subrange(b5, e5),
                                s.subrange(b6, e6),
                            )
                        }
                    }
                }
            }
        }
    }
}

/// The combined parameters denoted by the six split fields, if each fits.
pub open spec fn p2p_params_from_fields(
    f1: Seq<u8>,
    f2: Seq<u8>,
    f3: Seq<u8>,
    f4: Seq<u8>,
    f5: Seq<u8>,
    f6: Seq<u8>,
) -> Option<P2Pparameters> {
    if !(f1.len() > 0 && all_dec_digits(f1) && dec_seq_val(f1) <= u32::MAX) {
        Option::<P2Pparameters>::None
    } else if !(f2.len() > 0 && all_dec_digits(f2) && dec_seq_val(f2) <= u8::MAX) {
        Option::<P2Pparameters>::None
    } else if bandwidth_from_wire(f3) is None {
        Option::<P2Pparameters>::None
    } else if code_rate_from_wire(f4) is None {
        Option::<P2Pparameters>::None
    } else if !(f5.len() > 0 && all_dec_digits(f5) && dec_seq_val(f5) <= u16::MAX) {
        Option::<P2Pparameters>::None
    } else if !(f6.len() > 0 && all_dec_digits(f6) && dec_seq_val(f6) <= u8::MAX) {
        Option::<P2Pparameters>::None
    } else {
        Some(
            P2Pparameters {
                frequency: dec_seq_val(f1) as u32,
                spreading_factor: dec_seq_val(f2) as u8,
                bandwidth: bandwidth_from_wire(f3)->0,
                coderate: code_rate_from_wire(f4)->0,
                preamblelength: dec_seq_val(f5) as u16,
                txpower: dec_seq_val(f6) as u8,
            },
        )
    }
}

/// Reply to the combined point-to-point parameter query.
#[derive(Clone, Copy, Debug, PartialEq, Eq, Structural)]
pub struct P2Pparameters {
    pub frequency: u32,
    pub spreading_factor: u8,
    pub bandwidth: Bandwidth,
    pub coderate: CodeRate,
    pub preamblelength: u16,
    pub txpower: u8,
}

impl P2Pparameters {
    /// Parses a combined-parameter reply: six comma-separated fields.
    pub fn parse(line: &[u8]) -> (r: Result<Self, RadioError>)
        ensures
            r is Ok <==> p2p_params_from_wire(line@) is Some,
            r matches Ok(p) ==> p2p_params_from_wire(line@) == Some(p),
            r matches Err(e) ==> e == RadioError::ReplyShapeMismatch,
    {
        let e1 = field_end(line, 0);
        if e1 >= line.len() {
            return Err(RadioError::ReplyShapeMismatch);
        }
        let b2 = e1 + 1;
        let e2 = field_end(line, b2);
        if e2 >= line.len() {
            return Err(RadioError::ReplyShapeMismatch);
        }
        let b3 = e2 + 1;
        let e3 = field_end(line, b3);
        if e3 >= line.len() {
            return Err(RadioError::ReplyShapeMismatch);
        }
        let b4 = e3 + 1;
        let e4 = field_end(line, b4);
        if e4 >= line.len() {
            return Err(RadioError::ReplyShapeMismatch);
        }
        let b5 = e4 + 1;
        let e5 = field_end(line, b5);
        if e5 >= line.len() {
            return Err(RadioError::ReplyShapeMismatch);
        }
        let b6 = e5 + 1;
        let e6 = field_end(line, b6);
        if e6 != line.len() {
            return Err(RadioError::ReplyShapeMismatch);
        }
        let f1 = copy_range(line, 0, e1);
        let f2 = copy_range(line, b2, e2);
        let f3 = copy_range(line, b3, e3);
        let f4 = copy_range(line, b4, e4);
        let f5 = copy_range(line, b5, e5);
        let f6 = copy_range(line, b6, e6);
        let frequency = match P2PFrequencyResponse::parse(f1.as_slice()) {
            Ok(x) => x.frequency,
            _ => {
                return Err(RadioError::ReplyShapeMismatch);
            },
        };
        let spreading_factor = match P2PSpreadingFactorResponse::parse(f2.as_slice()) {
            Ok(x) => x.spreading_factor,
            _ => {
                return Err(RadioError::ReplyShapeMismatch);
            },
        };
        let bandwidth = match P2PBandwidth::parse(f3.as_slice()) {
            Ok(x) => x.bandwidth,
            _ => {
                return Err(RadioError::ReplyShapeMismatch);
            },
        };
        let coderate = match P2PCodeRate::parse(f4.as_slice()) {
            Ok(x) => x.code_rate,
            _ => {
                return Err(RadioError::ReplyShapeMismatch);
            },
        };
        let preamblelength = match P2PPreambleLength::parse(f5.as_slice()) {
            Ok(x) => x.preamble_length,
            _ => {
                return Err(RadioError::ReplyShapeMismatch);
            },
        };
        let txpower = match P2PTxPower::parse(f6.as_slice()) {
            Ok(x) => x.tx_power,
            _ => {
                return Err(RadioError::ReplyShapeMismatch);
            },
        };
        Ok(
            P2Pparameters {
                frequency,
                spreading_factor,
                bandwidth,
                coderate,
                preamblelength,
                txpower,
            },
        )
    }
}

/// Reply to an IQ-inversion query.
#[derive(Clone, Copy, Debug, PartialEq, Eq, Structural)]
pub struct P2PIQInversion {
    pub iq_inversion: bool,
}

impl P2PIQInversion {
    /// Parses an IQ-inversion reply (wire code 0 or 1).
    pub fn parse(line: &[u8]) -> (r: Result<Self, RadioError>)
        ensures
            r is Ok <==> (line@.len() > 0 && all_dec_digits(line@) && dec_seq_val(line@) <= 1),
            r matches Ok(resp) ==> resp.iq_inversion == (dec_seq_val(line@) == 1),
            r matches Err(e) ==> e == RadioError::ReplyShapeMismatch,
    {
        match parse_u32(line) {
            Some(0) => Ok(P2PIQInversion { iq_inversion: false }),
            Some(1) => Ok(P2PIQInversion { iq_inversion: true }),
            _ => Err(RadioError::ReplyShapeMismatch),
        }
    }
}

/// Reply to a sync-word query: hex text, at most four characters.
#[derive(Clone, Debug, PartialEq, Eq)]
pub struct P2PSyncWord {
    pub sync_word: Vec<u8>,
}

impl P2PSyncWord {
    /// Parses a sync-word reply.
    pub fn parse(line: &[u8]) -> (r: Result<Self, RadioError>)
        ensures
            r is Ok <==> line@.len() <= 4,
            r matches Ok(resp) ==> resp.sync_word@ == line@,
            r matches Err(e) ==> e == RadioError::ReplyShapeMismatch,
    {
        if line.len() <= 4 {
            Ok(P2PSyncWord { sync_word: slice_to_vec(line) })
        } else {
            Err(RadioError::ReplyShapeMismatch)
        }
    }
}

/// Reply to a symbol-timeout query.
#[derive(Clone, Copy, Debug, PartialEq, Eq, Structural)]
pub struct P2PSymbolTimeout {
    pub symbol_timeout: u8,
}

impl P2PSymbolTimeout {
    /// Parses a symbol-timeout reply.
    pub fn parse(line: &[u8]) -> (r: Result<Self, RadioError>)
        ensures
            r is Ok <==> (line@.len() > 0 && all_dec_digits(line@) && dec_seq_val(line@)
                <= u8::MAX),
            r matches Ok(resp) ==> resp.symbol_timeout as nat == dec_seq_val(line@),
            r matches Err(e) ==> e == RadioError::ReplyShapeMismatch,
    {
        match parse_u8(line) {
            Some(v) => Ok(P2PSymbolTimeout { symbol_timeout: v }),
            _ => Err(RadioError::ReplyShapeMismatch),
        }
    }
}

} // verus!
