//! Protocol engine for a point-to-point LoRa radio module driven over a
//! textual AT command interface.
//!
//! The crate covers the pure protocol logic: the hex payload codec, the
//! decimal wire-text codec, the command catalog with its wire encoding, the
//! reply parsers, the unsolicited-notification parser, and the session
//! sequencing rules (send, receive, configure, read-configuration).
//! Byte transport and command dispatch are left to the caller.

use vstd::prelude::*;

pub mod ascii;
pub mod codec;
pub mod commands;
pub mod responses;
pub mod session;
pub mod text;
pub mod urc;
pub mod wire;

use crate::commands::p2p::{Bandwidth, CodeRate, Encrypted, WorkingMode, bandwidth_wf};

verus! {

/// Errors this layer itself detects.
///
/// `ReplyShapeMismatch` means a device reply did not match the descriptor's
/// reply grammar; `MalformedHex` means a hex payload had odd length or a
/// non-hex character. Transport failures (I/O, timeouts) belong to the
/// command transport around this layer and keep its error type; an
/// unrecognized notification line is swallowed, not an error.
#[derive(Clone, Copy, Debug, PartialEq, Eq, Structural)]
pub enum RadioError {
    ReplyShapeMismatch,
    MalformedHex,
}

/// All tunable radio parameters, as one value object.
///
/// Constructed by the caller (or read back from the device), consumed once
/// per `configure` or `read_configuration` exchange, never stored here.
#[derive(Clone, Debug, PartialEq, Eq)]
pub struct Configuration {
    /// The working mode of the radio.
    pub working_mode: WorkingMode,
    /// The frequency used, in Hz.
    pub frequency: u32,
    /// The spreading factor used.
    pub spreading_factor: u8,
    /// The bandwidth used.
    pub bandwidth: Bandwidth,
    /// The code rate used.
    pub code_rate: CodeRate,
    /// The preamble length used.
    pub preamble_length: u16,
    /// The TX power used.
    pub tx_power: u8,
    /// Whether the encryption is enabled or not.
    pub encrypted: Encrypted,
    /// The encryption key used (at most 16 key characters).
    pub encryption_key: Vec<u8>,
}

impl Configuration {
    /// A configuration the device can hold: the key fits its field, and the
    /// bandwidth has an unambiguous wire code.
    pub open spec fn wf(self) -> bool {
        &&& self.encryption_key@.len() <= 16
        &&& bandwidth_wf(self.bandwidth)
    }
}

impl Default for Configuration {
    /// The documented default configuration: point-to-point mode at
    /// 868 MHz, spreading factor 7, 125 kHz bandwidth, code rate 4/5,
    /// preamble length 8, power 14, encryption off with an empty key.
    fn default() -> (c: Self)
        ensures
            c.working_mode == WorkingMode::LoRaP2P,
            c.frequency == 868_000_000u32,
            c.spreading_factor == 7u8,
            c.bandwidth == Bandwidth::LoRa125KHz,
            c.code_rate == CodeRate::PCR4_5,
            c.preamble_length == 8u16,
            c.tx_power == 14u8,
            c.encrypted == Encrypted::False,
            c.encryption_key@ == Seq::<u8>::empty(),
            c.wf(),
    {
        let key: Vec<u8> = Vec::new();
        Configuration {
            working_mode: WorkingMode::LoRaP2P,
            frequency: 868_000_000,
            spreading_factor: 7,
            bandwidth: Bandwidth::LoRa125KHz,
            code_rate: CodeRate::PCR4_5,
            preamble_length: 8,
            tx_power: 14,
            encrypted: Encrypted::False,
            encryption_key: key,
        }
    }
}

} // verus!
