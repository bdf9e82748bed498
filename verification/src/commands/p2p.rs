//! Point-to-point command catalog: radio parameter enums and the Set/Get
//! command descriptors with their wire encodings.
//!
//! Every parameter value travels as decimal text; the enums carry their wire
//! code through the `*_code` spec functions, and each descriptor's `wire`
//! method renders the full command line, pinned to its `wire_spec`.

use vstd::prelude::*;

use crate::text::{dec_rep, dec_of_u32, append_dec_u32};
use crate::wire::{
    Mnemonic, set_line, query_line, query_line_bytes, set_line_bytes,
    append_separator,
};
use crate::ascii::COMMA;

verus! {

/// The working mode of the radio.
#[derive(Clone, Copy, Debug, PartialEq, Eq, Structural)]
pub enum WorkingMode {
    LoRaP2P,
    LoRaWan,
    FskP2P,
}

/// The coding rate of the radio link.
#[derive(Clone, Copy, Debug, PartialEq, Eq, Structural)]
pub enum CodeRate {
    PCR4_5,
    PCR4_6,
    PCR4_7,
    PCR4_8,
}

/// The channel bandwidth: ten fixed LoRa widths, or a frequency-shift-keying
/// rate in Hz.
#[derive(Clone, Copy, Debug, PartialEq, Eq, Structural)]
pub enum Bandwidth {
    LoRa125KHz,
    LoRa250KHz,
    LoRa500KHz,
    LoRa7_8MHz,
    LoRa10_4MHz,
    LoRa15_63MHz,
    LoRa20_83MHz,
    LoRa31_25MHz,
    LoRa41_67MHz,
    LoRa62_5MHz,
    FSK(u32),
}

/// How long the device should listen for incoming packets.
#[derive(Clone, Copy, Debug, PartialEq, Eq, Structural)]
pub enum ReceiveWindow {
    Milliseconds(u16),
    OnePacket,
    Continuous,
    StopListening,
}

/// Whether payload encryption is enabled.
#[derive(Clone, Copy, Debug, PartialEq, Eq, Structural)]
pub enum Encrypted {
    False,
    True,
}

/// Wire code of a working mode.
pub open spec fn working_mode_code(m: WorkingMode) -> nat {
    match m {
        WorkingMode::LoRaP2P => 0,
        WorkingMode::LoRaWan => 1,
        WorkingMode::FskP2P => 2,
    }
}

/// Wire code of a code rate.
pub open spec fn code_rate_code(c: CodeRate) -> nat {
    match c {
        CodeRate::PCR4_5 => 0,
        CodeRate::PCR4_6 => 1,
        CodeRate::PCR4_7 => 2,
        CodeRate::PCR4_8 => 3,
    }
}

/// Wire code of an encryption flag.
pub open spec fn encrypted_code(e: Encrypted) -> nat {
    match e {
        Encrypted::False => 0,
        Encrypted::True => 1,
    }
}

/// Wire text of a bandwidth: a single digit selects a LoRa width, any other
/// number is a frequency-shift-keying rate.
pub open spec fn bandwidth_code(b: Bandwidth) -> Seq<u8> {
    match b {
        Bandwidth::LoRa125KHz => dec_rep(0),
        Bandwidth::LoRa250KHz => dec_rep(1),
        Bandwidth::LoRa500KHz => dec_rep(2),
        Bandwidth::LoRa7_8MHz => dec_rep(3),
        Bandwidth::LoRa10_4MHz => dec_rep(4),
        Bandwidth::LoRa15_63MHz => dec_rep(5),
        Bandwidth::LoRa20_83MHz => dec_rep(6),
        Bandwidth::LoRa31_25MHz => dec_rep(7),
        Bandwidth::LoRa41_67MHz => dec_rep(8),
        Bandwidth::LoRa62_5MHz => dec_rep(9),
        Bandwidth::FSK(r) => dec_rep(r as nat),
    }
}

/// A bandwidth is unambiguous on the wire: a frequency-shift-keying rate
/// below 10 would render as a LoRa selector digit.
pub open spec fn bandwidth_wf(b: Bandwidth) -> bool {
    b matches Bandwidth::FSK(r) ==> r >= 10
}

/// Wire text of a receive window: a wait in milliseconds, or one of the
/// reserved selectors (one packet 65535, continuous 65534, stop 0).
pub open spec fn receive_window_code(w: ReceiveWindow) -> Seq<u8> {
    match w {
        ReceiveWindow::Milliseconds(ms) => dec_rep(ms as nat),
        ReceiveWindow::OnePacket => dec_rep(65535),
        ReceiveWindow::Continuous => dec_rep(65534),
        ReceiveWindow::StopListening => dec_rep(0),
    }
}

/// Working mode as its wire number.
pub fn working_mode_value(m: &WorkingMode) -> (r: u32)
    ensures
        r as nat == working_mode_code(*m),
{
    match m {
        WorkingMode::LoRaP2P => 0,
        WorkingMode::LoRaWan => 1,
        WorkingMode::FskP2P => 2,
    }
}

/// Code rate as its wire number.
pub fn code_rate_value(c: &CodeRate) -> (r: u32)
    ensures
        r as nat == code_rate_code(*c),
{
    match c {
        CodeRate::PCR4_5 => 0,
        CodeRate::PCR4_6 => 1,
        CodeRate::PCR4_7 => 2,
        CodeRate::PCR4_8 => 3,
    }
}

/// Encryption flag as its wire number.
pub fn encrypted_value(e: &Encrypted) -> (r: u32)
    ensures
        r as nat == encrypted_code(*e),
{
    match e {
        Encrypted::False => 0,
        Encrypted::True => 1,
    }
}

/// Appends the wire text of a bandwidth.
pub fn append_bandwidth_code(out: &mut Vec<u8>, b: &Bandwidth)
    ensures
        final(out)@ == old(out)@ + bandwidth_code(*b),
{
    match b {
        Bandwidth::LoRa125KHz => append_dec_u32(out, 0),
        Bandwidth::LoRa250KHz => append_dec_u32(out, 1),
        Bandwidth::LoRa500KHz => append_dec_u32(out, 2),
        Bandwidth::LoRa7_8MHz => append_dec_u32(out, 3),
        Bandwidth::LoRa10_4MHz => append_dec_u32(out, 4),
        Bandwidth::LoRa15_63MHz => append_dec_u32(out, 5),
        Bandwidth::LoRa20_83MHz => append_dec_u32(out, 6),
        Bandwidth::LoRa31_25MHz => append_dec_u32(out, 7),
        Bandwidth::LoRa41_67MHz => append_dec_u32(out, 8),
        Bandwidth::LoRa62_5MHz => append_dec_u32(out, 9),
        Bandwidth::FSK(r) => append_dec_u32(out, *r),
    }
}

/// Appends the wire text of a receive window.
pub fn append_receive_window_code(out: &mut Vec<u8>, w: &ReceiveWindow)
    ensures
        final(out)@ == old(out)@ + receive_window_code(*w),
{
    match w {
        ReceiveWindow::Milliseconds(ms) => append_dec_u32(out, *ms as u32),
        ReceiveWindow::OnePacket => append_dec_u32(out, 65535),
        ReceiveWindow::Continuous => append_dec_u32(out, 65534),
        ReceiveWindow::StopListening => append_dec_u32(out, 0),
    }
}

/// Set the network working mode.
#[derive(Clone, Copy, Debug, PartialEq, Eq, Structural)]
pub struct SetNetworkWorkingMode {
    pub mode: WorkingMode,
}

impl SetNetworkWorkingMode {
    pub open spec fn wire_spec(self) -> Seq<u8> {
        set_line(Mnemonic::NetworkWorkingMode, dec_rep(working_mode_code(self.mode)))
    }

    pub fn wire(&self) -> (r: Vec<u8>)
        ensures
            r@ == self.wire_spec(),
    {
        let p = dec_of_u32(working_mode_value(&self.mode));
        set_line_bytes(Mnemonic::NetworkWorkingMode, p.as_slice())
    }
}

/// Query the network working mode.
#[derive(Clone, Copy, Debug, PartialEq, Eq, Structural)]
pub struct GetNetworkWorkingMode {}

impl GetNetworkWorkingMode {
    pub open spec fn wire_spec(self) -> Seq<u8> {
        query_line(Mnemonic::NetworkWorkingMode)
    }

    pub fn wire(&self) -> (r: Vec<u8>)
        ensures
            r@ == self.wire_spec(),
    {
        query_line_bytes(Mnemonic::NetworkWorkingMode)
    }
}

/// Set the point-to-point frequency in Hz.
#[derive(Clone, Copy, Debug, PartialEq, Eq, Structural)]
pub struct SetP2PFrequency {
    pub frequency: u32,
}

impl SetP2PFrequency {
    pub open spec fn wire_spec(self) -> Seq<u8> {
        set_line(Mnemonic::Frequency, dec_rep(self.frequency as nat))
    }

    pub fn wire(&self) -> (r: Vec<u8>)
        ensures
            r@ == self.wire_spec(),
    {
        let p = dec_of_u32(self.frequency);
        set_line_bytes(Mnemonic::Frequency, p.as_slice())
    }
}

/// Query the point-to-point frequency.
#[derive(Clone, Copy, Debug, PartialEq, Eq, Structural)]
pub struct GetP2PFrequency {}

impl GetP2PFrequency {
    pub open spec fn wire_spec(self) -> Seq<u8> {
        query_line(Mnemonic::Frequency)
    }

    pub fn wire(&self) -> (r: Vec<u8>)
        ensures
            r@ == self.wire_spec(),
    {
        query_line_bytes(Mnemonic::Frequency)
    }
}

/// Set the spreading factor.
#[derive(Clone, Copy, Debug, PartialEq, Eq, Structural)]
pub struct SetP2PSpreadingFactor {
    pub spreading_factor: u8,
}

impl SetP2PSpreadingFactor {
    pub open spec fn wire_spec(self) -> Seq<u8> {
        set_line(Mnemonic::SpreadingFactor, dec_rep(self.spreading_factor as nat))
    }

    pub fn wire(&self) -> (r: Vec<u8>)
        ensures
            r@ == self.wire_spec(),
    {
        let p = dec_of_u32(self.spreading_factor as u32);
        set_line_bytes(Mnemonic::SpreadingFactor, p.as_slice())
    }
}

/// Query the spreading factor.
#[derive(Clone, Copy, Debug, PartialEq, Eq, Structural)]
pub struct GetP2PSpreadingFactor {}

impl GetP2PSpreadingFactor {
    pub open spec fn wire_spec(self) -> Seq<u8> {
        query_line(Mnemonic::SpreadingFactor)
    }

    pub fn wire(&self) -> (r: Vec<u8>)
        ensures
            r@ == self.wire_spec(),
    {
        query_line_bytes(Mnemonic::SpreadingFactor)
    }
}

/// Set the bandwidth.
#[derive(Clone, Copy, Debug, PartialEq, Eq, Structural)]
pub struct SetP2PBandwidth {
    pub bandwidth: Bandwidth,
}

impl SetP2PBandwidth {
    pub open spec fn wire_spec(self) -> Seq<u8> {
        set_line(Mnemonic::Bandwidth, bandwidth_code(self.bandwidth))
    }

    pub fn wire(&self) -> (r: Vec<u8>)
        ensures
            r@ == self.wire_spec(),
    {
        let mut p: Vec<u8> = Vec::new();
        append_bandwidth_code(&mut p, &self.bandwidth);
        set_line_bytes(Mnemonic::Bandwidth, p.as_slice())
    }
}

/// Query the bandwidth.
#[derive(Clone, Copy, Debug, PartialEq, Eq, Structural)]
pub struct GetP2PBandwidth {}

impl GetP2PBandwidth {
    pub open spec fn wire_spec(self) -> Seq<u8> {
        query_line(Mnemonic::Bandwidth)
    }

    pub fn wire(&self) -> (r: Vec<u8>)
        ensures
            r@ == self.wire_spec(),
    {
        query_line_bytes(Mnemonic::Bandwidth)
    }
}

/// Set the code rate.
#[derive(Clone, Copy, Debug, PartialEq, Eq, Structural)]
pub struct SetCodeRate {
    pub code_rate: CodeRate,
}

impl SetCodeRate {
    pub open spec fn wire_spec(self) -> Seq<u8> {
        set_line(Mnemonic::CodeRate, dec_rep(code_rate_code(self.code_rate)))
    }

    pub fn wire(&self) -> (r: Vec<u8>)
        ensures
            r@ == self.wire_spec(),
    {
        let p = dec_of_u32(code_rate_value(&self.code_rate));
        set_line_bytes(Mnemonic::CodeRate, p.as_slice())
    }
}

/// Query the code rate.
#[derive(Clone, Copy, Debug, PartialEq, Eq, Structural)]
pub struct GetCodeRate {}

impl GetCodeRate {
    pub open spec fn wire_spec(self) -> Seq<u8> {
        query_line(Mnemonic::CodeRate)
    }

    pub fn wire(&self) -> (r: Vec<u8>)
        ensures
            r@ == self.wire_spec(),
    {
        query_line_bytes(Mnemonic::CodeRate)
    }
}

/// Set the preamble length.
#[derive(Clone, Copy, Debug, PartialEq, Eq, Structural)]
pub struct SetPreambleLength {
    pub preamble_length: u16,
}

impl SetPreambleLength {
    pub open spec fn wire_spec(self) -> Seq<u8> {
        set_line(Mnemonic::PreambleLength, dec_rep(self.preamble_length as nat))
    }

    pub fn wire(&self) -> (r: Vec<u8>)
        ensures
            r@ == self.wire_spec(),
    {
        let p = dec_of_u32(self.preamble_length as u32);
        set_line_bytes(Mnemonic::PreambleLength, p.as_slice())
    }
}

/// Query the preamble length.
#[derive(Clone, Copy, Debug, PartialEq, Eq, Structural)]
pub struct GetPreambleLength {}

impl GetPreambleLength {
    pub open spec fn wire_spec(self) -> Seq<u8> {
        query_line(Mnemonic::PreambleLength)
    }

    pub fn wire(&self) -> (r: Vec<u8>)
        ensures
            r@ == self.wire_spec(),
    {
        query_line_bytes(Mnemonic::PreambleLength)
    }
}

/// Set the transmit power.
#[derive(Clone, Copy, Debug, PartialEq, Eq, Structural)]
pub struct SetTxPower {
    pub tx_power: u8,
}

impl SetTxPower {
    pub open spec fn wire_spec(self) -> Seq<u8> {
        set_line(Mnemonic::TxPower, dec_rep(self.tx_power as nat))
    }

    pub fn wire(&self) -> (r: Vec<u8>)
        ensures
            r@ == self.wire_spec(),
    {
        let p = dec_of_u32(self.tx_power as u32);
        set_line_bytes(Mnemonic::TxPower, p.as_slice())
    }
}

/// Query the transmit power.
#[derive(Clone, Copy, Debug, PartialEq, Eq, Structural)]
pub struct GetTxPower {}

impl GetTxPower {
    pub open spec fn wire_spec(self) -> Seq<u8> {
        query_line(Mnemonic::TxPower)
    }

    pub fn wire(&self) -> (r: Vec<u8>)
        ensures
            r@ == self.wire_spec(),
    {
        query_line_bytes(Mnemonic::TxPower)
    }
}

/// Submit an already hex-encoded payload for transmission.
#[derive(Clone, Debug, PartialEq, Eq)]
pub struct SendData {
    pub payload: Vec<u8>,
}

impl SendData {
    pub open spec fn wire_spec(self) -> Seq<u8> {
        set_line(Mnemonic::SendData, self.payload@)
    }

    pub fn wire(&self) -> (r: Vec<u8>)
        ensures
            r@ == self.wire_spec(),
    {
        set_line_bytes(Mnemonic::SendData, self.payload.as_slice())
    }
}

/// Arm or disarm the receive window.
#[derive(Clone, Copy, Debug, PartialEq, Eq, Structural)]
pub struct ReceiveData {
    pub window: ReceiveWindow,
}

impl ReceiveData {
    pub open spec fn wire_spec(self) -> Seq<u8> {
        set_line(Mnemonic::ReceiveData, receive_window_code(self.window))
    }

    pub fn wire(&self) -> (r: Vec<u8>)
        ensures
            r@ == self.wire_spec(),
    {
        let mut p: Vec<u8> = Vec::new();
        append_receive_window_code(&mut p, &self.window);
        set_line_bytes(Mnemonic::ReceiveData, p.as_slice())
    }
}

/// Enable or disable payload encryption.
#[derive(Clone, Copy, Debug, PartialEq, Eq, Structural)]
pub struct SetEncryptionMode {
    pub encryption: Encrypted,
}

impl SetEncryptionMode {
    pub open spec fn wire_spec(self) -> Seq<u8> {
        set_line(Mnemonic::EncryptionMode, dec_rep(encrypted_code(self.encryption)))
    }

    pub fn wire(&self) -> (r: Vec<u8>)
        ensures
            r@ == self.wire_spec(),
    {
        let p = dec_of_u32(encrypted_value(&self.encryption));
        set_line_bytes(Mnemonic::EncryptionMode, p.as_slice())
    }
}

/// Query the encryption mode.
#[derive(Clone, Copy, Debug, PartialEq, Eq, Structural)]
pub struct GetEncryptionMode {}

impl GetEncryptionMode {
    pub open spec fn wire_spec(self) -> Seq<u8> {
        query_line(Mnemonic::EncryptionMode)
    }

    pub fn wire(&self) -> (r: Vec<u8>)
        ensures
            r@ == self.wire_spec(),
    {
        query_line_bytes(Mnemonic::EncryptionMode)
    }
}

/// Set the encryption key (at most 16 key characters).
#[derive(Clone, Debug, PartialEq, Eq)]
pub struct SetEncryptionKey {
    pub encryption_key: Vec<u8>,
}

impl SetEncryptionKey {
    pub open spec fn wire_spec(self) -> Seq<u8> {
        set_line(Mnemonic::EncryptionKey, self.encryption_key@)
    }

    pub fn wire(&self) -> (r: Vec<u8>)
        ensures
            r@ == self.wire_spec(),
    {
        set_line_bytes(Mnemonic::EncryptionKey, self.encryption_key.as_slice())
    }
}

/// Query the encryption key.
#[derive(Clone, Copy, Debug, PartialEq, Eq, Structural)]
pub struct GetEncryptionKey {}

impl GetEncryptionKey {
    pub open spec fn wire_spec(self) -> Seq<u8> {
        query_line(Mnemonic::EncryptionKey)
    }

    pub fn wire(&self) -> (r: Vec<u8>)
        ensures
            r@ == self.wire_spec(),
    {
        query_line_bytes(Mnemonic::EncryptionKey)
    }
}

/// Set all point-to-point parameters with one command.
#[derive(Clone, Copy, Debug, PartialEq, Eq, Structural)]
pub struct SetP2P {
    pub frequency: u32,
    pub spreading_factor: u8,
    pub bandwidth: Bandwidth,
    pub code_rate: CodeRate,
    pub preamble_length: u16,
    pub tx_power: u8,
}

impl SetP2P {
    pub open spec fn wire_spec(self) -> Seq<u8> {
        set_line(
            Mnemonic::P2P,
            dec_rep(self.frequency as nat) + seq![COMMA] + dec_rep(self.spreading_factor as nat)
                + seq![COMMA] + bandwidth_code(self.bandwidth) + seq![COMMA] + dec_rep(
                code_rate_code(self.code_rate),
            ) + seq![COMMA] + dec_rep(self.preamble_length as nat) + seq![COMMA] + dec_rep(
                self.tx_power as nat,
            ),
        )
    }

    pub fn wire(&self) -> (r: Vec<u8>)
        ensures
            r@ == self.wire_spec(),
    {
        let mut p: Vec<u8> = Vec::new();
        append_dec_u32(&mut p, self.frequency);
        append_separator(&mut p);
        append_dec_u32(&mut p, self.spreading_factor as u32);
        append_separator(&mut p);
        append_bandwidth_code(&mut p, &self.bandwidth);
        append_separator(&mut p);
        append_dec_u32(&mut p, code_rate_value(&self.code_rate));
        append_separator(&mut p);
        append_dec_u32(&mut p, self.preamble_length as u32);
        append_separator(&mut p);
        append_dec_u32(&mut p, self.tx_power as u32);
        set_line_bytes(Mnemonic::P2P, p.as_slice())
    }
}

/// Query all point-to-point parameters.
#[derive(Clone, Copy, Debug, PartialEq, Eq, Structural)]
pub struct GetP2P {}

impl GetP2P {
    pub open spec fn wire_spec(self) -> Seq<u8> {
        query_line(Mnemonic::P2P)
    }

    pub fn wire(&self) -> (r: Vec<u8>)
        ensures
            r@ == self.wire_spec(),
    {
        query_line_bytes(Mnemonic::P2P)
    }
}

/// Set IQ inversion (wire code 0 or 1).
#[derive(Clone, Copy, Debug, PartialEq, Eq, Structural)]
pub struct SetIqInversion {
    pub iq_inversion: bool,
}

impl SetIqInversion {
    pub open spec fn wire_spec(self) -> Seq<u8> {
        set_line(
            Mnemonic::IqInversion,
            dec_rep(
                if self.iq_inversion {
                    1
                } else {
                    0
                },
            ),
        )
    }

    pub fn wire(&self) -> (r: Vec<u8>)
        ensures
            r@ == self.wire_spec(),
    {
        let p = dec_of_u32(
            if self.iq_inversion {
                1
            } else {
                0
            },
        );
        set_line_bytes(Mnemonic::IqInversion, p.as_slice())
    }
}

/// Query IQ inversion.
#[derive(Clone, Copy, Debug, PartialEq, Eq, Structural)]
pub struct GetIqInversion {}

impl GetIqInversion {
    pub open spec fn wire_spec(self) -> Seq<u8> {
        query_line(Mnemonic::IqInversion)
    }

    pub fn wire(&self) -> (r: Vec<u8>)
        ensures
            r@ == self.wire_spec(),
    {
        query_line_bytes(Mnemonic::IqInversion)
    }
}

/// Set the sync word (hex text, at most four characters).
#[derive(Clone, Debug, PartialEq, Eq)]
pub struct SetSyncWord {
    pub sync_word: Vec<u8>,
}

impl SetSyncWord {
    pub open spec fn wire_spec(self) -> Seq<u8> {
        set_line(Mnemonic::SyncWord, self.sync_word@)
    }

    pub fn wire(&self) -> (r: Vec<u8>)
        ensures
            r@ == self.wire_spec(),
    {
        set_line_bytes(Mnemonic::SyncWord, self.sync_word.as_slice())
    }
}

/// Query the sync word.
#[derive(Clone, Copy, Debug, PartialEq, Eq, Structural)]
pub struct GetSyncWord {}

impl GetSyncWord {
    pub open spec fn wire_spec(self) -> Seq<u8> {
        query_line(Mnemonic::SyncWord)
    }

    pub fn wire(&self) -> (r: Vec<u8>)
        ensures
            r@ == self.wire_spec(),
    {
        query_line_bytes(Mnemonic::SyncWord)
    }
}

/// Set the symbol timeout.
#[derive(Clone, Copy, Debug, PartialEq, Eq, Structural)]
pub struct SetSymbolTimeout {
    pub symbol_timeout: u8,
}

impl SetSymbolTimeout {
    pub open spec fn wire_spec(self) -> Seq<u8> {
        set_line(Mnemonic::SymbolTimeout, dec_rep(self.symbol_timeout as nat))
    }

    pub fn wire(&self) -> (r: Vec<u8>)
        ensures
            r@ == self.wire_spec(),
    {
        let p = dec_of_u32(self.symbol_timeout as u32);
        set_line_bytes(Mnemonic::SymbolTimeout, p.as_slice())
    }
}

/// Query the symbol timeout.
#[derive(Clone, Copy, Debug, PartialEq, Eq, Structural)]
pub struct GetSymbolTimeout {}

impl GetSymbolTimeout {
    pub open spec fn wire_spec(self) -> Seq<u8> {
        query_line(Mnemonic::SymbolTimeout)
    }

    pub fn wire(&self) -> (r: Vec<u8>)
        ensures
            r@ == self.wire_spec(),
    {
        query_line_bytes(Mnemonic::SymbolTimeout)
    }
}

} // verus!
