//! The command catalog: one descriptor type per request, and the tagged
//! `Command` union the session engine plans with.

use vstd::prelude::*;

pub mod general;
pub mod p2p;

use crate::commands::general::{
    Attention, FirmwareVersion, GetAlias, HardwareModel, McuReset, RestoreDefaultParameters,
    SerialNumber, SetAlias,
};
use crate::commands::p2p::{
    GetCodeRate, GetEncryptionKey, GetEncryptionMode, GetIqInversion, GetNetworkWorkingMode,
    GetP2P, GetP2PBandwidth, GetP2PFrequency, GetP2PSpreadingFactor, GetPreambleLength,
    GetSymbolTimeout, GetSyncWord, GetTxPower, ReceiveData, SendData, SetCodeRate,
    SetEncryptionKey, SetEncryptionMode, SetIqInversion, SetNetworkWorkingMode, SetP2P,
    SetP2PBandwidth, SetP2PFrequency, SetP2PSpreadingFactor, SetPreambleLength, SetSymbolTimeout,
    SetSyncWord, SetTxPower,
};

verus! {

/// A command of the catalog, tagged by kind.
///
/// The session engine plans and reports ordered sequences of these; `wire`
/// renders the line that goes to the device.
#[derive(Clone, Debug, PartialEq, Eq)]
pub enum Command {
    Attention(Attention),
    McuReset(McuReset),
    RestoreDefaultParameters(RestoreDefaultParameters),
    SerialNumber(SerialNumber),
    FirmwareVersion(FirmwareVersion),
    HardwareModel(HardwareModel),
    SetAlias(SetAlias),
    GetAlias(GetAlias),
    SetNetworkWorkingMode(SetNetworkWorkingMode),
    GetNetworkWorkingMode(GetNetworkWorkingMode),
    SetP2PFrequency(SetP2PFrequency),
    GetP2PFrequency(GetP2PFrequency),
    SetP2PSpreadingFactor(SetP2PSpreadingFactor),
    GetP2PSpreadingFactor(GetP2PSpreadingFactor),
    SetP2PBandwidth(SetP2PBandwidth),
    GetP2PBandwidth(GetP2PBandwidth),
    SetCodeRate(SetCodeRate),
    GetCodeRate(GetCodeRate),
    SetPreambleLength(SetPreambleLength),
    GetPreambleLength(GetPreambleLength),
    SetTxPower(SetTxPower),
    GetTxPower(GetTxPower),
    SendData(SendData),
    ReceiveData(ReceiveData),
    SetEncryptionMode(SetEncryptionMode),
    GetEncryptionMode(GetEncryptionMode),
    SetEncryptionKey(SetEncryptionKey),
    GetEncryptionKey(GetEncryptionKey),
    SetP2P(SetP2P),
    GetP2P(GetP2P),
    SetIqInversion(SetIqInversion),
    GetIqInversion(GetIqInversion),
    SetSyncWord(SetSyncWord),
    GetSyncWord(GetSyncWord),
    SetSymbolTimeout(SetSymbolTimeout),
    GetSymbolTimeout(GetSymbolTimeout),
}

impl Command {
    /// The wire line of the command, keyed by its kind.
    pub open spec fn wire_spec(self) -> Seq<u8> {
        match self {
            Command::Attention(c) => c.wire_spec(),
            Command::McuReset(c) => c.wire_spec(),
            Command::RestoreDefaultParameters(c) => c.wire_spec(),
            Command::SerialNumber(c) => c.wire_spec(),
            Command::FirmwareVersion(c) => c.wire_spec(),
            Command::HardwareModel(c) => c.wire_spec(),
            Command::SetAlias(c) => c.wire_spec(),
            Command::GetAlias(c) => c.wire_spec(),
            Command::SetNetworkWorkingMode(c) => c.wire_spec(),
            Command::GetNetworkWorkingMode(c) => c.wire_spec(),
            Command::SetP2PFrequency(c) => c.wire_spec(),
            Command::GetP2PFrequency(c) => c.wire_spec(),
            Command::SetP2PSpreadingFactor(c) => c.wire_spec(),
            Command::GetP2PSpreadingFactor(c) => c.wire_spec(),
            Command::SetP2PBandwidth(c) => c.wire_spec(),
            Command::GetP2PBandwidth(c) => c.wire_spec(),
            Command::SetCodeRate(c) => c.wire_spec(),
            Command::GetCodeRate(c) => c.wire_spec(),
            Command::SetPreambleLength(c) => c.wire_spec(),
            Command::GetPreambleLength(c) => c.wire_spec(),
            Command::SetTxPower(c) => c.wire_spec(),
            Command::GetTxPower(c) => c.wire_spec(),
            Command::SendData(c) => c.wire_spec(),
            Command::ReceiveData(c) => c.wire_spec(),
            Command::SetEncryptionMode(c) => c.wire_spec(),
            Command::GetEncryptionMode(c) => c.wire_spec(),
            Command::SetEncryptionKey(c) => c.wire_spec(),
            Command::GetEncryptionKey(c) => c.wire_spec(),
            Command::SetP2P(c) => c.wire_spec(),
            Command::GetP2P(c) => c.wire_spec(),
            Command::SetIqInversion(c) => c.wire_spec(),
            Command::GetIqInversion(c) => c.wire_spec(),
            Command::SetSyncWord(c) => c.wire_spec(),
            Command::GetSyncWord(c) => c.wire_spec(),
            Command::SetSymbolTimeout(c) => c.wire_spec(),
            Command::GetSymbolTimeout(c) => c.wire_spec(),
        }
    }

    /// Renders the wire line of the command.
    pub fn wire(&self) -> (r: Vec<u8>)
        ensures
            r@ == self.wire_spec(),
    {
        match self {
            Command::Attention(c) => c.wire(),
            Command::McuReset(c) => c.wire(),
            Command::RestoreDefaultParameters(c) => c.wire(),
            Command::SerialNumber(c) => c.wire(),
            Command::FirmwareVersion(c) => c.wire(),
            Command::HardwareModel(c) => c.wire(),
            Command::SetAlias(c) => c.wire(),
            Command::GetAlias(c) => c.wire(),
            Command::SetNetworkWorkingMode(c) => c.wire(),
            Command::GetNetworkWorkingMode(c) => c.wire(),
            Command::SetP2PFrequency(c) => c.wire(),
            Command::GetP2PFrequency(c) => c.wire(),
            Command::SetP2PSpreadingFactor(c) => c.wire(),
            Command::GetP2PSpreadingFactor(c) => c.wire(),
            Command::SetP2PBandwidth(c) => c.wire(),
            Command::GetP2PBandwidth(c) => c.wire(),
            Command::SetCodeRate(c) => c.wire(),
            Command::GetCodeRate(c) => c.wire(),
            Command::SetPreambleLength(c) => c.wire(),
            Command::GetPreambleLength(c) => c.wire(),
            Command::SetTxPower(c) => c.wire(),
            Command::GetTxPower(c) => c.wire(),
            Command::SendData(c) => c.wire(),
            Command::ReceiveData(c) => c.wire(),
            Command::SetEncryptionMode(c) => c.wire(),
            Command::GetEncryptionMode(c) => c.wire(),
            Command::SetEncryptionKey(c) => c.wire(),
            Command::GetEncryptionKey(c) => c.wire(),
            Command::SetP2P(c) => c.wire(),
            Command::GetP2P(c) => c.wire(),
            Command::SetIqInversion(c) => c.wire(),
            Command::GetIqInversion(c) => c.wire(),
            Command::SetSyncWord(c) => c.wire(),
            Command::GetSyncWord(c) => c.wire(),
            Command::SetSymbolTimeout(c) => c.wire(),
            Command::GetSymbolTimeout(c) => c.wire(),
        }
    }
}

/// A command together with its dispatch policy: whether the transport's
/// bounded automatic resend may be used for it.
#[derive(Clone, Debug, PartialEq, Eq)]
pub struct PlannedCommand {
    pub command: Command,
    pub retry: bool,
}

} // verus!
