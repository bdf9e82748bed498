//! General device commands: attention, reset, restore, and identity queries.

use vstd::prelude::*;

use crate::wire::{Mnemonic, command_line, query_line, bare_line, query_line_bytes};

verus! {

/// The bare attention command.
#[derive(Clone, Copy, Debug, PartialEq, Eq, Structural)]
pub struct Attention {}

impl Attention {
    pub open spec fn wire_spec(self) -> Seq<u8> {
        command_line(Mnemonic::Empty)
    }

    pub fn wire(&self) -> (r: Vec<u8>)
        ensures
            r@ == self.wire_spec(),
    {
        bare_line(Mnemonic::Empty)
    }
}

/// Reset the device's microcontroller.
#[derive(Clone, Copy, Debug, PartialEq, Eq, Structural)]
pub struct McuReset {}

impl McuReset {
    pub open spec fn wire_spec(self) -> Seq<u8> {
        command_line(Mnemonic::Reset)
    }

    pub fn wire(&self) -> (r: Vec<u8>)
        ensures
            r@ == self.wire_spec(),
    {
        bare_line(Mnemonic::Reset)
    }
}

/// Restore the device's default parameters.
#[derive(Clone, Copy, Debug, PartialEq, Eq, Structural)]
pub struct RestoreDefaultParameters {}

impl RestoreDefaultParameters {
    pub open spec fn wire_spec(self) -> Seq<u8> {
        command_line(Mnemonic::Restore)
    }

    pub fn wire(&self) -> (r: Vec<u8>)
        ensures
            r@ == self.wire_spec(),
    {
        bare_line(Mnemonic::Restore)
    }
}

/// Query the serial number.
#[derive(Clone, Copy, Debug, PartialEq, Eq, Structural)]
pub struct SerialNumber {}

impl SerialNumber {
    pub open spec fn wire_spec(self) -> Seq<u8> {
        query_line(Mnemonic::SerialNumber)
    }

    pub fn wire(&self) -> (r: Vec<u8>)
        ensures
            r@ == self.wire_spec(),
    {
        query_line_bytes(Mnemonic::SerialNumber)
    }
}

/// Query the firmware version.
#[derive(Clone, Copy, Debug, PartialEq, Eq, Structural)]
pub struct FirmwareVersion {}

impl FirmwareVersion {
    pub open spec fn wire_spec(self) -> Seq<u8> {
        query_line(Mnemonic::FirmwareVersion)
    }

    pub fn wire(&self) -> (r: Vec<u8>)
        ensures
            r@ == self.wire_spec(),
    {
        query_line_bytes(Mnemonic::FirmwareVersion)
    }
}

/// Query the hardware model.
#[derive(Clone, Copy, Debug, PartialEq, Eq, Structural)]
pub struct HardwareModel {}

impl HardwareModel {
    pub open spec fn wire_spec(self) -> Seq<u8> {
        query_line(Mnemonic::HardwareModel)
    }

    pub fn wire(&self) -> (r: Vec<u8>)
        ensures
            r@ == self.wire_spec(),
    {
        query_line_bytes(Mnemonic::HardwareModel)
    }
}

/// Announce an alias update.
#[derive(Clone, Copy, Debug, PartialEq, Eq, Structural)]
pub struct SetAlias {}

impl SetAlias {
    pub open spec fn wire_spec(self) -> Seq<u8> {
        command_line(Mnemonic::Alias)
    }

    pub fn wire(&self) -> (r: Vec<u8>)
        ensures
            r@ == self.wire_spec(),
    {
        bare_line(Mnemonic::Alias)
    }
}

/// Query the alias.
#[derive(Clone, Copy, Debug, PartialEq, Eq, Structural)]
pub struct GetAlias {}

impl GetAlias {
    pub open spec fn wire_spec(self) -> Seq<u8> {
        query_line(Mnemonic::Alias)
    }

    pub fn wire(&self) -> (r: Vec<u8>)
        ensures
            r@ == self.wire_spec(),
    {
        query_line_bytes(Mnemonic::Alias)
    }
}

} // verus!
