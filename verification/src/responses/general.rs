//! Typed replies of the general identity queries.
//!
//! These replies carry free text; the device bounds each field's length, and
//! the parsers hold a reply to that bound.

use vstd::prelude::*;

use crate::RadioError;
use vstd::slice::slice_to_vec;

verus! {

/// Reply to a serial-number query: at most 18 bytes of text.
#[derive(Clone, Debug, PartialEq, Eq)]
pub struct SerialNumberResponse {
    pub serial_number: Vec<u8>,
}

impl SerialNumberResponse {
    /// Parses a serial-number reply.
    pub fn parse(line: &[u8]) -> (r: Result<Self, RadioError>)
        ensures
            r is Ok <==> line@.len() <= 18,
            r matches Ok(resp) ==> resp.serial_number@ == line@,
            r matches Err(e) ==> e == RadioError::ReplyShapeMismatch,
    {
        if line.len() <= 18 {
            Ok(SerialNumberResponse { serial_number: slice_to_vec(line) })
        } else {
            Err(RadioError::ReplyShapeMismatch)
        }
    }
}

/// Reply to a firmware-version query: at most 128 bytes of text.
#[derive(Clone, Debug, PartialEq, Eq)]
pub struct FirmwareVersionResponse {
    pub firmware_version: Vec<u8>,
}

impl FirmwareVersionResponse {
    /// Parses a firmware-version reply.
    pub fn parse(line: &[u8]) -> (r: Result<Self, RadioError>)
        ensures
            r is Ok <==> line@.len() <= 128,
            r matches Ok(resp) ==> resp.firmware_version@ == line@,
            r matches Err(e) ==> e == RadioError::ReplyShapeMismatch,
    {
        if line.len() <= 128 {
            Ok(FirmwareVersionResponse { firmware_version: slice_to_vec(line) })
        } else {
            Err(RadioError::ReplyShapeMismatch)
        }
    }
}

/// Reply to a hardware-model query: at most 32 bytes of text.
#[derive(Clone, Debug, PartialEq, Eq)]
pub struct HardwareVersionResponse {
    pub hardware_version: Vec<u8>,
}

impl HardwareVersionResponse {
    /// Parses a hardware-model reply.
    pub fn parse(line: &[u8]) -> (r: Result<Self, RadioError>)
        ensures
            r is Ok <==> line@.len() <= 32,
            r matches Ok(resp) ==> resp.hardware_version@ == line@,
            r matches Err(e) ==> e == RadioError::ReplyShapeMismatch,
    {
        if line.len() <= 32 {
            Ok(HardwareVersionResponse { hardware_version: slice_to_vec(line) })
        } else {
            Err(RadioError::ReplyShapeMismatch)
        }
    }
}

/// Reply to an alias query: at most 16 bytes of text.
#[derive(Clone, Debug, PartialEq, Eq)]
pub struct AliasResponse {
    pub alias: Vec<u8>,
}

impl AliasResponse {
    /// Parses an alias reply.
    pub fn parse(line: &[u8]) -> (r: Result<Self, RadioError>)
        ensures
            r is Ok <==> line@.len() <= 16,
            r matches Ok(resp) ==> resp.alias@ == line@,
            r matches Err(e) ==> e == RadioError::ReplyShapeMismatch,
    {
        if line.len() <= 16 {
            Ok(AliasResponse { alias: slice_to_vec(line) })
        } else {
            Err(RadioError::ReplyShapeMismatch)
        }
    }
}

} // verus!
