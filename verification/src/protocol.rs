//! The secondary-channel control-command format used for device
//! configuration, and the baud-rate validation table.

use vstd::prelude::*;

use crate::bytes::{spec_u16_le, spec_u32_from_le, u16_to_le, u32_from_le};
use crate::checksum::{crc16, crc16_modbus};

verus! {

/// Kind of a control command, wire-encoded as 1 (passkey) or 2 (baud rate).
#[derive(Clone, Copy, Debug, PartialEq, Eq, Structural)]
pub enum CommandType {
    PASSKEY,
    BAUDRATE,
}

/// The wire value of a command type.
pub open spec fn spec_command_type_byte(t: CommandType) -> u8 {
    match t {
        CommandType::PASSKEY => 1,
        CommandType::BAUDRATE => 2,
    }
}

impl CommandType {
    /// The wire value of this command type.
    pub fn serialize(&self) -> (r: u8)
        ensures
            r == spec_command_type_byte(*self),
    {
        match self {
            CommandType::PASSKEY => 1,
            CommandType::BAUDRATE => 2,
        }
    }
}

/// A device-configuration message: a command type and exactly four data
/// bytes, typically a little-endian numeric value.
pub struct ControlCommand {
    command_type: CommandType,
    data: [u8; 4],
}

/// The mathematical value of a control command.
#[verifier::ext_equal]
pub struct ControlCommandView {
    pub command_type: CommandType,
    pub data: Seq<u8>,
}

impl View for ControlCommand {
    type V = ControlCommandView;

    closed spec fn view(&self) -> ControlCommandView {
        ControlCommandView { command_type: self.command_type, data: self.data@ }
    }
}

/// The encoded control command: type byte, the four data bytes, then the
/// CRC-16/MODBUS of those five bytes in little-endian order — 7 bytes in all.
pub open spec fn spec_control_encode(v: ControlCommandView) -> Seq<u8> {
    let body = seq![spec_command_type_byte(v.command_type)] + v.data;
    body + spec_u16_le(crc16_modbus(body))
}

impl ControlCommand {
    /// Encodes the command in its 7-byte wire form.
    pub fn serialize(&self) -> (r: Vec<u8>)
        ensures
            r@ == spec_control_encode(self@),
            r@.len() == 7,
    {
        let mut data: Vec<u8> = Vec::new();
        data.push(self.command_type.serialize());
        data.push(self.data[0]);
        data.push(self.data[1]);
        data.push(self.data[2]);
        data.push(self.data[3]);
        assert(data@ =~= seq![spec_command_type_byte(self@.command_type)] + self@.data);
        let crc = crc16(data.as_slice());
        let (c0, c1) = u16_to_le(crc);
        data.push(c0);
        data.push(c1);
        assert(data@ =~= spec_control_encode(self@));
        data
    }

    pub fn new(command_type: CommandType, data: [u8; 4]) -> (r: Self)
        ensures
            r@.command_type == command_type,
            r@.data == data@,
    {
        ControlCommand { command_type, data }
    }
}

/// The 4-byte value the device reports back for a requested baud rate, per
/// the validation table; `None` for a rate outside the table.
pub open spec fn spec_baud_code(rate: u32) -> Option<u32> {
    if rate == 2400 {
        Some(0x01a00b)
    } else if rate == 4800 {
        Some(0x00d005)
    } else if rate == 9600 {
        Some(0x006803)
    } else if rate == 14400 {
        Some(0x004507)
    } else if rate == 19200 {
        Some(0x003401)
    } else if rate == 28800 {
        Some(0x00220c)
    } else if rate == 38400 {
        Some(0x001a01)
    } else if rate == 57600 {
        Some(0x001106)
    } else if rate == 115200 {
        Some(0x00080b)
    } else {
        None
    }
}

/// The expected response value for a requested baud rate, if the rate is in
/// the validation table.
pub fn baud_code(rate: u32) -> (r: Option<u32>)
    ensures
        r == spec_baud_code(rate),
{
    match rate {
        2400 => Some(0x01a00b),
        4800 => Some(0x00d005),
        9600 => Some(0x006803),
        14400 => Some(0x004507),
        19200 => Some(0x003401),
        28800 => Some(0x00220c),
        38400 => Some(0x001a01),
        57600 => Some(0x001106),
        115200 => Some(0x00080b),
        _ => None,
    }
}

/// Whether a control-channel response confirms the requested baud rate: the
/// rate is in the table, the response has at least four bytes, and its
/// little-endian value equals the table's code.
pub open spec fn spec_control_response_matches(rate: u32, response: Seq<u8>) -> bool {
    &&& response.len() >= 4
    &&& spec_baud_code(rate) == Some(
        spec_u32_from_le(response[0], response[1], response[2], response[3]),
    )
}

/// Validates the raw notification received on the control channel after a
/// baud-rate command against the validation table.
pub fn control_response_matches(rate: u32, response: &Vec<u8>) -> (r: bool)
    ensures
        r == spec_control_response_matches(rate, response@),
{
    if response.len() < 4 {
        return false;
    }
    let value = u32_from_le(response[0], response[1], response[2], response[3]);
    match baud_code(rate) {
        Some(code) => value == code,
        None => false,
    }
}

} // verus!
