//! The primary telegram wire format: a big-endian header, a single-byte frame
//! length, command, subcommand and data, closed by a little-endian CRC-16
//! trailer. Encoding and decoding are total on their stated domains and
//! round-trip.

use vstd::prelude::*;

use crate::bytes::{
    spec_u16_be, spec_u16_from_be, spec_u16_from_le, spec_u16_le, spec_u32_be, spec_u32_from_be,
    u16_from_be, u16_from_le, u16_to_be, u16_to_le, u32_from_be, u32_to_be,
};
use crate::checksum::{crc16, crc16_modbus};

verus! {

/// The most data bytes a telegram may carry: the frame-length byte stores
/// `4 + data.len()`, and the protocol caps it so a frame always fits its
/// single-byte length field.
pub const MAX_DATA_LEN: usize = 246;

/// Protocol command of a telegram, wire-encoded as 1, 2 or 3.
#[derive(Clone, Copy, Debug, PartialEq, Eq, Structural)]
pub enum Command {
    Read,
    Write,
    Execute,
}

/// Why a frame could not be encoded or decoded.
#[derive(Clone, Copy, Debug, PartialEq, Eq, Structural)]
pub enum TelegramError {
    /// Fewer than 9 bytes: no room for header, command byte and checksum.
    FrameTooShort,
    /// More than 255 bytes: beyond what the frame-length byte can describe.
    FrameTooLong,
    /// More than `MAX_DATA_LEN` data bytes on the telegram to encode.
    DataTooLong,
    /// The stored checksum differs from the one recomputed over the frame.
    ChecksumMismatch,
    /// The command byte maps to no known command.
    InvalidCommandByte,
}

/// The wire value of a command.
pub open spec fn spec_command_byte(c: Command) -> u8 {
    match c {
        Command::Read => 1,
        Command::Write => 2,
        Command::Execute => 3,
    }
}

/// The command a wire byte stands for, if any.
pub open spec fn spec_command_from_byte(b: u8) -> Option<Command> {
    if b == 1 {
        Some(Command::Read)
    } else if b == 2 {
        Some(Command::Write)
    } else if b == 3 {
        Some(Command::Execute)
    } else {
        None
    }
}

impl Command {
    /// The wire value of this command.
    pub fn to_byte(&self) -> (r: u8)
        ensures
            r == spec_command_byte(*self),
    {
        match self {
            Command::Read => 1,
            Command::Write => 2,
            Command::Execute => 3,
        }
    }

    /// The command a wire byte stands for; `InvalidCommandByte` exactly when
    /// the byte maps to none.
    pub fn from_byte(byte: u8) -> (r: Result<Self, TelegramError>)
        ensures
            match r {
                Ok(c) => spec_command_from_byte(byte) == Some(c),
                Err(e) => spec_command_from_byte(byte) is None && e
                    == TelegramError::InvalidCommandByte,
            },
    {
        match byte {
            1 => Ok(Self::Read),
            2 => Ok(Self::Write),
            3 => Ok(Self::Execute),
            _ => Err(TelegramError::InvalidCommandByte),
        }
    }
}

/// One protocol message.
#[derive(Debug, Clone)]
pub struct Telegram {
    pub device_type: u16,
    pub serial_number: u32,
    pub command: Command,
    pub subcommand: u8,
    pub data: Vec<u8>,
}

/// The mathematical value of a telegram.
#[verifier::ext_equal]
pub struct TelegramView {
    pub device_type: u16,
    pub serial_number: u32,
    pub command: Command,
    pub subcommand: u8,
    pub data: Seq<u8>,
}

impl View for Telegram {
    type V = TelegramView;

    open spec fn view(&self) -> TelegramView {
        TelegramView {
            device_type: self.device_type,
            serial_number: self.serial_number,
            command: self.command,
            subcommand: self.subcommand,
            data: self.data@,
        }
    }
}

impl TelegramView {
    /// A telegram the codec can frame: the data fits the length field's cap.
    pub open spec fn wf(self) -> bool {
        self.data.len() <= MAX_DATA_LEN
    }
}

impl PartialEq for Telegram {
    fn eq(&self, other: &Telegram) -> (r: bool) {
        let fields_eq = self.device_type == other.device_type && self.serial_number
            == other.serial_number && self.command == other.command && self.subcommand
            == other.subcommand;
        let data_eq = self.data == other.data;
        proof {
            if data_eq {
                assert(self.data@ =~= other.data@);
            } else {
                assert(self.data@ != other.data@);
            }
        }
        fields_eq && data_eq
    }
}

impl vstd::std_specs::cmp::PartialEqSpecImpl for Telegram {
    open spec fn obeys_eq_spec() -> bool {
        true
    }

    open spec fn eq_spec(&self, other: &Telegram) -> bool {
        self@ == other@
    }
}

/// The checksummed part of a frame: header fields, length byte, command,
/// subcommand and data, without the two checksum bytes.
pub open spec fn spec_frame_body(t: TelegramView) -> Seq<u8> {
    spec_u16_be(t.device_type) + spec_u32_be(t.serial_number) + seq![
        (4 + t.data.len()) as u8,
        spec_command_byte(t.command),
        t.subcommand,
    ] + t.data
}

/// The full encoded frame: the body followed by its CRC-16/MODBUS checksum in
/// little-endian order.
pub open spec fn spec_encode(t: TelegramView) -> Seq<u8> {
    spec_frame_body(t) + spec_u16_le(crc16_modbus(spec_frame_body(t)))
}

/// What decoding a byte buffer yields: the telegram it carries, or the first
/// failing check in the order short, long, checksum, command byte.
pub open spec fn spec_decode(bytes: Seq<u8>) -> Result<TelegramView, TelegramError> {
    let len = bytes.len() as int;
    if len < 9 {
        Err(TelegramError::FrameTooShort)
    } else if len > 255 {
        Err(TelegramError::FrameTooLong)
    } else if crc16_modbus(bytes.subrange(0, len - 2)) != spec_u16_from_le(
        bytes[len - 2],
        bytes[len - 1],
    ) {
        Err(TelegramError::ChecksumMismatch)
    } else {
        match spec_command_from_byte(bytes[7]) {
            None => Err(TelegramError::InvalidCommandByte),
            Some(command) => Ok(
                TelegramView {
                    device_type: spec_u16_from_be(bytes[0], bytes[1]),
                    serial_number: spec_u32_from_be(bytes[2], bytes[3], bytes[4], bytes[5]),
                    command,
                    subcommand: bytes[8],
                    data: if len >= 11 {
                        bytes.subrange(9, len - 2)
                    } else {
                        Seq::empty()
                    },
                },
            ),
        }
    }
}

/// Round-trip law: decoding an encoded frame yields the telegram it was made
/// from. An encoded frame is `11 + data.len()` bytes, so this holds for every
/// telegram whose data has at most 244 bytes; beyond that the frame itself
/// exceeds the decoder's 255-byte cap.
pub proof fn lemma_encode_decode_round_trip(t: TelegramView)
    requires
        t.data.len() <= 244,
    ensures
        spec_decode(spec_encode(t)) == Ok::<TelegramView, TelegramError>(t),
{
    let body = spec_frame_body(t);
    let enc = spec_encode(t);
    let len = enc.len() as int;
    assert(body.len() == 9 + t.data.len());
    assert(len == 11 + t.data.len());
    assert(enc.subrange(0, len - 2) =~= body);
    assert(enc[len - 2] == spec_u16_le(crc16_modbus(body))[0]);
    assert(enc[len - 1] == spec_u16_le(crc16_modbus(body))[1]);
    crate::bytes::lemma_u16_le_round_trip(crc16_modbus(body));
    assert(enc[0] == spec_u16_be(t.device_type)[0]);
    assert(enc[1] == spec_u16_be(t.device_type)[1]);
    crate::bytes::lemma_u16_be_round_trip(t.device_type);
    assert(enc[2] == spec_u32_be(t.serial_number)[0]);
    assert(enc[3] == spec_u32_be(t.serial_number)[1]);
    assert(enc[4] == spec_u32_be(t.serial_number)[2]);
    assert(enc[5] == spec_u32_be(t.serial_number)[3]);
    crate::bytes::lemma_u32_be_round_trip(t.serial_number);
    assert(enc[7] == spec_command_byte(t.command));
    assert(spec_command_from_byte(spec_command_byte(t.command)) == Some(t.command));
    assert(enc[8] == t.subcommand);
    assert(enc.subrange(9, len - 2) =~= t.data);
    assert(spec_decode(enc)->Ok_0 =~= t);
}

impl Telegram {
    /// Encodes the telegram as a wire frame. Succeeds exactly when the data
    /// fits the cap, and then returns precisely the specified frame layout.
    pub fn to_bytes(&self) -> (r: Result<Vec<u8>, TelegramError>)
        ensures
            self@.wf() ==> (r matches Ok(v) && v@ == spec_encode(self@)),
            !self@.wf() ==> (r matches Err(e) && e == TelegramError::DataTooLong),
    {
        if self.data.len() > MAX_DATA_LEN {
            return Err(TelegramError::DataTooLong);
        }
        let mut buffer: Vec<u8> = Vec::new();
        let (d0, d1) = u16_to_be(self.device_type);
        buffer.push(d0);
        buffer.push(d1);
        let (s0, s1, s2, s3) = u32_to_be(self.serial_number);
        buffer.push(s0);
        buffer.push(s1);
        buffer.push(s2);
        buffer.push(s3);
        buffer.push(4 + self.data.len() as u8);
        buffer.push(self.command.to_byte());
        buffer.push(self.subcommand);
        let mut i: usize = 0;
        while i < self.data.len()
            invariant
                i <= self.data.len(),
                buffer@ =~= spec_frame_body(self@).subrange(0, 9 + i as int),
                self@.wf(),
            decreases self.data.len() - i,
        {
            buffer.push(self.data[i]);
            i += 1;
        }
        assert(buffer@ =~= spec_frame_body(self@));
        let checksum = crc16(buffer.as_slice());
        let (c0, c1) = u16_to_le(checksum);
        buffer.push(c0);
        buffer.push(c1);
        assert(buffer@ =~= spec_encode(self@));
        Ok(buffer)
    }

    /// Decodes a wire frame. The result is exactly `spec_decode` of the input:
    /// each error names the first failing check, and on success the telegram's
    /// fields are read from their specified offsets.
    pub fn from_bytes(bytes: &[u8]) -> (r: Result<Self, TelegramError>)
        ensures
            match r {
                Ok(t) => spec_decode(bytes@) == Ok::<TelegramView, TelegramError>(t@),
                Err(e) => spec_decode(bytes@) == Err::<TelegramView, TelegramError>(e),
            },
    {
        let len = bytes.len();
        if len < 9 {
            return Err(TelegramError::FrameTooShort);
        }
        if len > 255 {
            return Err(TelegramError::FrameTooLong);
        }
        let expected_checksum = crc16(&bytes[0..len - 2]);
        let checksum = u16_from_le(bytes[len - 2], bytes[len - 1]);
        if checksum != expected_checksum {
            return Err(TelegramError::ChecksumMismatch);
        }
        let command = match Command::from_byte(bytes[7]) {
            Ok(c) => c,
            Err(e) => {
                return Err(e);
            },
        };
        let mut data: Vec<u8> = Vec::new();
        let mut i: usize = 9;
        while i < len - 2
            invariant
                len == bytes@.len(),
                9 <= len <= 255,
                9 <= i <= len,
                i == 9 || i <= len - 2,
                data@ =~= bytes@.subrange(9, i as int),
            decreases len - 2 - i,
        {
            data.push(bytes[i]);
            i += 1;
        }
        let telegram = Telegram {
            device_type: u16_from_be(bytes[0], bytes[1]),
            serial_number: u32_from_be(bytes[2], bytes[3], bytes[4], bytes[5]),
            command,
            subcommand: bytes[8],
            data,
        };
        proof {
            let s = bytes@;
            assert(crc16_modbus(s.subrange(0, len - 2)) == spec_u16_from_le(
                s[len - 2],
                s[len - 1],
            ));
            assert(spec_command_from_byte(s[7]) == Some(command));
            if len < 11 {
                assert(s.subrange(9, 9) =~= Seq::<u8>::empty());
            }
            let decoded = spec_decode(s)->Ok_0;
            assert(decoded =~= telegram@);
        }
        Ok(telegram)
    }
}

} // verus!
