//! Frame checksum: CRC-16/MODBUS, computed by the `crc` crate.

use vstd::prelude::*;

verus! {

/// The CRC-16/MODBUS checksum of a byte sequence (poly 0x8005 reflected,
/// init 0xFFFF, no final XOR), as the `crc` crate computes it. The result is
/// a function of the bytes alone.
pub uninterp spec fn crc16_modbus(bytes: Seq<u8>) -> u16;

/// Relies on `crc::Crc::<u16>::checksum` with the catalog's `CRC_16_MODBUS`
/// algorithm: a pure, stateless function of the input bytes.
#[verifier::external_body]
pub(crate) fn crc16(bytes: &[u8]) -> (r: u16)
    ensures
        r == crc16_modbus(bytes@),
{
    crc::Crc::<u16>::new(&crc::CRC_16_MODBUS).checksum(bytes)
}

} // verus!
