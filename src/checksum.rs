//! Integrity checksum: a 32-bit CRC of which frames carry the low 16 bits.
use vstd::prelude::*;

verus! {

/// The 32-bit CRC that the checksum engine computes over `bytes`: polynomial
/// 0x04C11DB7, initial value 0xA097, reflected input, unreflected output, no
/// final xor.
pub uninterp spec fn crc32_of(bytes: Seq<u8>) -> u32;

/// Little-endian bytes of a 16-bit value.
pub open spec fn le16(v: u16) -> Seq<u8> {
    seq![v as u8, (v >> 8) as u8]
}

/// The two checksum bytes that a frame carries for `bytes`: the low 16 bits
/// of the CRC, little-endian.
pub open spec fn checksum_le(bytes: Seq<u8>) -> Seq<u8> {
    le16(crc32_of(bytes) as u16)
}

/// Relies on `crc::Crc::<u32>::checksum` of the crc crate, run with the
/// algorithm parameters named on `crc32_of`: the result depends on the bytes
/// alone.
#[verifier::external_body]
pub fn std_crc(bytes: &[u8]) -> (r: u32)
    ensures
        r == crc32_of(bytes@),
{
    crc::Crc::<u32>::new(
        &crc::Algorithm {
            width: 32,
            poly: 0x04C1_1DB7,
            init: 0xA097,
            refin: true,
            refout: false,
            xorout: 0x0000,
            check: 0,
            residue: 0x0000,
        },
    ).checksum(bytes)
}

/// The checksum field for `bytes`.
pub fn checksum_bytes(bytes: &[u8]) -> (r: [u8; 2])
    ensures
        r@ == checksum_le(bytes@),
{
    let low = std_crc(bytes) as u16;
    let r = [low as u8, (low >> 8) as u8];
    assert(r@ =~= checksum_le(bytes@));
    r
}

} // verus!
