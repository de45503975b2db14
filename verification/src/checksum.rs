//! The checksum protecting a selector entry: the CRC-32 variant the external
//! bootloader uses (polynomial 0x04C11DB7, reflected input and output, zero
//! initial value, final xor 0xFFFFFFFF), computed over the four little-endian
//! bytes of the sequence number alone. The narrow scope is dictated by the
//! bootloader's on-flash format and must not be widened.

use vstd::prelude::*;
use vstd::bytes::spec_u32_to_le_bytes;

verus! {

/// The CRC-32 variant described above, of an arbitrary byte string. Its
/// bit-level definition lives in the `crc` crate; this crate relies only on
/// the value being determined by the input bytes.
pub uninterp spec fn crc32_of(data: Seq<u8>) -> u32;

/// Relies on `crc::Crc::<u32>::checksum` with the algorithm above: a pure
/// table-driven computation, a function of the input bytes alone.
#[verifier::external_body]
pub(crate) fn crc32(data: &[u8]) -> (r: u32)
    ensures
        r == crc32_of(data@),
{
    // `Crc::new` demands a `&'static Algorithm` and this crate declares no
    // statics, so the algorithm is built (and leaked, ~40 bytes) per call.
    let algorithm = Box::leak(Box::new(crc::Algorithm {
        width: 32,
        poly: 0x04c11db7,
        init: 0,
        refin: true,
        refout: true,
        xorout: 0xffffffff,
        check: 0,
        residue: 0,
    }));
    crc::Crc::<u32>::new(algorithm).checksum(data)
}

/// The checksum a selector entry with sequence number `sequence` must carry.
pub open spec fn sequence_checksum(sequence: u32) -> u32 {
    crc32_of(spec_u32_to_le_bytes(sequence))
}

} // verus!
