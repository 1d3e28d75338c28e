//! The block checksum of the file-transfer protocol: CRC-16/ARC
//! (poly 0x8005, init 0, reflected, no final xor), not the XMODEM variant.

use vstd::prelude::*;

verus! {

/// CRC-16/ARC of a byte sequence, as the `crc16` crate computes it.
pub uninterp spec fn crc16_arc(data: Seq<u8>) -> u16;

/// Relies on `crc16::State::<crc16::ARC>::calculate`: the CRC-16/ARC of the bytes.
#[verifier::external_body]
fn arc_calculate(data: &[u8]) -> (r: u16)
    ensures
        r == crc16_arc(data@),
{
    crc16::State::<crc16::ARC>::calculate(data)
}

/// CRC-16/ARC of `data`.
pub fn crc16_arc_of(data: &[u8]) -> (r: u16)
    ensures
        r == crc16_arc(data@),
{
    arc_calculate(data)
}

} // verus!
