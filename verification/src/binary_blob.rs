use vstd::prelude::*;

verus! {

/// Little-endian value of the two bytes at `i`.
pub open spec fn spec_u16_le(data: Seq<u8>, i: int) -> int {
    data[i] + 0x100 * data[i + 1]
}

/// Little-endian value of the four bytes at `i`.
pub open spec fn spec_u32_le(data: Seq<u8>, i: int) -> int {
    data[i] + 0x100 * data[i + 1] + 0x10000 * data[i + 2] + 0x1000000 * data[i + 3]
}

pub fn get_u8(data: &[u8], offset: usize) -> (r: u8)
    requires
        offset < data@.len(),
    ensures
        r == data@[offset as int],
{
    data[offset]
}

pub fn get_u16(data: &[u8], offset: usize) -> (r: u16)
    requires
        offset + 2 <= data@.len(),
    ensures
        r == spec_u16_le(data@, offset as int),
{
    let lo = data[offset] as u16;
    let hi = data[offset + 1] as u16;
    lo + hi * 0x100
}

pub fn get_u32(data: &[u8], offset: usize) -> (r: u32)
    requires
        offset + 4 <= data@.len(),
    ensures
        r == spec_u32_le(data@, offset as int),
{
    let b0 = data[offset] as u32;
    let b1 = data[offset + 1] as u32;
    let b2 = data[offset + 2] as u32;
    let b3 = data[offset + 3] as u32;
    b0 + b1 * 0x100 + b2 * 0x10000 + b3 * 0x1000000
}

} // verus!
