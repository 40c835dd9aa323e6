use vstd::prelude::*;

verus! {

/// The unsigned 16-bit little-endian value stored at `off`.
pub open spec fn le_u16(b: Seq<u8>, off: int) -> int {
    b[off] as int + 256 * (b[off + 1] as int)
}

/// The unsigned 32-bit little-endian value stored at `off`.
pub open spec fn le_u32(b: Seq<u8>, off: int) -> int {
    le_u16(b, off) + 65536 * le_u16(b, off + 2)
}

/// The unsigned 64-bit little-endian value stored at `off`.
pub open spec fn le_u64(b: Seq<u8>, off: int) -> int {
    le_u32(b, off) + 0x1_0000_0000 * le_u32(b, off + 4)
}

/// The two's-complement 16-bit little-endian value stored at `off`.
pub open spec fn le_i16(b: Seq<u8>, off: int) -> int {
    if le_u16(b, off) >= 0x8000 {
        le_u16(b, off) - 0x1_0000
    } else {
        le_u16(b, off)
    }
}

/// The two's-complement 32-bit little-endian value stored at `off`.
pub open spec fn le_i32(b: Seq<u8>, off: int) -> int {
    if le_u32(b, off) >= 0x8000_0000 {
        le_u32(b, off) - 0x1_0000_0000
    } else {
        le_u32(b, off)
    }
}

pub fn read_u16_le(b: &[u8], off: usize) -> (r: u16)
    requires
        off + 2 <= b@.len(),
    ensures
        r == le_u16(b@, off as int),
{
    b[off] as u16 + (b[off + 1] as u16) * 256
}

pub fn read_u32_le(b: &[u8], off: usize) -> (r: u32)
    requires
        off + 4 <= b@.len(),
    ensures
        r == le_u32(b@, off as int),
{
    let n = b.len();
    assert(off + 2 <= n);
    let lo = read_u16_le(b, off);
    let hi = read_u16_le(b, off + 2);
    lo as u32 + (hi as u32) * 65536
}

pub fn read_u64_le(b: &[u8], off: usize) -> (r: u64)
    requires
        off + 8 <= b@.len(),
    ensures
        r == le_u64(b@, off as int),
{
    let n = b.len();
    assert(off + 4 <= n);
    let lo = read_u32_le(b, off);
    let hi = read_u32_le(b, off + 4);
    lo as u64 + (hi as u64) * 0x1_0000_0000
}

pub fn read_i16_le(b: &[u8], off: usize) -> (r: i16)
    requires
        off + 2 <= b@.len(),
    ensures
        r == le_i16(b@, off as int),
{
    let u = read_u16_le(b, off);
    if u >= 0x8000 {
        (u as i32 - 0x1_0000) as i16
    } else {
        u as i16
    }
}

pub fn read_i32_le(b: &[u8], off: usize) -> (r: i32)
    requires
        off + 4 <= b@.len(),
    ensures
        r == le_i32(b@, off as int),
{
    let u = read_u32_le(b, off);
    if u >= 0x8000_0000 {
        (u as i64 - 0x1_0000_0000) as i32
    } else {
        u as i32
    }
}

} // verus!
