//! Relative-displacement decoder: reads a 4-byte little-endian signed
//! displacement out of a code region and turns it into the absolute
//! address it points at, per instruction-pointer-relative addressing.

use vstd::prelude::*;

verus! {

/// The 4-byte little-endian word stored at index `i`, as an unsigned value.
pub open spec fn le32_at(mem: Seq<u8>, i: int) -> int {
    mem[i] + 0x100 * mem[i + 1] + 0x1_0000 * mem[i + 2] + 0x100_0000 * mem[i + 3]
}

/// The 4-byte little-endian word at index `i`, read as a signed 32-bit
/// value (two's complement).
pub open spec fn displacement_at(mem: Seq<u8>, i: int) -> int {
    if le32_at(mem, i) < 0x8000_0000 {
        le32_at(mem, i)
    } else {
        le32_at(mem, i) - 0x1_0000_0000
    }
}

/// The absolute address that a displacement field at `field_offset` in a
/// region based at `base` points at. The encoded displacement is relative
/// to the address of the byte just past the 4-byte field.
pub open spec fn spec_absolute_target(mem: Seq<u8>, base: int, field_offset: int) -> int {
    base + field_offset + 4 + displacement_at(mem, field_offset)
}

/// Reads the 4 bytes at `field_offset` as a little-endian signed 32-bit
/// displacement.
pub fn decode_displacement(mem: &[u8], field_offset: usize) -> (d: i32)
    requires
        field_offset + 4 <= mem@.len(),
    ensures
        d as int == displacement_at(mem@, field_offset as int),
{
    let b0 = mem[field_offset] as u32;
    let b1 = mem[field_offset + 1] as u32;
    let b2 = mem[field_offset + 2] as u32;
    let b3 = mem[field_offset + 3] as u32;
    let u: u32 = b0 + 0x100 * b1 + 0x1_0000 * b2 + 0x100_0000 * b3;
    if u < 0x8000_0000 {
        u as i32
    } else {
        let wide: i64 = (u as i64) - 0x1_0000_0000;
        wide as i32
    }
}

/// Absolute target address for a displacement `d` whose 4-byte field sits
/// at `field_offset` in a region based at `base`: the displacement counts
/// from the byte just past the field. The sum is formed in a signed
/// domain wide enough that a negative displacement against a large base
/// cannot wrap.
pub fn absolute_target(base: u64, field_offset: usize, d: i32) -> (t: u64)
    requires
        0 <= base + field_offset + 4 + d <= u64::MAX,
    ensures
        t as int == base + field_offset + 4 + d,
{
    let wide: i128 = base as i128 + field_offset as i128 + 4 + d as i128;
    wide as u64
}

} // verus!
