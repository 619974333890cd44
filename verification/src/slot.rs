//! Indirect slot reader: reads one pointer-sized little-endian value out
//! of a region, modeling exactly one level of loader-filled table
//! indirection.

use vstd::prelude::*;

verus! {

/// The 8-byte little-endian word stored at index `i`, as an unsigned
/// value: the contents of one pointer-sized table slot.
pub open spec fn le64_at(mem: Seq<u8>, i: int) -> int {
    mem[i] + 0x100 * mem[i + 1] + 0x1_0000 * mem[i + 2] + 0x100_0000 * mem[i + 3]
        + 0x1_0000_0000 * mem[i + 4] + 0x100_0000_0000 * mem[i + 5]
        + 0x1_0000_0000_0000 * mem[i + 6] + 0x100_0000_0000_0000 * mem[i + 7]
}

/// Reads the pointer-sized table slot stored little-endian at `index`.
pub fn read_slot(mem: &[u8], index: usize) -> (v: u64)
    requires
        index + 8 <= mem@.len(),
    ensures
        v as int == le64_at(mem@, index as int),
{
    let mut v: u64 = mem[index] as u64;
    v = v + 0x100 * (mem[index + 1] as u64);
    v = v + 0x1_0000 * (mem[index + 2] as u64);
    v = v + 0x100_0000 * (mem[index + 3] as u64);
    v = v + 0x1_0000_0000 * (mem[index + 4] as u64);
    v = v + 0x100_0000_0000 * (mem[index + 5] as u64);
    v = v + 0x1_0000_0000_0000 * (mem[index + 6] as u64);
    v = v + 0x100_0000_0000_0000 * (mem[index + 7] as u64);
    v
}

} // verus!
