//! Fixed-size bit reinterpretation between a representative pair of
//! same-size types: an address-sized unsigned integer and its signed
//! counterpart. This is the checked replacement for treating one type's
//! bits as another's: the pair's representations are interchangeable by
//! construction, no runtime check is made, and the round trip is proved
//! to restore the value bit for bit. Pairs whose interchangeability
//! rests only on a caller's out-of-band assertion — an address and a
//! callable of some signature — have no verified form and are left to
//! unverified callers.

use vstd::prelude::*;

verus! {

/// The value whose 64-bit two's-complement representation is `x`.
pub open spec fn signed_of_bits(x: u64) -> int {
    if x < 0x8000_0000_0000_0000 {
        x as int
    } else {
        x - 0x1_0000_0000_0000_0000
    }
}

/// The 64-bit two's-complement representation of `y`, as an unsigned
/// value.
pub open spec fn bits_of_signed(y: int) -> int
    recommends
        -0x8000_0000_0000_0000 <= y < 0x8000_0000_0000_0000,
{
    if y >= 0 {
        y
    } else {
        y + 0x1_0000_0000_0000_0000
    }
}

/// Law: reinterpreting an address-sized value as signed and back
/// restores it bit for bit.
pub proof fn lemma_reinterpret_round_trip(x: u64)
    ensures
        bits_of_signed(signed_of_bits(x)) == x,
{
}

/// Law: reinterpreting a signed value as address-sized bits and back
/// restores it bit for bit.
pub proof fn lemma_reinterpret_round_trip_signed(y: i64)
    ensures
        signed_of_bits(bits_of_signed(y as int) as u64) == y as int,
{
}

/// Reads an address-sized unsigned value as the signed value with the
/// same bit representation.
pub fn reinterpret_u64_as_i64(x: u64) -> (y: i64)
    ensures
        y as int == signed_of_bits(x),
{
    if x < 0x8000_0000_0000_0000 {
        x as i64
    } else {
        let mag: u64 = u64::MAX - x;
        -(mag as i64) - 1
    }
}

/// Reads a signed value as the address-sized unsigned value with the
/// same bit representation.
pub fn reinterpret_i64_as_u64(y: i64) -> (x: u64)
    ensures
        x as int == bits_of_signed(y as int),
{
    if y >= 0 {
        y as u64
    } else {
        let mag: u64 = (-(y + 1)) as u64;
        u64::MAX - mag
    }
}

} // verus!
