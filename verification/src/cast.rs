//! Casts between integers of one width that differ in sign.

use vstd::prelude::*;

verus! {

/// The signed number with the bits of `x`.
pub open spec fn signed_64(x: u64) -> i64 {
    if x <= i64::MAX {
        x as i64
    } else {
        (x - 0x1_0000_0000_0000_0000) as i64
    }
}

/// The signed number with the bits of `x`.
pub open spec fn signed_32(x: u32) -> i32 {
    if x <= i32::MAX {
        x as i32
    } else {
        (x - 0x1_0000_0000) as i32
    }
}

/// The unsigned number with the bits of `x`.
pub open spec fn unsigned_32(x: i32) -> u32 {
    if x >= 0 {
        x as u32
    } else {
        (x + 0x1_0000_0000) as u32
    }
}

pub(crate) fn to_signed_64(x: u64) -> (res: i64)
    ensures
        res == signed_64(x),
{
    assert(x > 0x7fff_ffff_ffff_ffff ==> x as i64 == x - 0x1_0000_0000_0000_0000) by (bit_vector);
    x as i64
}

pub(crate) fn to_signed_32(x: u32) -> (res: i32)
    ensures
        res == signed_32(x),
{
    assert(x > 0x7fff_ffff ==> x as i32 == x - 0x1_0000_0000) by (bit_vector);
    x as i32
}

pub(crate) fn to_unsigned_32(x: i32) -> (res: u32)
    ensures
        res == unsigned_32(x),
{
    assert(x < 0 ==> x as u32 == x + 0x1_0000_0000) by (bit_vector);
    x as u32
}

} // verus!
