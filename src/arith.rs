//! Two's-complement arithmetic on 32-bit signed integers.
use vstd::prelude::*;

verus! {

/// The value of `x` reduced into the `i32` range modulo 2^32.
pub open spec fn wrap_i32(x: int) -> int {
    let m = x % 0x1_0000_0000;
    if m > i32::MAX as int {
        m - 0x1_0000_0000
    } else {
        m
    }
}

/// Sum of `x` and `y`, wrapping on overflow.
pub fn add(x: i32, y: i32) -> (r: i32)
    ensures
        r as int == wrap_i32(x as int + y as int),
{
    x.wrapping_add(y)
}

/// Product of `x` and `y`, wrapping on overflow.
pub fn mul(x: i32, y: i32) -> (r: i32)
    ensures
        r as int == wrap_i32(x as int * y as int),
{
    x.wrapping_mul(y)
}

} // verus!
