//! Whole-number arithmetic for lengths and speeds.
//!
//! A length is counted in half-millionths of a world unit and a speed is
//! the length covered in one millisecond. With these units the height that
//! a body gains in a whole number of milliseconds, under either gravity of
//! this library, is a whole number of length units: nothing is rounded.
//!
//! Sums and products are formed in 128 bits, where nothing in this library
//! overflows, and a result that is stored is first brought into the range of
//! `i64`: a coordinate that would leave that range stays at its end.

use vstd::prelude::*;

verus! {

/// Length units in one world unit.
pub const UNIT: i64 = 2_000_000;

/// Speed units in one world unit per second.
pub const SPEED_UNIT: i64 = 2_000;

/// The value of `i64` that lies nearest to `v`.
pub open spec fn clamp_i64(v: int) -> int {
    if v < i64::MIN as int {
        i64::MIN as int
    } else if v > i64::MAX as int {
        i64::MAX as int
    } else {
        v
    }
}

/// The distance between `v` and zero.
pub open spec fn magnitude(v: int) -> int {
    if v < 0 {
        -v
    } else {
        v
    }
}

/// Half of `v`, rounded up.
pub open spec fn half_up(v: int) -> int {
    (v + 1) / 2
}

pub fn saturate(v: i128) -> (r: i64)
    ensures
        r == clamp_i64(v as int),
{
    if v < i64::MIN as i128 {
        i64::MIN
    } else if v > i64::MAX as i128 {
        i64::MAX
    } else {
        v as i64
    }
}

pub fn distance(a: i64, b: i64) -> (r: i128)
    ensures
        r == magnitude(a - b),
{
    let d: i128 = (a as i128) - (b as i128);
    if d < 0 {
        -d
    } else {
        d
    }
}

} // verus!
