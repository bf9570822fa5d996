//! Integer lengths.
//!
//! A length is an `i64` in whatever unit the caller has chosen. Every function
//! of this crate that computes a length computes the exact integer that its
//! contract names and stores it clamped to the range of `i64`, so that no
//! function needs a bound on the lengths it is given.

use vstd::prelude::*;

verus! {

/// The value of `i64` nearest to `x`.
pub open spec fn clamp(x: int) -> i64 {
    if x < i64::MIN {
        i64::MIN
    } else if x > i64::MAX {
        i64::MAX
    } else {
        x as i64
    }
}

/// The larger of two integers.
pub open spec fn max(a: int, b: int) -> int {
    if a >= b {
        a
    } else {
        b
    }
}

/// The smaller of two integers.
pub open spec fn min(a: int, b: int) -> int {
    if a <= b {
        a
    } else {
        b
    }
}

/// Clamps a wide intermediate result to a length.
pub fn clamp_wide(x: i128) -> (r: i64)
    ensures
        r == clamp(x as int),
{
    if x < -0x8000_0000_0000_0000i128 {
        i64::MIN
    } else if x > 0x7fff_ffff_ffff_ffffi128 {
        i64::MAX
    } else {
        x as i64
    }
}

/// The larger of two wide values.
pub fn max_wide(a: i128, b: i128) -> (r: i128)
    ensures
        r == max(a as int, b as int),
{
    if a >= b {
        a
    } else {
        b
    }
}

/// The smaller of two wide values.
pub fn min_wide(a: i128, b: i128) -> (r: i128)
    ensures
        r == min(a as int, b as int),
{
    if a <= b {
        a
    } else {
        b
    }
}

/// Clamps the sum of two wide values to a length.
pub fn clamp_sum(a: i128, b: i128) -> (r: i64)
    ensures
        r == clamp(a as int + b as int),
{
    match a.checked_add(b) {
        Some(s) => clamp_wide(s),
        None => if a > 0 {
            i64::MAX
        } else {
            i64::MIN
        },
    }
}

/// Division that rounds towards negative infinity, for a positive divisor.
pub fn div_floor(x: i128, d: i128) -> (r: i128)
    requires
        d > 0,
    ensures
        r == (x as int) / (d as int),
{
    if x >= 0 {
        x / d
    } else {
        // -(x + 1) is in range and not negative
        let y: i128 = -(x + 1);
        let q: i128 = y / d;
        assert(q == (y as int) / (d as int));
        assert((x as int) / (d as int) == -((y as int) / (d as int)) - 1) by (nonlinear_arith)
            requires
                d > 0,
                y == -(x + 1),
                y >= 0,
        ;
        -q - 1
    }
}

} // verus!
