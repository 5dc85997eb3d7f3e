//! Q15.16 fixed-point scalars.
//!
//! A `Fixed` holds the real number `raw / 65536`. Products and quotients are
//! formed in 128 bits, rounded towards negative infinity once, and saturated
//! to the 32-bit range.

use vstd::prelude::*;

verus! {

/// A signed fixed-point number with 16 fractional bits.
pub type Fixed = i32;

/// The number 1.
pub const ONE: i32 = 65536;

/// The nearest representable value to `v`.
pub open spec fn clamp_to_fixed(v: int) -> int {
    if v < i32::MIN {
        i32::MIN as int
    } else if v > i32::MAX {
        i32::MAX as int
    } else {
        v
    }
}

/// The largest integer not above `n / d`, for a divisor other than zero.
pub open spec fn floor_div(n: int, d: int) -> int {
    if d > 0 {
        n / d
    } else {
        (-n) / (-d)
    }
}

/// Saturates a wide value to the fixed-point range.
pub fn saturate(v: i128) -> (r: Fixed)
    ensures
        r == clamp_to_fixed(v as int),
{
    if v < -2147483648 {
        -2147483648
    } else if v > 2147483647 {
        2147483647
    } else {
        v as i32
    }
}

/// Floor division of wide values.
pub fn div_floor(n: i128, d: i128) -> (q: i128)
    requires
        d != 0,
        i128::MIN < n,
        i128::MIN < d,
    ensures
        q == floor_div(n as int, d as int),
{
    let (num, den): (i128, i128) = if d > 0 {
        (n, d)
    } else {
        (-n, -d)
    };
    assert(i128::MIN <= (num as int) / (den as int) <= i128::MAX) by (nonlinear_arith)
        requires
            den > 0,
            i128::MIN <= num <= i128::MAX,
    ;
    match num.checked_div_euclid(den) {
        Some(q) => q,
        None => 0,
    }
}

/// Rescales a product of two fixed-point numbers: `n / 65536`, rounded down
/// and saturated.
pub fn scale_down(n: i128) -> (r: Fixed)
    ensures
        r == clamp_to_fixed((n as int) / (ONE as int)),
{
    let d: i128 = 65536;
    assert(i128::MIN <= (n as int) / 65536 <= i128::MAX);
    match n.checked_div_euclid(d) {
        Some(q) => saturate(q),
        None => 0,
    }
}

/// The exact product of two fixed-point numbers, at twice the scale.
pub fn product(a: Fixed, b: Fixed) -> (r: i128)
    ensures
        r == a * b,
        -0x4000_0000_0000_0000 <= r <= 0x4000_0000_0000_0000,
{
    assert(-0x4000_0000_0000_0000 <= a * b <= 0x4000_0000_0000_0000) by (nonlinear_arith)
        requires
            -0x8000_0000 <= a <= 0x7fff_ffff,
            -0x8000_0000 <= b <= 0x7fff_ffff,
    ;
    (a as i128) * (b as i128)
}

/// The ratio `n / d` as a fixed-point number, rounded down and saturated.
pub fn ratio(n: i128, d: i128) -> (r: Fixed)
    requires
        d != 0,
        i128::MIN < d,
        -0x4000_0000_0000_0000_0000_0000_0000 < n < 0x4000_0000_0000_0000_0000_0000_0000,
    ensures
        r == clamp_to_fixed(floor_div(n * ONE, d as int)),
{
    let q = div_floor(n * 65536, d);
    saturate(q)
}

} // verus!
