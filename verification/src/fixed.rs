//! Fixed-point arithmetic on billionths.
//!
//! Every operation first forms the mathematically exact result, drops the
//! fraction that is finer than one billionth (rounding toward zero) and then
//! saturates at the ends of `i64`.

use vstd::prelude::*;

verus! {

/// How many steps of the representation make up one whole unit.
pub const SCALE: i64 = 1_000_000_000;

/// The quotient of `a` by `b` with the fraction dropped (rounding toward
/// zero). Unspecified for `b == 0`.
pub open spec fn trunc_div(a: int, b: int) -> int {
    if a >= 0 && b > 0 {
        a / b
    } else if a < 0 && b > 0 {
        -((-a) / b)
    } else if a >= 0 {
        -(a / (-b))
    } else {
        (-a) / (-b)
    }
}

/// The value of `i64` that lies nearest to `x`.
pub open spec fn saturate(x: int) -> int {
    if x < i64::MIN {
        i64::MIN as int
    } else if x > i64::MAX {
        i64::MAX as int
    } else {
        x
    }
}

/// The saturated sum of two readings.
pub open spec fn sum(a: int, b: int) -> int {
    saturate(a + b)
}

/// The saturated difference of two readings.
pub open spec fn difference(a: int, b: int) -> int {
    saturate(a - b)
}

/// The saturated fixed-point product of two readings.
pub open spec fn product(a: int, b: int) -> int {
    saturate(trunc_div(a * b, SCALE as int))
}

/// The saturated fixed-point quotient of two readings, for `b != 0`.
pub open spec fn quotient(a: int, b: int) -> int {
    saturate(trunc_div(a * SCALE, b))
}

/// Whether two readings differ by at most `tolerance`.
pub open spec fn close(a: int, b: int, tolerance: int) -> bool {
    -tolerance <= a - b <= tolerance
}

fn saturate_wide(x: i128) -> (r: i64)
    ensures
        r == saturate(x as int),
{
    if x < i64::MIN as i128 {
        i64::MIN
    } else if x > i64::MAX as i128 {
        i64::MAX
    } else {
        x as i64
    }
}

fn trunc_div_wide(a: i128, b: i128) -> (r: i128)
    requires
        b != 0,
        i128::MIN < a,
        i128::MIN < b,
    ensures
        r == trunc_div(a as int, b as int),
{
    if a >= 0 && b > 0 {
        a / b
    } else if a < 0 && b > 0 {
        -((-a) / b)
    } else if a >= 0 {
        -(a / (-b))
    } else {
        (-a) / (-b)
    }
}

/// Adds two readings, saturating at the ends of `i64`.
pub fn add_fixed(a: i64, b: i64) -> (r: i64)
    ensures
        r == sum(a as int, b as int),
{
    saturate_wide(a as i128 + b as i128)
}

/// Subtracts `b` from `a`, saturating at the ends of `i64`.
pub fn sub_fixed(a: i64, b: i64) -> (r: i64)
    ensures
        r == difference(a as int, b as int),
{
    saturate_wide(a as i128 - b as i128)
}

/// Multiplies two readings: the exact product, cut to whole billionths and
/// saturated at the ends of `i64`.
pub fn mul_fixed(a: i64, b: i64) -> (r: i64)
    ensures
        r == product(a as int, b as int),
{
    proof {
        lemma_product_fits(a as int, b as int);
    }
    let wide: i128 = (a as i128) * (b as i128);
    saturate_wide(trunc_div_wide(wide, SCALE as i128))
}

/// Divides `a` by a `b` other than zero: the exact quotient, cut to whole
/// billionths and saturated at the ends of `i64`.
pub fn div_fixed(a: i64, b: i64) -> (r: i64)
    requires
        b != 0,
    ensures
        r == quotient(a as int, b as int),
{
    proof {
        lemma_product_fits(a as int, SCALE as int);
    }
    let wide: i128 = (a as i128) * (SCALE as i128);
    saturate_wide(trunc_div_wide(wide, b as i128))
}

/// Divides `a` by `b` where there is a quotient: there is none by zero.
pub fn checked_div_fixed(a: i64, b: i64) -> (r: Option<i64>)
    ensures
        r is None <==> b == 0,
        r matches Some(q) ==> q == quotient(a as int, b as int),
{
    if b == 0 {
        None
    } else {
        Some(div_fixed(a, b))
    }
}

/// Tells whether two readings differ by at most `tolerance`.
pub fn approx_eq(a: i64, b: i64, tolerance: i64) -> (r: bool)
    ensures
        r == close(a as int, b as int, tolerance as int),
{
    let gap: i128 = a as i128 - b as i128;
    -(tolerance as i128) <= gap && gap <= tolerance as i128
}

/// The product of two values of `i64` stays well inside `i128`.
proof fn lemma_product_fits(a: int, b: int)
    requires
        i64::MIN <= a <= i64::MAX,
        i64::MIN <= b <= i64::MAX,
    ensures
        -0x4000_0000_0000_0000_0000_0000_0000_0000 <= a * b
            <= 0x4000_0000_0000_0000_0000_0000_0000_0000,
{
    assert(-0x4000_0000_0000_0000_0000_0000_0000_0000 <= a * b
        <= 0x4000_0000_0000_0000_0000_0000_0000_0000) by (nonlinear_arith)
        requires
            -0x8000_0000_0000_0000 <= a <= 0x8000_0000_0000_0000,
            -0x8000_0000_0000_0000 <= b <= 0x8000_0000_0000_0000,
    ;
}

} // verus!
