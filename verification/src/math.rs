//! Integer arithmetic that several modules share.

use vstd::prelude::*;

verus! {

/// A number fits a signed 64-bit register.
pub open spec fn fits_i64(v: int) -> bool {
    i64::MIN <= v <= i64::MAX
}

/// `a / b` rounded towards zero.
pub open spec fn div_to_zero(a: int, b: int) -> int
    recommends
        b > 0,
{
    if a >= 0 {
        a / b
    } else {
        -((-a) / b)
    }
}

/// Division towards zero: the quotient times the divisor comes within the divisor of
/// the dividend, from the side of zero.
pub proof fn law_division_is_towards_zero(a: int, b: int)
    requires
        b > 0,
    ensures
        a >= 0 ==> b * div_to_zero(a, b) <= a < b * div_to_zero(a, b) + b,
        a <= 0 ==> b * div_to_zero(a, b) - b < a <= b * div_to_zero(a, b),
{
    let n = if a >= 0 {
        a
    } else {
        -a
    };
    let q = n / b;
    assert(b * q <= n < b * q + b && b * (-q) == -(b * q)) by (nonlinear_arith)
        requires
            b > 0,
            q == n / b,
    ;
}

} // verus!
