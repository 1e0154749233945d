//! Integer helpers shared by the contract modules: truncating signed
//! division as Rust computes it, and the basis-point conventions.
use vstd::prelude::*;

verus! {

/// Rust's `/` on signed integers: the quotient rounded toward zero.
pub open spec fn tdiv(x: int, d: int) -> int {
    if x == 0 {
        0
    } else if x > 0 && d > 0 {
        x / d
    } else if x < 0 && d < 0 {
        (-x) / (-d)
    } else if x < 0 {
        -((-x) / d)
    } else {
        -(x / (-d))
    }
}

/// `a / b` on `i128`, rounded toward zero as Rust does.
pub fn div_i128(a: i128, b: i128) -> (r: i128)
    requires
        b != 0,
        i128::MIN <= tdiv(a as int, b as int) <= i128::MAX,
    ensures
        r == tdiv(a as int, b as int),
{
    match a.checked_div(b) {
        Some(q) => q,
        None => 0,
    }
}

/// For a non-negative numerator and a positive divisor, truncating division
/// is the ordinary floor division.
pub proof fn lemma_tdiv_nonneg(x: int, d: int)
    requires
        x >= 0,
        d > 0,
    ensures
        tdiv(x, d) == x / d,
        0 <= tdiv(x, d) <= x,
{
    assert(x / d <= x) by (nonlinear_arith)
        requires
            x >= 0,
            d > 0,
    ;
}

/// Truncating division by a positive divisor moves toward zero and never
/// past it.
pub proof fn lemma_tdiv_bound(x: int, d: int)
    requires
        d > 0,
    ensures
        x >= 0 ==> 0 <= tdiv(x, d) <= x,
        x < 0 ==> x <= tdiv(x, d) <= 0,
{
    if x >= 0 {
        lemma_tdiv_nonneg(x, d);
    } else {
        lemma_tdiv_nonneg(-x, d);
    }
}

} // verus!
