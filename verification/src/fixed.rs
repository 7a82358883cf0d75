//! Fixed-point helpers: division that truncates toward zero, as the scene
//! arithmetic needs it on signed values.

use vstd::prelude::*;

verus! {

/// Signed division truncating toward zero (the rounding every scene formula
/// here uses), defined via Euclidean division on magnitudes.
pub open spec fn tdiv(a: int, d: int) -> int
    recommends
        d > 0,
{
    if a >= 0 {
        a / d
    } else {
        -((-a) / d)
    }
}

/// Truncating division never enlarges a symmetric bound: if `|a| <= m * d`
/// then `|tdiv(a, d)| <= m`.
pub proof fn lemma_tdiv_bound(a: int, d: int, m: int)
    requires
        d > 0,
        m >= 0,
        -(m * d) <= a <= m * d,
    ensures
        -m <= tdiv(a, d) <= m,
{
    if a >= 0 {
        assert(a / d <= m) by (nonlinear_arith)
            requires
                d > 0,
                m >= 0,
                0 <= a <= m * d,
        ;
        assert(a / d >= 0) by (nonlinear_arith)
            requires
                d > 0,
                a >= 0,
        ;
    } else {
        assert((-a) / d <= m) by (nonlinear_arith)
            requires
                d > 0,
                m >= 0,
                0 <= -a <= m * d,
        ;
        assert((-a) / d >= 0) by (nonlinear_arith)
            requires
                d > 0,
                -a >= 0,
        ;
    }
}

/// Truncating signed division of an `i64` by a positive divisor.
pub fn tdiv_i64(a: i64, d: u64) -> (r: i64)
    requires
        d > 0,
    ensures
        r as int == tdiv(a as int, d as int),
{
    if a >= 0 {
        let q: u64 = (a as u64) / d;
        proof {
            assert((a as u64) / d <= a as u64) by (nonlinear_arith)
                requires
                    d >= 1,
            ;
        }
        q as i64
    } else {
        let m: u128 = (-(a as i128)) as u128;
        let q: u128 = m / (d as u128);
        proof {
            assert(m / (d as u128) <= m) by (nonlinear_arith)
                requires
                    d >= 1,
            ;
        }
        (-(q as i128)) as i64
    }
}

} // verus!
