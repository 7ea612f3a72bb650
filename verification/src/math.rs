//! Fixed-point scale constants and exact integer arithmetic helpers.

use vstd::prelude::*;

verus! {

/// One, for dimensionless fixed-point fractions (confidences, IoU scores,
/// precision, recall, AP values).
pub const FIX_ONE: i64 = 1_000_000;

/// Pi, in angle units.  A heading is an integer in `[-HALF_TURN, HALF_TURN]`.
pub const HALF_TURN: i64 = 1_000_000;

/// Largest admissible magnitude for a coordinate of an object's position,
/// in length units.  Keeps every geometric intermediate inside `i128`.
pub const COORD_LIMIT: i64 = 1_000_000_000;

/// Largest admissible extent of an object's box, in length units.
pub const SIZE_LIMIT: i64 = 1_000_000_000;

/// Largest magnitude a footprint-corner coordinate can reach for a
/// well-formed object.
pub const CORNER_LIMIT: i64 = 3_000_000_000;

/// A product of bounded factors is bounded by the product of the bounds.
pub proof fn lemma_abs_mul_bound(a: int, b: int, ab: int, bb: int)
    requires
        -ab <= a <= ab,
        -bb <= b <= bb,
        0 <= ab,
        0 <= bb,
    ensures
        -(ab * bb) <= a * b <= ab * bb,
{
    assert(-(ab * bb) <= a * b <= ab * bb) by (nonlinear_arith)
        requires
            -ab <= a <= ab,
            -bb <= b <= bb,
            0 <= ab,
            0 <= bb,
    ;
}

/// The integer square root: the largest `r` with `r * r <= n`, for `n >= 0`
/// (and `0` for negative `n`).
pub open spec fn sqrt_floor(n: int) -> int
    decreases n,
{
    if n < 1 {
        0
    } else {
        let r = sqrt_floor(n - 1);
        if (r + 1) * (r + 1) <= n {
            r + 1
        } else {
            r
        }
    }
}

/// `sqrt_floor(n)` really is the floor of the square root of `n`.
pub proof fn lemma_sqrt_floor(n: int)
    requires
        n >= 0,
    ensures
        0 <= sqrt_floor(n),
        sqrt_floor(n) * sqrt_floor(n) <= n,
        n < (sqrt_floor(n) + 1) * (sqrt_floor(n) + 1),
    decreases n,
{
    if n >= 1 {
        lemma_sqrt_floor(n - 1);
        let r = sqrt_floor(n - 1);
        if (r + 1) * (r + 1) <= n {
            assert(n < (r + 2) * (r + 2)) by (nonlinear_arith)
                requires
                    n - 1 < (r + 1) * (r + 1),
                    0 <= r,
            ;
        }
    }
}

/// Any `r` in the square-root-floor position equals `sqrt_floor(n)`.
pub proof fn lemma_sqrt_floor_unique(n: int, r: int)
    requires
        n >= 0,
        r >= 0,
        r * r <= n,
        n < (r + 1) * (r + 1),
    ensures
        r == sqrt_floor(n),
{
    lemma_sqrt_floor(n);
    let s = sqrt_floor(n);
    if r < s {
        assert((r + 1) * (r + 1) <= s * s) by (nonlinear_arith)
            requires
                0 <= r,
                r + 1 <= s,
        ;
    }
    if s < r {
        assert((s + 1) * (s + 1) <= r * r) by (nonlinear_arith)
            requires
                0 <= s,
                s + 1 <= r,
        ;
    }
}

/// Integer square root by bisection.
pub fn isqrt_u128(n: u128) -> (r: u128)
    ensures
        r == sqrt_floor(n as int),
{
    let mut lo: u128 = 0;
    let mut hi: u128 = 1u128 << 64;
    proof {
        assert((1u128 << 64) == 0x1_0000_0000_0000_0000) by (bit_vector);
        assert(n < (hi as int) * (hi as int)) by (nonlinear_arith)
            requires
                hi == 0x1_0000_0000_0000_0000u128,
                n <= u128::MAX,
        ;
    }
    while lo + 1 < hi
        invariant
            0 <= lo < hi <= 0x1_0000_0000_0000_0000u128,
            (lo as int) * (lo as int) <= n as int,
            (n as int) < (hi as int) * (hi as int),
        decreases hi - lo,
    {
        let mid = lo + (hi - lo) / 2;
        assert(lo < mid < hi);
        assert((mid as int) * (mid as int) <= u128::MAX) by (nonlinear_arith)
            requires
                0 <= mid < 0x1_0000_0000_0000_0000u128,
        ;
        if mid * mid <= n {
            lo = mid;
        } else {
            hi = mid;
        }
    }
    proof {
        lemma_sqrt_floor_unique(n as int, lo as int);
    }
    lo
}

/// Floor division of `a` by a positive divisor `b`; agrees with the
/// mathematical (Euclidean) quotient used in specifications.
pub fn div_floor_i128(a: i128, b: i128) -> (q: i128)
    requires
        b > 0,
        a > i128::MIN,
    ensures
        q == a as int / b as int,
{
    let bu: u128 = b as u128;
    if a >= 0 {
        let au: u128 = a as u128;
        let qu: u128 = au / bu;
        proof {
            assert(qu <= au);
            assert(au as int / bu as int == a as int / b as int);
        }
        qu as i128
    } else {
        let na: u128 = (-a) as u128;
        let q0: u128 = na / bu;
        let r0: u128 = na % bu;
        proof {
            vstd::arithmetic::div_mod::lemma_fundamental_div_mod(na as int, bu as int);
            assert(q0 <= na);
            assert(na as int == bu as int * (q0 as int) + r0 as int);
        }
        let qi: i128 = q0 as i128;
        if r0 == 0 {
            proof {
                lemma_div_exact_neg(a as int, b as int, qi as int);
            }
            -qi
        } else {
            proof {
                lemma_div_round_neg(a as int, b as int, qi as int, r0 as int);
            }
            -qi - 1
        }
    }
}

proof fn lemma_div_exact_neg(a: int, b: int, q: int)
    requires
        b > 0,
        a < 0,
        -a == b * q,
    ensures
        a / b == -q,
{
    assert(a == (-q) * b + 0) by (nonlinear_arith)
        requires
            -a == b * q,
    ;
    vstd::arithmetic::div_mod::lemma_fundamental_div_mod_converse(a, b, -q, 0);
}

proof fn lemma_div_round_neg(a: int, b: int, q: int, r: int)
    requires
        b > 0,
        a < 0,
        0 < r < b,
        -a == b * q + r,
    ensures
        a / b == -q - 1,
{
    assert(a == (-q - 1) * b + (b - r)) by (nonlinear_arith)
        requires
            -a == b * q + r,
    ;
    vstd::arithmetic::div_mod::lemma_fundamental_div_mod_converse(a, b, -q - 1, b - r);
}

} // verus!
