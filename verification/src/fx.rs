//! Fixed-point scalar arithmetic.
//!
//! A scalar is an `i64` counting multiples of `1 / FP`; `FP` itself therefore
//! stands for the real number one. Products are divided by `FP` with flooring,
//! which is the rounding rule used throughout the crate.

use vstd::prelude::*;
use vstd::arithmetic::div_mod::lemma_fundamental_div_mod;
use vstd::arithmetic::div_mod::lemma_fundamental_div_mod_converse;
use vstd::arithmetic::div_mod::lemma_mod_bound;
use vstd::arithmetic::div_mod::lemma_div_pos_is_pos;

verus! {

/// One whole unit: 2^20, i.e. 20 fractional bits.
pub const FP: i64 = 1048576;

/// Half a unit, the magnitude of a quad template corner.
pub const FP_HALF: i64 = 524288;

/// Largest magnitude a stored world coordinate may take; coordinates produced
/// by the simulation saturate at this world bound.
pub const COORD_LIMIT: i64 = 2147483648;

/// Largest time step accepted by the simulation (about sixteen seconds).
pub const DT_MAX: i64 = 16777216;

/// Largest emission rate accepted by a spawner (particles per second).
pub const RATE_MAX: i64 = 1073741824;

/// Ceiling at which the spawn accumulator saturates. Since a pool's `used`
/// count never decreases, any debt of at least `capacity` whole particles
/// yields the same spawn counts forever, so capping the debt here never
/// changes the behaviour of a pool within [`CAP_MAX`].
pub const ACC_CEIL: i64 = 2199023255552;

/// Largest pool capacity accepted, chosen so that a debt of a full pool of
/// particles stays below [`ACC_CEIL`].
pub const CAP_MAX: usize = 1048576;

/// Largest product magnitude accepted by [`mul_fp`].
pub const PROD_LIMIT: i64 = 4611686018427387904;

/// Bound on the result of [`mul_fp`]: `PROD_LIMIT / FP`.
pub const MUL_RESULT_LIMIT: i64 = 4398046511104;

/// The fixed-point product of `a` and `b`: `a * b / FP`, floored.
pub open spec fn fpmul(a: int, b: int) -> int {
    (a * b) / (FP as int)
}

/// `x` clamped into the world bounds `[-COORD_LIMIT, COORD_LIMIT]`.
pub open spec fn clamp_coord(x: int) -> int {
    let lo = -(COORD_LIMIT as int);
    let hi = COORD_LIMIT as int;
    if x < lo {
        lo
    } else if x > hi {
        hi
    } else {
        x
    }
}

/// Saturate a scalar at the world bounds.
pub fn sat_coord(x: i64) -> (r: i64)
    ensures
        r == clamp_coord(x as int),
        -COORD_LIMIT <= r <= COORD_LIMIT,
{
    if x < -COORD_LIMIT {
        -COORD_LIMIT
    } else if x > COORD_LIMIT {
        COORD_LIMIT
    } else {
        x
    }
}

/// Fixed-point multiplication, flooring the quotient by [`FP`].
pub fn mul_fp(a: i64, b: i64) -> (r: i64)
    requires
        -PROD_LIMIT <= a <= PROD_LIMIT,
        -PROD_LIMIT <= b <= PROD_LIMIT,
        -PROD_LIMIT <= a * b <= PROD_LIMIT,
    ensures
        r == fpmul(a as int, b as int),
        -MUL_RESULT_LIMIT <= r <= MUL_RESULT_LIMIT,
{
    let ghost ab: int = (a as int) * (b as int);
    let abs_a: u64 = if a >= 0 { a as u64 } else { (-a) as u64 };
    let abs_b: u64 = if b >= 0 { b as u64 } else { (-b) as u64 };
    proof {
        if a >= 0 && b >= 0 {
            assert((abs_a as int) * (abs_b as int) == ab && ab >= 0) by (nonlinear_arith)
                requires
                    a >= 0,
                    b >= 0,
                    abs_a == a as int,
                    abs_b == b as int,
                    ab == (a as int) * (b as int),
            ;
        } else if a >= 0 && b < 0 {
            assert((abs_a as int) * (abs_b as int) == -ab && ab <= 0) by (nonlinear_arith)
                requires
                    a >= 0,
                    b < 0,
                    abs_a == a as int,
                    abs_b == -(b as int),
                    ab == (a as int) * (b as int),
            ;
        } else if a < 0 && b >= 0 {
            assert((abs_a as int) * (abs_b as int) == -ab && ab <= 0) by (nonlinear_arith)
                requires
                    a < 0,
                    b >= 0,
                    abs_a == -(a as int),
                    abs_b == b as int,
                    ab == (a as int) * (b as int),
            ;
        } else {
            assert((abs_a as int) * (abs_b as int) == ab && ab >= 0) by (nonlinear_arith)
                requires
                    a < 0,
                    b < 0,
                    abs_a == -(a as int),
                    abs_b == -(b as int),
                    ab == (a as int) * (b as int),
            ;
        }
    }
    let p: u64 = abs_a * abs_b;
    let q: u64 = p / (FP as u64);
    let rem: u64 = p % (FP as u64);
    proof {
        lemma_fundamental_div_mod(p as int, FP as int);
        assert(q <= MUL_RESULT_LIMIT) by (nonlinear_arith)
            requires
                p as int == (FP as int) * (q as int) + (rem as int),
                0 <= rem,
                p <= PROD_LIMIT,
                q >= 0,
        ;
    }
    if (a >= 0) == (b >= 0) {
        proof {
            assert(ab == p as int);
            assert(fpmul(a as int, b as int) == q as int);
        }
        q as i64
    } else if rem == 0 {
        proof {
            assert(ab == (FP as int) * (-(q as int)) + 0) by (nonlinear_arith)
                requires
                    ab == -(p as int),
                    p as int == (FP as int) * (q as int) + (rem as int),
                    rem == 0,
            ;
            lemma_fundamental_div_mod_converse(ab, FP as int, -(q as int), 0);
        }
        -(q as i64)
    } else {
        proof {
            assert(ab == (FP as int) * (-(q as int) - 1) + ((FP as int) - (rem as int)))
                by (nonlinear_arith)
                requires
                    ab == -(p as int),
                    p as int == (FP as int) * (q as int) + (rem as int),
            ;
            lemma_fundamental_div_mod_converse(
                ab,
                FP as int,
                -(q as int) - 1,
                (FP as int) - (rem as int),
            );
        }
        -(q as i64) - 1
    }
}

/// A fixed-point product whose plain product is at most `bound` units stays
/// within `bound`.
pub proof fn lemma_fpmul_bound(a: int, b: int, bound: int)
    requires
        0 <= bound,
        -bound * (FP as int) <= a * b <= bound * (FP as int),
    ensures
        -bound <= fpmul(a, b) <= bound,
{
    let ab = a * b;
    let q = ab / (FP as int);
    let r = ab % (FP as int);
    lemma_fundamental_div_mod(ab, FP as int);
    lemma_mod_bound(ab, FP as int);
    assert(-bound <= q <= bound) by (nonlinear_arith)
        requires
            ab == (FP as int) * q + r,
            0 <= r < FP as int,
            -bound * (FP as int) <= ab <= bound * (FP as int),
    ;
}

/// A fixed-point product of non-negative factors is non-negative.
pub proof fn lemma_fpmul_nonneg(a: int, b: int)
    requires
        0 <= a,
        0 <= b,
    ensures
        0 <= fpmul(a, b),
{
    assert(0 <= a * b) by (nonlinear_arith)
        requires
            0 <= a,
            0 <= b,
    ;
    lemma_div_pos_is_pos(a * b, FP as int);
}

/// How many whole units a non-negative scalar contains: `x / FP`, floored.
pub fn whole_units(x: i64) -> (r: i64)
    requires
        0 <= x,
    ensures
        r == (x as int) / (FP as int),
        0 <= r <= x,
{
    let r: u64 = (x as u64) / (FP as u64);
    proof {
        lemma_fundamental_div_mod(x as int, FP as int);
        assert(r <= x) by (nonlinear_arith)
            requires
                x as int == (FP as int) * (r as int) + ((x as u64 as int) % (FP as int)),
                0 <= (x as u64 as int) % (FP as int),
                r >= 0,
        ;
    }
    r as i64
}

} // verus!
