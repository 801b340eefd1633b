//! Integer helpers for the coordinate arithmetic: floor division, Euclidean
//! remainder and truncating halving, each with an exact contract.

use vstd::prelude::*;
use vstd::arithmetic::div_mod::{
    lemma_fundamental_div_mod, lemma_fundamental_div_mod_converse, lemma_div_nonincreasing,
    lemma_div_pos_is_pos,
};

verus! {

/// Floor division for a nonzero divisor: the largest integer at most `a / b`.
///
/// For `b > 0` this is Euclidean division; for `b < 0` it agrees with
/// `(-a) / (-b)` because the quotient is unchanged when both signs flip.
pub open spec fn div_floor(a: int, b: int) -> int {
    if b > 0 {
        a / b
    } else {
        (-a) / (-b)
    }
}

/// Truncating halving, as `/ 2` rounds on machine integers: toward zero.
pub open spec fn half_trunc(v: int) -> int {
    if v >= 0 {
        v / 2
    } else {
        -((-v) / 2)
    }
}

/// The product of two values is bounded by the product of their bounds.
pub proof fn lemma_mul_magnitude_bound(a: int, b: int, abound: int, bbound: int)
    requires
        -abound <= a <= abound,
        -bbound <= b <= bbound,
        0 <= abound,
        0 <= bbound,
    ensures
        -(abound * bbound) <= a * b <= abound * bbound,
{
    assert(-(abound * bbound) <= a * b <= abound * bbound) by (nonlinear_arith)
        requires
            -abound <= a <= abound,
            -bbound <= b <= bbound,
            0 <= abound,
            0 <= bbound,
    ;
}

/// Floor division with a positive divisor, computed over unsigned magnitudes.
fn div_floor_pos_i128(a: i128, b: i128) -> (r: i128)
    requires
        1 <= b,
        i128::MIN < a,
    ensures
        r == a as int / b as int,
        0 <= a ==> 0 <= r <= a,
        a < 0 ==> a <= r <= 0,
{
    if a >= 0 {
        let q: u128 = (a as u128) / (b as u128);
        proof {
            lemma_div_nonincreasing(a as int, b as int);
            lemma_div_pos_is_pos(a as int, b as int);
        }
        q as i128
    } else {
        let mag: u128 = (-a) as u128;
        let q: u128 = mag / (b as u128);
        let rem: u128 = mag % (b as u128);
        proof {
            lemma_div_nonincreasing(mag as int, b as int);
            lemma_div_pos_is_pos(mag as int, b as int);
            lemma_fundamental_div_mod(mag as int, b as int);
            assert(mag as int == b as int * (q as int) + rem as int);
            assert(a as int == -(b as int * (q as int)) - rem as int);
            assert(q as int <= b as int * (q as int)) by (nonlinear_arith)
                requires
                    1 <= b as int,
                    0 <= q as int,
            ;
            if rem == 0 {
                assert(a as int == (-(q as int)) * (b as int) + 0) by (nonlinear_arith)
                    requires
                        a as int == -(b as int * (q as int)) - rem as int,
                        rem == 0,
                ;
                lemma_fundamental_div_mod_converse(a as int, b as int, -(q as int), 0);
            } else {
                assert(a as int == (-(q as int) - 1) * (b as int) + (b as int - rem as int))
                    by (nonlinear_arith)
                    requires
                        a as int == -(b as int * (q as int)) - rem as int,
                ;
                lemma_fundamental_div_mod_converse(
                    a as int,
                    b as int,
                    -(q as int) - 1,
                    b as int - rem as int,
                );
            }
        }
        if rem == 0 {
            -(q as i128)
        } else {
            -(q as i128) - 1
        }
    }
}

/// Floor division for any nonzero divisor.
pub fn div_floor_i128(a: i128, b: i128) -> (r: i128)
    requires
        b != 0,
        i128::MIN < a,
        i128::MIN < b,
    ensures
        r == div_floor(a as int, b as int),
        b > 0 && 0 <= a ==> 0 <= r <= a,
        b > 0 && a < 0 ==> a <= r <= 0,
        b < 0 && 0 <= a ==> -a <= r <= 0,
        b < 0 && a < 0 ==> 0 <= r <= -a,
{
    if b > 0 {
        div_floor_pos_i128(a, b)
    } else {
        div_floor_pos_i128(-a, -b)
    }
}

/// Euclidean remainder of an `i64` by a positive modulus.
pub fn rem_euclid_i64(a: i64, m: i64) -> (r: i64)
    requires
        1 <= m,
    ensures
        r == a as int % m as int,
        0 <= r < m,
{
    let ai: i128 = a as i128;
    let mu: u128 = m as u128;
    if ai >= 0 {
        let rem: u128 = (ai as u128) % mu;
        rem as i64
    } else {
        let mag: u128 = (-ai) as u128;
        let rem: u128 = mag % mu;
        proof {
            lemma_fundamental_div_mod(mag as int, m as int);
            let q = mag as int / m as int;
            assert(mag as int == m as int * q + rem as int);
            assert(a as int == -(m as int * q) - rem as int);
            if rem == 0 {
                assert(a as int == (-q) * (m as int) + 0) by (nonlinear_arith)
                    requires
                        a as int == -(m as int * q) - rem as int,
                        rem == 0,
                ;
                lemma_fundamental_div_mod_converse(a as int, m as int, -q, 0);
            } else {
                assert(a as int == (-q - 1) * (m as int) + (m as int - rem as int))
                    by (nonlinear_arith)
                    requires
                        a as int == -(m as int * q) - rem as int,
                ;
                lemma_fundamental_div_mod_converse(
                    a as int,
                    m as int,
                    -q - 1,
                    m as int - rem as int,
                );
            }
        }
        if rem == 0 {
            0
        } else {
            m - (rem as i64)
        }
    }
}

/// Halves a value, rounding toward zero as integer division does.
pub fn half_trunc_i64(v: i64) -> (r: i64)
    requires
        i64::MIN < v,
    ensures
        r == half_trunc(v as int),
{
    if v >= 0 {
        let q: u64 = (v as u64) / 2;
        q as i64
    } else {
        let q: u64 = ((-v) as u64) / 2;
        -(q as i64)
    }
}

} // verus!
