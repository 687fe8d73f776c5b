//! Integer helpers for the sample pipeline: floor division of a signed
//! amplitude by a positive divisor, and an integer square root.
//!
//! Specifications throughout the crate use the mathematical `/`, which for a
//! positive divisor is floor division; machine division on unsigned values
//! agrees with it, so the signed case is reduced to the unsigned one here.

use vstd::prelude::*;
use vstd::arithmetic::div_mod::{
    lemma_div_multiples_vanish_fancy, lemma_div_nonincreasing, lemma_fundamental_div_mod,
    lemma_mod_division_less_than_divisor,
};

verus! {

/// Floor division of `a` by a positive `d`: the quotient the mathematical
/// `/` of specifications denotes.
pub fn floor_div_i64(a: i64, d: i64) -> (q: i64)
    requires
        0 < d,
        i64::MIN < a,
    ensures
        q == a as int / d as int,
{
    if a >= 0 {
        let qu = (a as u64) / (d as u64);
        proof {
            lemma_div_nonincreasing(a as int, d as int);
        }
        qu as i64
    } else {
        // floor(a / d) == -ceil(-a / d), and the ceiling of a positive
        // quotient is (-a + d - 1) / d in machine division.
        let na = (-a) as u64;
        let du = d as u64;
        let qc = (na + (du - 1)) / du;
        proof {
            let n = na as int;
            let dd = d as int;
            let q = n / dd;
            let r = n % dd;
            lemma_fundamental_div_mod(n, dd);
            lemma_mod_division_less_than_divisor(n, dd);
            lemma_div_nonincreasing(n, dd);
            if r == 0 {
                assert(n + dd - 1 == dd * q + (dd - 1));
                lemma_div_multiples_vanish_fancy(q, dd - 1, dd);
                assert(-n == dd * (-q) + 0) by {
                    assert(dd * (-q) == -(dd * q)) by (nonlinear_arith);
                }
                lemma_div_multiples_vanish_fancy(-q, 0, dd);
                assert(qc == q);
                assert(a as int / dd == -q);
            } else {
                assert(n + dd - 1 == dd * (q + 1) + (r - 1)) by {
                    assert(dd * (q + 1) == dd * q + dd) by (nonlinear_arith);
                }
                lemma_div_multiples_vanish_fancy(q + 1, r - 1, dd);
                assert(-n == dd * (-(q + 1)) + (dd - r)) by {
                    assert(dd * (-(q + 1)) == -(dd * q) - dd) by (nonlinear_arith);
                }
                lemma_div_multiples_vanish_fancy(-(q + 1), dd - r, dd);
                assert(qc == q + 1);
                assert(a as int / dd == -(q + 1));
                // r > 0 rules out dd == 1, so the quotient is strictly
                // below n and q + 1 still fits.
                vstd::arithmetic::div_mod::lemma_div_decreases(n, dd);
            }
            assert(qc <= n);
        }
        -(qc as i64)
    }
}

/// Integer square root: the largest `r` with `r * r <= m`.
pub fn isqrt_u64(m: u64) -> (r: u64)
    ensures
        r * r <= m,
        m < (r + 1) * (r + 1),
{
    let mut lo: u64 = 0;
    let mut hi: u64 = 0xFFFF_FFFF;
    proof {
        assert((0xFFFF_FFFFu64 + 1) * (0xFFFF_FFFFu64 + 1) > m as int) by (nonlinear_arith);
    }
    while lo < hi
        invariant
            lo <= hi <= 0xFFFF_FFFF,
            lo * lo <= m,
            m < (hi + 1) * (hi + 1),
        decreases hi - lo,
    {
        let mid = lo + (hi - lo + 1) / 2;
        proof {
            assert(mid * mid <= 0xFFFF_FFFFu64 * 0xFFFF_FFFFu64) by (nonlinear_arith)
                requires
                    mid <= 0xFFFF_FFFFu64,
            ;
        }
        if mid * mid <= m {
            lo = mid;
        } else {
            hi = mid - 1;
        }
    }
    lo
}

/// A floor quotient is squeezed by any bracketing of its numerator:
/// `lo * d <= num <= hi * d` puts `num / d` in `[lo, hi]`.
pub proof fn lemma_div_between(lo: int, hi: int, num: int, d: int)
    requires
        0 < d,
        lo * d <= num,
        num <= hi * d,
    ensures
        lo <= num / d <= hi,
{
    assert(num / d >= lo) by {
        lemma_div_multiples_vanish_fancy(lo, 0, d);
        assert(lo * d == d * lo) by (nonlinear_arith);
        vstd::arithmetic::div_mod::lemma_div_is_ordered(lo * d, num, d);
    }
    assert(num / d <= hi) by {
        lemma_div_multiples_vanish_fancy(hi, 0, d);
        assert(hi * d == d * hi) by (nonlinear_arith);
        vstd::arithmetic::div_mod::lemma_div_is_ordered(num, hi * d, d);
    }
}

/// The floor quotient of a weighted pair lies between the two endpoints:
/// with weights `den - rem` and `rem` summing to `den`, the average of `a`
/// and `b` cannot leave `[min(a, b), max(a, b)]`.
pub proof fn lemma_weighted_average_bounds(a: int, b: int, rem: int, den: int)
    requires
        0 < den,
        0 <= rem <= den,
    ensures
        (a * (den - rem) + b * rem) / den >= if a <= b { a } else { b },
        (a * (den - rem) + b * rem) / den <= if a <= b { b } else { a },
{
    let low = if a <= b { a } else { b };
    let high = if a <= b { b } else { a };
    let num = a * (den - rem) + b * rem;
    assert(low * den <= num && num <= high * den) by (nonlinear_arith)
        requires
            0 < den,
            0 <= rem <= den,
            low <= a <= high,
            low <= b <= high,
            num == a * (den - rem) + b * rem,
    ;
    lemma_div_between(low, high, num, den);
}

} // verus!
