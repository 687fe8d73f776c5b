//! Linear-interpolation sample-rate conversion.
//!
//! A recording captured at the device's native rate must be brought to the
//! fixed rate the speech recognizer expects. For each output index `i` the
//! source position `i * from / to` is split into a whole input index and a
//! remainder, and the two neighbouring input samples are averaged with
//! weights proportional to the remainder (the right neighbour is clamped to
//! the last sample at the end of the input).

use vstd::prelude::*;
use crate::arith::{floor_div_i64, lemma_weighted_average_bounds};
use vstd::arithmetic::div_mod::{
    lemma_div_multiples_vanish, lemma_div_pos_is_pos, lemma_fundamental_div_mod,
    lemma_mod_division_less_than_divisor, lemma_mod_multiples_basic, lemma_multiply_divide_lt,
};
use vstd::arithmetic::mul::lemma_mul_inequality;

verus! {

/// Number of output samples when `n` input samples at `from` Hz are
/// converted to `to` Hz: `floor(n * to / from)`.
pub open spec fn resampled_len(n: int, from: int, to: int) -> int {
    n * to / from
}

/// Value of output sample `i` as an unbounded integer: the two input
/// samples around the source position `i * from / to`, averaged with
/// weights `to - rem` and `rem` where `rem` is the fractional part
/// expressed in `to`-ths.
pub open spec fn resample_at(x: Seq<i32>, from: int, to: int, i: int) -> int
    recommends
        0 < from,
        0 < to,
        0 <= i < resampled_len(x.len() as int, from, to),
{
    let pos = i * from;
    let lo = pos / to;
    let rem = pos % to;
    let hi = if lo + 1 < x.len() { lo + 1 } else { x.len() - 1 };
    (x[lo] * (to - rem) + x[hi] * rem) / to
}

/// The whole converted sequence, sample by sample.
pub open spec fn resample_seq(x: Seq<i32>, from: int, to: int) -> Seq<i32> {
    Seq::new(
        resampled_len(x.len() as int, from, to) as nat,
        |i: int| resample_at(x, from, to, i) as i32,
    )
}

/// Every output index reads a source index strictly inside the input.
proof fn lemma_source_index_in_range(n: int, from: int, to: int, i: int)
    requires
        0 < from,
        0 < to,
        0 <= i < resampled_len(n, from, to),
    ensures
        0 < n,
        0 <= i * from / to < n,
        0 <= i * from % to < to,
{
    let q = n * to / from;
    lemma_fundamental_div_mod(n * to, from);
    lemma_mod_division_less_than_divisor(n * to, from);
    assert(from * q <= n * to);
    lemma_mul_inequality(i + 1, q, from);
    assert((i + 1) * from == i * from + from) by (nonlinear_arith);
    assert(q * from == from * q) by (nonlinear_arith);
    assert(i * from < n * to);
    assert(n * to == to * n) by (nonlinear_arith);
    lemma_multiply_divide_lt(i * from, to, n);
    vstd::arithmetic::mul::lemma_mul_nonnegative(i, from);
    lemma_div_pos_is_pos(i * from, to);
    lemma_mod_division_less_than_divisor(i * from, to);
    assert(0 < n) by (nonlinear_arith)
        requires
            0 < from,
            0 < to,
            0 < n * to / from,
            n * to / from * from <= n * to,
    ;
}

/// Convert `input`, captured at `from_rate` Hz, to `to_rate` Hz.
///
/// The output length is exactly `floor(len * to_rate / from_rate)` and each
/// output sample is the weighted average of its two source neighbours. An
/// empty input yields an empty output.
pub fn resample(input: &Vec<i32>, from_rate: u32, to_rate: u32) -> (out: Vec<i32>)
    requires
        0 < from_rate,
        0 < to_rate,
        resampled_len(input@.len() as int, from_rate as int, to_rate as int) <= usize::MAX,
    ensures
        out@.len() == resampled_len(input@.len() as int, from_rate as int, to_rate as int),
        forall|i: int|
            0 <= i < out@.len() ==> out@[i] as int == resample_at(
                input@,
                from_rate as int,
                to_rate as int,
                i,
            ),
        out@ == resample_seq(input@, from_rate as int, to_rate as int),
{
    let n = input.len();
    if n == 0 {
        proof {
            assert(resampled_len(0, from_rate as int, to_rate as int) == 0) by {
                assert(0int * (to_rate as int) == 0) by (nonlinear_arith);
                vstd::arithmetic::div_mod::lemma_div_of0(from_rate as int);
            }
            assert(resample_seq(input@, from_rate as int, to_rate as int) =~= Seq::<
                i32,
            >::empty());
        }
        return Vec::new();
    }

    let from128 = from_rate as u128;
    let to128 = to_rate as u128;
    proof {
        assert((n as int) * (to128 as int) < 0x1_0000_0000_0000_0000_0000_0000int)
            by (nonlinear_arith)
            requires
                0 <= n as int <= 0xFFFF_FFFF_FFFF_FFFFu64 as int,
                0 <= to128 as int <= 0xFFFF_FFFFu64 as int,
        ;
    }
    let out_len128 = (n as u128) * to128 / from128;
    proof {
        lemma_div_pos_is_pos((n as u128) * to128 as int, from128 as int);
        vstd::arithmetic::mul::lemma_mul_nonnegative(n as int, to128 as int);
    }
    let out_len = out_len128 as usize;

    let mut out: Vec<i32> = Vec::new();
    let mut i: usize = 0;
    while i < out_len
        invariant
            0 < from_rate,
            0 < to_rate,
            0 < n == input@.len(),
            out_len == resampled_len(n as int, from_rate as int, to_rate as int),
            i <= out_len,
            out@.len() == i,
            forall|j: int|
                0 <= j < i ==> out@[j] as int == resample_at(
                    input@,
                    from_rate as int,
                    to_rate as int,
                    j,
                ),
        decreases out_len - i,
    {
        proof {
            lemma_source_index_in_range(n as int, from_rate as int, to_rate as int, i as int);
            assert((i as int) * (from_rate as int) < 0x1_0000_0000_0000_0000_0000_0000int)
                by (nonlinear_arith)
                requires
                    0 <= i as int <= 0xFFFF_FFFF_FFFF_FFFFu64 as int,
                    0 <= from_rate as int <= 0xFFFF_FFFFu64 as int,
            ;
        }
        let pos = (i as u128) * (from_rate as u128);
        let lo = (pos / (to_rate as u128)) as usize;
        let rem = (pos % (to_rate as u128)) as i64;
        let den = to_rate as i64;
        let hi = if lo + 1 < n {
            lo + 1
        } else {
            n - 1
        };
        let a = input[lo] as i64;
        let b = input[hi] as i64;
        proof {
            assert(a * (den - rem) <= 0x7FFF_FFFFi64 * den && a * (den - rem) >= (-0x8000_0000i64)
                * den && b * rem <= 0x7FFF_FFFFi64 * den && b * rem >= (-0x8000_0000i64) * den && a
                * (den - rem) + b * rem <= 0x7FFF_FFFFi64 * den && a * (den - rem) + b * rem >= (
            -0x8000_0000i64) * den) by (nonlinear_arith)
                requires
                    -0x8000_0000i64 <= a <= 0x7FFF_FFFFi64,
                    -0x8000_0000i64 <= b <= 0x7FFF_FFFFi64,
                    0 <= rem <= den,
                    0 < den,
            ;
            assert(0x7FFF_FFFFi64 * den < 0x7FFF_FFFF_FFFF_FFFFi64 && (-0x8000_0000i64) * den
                > i64::MIN as int) by (nonlinear_arith)
                requires
                    0 < den <= 0xFFFF_FFFFi64,
            ;
        }
        let num = a * (den - rem) + b * rem;
        let q = floor_div_i64(num, den);
        proof {
            lemma_weighted_average_bounds(a as int, b as int, rem as int, den as int);
        }
        out.push(q as i32);
        i = i + 1;
    }
    proof {
        assert(out@ =~= resample_seq(input@, from_rate as int, to_rate as int));
    }
    out
}

/// Converting at equal rates is the identity: the output has the input's
/// length and every sample is reproduced exactly, because each source
/// position falls on a whole index with a zero remainder.
pub proof fn lemma_resample_identity(x: Seq<i32>, r: int)
    requires
        0 < r,
    ensures
        resampled_len(x.len() as int, r, r) == x.len(),
        forall|i: int| 0 <= i < x.len() ==> resample_at(x, r, r, i) == x[i] as int,
{
    let n = x.len() as int;
    assert(n * r / r == n) by {
        lemma_div_multiples_vanish(n, r);
        assert(n * r == r * n) by (nonlinear_arith);
    }
    assert forall|i: int| 0 <= i < x.len() implies resample_at(x, r, r, i) == x[i] as int by {
        let pos = i * r;
        assert(pos / r == i && pos % r == 0) by {
            lemma_div_multiples_vanish(i, r);
            lemma_mod_multiples_basic(i, r);
            assert(i * r == r * i) by (nonlinear_arith);
        }
        let hi = if i + 1 < x.len() { i + 1 } else { x.len() - 1 };
        assert(x[i] * (r - 0) + x[hi] * 0 == x[i] * r) by (nonlinear_arith);
        assert(x[i] * r / r == x[i]) by {
            lemma_div_multiples_vanish(x[i] as int, r);
            assert(x[i] * r == r * x[i]) by (nonlinear_arith);
        }
    }
}

} // verus!
