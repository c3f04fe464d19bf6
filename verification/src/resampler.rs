//! Linear-interpolation resampler.
//!
//! Converts a block of samples recorded at one rate into the block a
//! different rate would have produced, by linearly interpolating between
//! the two source samples that surround each fractional source position.
//! A trailing output position whose upper neighbour would fall past the
//! end of the input is dropped, never padded.

use vstd::arithmetic::div_mod::{
    lemma_fundamental_div_mod, lemma_div_is_ordered, lemma_div_multiples_vanish,
    lemma_mod_multiples_basic, lemma_div_of0, lemma_mod_division_less_than_divisor,
    lemma_div_by_multiple,
};
use vstd::arithmetic::mul::{
    lemma_mul_inequality, lemma_mul_is_distributive_add_other_way, lemma_mul_upper_bound,
};
use vstd::prelude::*;

verus! {

/// Lower source neighbour of output index `i`: the floor of the exact
/// source position `i * input_rate / target_rate`.
pub open spec fn src_lo(i: int, input_rate: int, target_rate: int) -> int {
    i * input_rate / target_rate
}

/// Numerator of the fractional part of the exact source position of
/// output index `i`, over the denominator `target_rate`.
pub open spec fn src_frac(i: int, input_rate: int, target_rate: int) -> int {
    (i * input_rate) % target_rate
}

/// Upper source neighbour of output index `i`: equal to the lower one on
/// an exact hit, one past it otherwise.
pub open spec fn src_hi(i: int, input_rate: int, target_rate: int) -> int {
    src_lo(i, input_rate, target_rate) + if src_frac(i, input_rate, target_rate) > 0 {
        1int
    } else {
        0int
    }
}

/// Linear interpolation between `y1` and `y2` at the fraction
/// `frac / den`, with the magnitude of the offset rounded down, so the
/// result always lies between `y1` and `y2` inclusive.
pub open spec fn lerp(y1: int, y2: int, frac: int, den: int) -> int {
    if y2 >= y1 {
        y1 + (y2 - y1) * frac / den
    } else {
        y1 - (y1 - y2) * frac / den
    }
}

/// Value of output sample `i` when `input` is resampled from
/// `input_rate` to `target_rate`.
pub open spec fn resampled_at(input: Seq<i16>, input_rate: int, target_rate: int, i: int) -> int {
    lerp(
        input[src_lo(i, input_rate, target_rate)] as int,
        input[src_hi(i, input_rate, target_rate)] as int,
        src_frac(i, input_rate, target_rate),
        target_rate,
    )
}

/// Ceiling on the output length: the naive ratio estimate
/// `floor(input_len * target_rate / input_rate)`.
pub open spec fn max_output_len(input_len: int, input_rate: int, target_rate: int) -> int {
    input_len * target_rate / input_rate
}

/// Resamples `input` from `input_rate` to `target_rate` by linear
/// interpolation.  The output stops early where the upper source
/// neighbour would fall past the end of the input; at an identity ratio
/// the input comes back unchanged.
pub fn resample(input: &Vec<i16>, input_rate: usize, target_rate: usize) -> (out: Vec<i16>)
    requires
        input_rate > 0,
        target_rate > 0,
        input@.len() * target_rate <= usize::MAX,
    ensures
        out@.len() <= max_output_len(input@.len() as int, input_rate as int, target_rate as int),
        forall|i: int|
            0 <= i < out@.len() ==> src_hi(i, input_rate as int, target_rate as int)
                < input@.len(),
        forall|i: int|
            0 <= i < out@.len() ==> out@[i] as int == resampled_at(
                input@,
                input_rate as int,
                target_rate as int,
                i,
            ),
        out@.len() < max_output_len(input@.len() as int, input_rate as int, target_rate as int)
            ==> src_hi(out@.len() as int, input_rate as int, target_rate as int)
            >= input@.len(),
        input_rate == target_rate ==> out@ == input@,
{
    let len: usize = input.len();
    let limit: usize = len * target_rate / input_rate;
    let mut out: Vec<i16> = Vec::new();
    let mut i: usize = 0;
    while i < limit
        invariant
            input_rate > 0,
            target_rate > 0,
            input@.len() == len,
            len * target_rate <= usize::MAX,
            limit == max_output_len(len as int, input_rate as int, target_rate as int),
            i <= limit,
            out@.len() == i,
            forall|j: int|
                0 <= j < i ==> src_hi(j, input_rate as int, target_rate as int) < len,
            forall|j: int|
                0 <= j < i ==> out@[j] as int == resampled_at(
                    input@,
                    input_rate as int,
                    target_rate as int,
                    j,
                ),
        ensures
            i == out@.len(),
            i == limit || src_hi(i as int, input_rate as int, target_rate as int) >= len,
        decreases limit - i,
    {
        proof {
            let lt = (len as int) * (target_rate as int);
            lemma_fundamental_div_mod(lt, input_rate as int);
            lemma_mod_division_less_than_divisor(lt, input_rate as int);
            assert((input_rate as int) * (limit as int) <= lt);
            lemma_mul_inequality(i as int + 1, limit as int, input_rate as int);
            lemma_mul_is_distributive_add_other_way(input_rate as int, i as int, 1);
            assert((i as int) * (input_rate as int) + (input_rate as int) <= lt);
        }
        let num: usize = i * input_rate;
        let x1: usize = num / target_rate;
        let rem: usize = num % target_rate;
        if x1 >= len {
            break;
        }
        let x2: usize = if rem > 0 {
            x1 + 1
        } else {
            x1
        };
        if x2 >= len {
            break;
        }
        let y1: i16 = input[x1];
        let y2: i16 = input[x2];
        let y: i16 = if y2 >= y1 {
            let du: u128 = ((y2 as i32) - (y1 as i32)) as u128;
            proof {
                lemma_mul_upper_bound(du as int, 0xffff, rem as int, usize::MAX as int);
            }
            let delta: u128 = du * (rem as u128) / (target_rate as u128);
            proof {
                lemma_mul_inequality(rem as int, target_rate as int, du as int);
                lemma_div_is_ordered(
                    du as int * rem as int,
                    du as int * target_rate as int,
                    target_rate as int,
                );
                lemma_div_multiples_vanish(du as int, target_rate as int);
                assert(delta <= du);
            }
            ((y1 as i32) + (delta as i32)) as i16
        } else {
            let dd: u128 = ((y1 as i32) - (y2 as i32)) as u128;
            proof {
                lemma_mul_upper_bound(dd as int, 0xffff, rem as int, usize::MAX as int);
            }
            let delta: u128 = dd * (rem as u128) / (target_rate as u128);
            proof {
                lemma_mul_inequality(rem as int, target_rate as int, dd as int);
                lemma_div_is_ordered(
                    dd as int * rem as int,
                    dd as int * target_rate as int,
                    target_rate as int,
                );
                lemma_div_multiples_vanish(dd as int, target_rate as int);
                assert(delta <= dd);
            }
            ((y1 as i32) - (delta as i32)) as i16
        };
        out.push(y);
        i = i + 1;
    }
    proof {
        if input_rate == target_rate {
            lemma_div_by_multiple(len as int, target_rate as int);
            assert forall|j: int| 0 <= j < out@.len() implies out@[j] == input@[j] by {
                lemma_div_by_multiple(j, target_rate as int);
                lemma_mod_multiples_basic(j, target_rate as int);
                lemma_div_of0(target_rate as int);
                assert(src_lo(j, target_rate as int, target_rate as int) == j);
                assert(src_frac(j, target_rate as int, target_rate as int) == 0);
                assert(resampled_at(input@, target_rate as int, target_rate as int, j)
                    == input@[j] as int);
            }
            assert(limit == len);
            if out@.len() < limit {
                let k = out@.len() as int;
                lemma_div_by_multiple(k, target_rate as int);
                lemma_mod_multiples_basic(k, target_rate as int);
                assert(src_lo(k, target_rate as int, target_rate as int) == k);
                assert(src_frac(k, target_rate as int, target_rate as int) == 0);
                assert(src_hi(k, target_rate as int, target_rate as int) == k);
                assert(k >= len);
                assert(false);
            }
            assert(out@.len() == len);
            assert(out@ =~= input@);
        }
    }
    out
}

/// Resamples a capture block to the pipeline's 8 kHz target rate.
pub fn normalize_audio_data_to_8k(input_data: &Vec<i16>, input_sample_rate: usize) -> (out: Vec<
    i16,
>)
    requires
        input_sample_rate > 0,
        input_data@.len() * 8000 <= usize::MAX,
    ensures
        out@.len() <= max_output_len(input_data@.len() as int, input_sample_rate as int, 8000),
        forall|i: int|
            0 <= i < out@.len() ==> src_hi(i, input_sample_rate as int, 8000)
                < input_data@.len(),
        forall|i: int|
            0 <= i < out@.len() ==> out@[i] as int == resampled_at(
                input_data@,
                input_sample_rate as int,
                8000,
                i,
            ),
        out@.len() < max_output_len(input_data@.len() as int, input_sample_rate as int, 8000)
            ==> src_hi(out@.len() as int, input_sample_rate as int, 8000)
            >= input_data@.len(),
        input_sample_rate == 8000 ==> out@ == input_data@,
{
    resample(input_data, input_sample_rate, 8000)
}

/// Resamples a capture block to 16 kHz.
pub fn normalize_audio_data_to_16k(input_data: &Vec<i16>, input_sample_rate: usize) -> (out: Vec<
    i16,
>)
    requires
        input_sample_rate > 0,
        input_data@.len() * 16000 <= usize::MAX,
    ensures
        out@.len() <= max_output_len(input_data@.len() as int, input_sample_rate as int, 16000),
        forall|i: int|
            0 <= i < out@.len() ==> src_hi(i, input_sample_rate as int, 16000)
                < input_data@.len(),
        forall|i: int|
            0 <= i < out@.len() ==> out@[i] as int == resampled_at(
                input_data@,
                input_sample_rate as int,
                16000,
                i,
            ),
        out@.len() < max_output_len(input_data@.len() as int, input_sample_rate as int, 16000)
            ==> src_hi(out@.len() as int, input_sample_rate as int, 16000)
            >= input_data@.len(),
        input_sample_rate == 16000 ==> out@ == input_data@,
{
    resample(input_data, input_sample_rate, 16000)
}

} // verus!
