//! Core of a polyphonic, envelope-driven software synthesizer.
//!
//! All quantities are fixed-point integers in millionths of a unit
//! (`SCALE`): time is in microseconds, frequency in micro-hertz, and
//! amplitudes and samples in micro-units, where `SCALE` stands for 1.0.
//! The surrounding application converts between these units and the
//! floating-point values used by the audio backend and the
//! configuration format.

use vstd::prelude::*;

pub mod envelope;
pub mod hz;
pub mod instrument;
pub mod key;
pub mod midi;
pub mod osc;
pub mod renderer;

verus! {

/// One whole unit (1.0, one second, one hertz) in fixed-point millionths.
pub const SCALE: u64 = 1_000_000;

/// Headroom bound for waveform samples and mixed output: every arithmetic
/// step of the oscillator tree and the mixer saturates at this magnitude
/// instead of overflowing.
pub const CLIP: i64 = 1_000_000_000_000_000_000;

/// Number of key slots; gives headroom beyond the 0..=127 of the standard
/// note range.
pub const KEY_COUNT: usize = 256;

/// `a * b / d` over the full `u64` range, exact in `u128`.
pub(crate) fn mul_div(a: u64, b: u64, d: u64) -> (r: u64)
    requires
        0 < d,
        a * b / (d as int) <= u64::MAX,
    ensures
        r == a * b / (d as int),
{
    proof {
        vstd::arithmetic::mul::lemma_mul_upper_bound(
            a as int,
            u64::MAX as int,
            b as int,
            u64::MAX as int,
        );
        vstd::arithmetic::div_mod::lemma_div_pos_is_pos(a as int * b as int, d as int);
    }
    ((a as u128) * (b as u128) / (d as u128)) as u64
}

/// A fraction `num/den` with `num <= den` scales `a` down: `a * num / den`
/// stays within `[0, a]`.
pub(crate) proof fn lemma_frac_le(a: int, num: int, den: int)
    requires
        0 <= a,
        0 <= num <= den,
        0 < den,
    ensures
        0 <= a * num / den <= a,
{
    vstd::arithmetic::mul::lemma_mul_inequality(num, den, a);
    vstd::arithmetic::mul::lemma_mul_is_commutative(num, a);
    vstd::arithmetic::mul::lemma_mul_is_commutative(den, a);
    vstd::arithmetic::div_mod::lemma_multiply_divide_le(a * num, den, a);
    vstd::arithmetic::div_mod::lemma_div_pos_is_pos(a * num, den);
}

/// A fraction `num/den` with `num < den` scales `a` strictly below `a`
/// whenever `0 < a`: `a * num / den` stays within `[0, a)`.
pub(crate) proof fn lemma_frac_lt(a: int, num: int, den: int)
    requires
        0 < a,
        0 <= num < den,
        0 < den,
    ensures
        0 <= a * num / den < a,
{
    vstd::arithmetic::mul::lemma_mul_strict_inequality(num, den, a);
    vstd::arithmetic::mul::lemma_mul_is_commutative(num, a);
    vstd::arithmetic::mul::lemma_mul_is_commutative(den, a);
    vstd::arithmetic::div_mod::lemma_multiply_divide_lt(a * num, den, a);
    vstd::arithmetic::div_mod::lemma_div_pos_is_pos(a * num, den);
}

} // verus!
