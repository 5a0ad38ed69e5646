//! Fade curves applied in the per-sample decode path.
//!
//! A fade window is described by two nanosecond counters, `remaining` and
//! `total`. The amplitude applied to a sample is a rational level
//! `num / total` with `0 <= num <= total`:
//!
//! - fade-out: `max(0, 2 * remaining / total - 1)`, a curve that reaches
//!   exact silence in the back half of the window by design rather than a
//!   plain linear ramp;
//! - fade-in: the mirror curve `max(0, 2 * (1 - remaining / total) - 1)`.

use vstd::prelude::*;

verus! {

/// Clamps a level numerator into `[0, den]`, so that the level `num / den`
/// always lies in `[0, 1]`.
pub open spec fn clamp_num(num: int, den: int) -> int {
    if num < 0 {
        0
    } else if num > den {
        den
    } else {
        num
    }
}

/// Numerator (over denominator `total`) of the fade-out amplitude:
/// `max(0, 2 * remaining / total - 1)` clamped to `[0, 1]`.
pub open spec fn fade_out_num(remaining: int, total: int) -> int {
    if total <= 0 {
        0
    } else {
        clamp_num(2 * remaining - total, total)
    }
}

/// Numerator (over denominator `total`) of the fade-in amplitude:
/// `max(0, 2 * (1 - remaining / total) - 1)` clamped to `[0, 1]`.
pub open spec fn fade_in_num(remaining: int, total: int) -> int {
    if total <= 0 {
        0
    } else {
        clamp_num(total - 2 * remaining, total)
    }
}

/// A sample attenuated by the level `num / den`, truncated toward zero as a
/// fixed-point multiply is.
pub open spec fn scale_sample(s: int, num: int, den: int) -> int {
    if s >= 0 {
        (s * num) / den
    } else {
        -((-s * num) / den)
    }
}

/// Computes the fade-out level numerator over denominator `total`.
pub fn fade_out_level(remaining: u64, total: u64) -> (num: u64)
    ensures
        num == fade_out_num(remaining as int, total as int),
        num <= total,
{
    let r: u128 = remaining as u128;
    let t: u128 = total as u128;
    if total == 0 {
        0
    } else if 2 * r <= t {
        0
    } else if 2 * r - t >= t {
        total
    } else {
        (2 * r - t) as u64
    }
}

/// Computes the fade-in level numerator over denominator `total`.
pub fn fade_in_level(remaining: u64, total: u64) -> (num: u64)
    ensures
        num == fade_in_num(remaining as int, total as int),
        num <= total,
{
    let r: u128 = remaining as u128;
    let t: u128 = total as u128;
    if total == 0 {
        0
    } else if 2 * r >= t {
        0
    } else {
        (t - 2 * r) as u64
    }
}

/// Multiplies a sample by the level `num / den`, truncating toward zero.
/// The result never exceeds the sample in magnitude.
pub fn attenuate(sample: i16, num: u64, den: u64) -> (r: i16)
    requires
        0 < den,
        num <= den,
    ensures
        r as int == scale_sample(sample as int, num as int, den as int),
{
    let mag: u128 = if sample >= 0 {
        sample as u128
    } else {
        (-(sample as i32)) as u128
    };
    proof {
        assert((mag as int) * (num as int) <= 0x8000 * 0xffff_ffff_ffff_ffffu64) by (nonlinear_arith)
            requires 0 <= mag <= 0x8000, 0 <= num <= 0xffff_ffff_ffff_ffffu64,
        ;
    }
    let scaled: u128 = mag * (num as u128) / (den as u128);
    proof {
        let m = mag as int;
        let n = num as int;
        let d = den as int;
        assert(m * n / d <= m) by (nonlinear_arith)
            requires n <= d, 0 <= m, 0 < d,
        ;
    }
    if sample >= 0 {
        scaled as i16
    } else {
        (-(scaled as i32)) as i16
    }
}

/// The fade-out level never increases as the window's `remaining` counter
/// runs down, so the fade-out factor is monotonically non-increasing over
/// the fade window.
pub proof fn lemma_fade_out_monotonic(r1: int, r2: int, t: int)
    requires
        r1 <= r2,
    ensures
        fade_out_num(r1, t) <= fade_out_num(r2, t),
{
}

/// The fade-out level is exactly zero through the whole back half of the
/// window, so silence is reached at or before the window's end.
pub proof fn lemma_fade_out_reaches_silence(r: int, t: int)
    requires
        2 * r <= t,
    ensures
        fade_out_num(r, t) == 0,
{
}

/// The fade-in level never decreases as the window's `remaining` counter
/// runs down, so the fade-in factor is monotonically non-decreasing over
/// the fade window.
pub proof fn lemma_fade_in_monotonic(r1: int, r2: int, t: int)
    requires
        r1 <= r2,
    ensures
        fade_in_num(r1, t) >= fade_in_num(r2, t),
{
}

/// The fade-in level is exactly one (`t / t`) at the window's end.
pub proof fn lemma_fade_in_reaches_full(t: int)
    requires
        t > 0,
    ensures
        fade_in_num(0, t) == t,
{
}

/// Both fade levels are clamped into `[0, 1]` for every input, including
/// `remaining > total`.
pub proof fn lemma_fade_levels_clamped(r: int, t: int)
    ensures
        0 <= fade_out_num(r, t) <= if t >= 0 { t } else { 0 },
        0 <= fade_in_num(r, t) <= if t >= 0 { t } else { 0 },
{
}

} // verus!
