//! Fixed-point arithmetic helpers shared by the synthesis algorithms.
//!
//! An amplitude of 1.0 is represented by `SCALE`; a phase position is a
//! number of millionths of one waveform cycle, so one full cycle is also
//! `SCALE`.  All helpers divide only non-negative quantities, so the
//! executable truncating division agrees with the mathematical one.

use vstd::prelude::*;

verus! {

/// 1.0 in fixed point: one million micro-units.
pub const SCALE: i64 = 1_000_000;

/// Half of one waveform cycle, in micro-cycles.
pub const HALF_CYCLE: i64 = 500_000;

/// A quarter of one waveform cycle, in micro-cycles.
pub const QUARTER_CYCLE: i64 = 250_000;

/// The sine of `pi * u / SCALE` scaled by `SCALE`, for `u` in `[0, SCALE]`,
/// by the rational approximation `16u'(1-u') / (5 - 4u'(1-u'))` with
/// `u' = u / SCALE`.  It is exact at `u = 0` (0), `u = SCALE/2` (`SCALE`)
/// and `u = SCALE` (0), and lies in `[0, SCALE]` throughout.
pub open spec fn spec_sine_half(u: int) -> int {
    let y = u * (SCALE - u) / (SCALE as int);
    16 * y * SCALE / (5 * SCALE - 4 * y)
}

/// The sine of one full cycle position `p` in `[0, SCALE)`, scaled by `SCALE`.
pub open spec fn spec_sine_cycle(p: int) -> int {
    if p < HALF_CYCLE {
        spec_sine_half(2 * p)
    } else {
        -spec_sine_half(2 * (p - HALF_CYCLE))
    }
}

/// The sine at an arbitrary non-negative phase position, reduced modulo one cycle.
pub open spec fn spec_sine(x: int) -> int {
    spec_sine_cycle(x % (SCALE as int))
}

proof fn lemma_quarter_square_bound(u: int)
    requires
        0 <= u <= SCALE,
    ensures
        0 <= u * (SCALE - u) <= (SCALE as int) * (SCALE as int) / 4,
{
    assert(0 <= u * (SCALE - u) <= (SCALE as int) * (SCALE as int) / 4) by (nonlinear_arith)
        requires
            0 <= u <= SCALE,
    ;
}

/// The half-cycle sine approximation stays within `[0, SCALE]`.
pub proof fn lemma_sine_half_bounds(u: int)
    requires
        0 <= u <= SCALE,
    ensures
        0 <= spec_sine_half(u) <= SCALE,
{
    lemma_quarter_square_bound(u);
    let prod = u * (SCALE - u);
    let y = prod / (SCALE as int);
    assert(0 <= y <= 250_000) by (nonlinear_arith)
        requires
            0 <= prod <= (SCALE as int) * (SCALE as int) / 4,
            y == prod / (SCALE as int),
    ;
    let den = 5 * SCALE - 4 * y;
    let num = 16 * y * SCALE;
    assert(4_000_000 <= den <= 5_000_000);
    assert(0 <= num <= SCALE * den) by (nonlinear_arith)
        requires
            0 <= y <= 250_000,
            den == 5 * SCALE - 4 * y,
            num == 16 * y * SCALE,
    ;
    assert(0 <= num / den <= SCALE) by (nonlinear_arith)
        requires
            0 <= num <= SCALE * den,
            4_000_000 <= den,
    ;
}

/// The full-cycle sine stays within `[-SCALE, SCALE]`.
pub proof fn lemma_sine_cycle_bounds(p: int)
    requires
        0 <= p < SCALE,
    ensures
        -SCALE <= spec_sine_cycle(p) <= SCALE,
{
    if p < HALF_CYCLE {
        lemma_sine_half_bounds(2 * p);
    } else {
        lemma_sine_half_bounds(2 * (p - HALF_CYCLE));
    }
}

/// The sine at any non-negative position stays within `[-SCALE, SCALE]`.
pub proof fn lemma_sine_bounds(x: int)
    requires
        0 <= x,
    ensures
        -SCALE <= spec_sine(x) <= SCALE,
{
    lemma_sine_cycle_bounds(x % (SCALE as int));
}

/// The sine of `pi * u / SCALE` scaled by `SCALE`, for `u` in `[0, SCALE]`.
fn sine_half(u: i64) -> (r: i64)
    requires
        0 <= u <= SCALE,
    ensures
        r == spec_sine_half(u as int),
        0 <= r <= SCALE,
{
    proof {
        lemma_quarter_square_bound(u as int);
        lemma_sine_half_bounds(u as int);
    }
    let y: i64 = u * (SCALE - u) / SCALE;
    assert(0 <= y <= 250_000) by (nonlinear_arith)
        requires
            0 <= (u as int) * (SCALE - u as int) <= (SCALE as int) * (SCALE as int) / 4,
            y == (u as int) * (SCALE - u as int) / (SCALE as int),
    ;
    16 * y * SCALE / (5 * SCALE - 4 * y)
}

/// The sine of a full-cycle position, scaled by `SCALE`; the sine wave used
/// by every oscillator of the waveform bank.
pub fn sine_at(x: i64) -> (r: i64)
    requires
        0 <= x,
    ensures
        r == spec_sine(x as int),
        -SCALE <= r <= SCALE,
{
    let p: i64 = x % SCALE;
    if p < HALF_CYCLE {
        sine_half(2 * p)
    } else {
        let r = sine_half(2 * (p - HALF_CYCLE));
        -r
    }
}

/// `a * w / SCALE` with a sign split so that only non-negative values are
/// divided: attenuates an amplitude `a` by a weight `w` in `[0, SCALE]`.
pub open spec fn spec_attenuate(a: int, w: int) -> int {
    if a >= 0 {
        a * w / (SCALE as int)
    } else {
        -((-a) * w / (SCALE as int))
    }
}

/// The attenuated amplitude shrinks with both the magnitude bound of the
/// input and the weight: from `-m <= a <= m` follows
/// `|spec_attenuate(a, w)| <= m * w / SCALE <= m`.
pub proof fn lemma_attenuate_bounds(a: int, w: int, m: int)
    requires
        -m <= a <= m,
        0 <= m,
        0 <= w <= SCALE,
    ensures
        -(m * w / (SCALE as int)) <= spec_attenuate(a, w) <= m * w / (SCALE as int),
        m * w / (SCALE as int) <= m,
        a >= 0 ==> 0 <= spec_attenuate(a, w) <= a,
        a <= 0 ==> a <= spec_attenuate(a, w) <= 0,
{
    assert(0 <= m * w / (SCALE as int) <= m) by (nonlinear_arith)
        requires
            0 <= m,
            0 <= w <= SCALE,
    ;
    if a >= 0 {
        assert(0 <= a * w / (SCALE as int) <= m * w / (SCALE as int) && a * w / (SCALE as int)
            <= a) by (nonlinear_arith)
            requires
                0 <= a <= m,
                0 <= w <= SCALE,
        ;
    } else {
        assert(0 <= (-a) * w / (SCALE as int) <= m * w / (SCALE as int) && (-a) * w / (
        SCALE as int) <= -a) by (nonlinear_arith)
            requires
                0 < -a <= m,
                0 <= w <= SCALE,
        ;
    }
}

/// Attenuate an amplitude by a fixed-point weight in `[0, SCALE]`.
pub fn attenuate(a: i64, w: i64) -> (r: i64)
    requires
        -4 * SCALE <= a <= 4 * SCALE,
        0 <= w <= SCALE,
    ensures
        r == spec_attenuate(a as int, w as int),
        a >= 0 ==> 0 <= r <= a,
        a <= 0 ==> a <= r <= 0,
        -SCALE <= a <= SCALE ==> -w <= r <= w,
{
    proof {
        lemma_attenuate_bounds(a as int, w as int, 4 * SCALE as int);
        if -SCALE <= a <= SCALE {
            lemma_attenuate_bounds(a as int, w as int, SCALE as int);
            assert((SCALE as int) * (w as int) / (SCALE as int) == w) by (nonlinear_arith);
        }
    }
    if a >= 0 {
        a * w / SCALE
    } else {
        -((-a) * w / SCALE)
    }
}

/// Rational soft saturation `x / (1 + |x|)` in fixed point: squeezes any
/// amplitude into `(-SCALE, SCALE)` while keeping small values nearly linear.
pub open spec fn spec_soft_clip(x: int) -> int {
    if x >= 0 {
        x * (SCALE as int) / ((SCALE as int) + x)
    } else {
        -((-x) * (SCALE as int) / ((SCALE as int) - x))
    }
}

/// Soft clipping keeps every amplitude strictly inside `[-SCALE, SCALE]`.
pub proof fn lemma_soft_clip_bounds(x: int)
    ensures
        -SCALE <= spec_soft_clip(x) <= SCALE,
        x >= 0 ==> 0 <= spec_soft_clip(x),
        x <= 0 ==> spec_soft_clip(x) <= 0,
{
    if x >= 0 {
        assert(0 <= x * (SCALE as int) / ((SCALE as int) + x) <= SCALE) by (nonlinear_arith)
            requires
                x >= 0,
        ;
    } else {
        assert(0 <= (-x) * (SCALE as int) / ((SCALE as int) - x) <= SCALE) by (nonlinear_arith)
            requires
                x < 0,
        ;
    }
}

/// Softly saturate an amplitude, in place of an analog-style clipper.
pub fn soft_clip(x: i64) -> (r: i64)
    requires
        -100 * SCALE <= x <= 100 * SCALE,
    ensures
        r == spec_soft_clip(x as int),
        -SCALE <= r <= SCALE,
{
    proof {
        lemma_soft_clip_bounds(x as int);
    }
    if x >= 0 {
        x * SCALE / (SCALE + x)
    } else {
        -((-x) * SCALE / (SCALE - x))
    }
}

} // verus!
