//! Waveform kinds and their synthesis algorithms.
//!
//! Each kind is a pure function from (phase, frequency, sample rate) to an
//! amplitude in fixed point.  A phase is a position in `[0, SCALE)` within
//! one cycle, a frequency is in millihertz and a sample rate in hertz.
//! Every generator is proved to stay within `[-2 * SCALE, 2 * SCALE]`.

use vstd::prelude::*;
use vstd::string::*;

use crate::fixed::{
    attenuate, sine_at, soft_clip, spec_attenuate, spec_sine, spec_soft_clip, HALF_CYCLE,
    QUARTER_CYCLE, SCALE,
};
use crate::text::{eq_ignore_case, spec_lower_codes};

verus! {

/// Available waveform kinds.
#[derive(Clone, Copy, Debug, PartialEq, Eq, Structural)]
pub enum Waveform {
    /// Piano-like additive synthesis with harmonics and subtle vibrato.
    Natural,
    /// Pure sine wave for a clean electronic sound.
    Electronic,
    /// Sawtooth wave for bright electronic music.
    Saw,
    /// Square wave for a retro sound.
    Square,
    /// Analog-style synthesizer with detuned layers and a modulated pulse.
    Cyberpunk,
    /// Triangle wave for a smooth electronic sound.
    Triangle,
    /// Precise overtone series with a golden-ratio inharmonic component.
    Harmonic,
    /// Percussive low-frequency synthesis with formants and turbulence.
    Fart,
    /// Deep bass with sub-harmonics and soft saturation.
    Bass,
}

/// `a * s / SCALE` for a signed fixed-point factor `s` in `[-SCALE, SCALE]`,
/// dividing only non-negative quantities.
pub open spec fn spec_modulate(a: int, s: int) -> int {
    if s >= 0 {
        spec_attenuate(a, s)
    } else {
        -spec_attenuate(a, -s)
    }
}

/// Scale an amplitude by a signed fixed-point factor.
pub fn modulate(a: i64, s: i64) -> (r: i64)
    requires
        -4 * SCALE <= a <= 4 * SCALE,
        -SCALE <= s <= SCALE,
    ensures
        r == spec_modulate(a as int, s as int),
        a >= 0 ==> -a <= r <= a,
        a <= 0 ==> a <= r <= -a,
{
    if s >= 0 {
        attenuate(a, s)
    } else {
        -attenuate(a, -s)
    }
}

/// The number of samples already played within the current cycle; the
/// deterministic clock that drives the slow modulations, derived from the
/// phase alone rather than from wall-clock time.
pub open spec fn spec_cycle_time(p: int, f: int, sr: int) -> int {
    p * sr / f
}

fn cycle_time(p: i64, f: i64, sr: i64) -> (t: i64)
    requires
        0 <= p < SCALE,
        0 < f <= 1_000_000_000,
        0 < sr <= 1_000_000,
    ensures
        t == spec_cycle_time(p as int, f as int, sr as int),
        0 <= t <= 1_000_000_000_000,
{
    assert(0 <= (p as int) * (sr as int) <= 1_000_000_000_000) by (nonlinear_arith)
        requires
            0 <= p < SCALE,
            0 < sr <= 1_000_000,
    ;
    assert(0 <= (p as int) * (sr as int) / (f as int) <= 1_000_000_000_000) by (nonlinear_arith)
        requires
            0 <= (p as int) * (sr as int) <= 1_000_000_000_000,
            0 < f,
    ;
    p * sr / f
}

/// Sine with harmonics at decreasing weights and a slight phase vibrato.
pub open spec fn spec_natural(p: int) -> int {
    let vib = spec_attenuate(spec_sine(6 * p), 2000);
    let pmod = p + spec_modulate(p, vib);
    spec_attenuate(spec_sine(pmod), 700_000) + spec_attenuate(spec_sine(p), 300_000)
        + spec_attenuate(spec_sine(2 * p), 300_000) + spec_attenuate(spec_sine(3 * p), 150_000)
        + spec_attenuate(spec_sine(4 * p), 80_000) + spec_attenuate(spec_sine(5 * p), 50_000)
}

fn natural(p: i64) -> (r: i64)
    requires
        0 <= p < SCALE,
    ensures
        r == spec_natural(p as int),
        -2 * SCALE <= r <= 2 * SCALE,
{
    let vib: i64 = attenuate(sine_at(6 * p), 2000);
    let pmod: i64 = p + modulate(p, vib);
    let mfund: i64 = attenuate(sine_at(pmod), 700_000);
    let fund: i64 = attenuate(sine_at(p), 300_000);
    let h2: i64 = attenuate(sine_at(2 * p), 300_000);
    let h3: i64 = attenuate(sine_at(3 * p), 150_000);
    let h4: i64 = attenuate(sine_at(4 * p), 80_000);
    let h5: i64 = attenuate(sine_at(5 * p), 50_000);
    mfund + fund + h2 + h3 + h4 + h5
}

/// Rising ramp from `-SCALE` to `SCALE` across one cycle.
pub open spec fn spec_saw(p: int) -> int {
    2 * p - SCALE
}

/// `SCALE` over the first half cycle, `-SCALE` over the second.
pub open spec fn spec_square(p: int) -> int {
    if p < HALF_CYCLE {
        SCALE as int
    } else {
        -SCALE as int
    }
}

/// Linear ramp up over the first half cycle and down over the second.
pub open spec fn spec_triangle(p: int) -> int {
    if p < HALF_CYCLE {
        4 * p - SCALE
    } else {
        3 * SCALE - 4 * p
    }
}

/// A sawtooth blended with a sub-octave sine, a width-modulated pulse and
/// two slightly detuned sine layers, amplitude-modulated by a slow
/// cycle-time oscillator and softly clipped.
pub open spec fn spec_cyberpunk(p: int, f: int, sr: int) -> int {
    let t = spec_cycle_time(p, f, sr);
    let lfo = spec_sine(t * 3 / 10);
    let pw = HALF_CYCLE + spec_attenuate(lfo, 200_000);
    let pulse: int = if p < pw {
        SCALE as int
    } else {
        -SCALE as int
    };
    let mix = spec_attenuate(spec_saw(p), 300_000)
        + spec_attenuate(spec_sine(p * 1003 / 1000), 250_000) + spec_attenuate(
        spec_sine(p * 997 / 1000),
        200_000,
    ) + spec_attenuate(spec_sine(p / 2), 300_000) + spec_attenuate(pulse, 250_000);
    let modulated = mix + spec_modulate(mix, spec_attenuate(lfo, 100_000));
    spec_attenuate(spec_soft_clip(modulated), 800_000)
}

fn cyberpunk(p: i64, f: i64, sr: i64) -> (r: i64)
    requires
        0 <= p < SCALE,
        0 < f <= 1_000_000_000,
        0 < sr <= 1_000_000,
    ensures
        r == spec_cyberpunk(p as int, f as int, sr as int),
        -2 * SCALE <= r <= 2 * SCALE,
{
    let t: i64 = cycle_time(p, f, sr);
    let lfo: i64 = sine_at(t * 3 / 10);
    let pw: i64 = HALF_CYCLE + attenuate(lfo, 200_000);
    let pulse: i64 = if p < pw {
        SCALE
    } else {
        -SCALE
    };
    let saw: i64 = attenuate(2 * p - SCALE, 300_000);
    let det1: i64 = attenuate(sine_at(p * 1003 / 1000), 250_000);
    let det2: i64 = attenuate(sine_at(p * 997 / 1000), 200_000);
    let sub: i64 = attenuate(sine_at(p / 2), 300_000);
    let mix: i64 = saw + det1 + det2 + sub + attenuate(pulse, 250_000);
    let modulated: i64 = mix + modulate(mix, attenuate(lfo, 100_000));
    attenuate(soft_clip(modulated), 800_000)
}

/// Eight-term overtone series plus a golden-ratio inharmonic component.
pub open spec fn spec_harmonic(p: int) -> int {
    let sum = spec_sine(p) + spec_attenuate(spec_sine(2 * p), 500_000) + spec_attenuate(
        spec_sine(3 * p),
        333_333,
    ) + spec_attenuate(spec_sine(4 * p), 250_000) + spec_attenuate(spec_sine(5 * p), 200_000)
        + spec_attenuate(spec_sine(6 * p), 166_666) + spec_attenuate(spec_sine(7 * p), 142_857)
        + spec_attenuate(spec_sine(8 * p), 125_000);
    spec_attenuate(sum, 600_000) + spec_attenuate(spec_sine(p * 1618 / 1000), 100_000)
}

fn harmonic(p: i64) -> (r: i64)
    requires
        0 <= p < SCALE,
    ensures
        r == spec_harmonic(p as int),
        -2 * SCALE <= r <= 2 * SCALE,
{
    let h1: i64 = sine_at(p);
    let h2: i64 = attenuate(sine_at(2 * p), 500_000);
    let h3: i64 = attenuate(sine_at(3 * p), 333_333);
    let h4: i64 = attenuate(sine_at(4 * p), 250_000);
    let h5: i64 = attenuate(sine_at(5 * p), 200_000);
    let h6: i64 = attenuate(sine_at(6 * p), 166_666);
    let h7: i64 = attenuate(sine_at(7 * p), 142_857);
    let h8: i64 = attenuate(sine_at(8 * p), 125_000);
    let sum: i64 = h1 + h2 + h3 + h4 + h5 + h6 + h7 + h8;
    proof {
        crate::fixed::lemma_attenuate_bounds(sum as int, 600_000, 2_800_000);
    }
    attenuate(sum, 600_000) + attenuate(sine_at(p * 1618 / 1000), 100_000)
}

/// The synthesis frequency of the percussive low kind, forced into the
/// 40 Hz to 150 Hz band whatever pitch was requested.
pub open spec fn spec_fart_freq(f: int) -> int {
    let raw = f * 15 / 100;
    if raw < 40_000 {
        40_000
    } else if raw > 150_000 {
        150_000
    } else {
        raw
    }
}

/// Low fundamental with harmonics, body formants near 80 Hz and 120 Hz,
/// breath-like amplitude modulation and faint turbulence, softly clipped.
pub open spec fn spec_fart(p: int, f: int, sr: int) -> int {
    let ff = spec_fart_freq(f);
    let fp = p * ff / f;
    let t = spec_cycle_time(p, f, sr);
    let tonal = spec_attenuate(spec_sine(fp), 800_000) + spec_attenuate(spec_sine(2 * fp), 400_000)
        + spec_attenuate(spec_sine(3 * fp), 250_000) + spec_attenuate(spec_sine(4 * fp), 150_000)
        + spec_attenuate(spec_sine(fp / 2), 300_000) + spec_attenuate(
        spec_sine(fp * 80_000 / ff),
        300_000,
    ) + spec_attenuate(spec_sine(fp * 120_000 / ff), 200_000);
    let breath = 980_000 + spec_attenuate(spec_sine(2 * t), 20_000);
    let turb = spec_attenuate(spec_sine(50 * t), 50_000);
    spec_soft_clip(spec_attenuate(spec_attenuate(tonal, breath) + turb, 400_000))
}

fn fart(p: i64, f: i64, sr: i64) -> (r: i64)
    requires
        0 <= p < SCALE,
        0 < f <= 1_000_000_000,
        0 < sr <= 1_000_000,
    ensures
        r == spec_fart(p as int, f as int, sr as int),
        -2 * SCALE <= r <= 2 * SCALE,
{
    let raw: i64 = f * 15 / 100;
    let ff: i64 = if raw < 40_000 {
        40_000
    } else if raw > 150_000 {
        150_000
    } else {
        raw
    };
    assert(0 <= (p as int) * (ff as int) <= 150_000_000_000) by (nonlinear_arith)
        requires
            0 <= p < SCALE,
            40_000 <= ff <= 150_000,
    ;
    let fp: i64 = p * ff / f;
    assert(0 <= fp <= 150_000_000_000) by (nonlinear_arith)
        requires
            0 <= (p as int) * (ff as int) <= 150_000_000_000,
            0 < f,
            fp == (p as int) * (ff as int) / (f as int),
    ;
    let t: i64 = cycle_time(p, f, sr);
    let fund: i64 = attenuate(sine_at(fp), 800_000);
    let h2: i64 = attenuate(sine_at(2 * fp), 400_000);
    let h3: i64 = attenuate(sine_at(3 * fp), 250_000);
    let h4: i64 = attenuate(sine_at(4 * fp), 150_000);
    let sub: i64 = attenuate(sine_at(fp / 2), 300_000);
    assert(0 <= (fp as int) * 80_000 <= 12_000_000_000_000_000) by (nonlinear_arith)
        requires
            0 <= fp <= 150_000_000_000,
    ;
    assert(0 <= (fp as int) * 120_000 <= 18_000_000_000_000_000) by (nonlinear_arith)
        requires
            0 <= fp <= 150_000_000_000,
    ;
    let fq1: i64 = fp * 80_000 / ff;
    let fq2: i64 = fp * 120_000 / ff;
    assert(0 <= fq1 && 0 <= fq2) by (nonlinear_arith)
        requires
            0 <= (fp as int) * 80_000,
            0 <= (fp as int) * 120_000,
            40_000 <= ff,
            fq1 == (fp as int) * 80_000 / (ff as int),
            fq2 == (fp as int) * 120_000 / (ff as int),
    ;
    let form1: i64 = attenuate(sine_at(fq1), 300_000);
    let form2: i64 = attenuate(sine_at(fq2), 200_000);
    let tonal: i64 = fund + h2 + h3 + h4 + sub + form1 + form2;
    let breath: i64 = 980_000 + attenuate(sine_at(2 * t), 20_000);
    let turb: i64 = attenuate(sine_at(50 * t), 50_000);
    soft_clip(attenuate(attenuate(tonal, breath) + turb, 400_000))
}

/// Fundamental an octave down with sub-harmonics, a slow amplitude
/// modulation, a subtle pitch modulation and soft saturation.
pub open spec fn spec_bass(p: int, f: int, sr: int) -> int {
    let bp = p / 2;
    let t = spec_cycle_time(p, f, sr);
    let plfo = spec_modulate(bp, spec_attenuate(spec_sine(t * 8 / 100), 2000));
    let mix = spec_sine(bp) + spec_attenuate(spec_sine(bp / 2), 800_000) + spec_attenuate(
        spec_sine(bp / 4),
        600_000,
    ) + spec_attenuate(spec_sine(2 * bp), 320_000) + spec_attenuate(spec_sine(3 * bp), 150_000)
        + spec_attenuate(spec_sine(4 * bp), 60_000) + spec_attenuate(spec_sine(bp + plfo), 300_000);
    let modulated = mix + spec_modulate(mix, spec_attenuate(spec_sine(t / 10), 50_000));
    spec_attenuate(spec_soft_clip(modulated), 630_000)
}

fn bass(p: i64, f: i64, sr: i64) -> (r: i64)
    requires
        0 <= p < SCALE,
        0 < f <= 1_000_000_000,
        0 < sr <= 1_000_000,
    ensures
        r == spec_bass(p as int, f as int, sr as int),
        -2 * SCALE <= r <= 2 * SCALE,
{
    let bp: i64 = p / 2;
    let t: i64 = cycle_time(p, f, sr);
    let plfo: i64 = modulate(bp, attenuate(sine_at(t * 8 / 100), 2000));
    let fund: i64 = sine_at(bp);
    let sub: i64 = attenuate(sine_at(bp / 2), 800_000);
    let subh: i64 = attenuate(sine_at(bp / 4), 600_000);
    let h2: i64 = attenuate(sine_at(2 * bp), 320_000);
    let h3: i64 = attenuate(sine_at(3 * bp), 150_000);
    let h4: i64 = attenuate(sine_at(4 * bp), 60_000);
    let mfund: i64 = attenuate(sine_at(bp + plfo), 300_000);
    let mix: i64 = fund + sub + subh + h2 + h3 + h4 + mfund;
    let lfo: i64 = attenuate(sine_at(t / 10), 50_000);
    let modulated: i64 = mix + modulate(mix, lfo);
    attenuate(soft_clip(modulated), 630_000)
}

/// The amplitude of a waveform kind at a phase, frequency and sample rate.
pub open spec fn spec_waveform_sample(kind: Waveform, p: int, f: int, sr: int) -> int {
    match kind {
        Waveform::Electronic => spec_sine(p),
        Waveform::Natural => spec_natural(p),
        Waveform::Saw => spec_saw(p),
        Waveform::Square => spec_square(p),
        Waveform::Cyberpunk => spec_cyberpunk(p, f, sr),
        Waveform::Triangle => spec_triangle(p),
        Waveform::Harmonic => spec_harmonic(p),
        Waveform::Fart => spec_fart(p, f, sr),
        Waveform::Bass => spec_bass(p, f, sr),
    }
}

impl Waveform {
    /// Generate a single audio sample for this waveform.  Pure: the result
    /// depends only on the arguments, and always lies in
    /// `[-2 * SCALE, 2 * SCALE]`.
    pub fn generate_sample(&self, phase: i64, frequency: i64, sample_rate: i64) -> (r: i64)
        requires
            0 <= phase < SCALE,
            0 < frequency <= 1_000_000_000,
            0 < sample_rate <= 1_000_000,
        ensures
            r == spec_waveform_sample(*self, phase as int, frequency as int, sample_rate as int),
            -2 * SCALE <= r <= 2 * SCALE,
    {
        match self {
            Waveform::Electronic => sine_at(phase),
            Waveform::Natural => natural(phase),
            Waveform::Saw => 2 * phase - SCALE,
            Waveform::Square => if phase < HALF_CYCLE {
                SCALE
            } else {
                -SCALE
            },
            Waveform::Cyberpunk => cyberpunk(phase, frequency, sample_rate),
            Waveform::Triangle => if phase < HALF_CYCLE {
                4 * phase - SCALE
            } else {
                3 * SCALE - 4 * phase
            },
            Waveform::Harmonic => harmonic(phase),
            Waveform::Fart => fart(phase, frequency, sample_rate),
            Waveform::Bass => bass(phase, frequency, sample_rate),
        }
    }

    /// The default envelope of a kind, as
    /// (attack, decay, sustain, release) with times in microseconds and the
    /// sustain level in fixed point.
    pub fn get_adsr_params(&self) -> (r: (i64, i64, i64, i64))
        ensures
            r == spec_adsr_params(*self),
    {
        match self {
            Waveform::Natural => (10_000, 100_000, 800_000, 300_000),
            Waveform::Bass => (20_000, 150_000, 900_000, 400_000),
            Waveform::Electronic => (5_000, 50_000, 700_000, 200_000),
            Waveform::Triangle => (5_000, 50_000, 700_000, 200_000),
            Waveform::Saw => (1_000, 20_000, 600_000, 100_000),
            Waveform::Square => (1_000, 20_000, 600_000, 100_000),
            Waveform::Cyberpunk => (20_000, 100_000, 800_000, 250_000),
            Waveform::Harmonic => (10_000, 100_000, 800_000, 300_000),
            Waveform::Fart => (10_000, 50_000, 700_000, 200_000),
        }
    }

    /// Parse a waveform name, ignoring ASCII case; `None` for unknown names.
    pub fn from_str(s: &str) -> (r: Option<Waveform>)
        ensures
            r == spec_parse_waveform(s@),
    {
        if eq_ignore_case(s, "natural") {
            Some(Waveform::Natural)
        } else if eq_ignore_case(s, "electronic") || eq_ignore_case(s, "sine") {
            Some(Waveform::Electronic)
        } else if eq_ignore_case(s, "saw") || eq_ignore_case(s, "sawtooth") {
            Some(Waveform::Saw)
        } else if eq_ignore_case(s, "square") {
            Some(Waveform::Square)
        } else if eq_ignore_case(s, "cyberpunk") {
            Some(Waveform::Cyberpunk)
        } else if eq_ignore_case(s, "triangle") {
            Some(Waveform::Triangle)
        } else if eq_ignore_case(s, "harmonic") {
            Some(Waveform::Harmonic)
        } else if eq_ignore_case(s, "fart") {
            Some(Waveform::Fart)
        } else if eq_ignore_case(s, "bass") {
            Some(Waveform::Bass)
        } else {
            None
        }
    }

    /// The lower-case name of this kind.
    pub fn name(&self) -> (r: String)
        ensures
            r@ == spec_waveform_name(*self),
    {
        match self {
            Waveform::Natural => String::from_str("natural"),
            Waveform::Electronic => String::from_str("electronic"),
            Waveform::Saw => String::from_str("saw"),
            Waveform::Square => String::from_str("square"),
            Waveform::Cyberpunk => String::from_str("cyberpunk"),
            Waveform::Triangle => String::from_str("triangle"),
            Waveform::Harmonic => String::from_str("harmonic"),
            Waveform::Fart => String::from_str("fart"),
            Waveform::Bass => String::from_str("bass"),
        }
    }
}

/// The default envelope parameters of each kind; see
/// [`Waveform::get_adsr_params`].
pub open spec fn spec_adsr_params(kind: Waveform) -> (i64, i64, i64, i64) {
    match kind {
        Waveform::Natural => (10_000i64, 100_000i64, 800_000i64, 300_000i64),
        Waveform::Bass => (20_000i64, 150_000i64, 900_000i64, 400_000i64),
        Waveform::Electronic => (5_000i64, 50_000i64, 700_000i64, 200_000i64),
        Waveform::Triangle => (5_000i64, 50_000i64, 700_000i64, 200_000i64),
        Waveform::Saw => (1_000i64, 20_000i64, 600_000i64, 100_000i64),
        Waveform::Square => (1_000i64, 20_000i64, 600_000i64, 100_000i64),
        Waveform::Cyberpunk => (20_000i64, 100_000i64, 800_000i64, 250_000i64),
        Waveform::Harmonic => (10_000i64, 100_000i64, 800_000i64, 300_000i64),
        Waveform::Fart => (10_000i64, 50_000i64, 700_000i64, 200_000i64),
    }
}

/// Which kind a name denotes, up to ASCII case; see [`Waveform::from_str`].
pub open spec fn spec_parse_waveform(s: Seq<char>) -> Option<Waveform> {
    let l = spec_lower_codes(s);
    if l == spec_lower_codes("natural"@) {
        Some(Waveform::Natural)
    } else if l == spec_lower_codes("electronic"@) || l == spec_lower_codes("sine"@) {
        Some(Waveform::Electronic)
    } else if l == spec_lower_codes("saw"@) || l == spec_lower_codes("sawtooth"@) {
        Some(Waveform::Saw)
    } else if l == spec_lower_codes("square"@) {
        Some(Waveform::Square)
    } else if l == spec_lower_codes("cyberpunk"@) {
        Some(Waveform::Cyberpunk)
    } else if l == spec_lower_codes("triangle"@) {
        Some(Waveform::Triangle)
    } else if l == spec_lower_codes("harmonic"@) {
        Some(Waveform::Harmonic)
    } else if l == spec_lower_codes("fart"@) {
        Some(Waveform::Fart)
    } else if l == spec_lower_codes("bass"@) {
        Some(Waveform::Bass)
    } else {
        None
    }
}

/// The canonical lower-case name of each kind.
pub open spec fn spec_waveform_name(kind: Waveform) -> Seq<char> {
    match kind {
        Waveform::Natural => "natural"@,
        Waveform::Electronic => "electronic"@,
        Waveform::Saw => "saw"@,
        Waveform::Square => "square"@,
        Waveform::Cyberpunk => "cyberpunk"@,
        Waveform::Triangle => "triangle"@,
        Waveform::Harmonic => "harmonic"@,
        Waveform::Fart => "fart"@,
        Waveform::Bass => "bass"@,
    }
}

impl core::str::FromStr for Waveform {
    type Err = String;

    fn from_str(s: &str) -> Result<Self, Self::Err> {
        match Waveform::from_str(s) {
            Some(w) => Ok(w),
            None => Err(<String as vstd::string::StringExecFns>::from_str("unknown waveform")),
        }
    }
}

/// All waveform names with a short description of each.
pub fn get_all_waveforms() -> (r: Vec<(&'static str, &'static str)>)
    ensures
        r@.len() == 9,
        r@[0].0@ == "natural"@,
        r@[1].0@ == "electronic"@,
        r@[2].0@ == "saw"@,
        r@[3].0@ == "square"@,
        r@[4].0@ == "cyberpunk"@,
        r@[5].0@ == "triangle"@,
        r@[6].0@ == "harmonic"@,
        r@[7].0@ == "fart"@,
        r@[8].0@ == "bass"@,
{
    let mut v: Vec<(&'static str, &'static str)> = Vec::new();
    v.push(("natural", "Piano-like with harmonics"));
    v.push(("electronic", "Clean sine wave"));
    v.push(("saw", "Bright sawtooth wave for electronic music"));
    v.push(("square", "Retro 8-bit square wave"));
    v.push(("cyberpunk", "Analog synthesizer atmosphere"));
    v.push(("triangle", "Smooth triangular wave"));
    v.push(("harmonic", "Mathematical overtone series"));
    v.push(("fart", "Percussive low-frequency synthesis"));
    v.push(("bass", "Deep bass with rich low frequencies"));
    v
}

/// The sine kind starts each cycle at exactly zero and peaks at exactly
/// `SCALE` one quarter of the way through the cycle, whatever the frequency
/// and sample rate.
pub proof fn lemma_sine_wave_endpoints(f: int, sr: int)
    ensures
        spec_waveform_sample(Waveform::Electronic, 0, f, sr) == 0,
        spec_waveform_sample(Waveform::Electronic, QUARTER_CYCLE as int, f, sr) == SCALE,
{
    assert(spec_sine(0) == 0) by {
        assert(0int % (SCALE as int) == 0);
        assert(crate::fixed::spec_sine_half(0) == 0);
    }
    assert(spec_sine(QUARTER_CYCLE as int) == SCALE) by {
        assert(QUARTER_CYCLE as int % (SCALE as int) == QUARTER_CYCLE as int);
        let y = 500_000int * (SCALE - 500_000) / (SCALE as int);
        assert(500_000int * (SCALE - 500_000) == 250_000_000_000int) by (nonlinear_arith);
        assert(250_000_000_000int / (SCALE as int) == 250_000int) by (nonlinear_arith);
        assert(16 * y * SCALE == 4_000_000_000_000int) by (nonlinear_arith)
            requires
                y == 250_000int,
        ;
        assert(4_000_000_000_000int / (5 * SCALE - 4 * y) == SCALE) by (nonlinear_arith)
            requires
                y == 250_000int,
        ;
        assert(crate::fixed::spec_sine_half(500_000) == SCALE);
    }
}

/// The sine wave repeats exactly with a period of one cycle.
pub proof fn lemma_sine_wave_periodic(x: int)
    requires
        0 <= x,
    ensures
        spec_sine(x + SCALE) == spec_sine(x),
{
    vstd::arithmetic::div_mod::lemma_mod_multiples_vanish(1, x, SCALE as int);
}

/// The square kind is exactly `SCALE` over the first half cycle and exactly
/// `-SCALE` over the second, whatever the frequency and sample rate.
pub proof fn lemma_square_wave_levels(p: int, f: int, sr: int)
    requires
        0 <= p < SCALE,
    ensures
        p < HALF_CYCLE ==> spec_waveform_sample(Waveform::Square, p, f, sr) == SCALE,
        p >= HALF_CYCLE ==> spec_waveform_sample(Waveform::Square, p, f, sr) == -SCALE,
{
}

} // verus!
