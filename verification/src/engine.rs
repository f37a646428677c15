//! Per-voice state: the ADSR envelope state machine and the note synthesizer.
//!
//! Times are integer microseconds, amplitude multipliers fixed point with
//! `SCALE` as 1.0.  The envelope advances once per sample tick by `dt`
//! microseconds and yields a multiplier in `[0, SCALE]`; reaching zero while
//! releasing is the signal for the owning pool to reclaim the voice.

use vstd::prelude::*;

use crate::fixed::{attenuate, spec_attenuate, SCALE};
use crate::waveforms::{spec_waveform_sample, Waveform};

verus! {

/// The longest envelope segment accepted, in microseconds (100 seconds).
pub const MAX_ADSR_US: i64 = 100_000_000;

/// The latest global instant handled, in microseconds (about 31 years).
pub const MAX_TIME_US: i64 = 1_000_000_000_000_000;

/// The phase of an ADSR envelope.  Transitions only move forward, except
/// that Release can be entered from any other phase by an early note-off.
#[derive(Clone, Copy, Debug, PartialEq, Eq, Structural)]
pub enum EnvelopeState {
    Attack,
    Decay,
    Sustain,
    Release,
}

/// ADSR envelope parameters: segment lengths in microseconds and the
/// sustain level in fixed point.
#[derive(Clone, Copy, Debug)]
#[verifier::ext_equal]
pub struct ADSRParams {
    pub attack_time: i64,
    pub decay_time: i64,
    pub sustain_level: i64,
    pub release_time: i64,
}

impl ADSRParams {
    /// The parameters are within the ranges every envelope computation needs.
    pub open spec fn wf(&self) -> bool {
        &&& 0 <= self.attack_time <= MAX_ADSR_US
        &&& 0 <= self.decay_time <= MAX_ADSR_US
        &&& 0 <= self.sustain_level <= SCALE
        &&& 0 <= self.release_time <= MAX_ADSR_US
    }

    /// Envelope of the natural piano-like kinds.
    pub fn natural() -> (r: ADSRParams)
        ensures
            r.attack_time == 20_000 && r.decay_time == 100_000 && r.sustain_level == 700_000
                && r.release_time == 150_000,
            r.wf(),
    {
        ADSRParams { attack_time: 20_000, decay_time: 100_000, sustain_level: 700_000, release_time: 150_000 }
    }

    /// Envelope of the clean electronic kinds.
    pub fn electronic() -> (r: ADSRParams)
        ensures
            r.attack_time == 10_000 && r.decay_time == 50_000 && r.sustain_level == 800_000
                && r.release_time == 100_000,
            r.wf(),
    {
        ADSRParams { attack_time: 10_000, decay_time: 50_000, sustain_level: 800_000, release_time: 100_000 }
    }

    /// Punchy envelope for the saw and square kinds.
    pub fn punchy() -> (r: ADSRParams)
        ensures
            r.attack_time == 5_000 && r.decay_time == 20_000 && r.sustain_level == 600_000
                && r.release_time == 80_000,
            r.wf(),
    {
        ADSRParams { attack_time: 5_000, decay_time: 20_000, sustain_level: 600_000, release_time: 80_000 }
    }

    /// Slow analog-style envelope.
    pub fn cyberpunk() -> (r: ADSRParams)
        ensures
            r.attack_time == 30_000 && r.decay_time == 150_000 && r.sustain_level == 650_000
                && r.release_time == 250_000,
            r.wf(),
    {
        ADSRParams { attack_time: 30_000, decay_time: 150_000, sustain_level: 650_000, release_time: 250_000 }
    }

    /// Quick attack with a longer release, for the percussive low kind.
    pub fn fart() -> (r: ADSRParams)
        ensures
            r.attack_time == 10_000 && r.decay_time == 80_000 && r.sustain_level == 750_000
                && r.release_time == 300_000,
            r.wf(),
    {
        ADSRParams { attack_time: 10_000, decay_time: 80_000, sustain_level: 750_000, release_time: 300_000 }
    }
}

/// The squared progress `(t / dur)^2` in fixed point, for `0 <= t < dur`.
pub open spec fn spec_progress_squared(t: int, dur: int) -> int {
    let p = t * SCALE / dur;
    p * p / (SCALE as int)
}

/// Elapsed time after one more tick, saturated at `MAX_ADSR_US` so that it
/// stays within the well-formed range however long a voice is held.
pub open spec fn spec_sat_elapsed(t: int, dt: int) -> int {
    if t + dt > MAX_ADSR_US {
        MAX_ADSR_US as int
    } else {
        t + dt
    }
}

/// One envelope step: from a state and an elapsed time, after `dt` more
/// microseconds, the next state, the next elapsed time and the multiplier
/// returned on this tick.  The elapsed time advances by `dt` on every tick
/// (saturating at `MAX_ADSR_US`) and resets to zero only on the transitions
/// into Decay and into Sustain.
pub open spec fn spec_envelope_step(
    state: EnvelopeState,
    t: int,
    adsr: ADSRParams,
    dt: int,
) -> (EnvelopeState, int, int) {
    match state {
        EnvelopeState::Attack => {
            let t2 = t + dt;
            if t2 >= adsr.attack_time {
                (EnvelopeState::Decay, 0, SCALE as int)
            } else {
                (EnvelopeState::Attack, t2, spec_progress_squared(t2, adsr.attack_time as int))
            }
        },
        EnvelopeState::Decay => {
            let t2 = t + dt;
            if t2 >= adsr.decay_time {
                (EnvelopeState::Sustain, 0, adsr.sustain_level as int)
            } else {
                (
                    EnvelopeState::Decay,
                    t2,
                    SCALE - (SCALE - adsr.sustain_level) * spec_progress_squared(
                        t2,
                        adsr.decay_time as int,
                    ) / (SCALE as int),
                )
            }
        },
        EnvelopeState::Sustain => (
            EnvelopeState::Sustain,
            spec_sat_elapsed(t, dt),
            adsr.sustain_level as int,
        ),
        EnvelopeState::Release => {
            let t2 = t + dt;
            if t2 >= adsr.release_time {
                (EnvelopeState::Release, spec_sat_elapsed(t, dt), 0)
            } else {
                (
                    EnvelopeState::Release,
                    t2,
                    adsr.sustain_level * (SCALE - spec_progress_squared(
                        t2,
                        adsr.release_time as int,
                    )) / (SCALE as int),
                )
            }
        },
    }
}

/// Entering release: from any state other than Release, move to Release and
/// restart its clock; while already releasing, change nothing.
pub open spec fn spec_release(state: EnvelopeState, t: int) -> (EnvelopeState, int) {
    if state is Release {
        (state, t)
    } else {
        (EnvelopeState::Release, 0)
    }
}

/// Releasing twice is the same as releasing once: a second `release()`
/// never restarts the release ramp.
pub proof fn lemma_release_idempotent(state: EnvelopeState, t: int)
    ensures
        spec_release(spec_release(state, t).0, spec_release(state, t).1) == spec_release(state, t),
{
}

/// While releasing, the elapsed release time never decreases from one
/// envelope step to the next: release progress is monotonic.
pub proof fn lemma_release_progress_monotonic(t: int, adsr: ADSRParams, dt: int)
    requires
        adsr.wf(),
        0 <= t <= MAX_ADSR_US,
        0 < dt,
    ensures
        spec_envelope_step(EnvelopeState::Release, t, adsr, dt).0 is Release,
        spec_envelope_step(EnvelopeState::Release, t, adsr, dt).1 >= t,
{
}


/// The envelope's state and elapsed time after `k` further ticks of `dt`
/// microseconds each.
pub open spec fn spec_envelope_after(
    state: EnvelopeState,
    t: int,
    adsr: ADSRParams,
    dt: int,
    k: nat,
) -> (EnvelopeState, int)
    decreases k,
{
    if k == 0 {
        (state, t)
    } else {
        let prev = spec_envelope_after(state, t, adsr, dt, (k - 1) as nat);
        let step = spec_envelope_step(prev.0, prev.1, adsr, dt);
        (step.0, step.1)
    }
}

/// While releasing, the elapsed time after `k` ticks has grown by the full
/// `k * dt` unless it already reached the release time, and stays in range.
proof fn lemma_release_time_lower_bound(t: int, adsr: ADSRParams, dt: int, k: nat)
    requires
        adsr.wf(),
        0 <= t <= MAX_ADSR_US,
        0 < dt <= 1_000_000,
    ensures
        spec_envelope_after(EnvelopeState::Release, t, adsr, dt, k).0 is Release,
        0 <= spec_envelope_after(EnvelopeState::Release, t, adsr, dt, k).1 <= MAX_ADSR_US,
        spec_envelope_after(EnvelopeState::Release, t, adsr, dt, k).1 >= t + k * dt
            || spec_envelope_after(EnvelopeState::Release, t, adsr, dt, k).1
            >= adsr.release_time,
    decreases k,
{
    if k > 0 {
        lemma_release_time_lower_bound(t, adsr, dt, (k - 1) as nat);
        assert(k * dt == (k - 1) as nat * dt + dt) by (nonlinear_arith)
            requires
                k >= 1,
        ;
    }
}

/// A released voice is reclaimed within a bounded number of ticks: once
/// enough ticks of `dt` microseconds have passed to span the release time,
/// the very next envelope step returns the zero multiplier while releasing,
/// which is the condition on which the mixing loop removes the voice that
/// same tick.
pub proof fn lemma_release_completes_within(t: int, adsr: ADSRParams, dt: int, k: nat)
    requires
        adsr.wf(),
        0 <= t <= MAX_ADSR_US,
        0 < dt <= 1_000_000,
        t + k * dt + dt >= adsr.release_time,
    ensures
        spec_envelope_after(EnvelopeState::Release, t, adsr, dt, k).0 is Release,
        spec_envelope_step(
            spec_envelope_after(EnvelopeState::Release, t, adsr, dt, k).0,
            spec_envelope_after(EnvelopeState::Release, t, adsr, dt, k).1,
            adsr,
            dt,
        ).2 == 0,
{
    lemma_release_time_lower_bound(t, adsr, dt, k);
}

/// The squared-progress helper, executable.
fn progress_squared(t: i64, dur: i64) -> (r: i64)
    requires
        0 <= t < dur,
        dur <= MAX_ADSR_US,
    ensures
        r == spec_progress_squared(t as int, dur as int),
        0 <= r < SCALE,
{
    assert(0 <= (t as int) * (SCALE as int) <= 100_000_000_000_000) by (nonlinear_arith)
        requires
            0 <= t <= 100_000_000,
    ;
    let p: i64 = t * SCALE / dur;
    assert(0 <= p < SCALE) by (nonlinear_arith)
        requires
            0 <= t < dur,
            p == (t as int) * (SCALE as int) / (dur as int),
    ;
    assert(0 <= (p as int) * (p as int) < (SCALE as int) * (SCALE as int)) by (nonlinear_arith)
        requires
            0 <= p < SCALE,
    ;
    assert((p as int) * (p as int) / (SCALE as int) < SCALE) by (nonlinear_arith)
        requires
            0 <= (p as int) * (p as int) < (SCALE as int) * (SCALE as int),
    ;
    p * p / SCALE
}

/// One active note: oscillator phase, envelope and volumes.
#[verifier::ext_equal]
pub struct NoteState {
    /// Oscillator frequency in millihertz.
    pub frequency: i64,
    /// Volume this note was started with, in fixed point.
    pub base_volume: i64,
    /// Position within the waveform cycle, in micro-cycles.
    pub phase: i64,
    /// Current envelope phase.
    pub envelope_state: EnvelopeState,
    /// Time spent in the current envelope phase, in microseconds.
    pub envelope_time: i64,
    /// Envelope parameters, owned by this note.
    pub adsr: ADSRParams,
    /// Waveform kind this note is synthesized with.
    pub waveform: Waveform,
    /// Global instant this note was created, in microseconds.
    pub start_time: i64,
    /// Smoothed long-hold volume reduction, in fixed point.
    pub current_hold_volume: i64,
    /// Reduction level the smoothed value is moving toward.
    pub target_hold_volume: i64,
}

impl NoteState {
    /// All fields are within the ranges the synthesis loop preserves.
    pub open spec fn wf(&self) -> bool {
        &&& 0 < self.frequency <= 1_000_000_000
        &&& 0 <= self.base_volume <= SCALE
        &&& 0 <= self.phase < SCALE
        &&& 0 <= self.envelope_time <= MAX_ADSR_US
        &&& self.adsr.wf()
        &&& 0 <= self.start_time <= MAX_TIME_US
        &&& 0 <= self.current_hold_volume <= SCALE
        &&& 0 <= self.target_hold_volume <= SCALE
    }

    /// A fresh note in Attack at phase zero.
    pub fn new(frequency: i64, volume: i64, adsr_params: ADSRParams, waveform: Waveform, start_time: i64) -> (r: NoteState)
        requires
            0 < frequency <= 1_000_000_000,
            0 <= volume <= SCALE,
            adsr_params.wf(),
            0 <= start_time <= MAX_TIME_US,
        ensures
            r.wf(),
            r.frequency == frequency,
            r.base_volume == volume,
            r.phase == 0,
            r.envelope_state is Attack,
            r.envelope_time == 0,
            r.adsr == adsr_params,
            r.waveform == waveform,
            r.start_time == start_time,
            r.current_hold_volume == SCALE,
            r.target_hold_volume == SCALE,
    {
        NoteState {
            frequency,
            base_volume: volume,
            phase: 0,
            envelope_state: EnvelopeState::Attack,
            envelope_time: 0,
            adsr: adsr_params,
            waveform,
            start_time,
            current_hold_volume: SCALE,
            target_hold_volume: SCALE,
        }
    }

    /// Advance the envelope by `dt` microseconds and return the amplitude
    /// multiplier for this tick.  The attack segment eases in as the square
    /// of its progress and ends with exactly `SCALE` on the transition tick;
    /// decay eases down to the sustain level; sustain holds it; release
    /// fades the sustain level to zero as progress squares, and yields zero
    /// from the moment its time is up.  The elapsed time grows by `dt` on
    /// every tick, resetting only on the transitions into Decay and into
    /// Sustain; it saturates at `MAX_ADSR_US` so it stays in range however
    /// long a voice is held.
    pub fn update_envelope(&mut self, dt: i64) -> (m: i64)
        requires
            old(self).wf(),
            0 < dt <= 1_000_000,
        ensures
            final(self).wf(),
            ({
                let step = spec_envelope_step(
                    old(self).envelope_state,
                    old(self).envelope_time as int,
                    old(self).adsr,
                    dt as int,
                );
                final(self).envelope_state == step.0 && final(self).envelope_time == step.1
                    && m == step.2
            }),
            0 <= m <= SCALE,
            final(self).frequency == old(self).frequency,
            final(self).base_volume == old(self).base_volume,
            final(self).phase == old(self).phase,
            final(self).adsr == old(self).adsr,
            final(self).waveform == old(self).waveform,
            final(self).start_time == old(self).start_time,
            final(self).current_hold_volume == old(self).current_hold_volume,
            final(self).target_hold_volume == old(self).target_hold_volume,
    {
        match self.envelope_state {
            EnvelopeState::Attack => {
                let t2: i64 = self.envelope_time + dt;
                if t2 >= self.adsr.attack_time {
                    self.envelope_state = EnvelopeState::Decay;
                    self.envelope_time = 0;
                    SCALE
                } else {
                    self.envelope_time = t2;
                    progress_squared(t2, self.adsr.attack_time)
                }
            },
            EnvelopeState::Decay => {
                let t2: i64 = self.envelope_time + dt;
                if t2 >= self.adsr.decay_time {
                    self.envelope_state = EnvelopeState::Sustain;
                    self.envelope_time = 0;
                    self.adsr.sustain_level
                } else {
                    self.envelope_time = t2;
                    let ps: i64 = progress_squared(t2, self.adsr.decay_time);
                    assert(0 <= (SCALE - self.adsr.sustain_level) * (ps as int) < (SCALE as int)
                        * (SCALE as int)) by (nonlinear_arith)
                        requires
                            0 <= self.adsr.sustain_level <= SCALE,
                            0 <= ps < SCALE,
                    ;
                    let drop_amt: i64 = (SCALE - self.adsr.sustain_level) * ps / SCALE;
                    assert(0 <= drop_amt <= SCALE - self.adsr.sustain_level) by (nonlinear_arith)
                        requires
                            0 <= (SCALE - self.adsr.sustain_level) * (ps as int),
                            0 <= ps < SCALE,
                            0 <= self.adsr.sustain_level <= SCALE,
                            drop_amt == (SCALE - self.adsr.sustain_level) * (ps as int) / (
                            SCALE as int),
                    ;
                    SCALE - drop_amt
                }
            },
            EnvelopeState::Sustain => {
                let t2: i64 = self.envelope_time + dt;
                self.envelope_time = if t2 > MAX_ADSR_US {
                    MAX_ADSR_US
                } else {
                    t2
                };
                self.adsr.sustain_level
            },
            EnvelopeState::Release => {
                let t2: i64 = self.envelope_time + dt;
                if t2 >= self.adsr.release_time {
                    self.envelope_time = if t2 > MAX_ADSR_US {
                        MAX_ADSR_US
                    } else {
                        t2
                    };
                    0
                } else {
                    self.envelope_time = t2;
                    let ps: i64 = progress_squared(t2, self.adsr.release_time);
                    assert(0 <= self.adsr.sustain_level * ((SCALE - ps) as int) <= (SCALE as int)
                        * (SCALE as int)) by (nonlinear_arith)
                        requires
                            0 <= self.adsr.sustain_level <= SCALE,
                            0 <= ps < SCALE,
                    ;
                    let m: i64 = self.adsr.sustain_level * (SCALE - ps) / SCALE;
                    assert(0 <= m <= SCALE) by (nonlinear_arith)
                        requires
                            0 <= self.adsr.sustain_level * ((SCALE - ps) as int) <= (SCALE as int)
                                * (SCALE as int),
                            m == self.adsr.sustain_level * ((SCALE - ps) as int) / (SCALE as int),
                    ;
                    m
                }
            },
        }
    }

    /// Enter the release phase; a no-op while already releasing, so the
    /// release ramp never restarts.
    pub fn release(&mut self)
        requires
            old(self).wf(),
        ensures
            final(self).wf(),
            final(self).envelope_state == spec_release(
                old(self).envelope_state,
                old(self).envelope_time as int,
            ).0,
            final(self).envelope_time == spec_release(
                old(self).envelope_state,
                old(self).envelope_time as int,
            ).1,
            final(self).frequency == old(self).frequency,
            final(self).base_volume == old(self).base_volume,
            final(self).phase == old(self).phase,
            final(self).adsr == old(self).adsr,
            final(self).waveform == old(self).waveform,
            final(self).start_time == old(self).start_time,
            final(self).current_hold_volume == old(self).current_hold_volume,
            final(self).target_hold_volume == old(self).target_hold_volume,
    {
        if !matches!(self.envelope_state, EnvelopeState::Release) {
            self.envelope_state = EnvelopeState::Release;
            self.envelope_time = 0;
        }
    }

    /// Whether this note is done: releasing and faded to silence.  The
    /// owning pool removes such a note on the same tick.
    pub fn is_finished(&self, envelope_multiplier: i64) -> (r: bool)
        ensures
            r == (self.envelope_state is Release && envelope_multiplier <= 0),
    {
        matches!(self.envelope_state, EnvelopeState::Release) && envelope_multiplier <= 0
    }
}

/// The long-hold volume reduction step for a note held `d` microseconds.
pub open spec fn spec_hold_target(d: int) -> int {
    if d < 500_000 {
        SCALE as int
    } else if d < 1_000_000 {
        800_000
    } else if d < 2_000_000 {
        600_000
    } else if d < 3_000_000 {
        400_000
    } else if d < 5_000_000 {
        200_000
    } else {
        100_000
    }
}

/// One smoothing step of the hold volume toward its target, by at most
/// `maxstep` per tick.
pub open spec fn spec_hold_step(current: int, target: int, maxstep: int) -> int {
    if current < target {
        if current + maxstep < target {
            current + maxstep
        } else {
            target
        }
    } else if current > target {
        if current - maxstep > target {
            current - maxstep
        } else {
            target
        }
    } else {
        current
    }
}

impl NoteState {
    /// The volume reduction applied to a note held for `hold_us`
    /// microseconds: full volume for the first half second, then stepping
    /// down toward one tenth after five seconds.
    pub fn calculate_hold_volume_reduction(&self, hold_us: i64) -> (r: i64)
        ensures
            r == spec_hold_target(hold_us as int),
    {
        if hold_us < 500_000 {
            SCALE
        } else if hold_us < 1_000_000 {
            800_000
        } else if hold_us < 2_000_000 {
            600_000
        } else if hold_us < 3_000_000 {
            400_000
        } else if hold_us < 5_000_000 {
            200_000
        } else {
            100_000
        }
    }

    /// Move the smoothed hold volume one bounded step toward the target for
    /// the current hold duration, to avoid audible jumps.
    fn update_smooth_hold_volume(&mut self, sample_rate: i64, now: i64)
        requires
            old(self).wf(),
            0 < sample_rate <= 1_000_000,
            old(self).start_time <= now <= MAX_TIME_US,
        ensures
            final(self).wf(),
            final(self).target_hold_volume == spec_hold_target(now - old(self).start_time),
            final(self).current_hold_volume == spec_hold_step(
                old(self).current_hold_volume as int,
                spec_hold_target(now - old(self).start_time),
                (SCALE as int) / 2 / (sample_rate as int),
            ),
            final(self).frequency == old(self).frequency,
            final(self).base_volume == old(self).base_volume,
            final(self).phase == old(self).phase,
            final(self).envelope_state == old(self).envelope_state,
            final(self).envelope_time == old(self).envelope_time,
            final(self).adsr == old(self).adsr,
            final(self).waveform == old(self).waveform,
            final(self).start_time == old(self).start_time,
    {
        let hold_us: i64 = now - self.start_time;
        let target: i64 = self.calculate_hold_volume_reduction(hold_us);
        self.target_hold_volume = target;
        let max_step: i64 = SCALE / 2 / sample_rate;
        if self.current_hold_volume < target {
            let stepped: i64 = self.current_hold_volume + max_step;
            self.current_hold_volume = if stepped < target {
                stepped
            } else {
                target
            };
        } else if self.current_hold_volume > target {
            let stepped: i64 = self.current_hold_volume - max_step;
            self.current_hold_volume = if stepped > target {
                stepped
            } else {
                target
            };
        }
    }

    /// Synthesize this note's contribution for one tick: the waveform value
    /// at the current phase, scaled by the base volume, the envelope
    /// multiplier and the smoothed hold volume; then advance the phase by
    /// frequency over sample rate, wrapping within one cycle.
    pub fn generate_sample(&mut self, sample_rate: i64, envelope_multiplier: i64, now: i64) -> (r: i64)
        requires
            old(self).wf(),
            0 < sample_rate <= 1_000_000,
            0 <= envelope_multiplier <= SCALE,
            old(self).start_time <= now <= MAX_TIME_US,
        ensures
            final(self).wf(),
            r == spec_attenuate(
                spec_attenuate(
                    spec_attenuate(
                        spec_waveform_sample(
                            old(self).waveform,
                            old(self).phase as int,
                            old(self).frequency as int,
                            sample_rate as int,
                        ),
                        old(self).base_volume as int,
                    ),
                    envelope_multiplier as int,
                ),
                final(self).current_hold_volume as int,
            ),
            -2 * SCALE <= r <= 2 * SCALE,
            final(self).phase == (old(self).phase + old(self).frequency * 1000 / (
            sample_rate as int)) % (SCALE as int),
            final(self).target_hold_volume == spec_hold_target(now - old(self).start_time),
            final(self).current_hold_volume == spec_hold_step(
                old(self).current_hold_volume as int,
                spec_hold_target(now - old(self).start_time),
                (SCALE as int) / 2 / (sample_rate as int),
            ),
            final(self).frequency == old(self).frequency,
            final(self).base_volume == old(self).base_volume,
            final(self).envelope_state == old(self).envelope_state,
            final(self).envelope_time == old(self).envelope_time,
            final(self).adsr == old(self).adsr,
            final(self).waveform == old(self).waveform,
            final(self).start_time == old(self).start_time,
    {
        let wave: i64 = self.waveform.generate_sample(self.phase, self.frequency, sample_rate);
        self.update_smooth_hold_volume(sample_rate, now);
        let scaled: i64 = attenuate(attenuate(attenuate(wave, self.base_volume), envelope_multiplier), self.current_hold_volume);
        let inc: i64 = self.frequency * 1000 / sample_rate;
        assert(0 <= inc) by (nonlinear_arith)
            requires
                0 < self.frequency,
                0 < sample_rate,
                inc == (self.frequency as int) * 1000 / (sample_rate as int),
        ;
        self.phase = (self.phase + inc) % SCALE;
        scaled
    }
}

} // verus!
