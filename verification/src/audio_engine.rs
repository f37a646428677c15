//! The voice pool and mixer, and the per-identifier rate limiter.
//!
//! The pool owns every active voice keyed by an input identifier, a list of
//! playing PCM instances and a global clock in microseconds that advances
//! once per generated sample.  Note-on and note-off arrive from an input
//! collaborator; the audio callback repeatedly asks for one mixed sample.

use vstd::prelude::*;

use crate::engine::{
    spec_envelope_step, spec_hold_step, spec_hold_target, ADSRParams, EnvelopeState, NoteState,
    MAX_TIME_US,
};
use crate::fixed::{attenuate, spec_attenuate, SCALE};
use crate::keyed::{find_key, lemma_find_key_push, lemma_find_key_update, spec_find_key};
use crate::samples::{AudioSample, SamplePlayback};
use crate::waveforms::{spec_waveform_sample, Waveform};

verus! {

/// The most entries the pool and the rate limiter each hold.
pub const MAX_ENTRIES: usize = 1_000_000;

/// How long a trigger counts as recent, in microseconds.
pub const RATE_WINDOW_US: i64 = 500_000;

/// The volume multiplier applied once per recent trigger, in fixed point.
pub const RATE_REDUCTION_FACTOR: i64 = 700_000;

/// A note-on whose adjusted volume is at or below this is dropped.
pub const NEGLIGIBLE_VOLUME: i64 = 10_000;

/// The reduction factor raised to the `n`th power in fixed point, rounding
/// down at each step.
pub open spec fn spec_pow_factor(n: nat) -> int
    decreases n,
{
    if n == 0 {
        SCALE as int
    } else {
        RATE_REDUCTION_FACTOR * spec_pow_factor((n - 1) as nat) / (SCALE as int)
    }
}

/// The discount is a volume multiplier: always within `[0, SCALE]`.
pub proof fn lemma_pow_factor_bounds(n: nat)
    ensures
        0 <= spec_pow_factor(n) <= SCALE,
    decreases n,
{
    if n > 0 {
        lemma_pow_factor_bounds((n - 1) as nat);
        assert(0 <= RATE_REDUCTION_FACTOR * spec_pow_factor((n - 1) as nat) / (SCALE as int)
            <= spec_pow_factor((n - 1) as nat)) by (nonlinear_arith)
            requires
                0 <= spec_pow_factor((n - 1) as nat) <= SCALE,
        ;
    }
}

/// The discount never grows with the count of recent triggers: one more
/// recent trigger can only make a repeat quieter.
pub proof fn lemma_pow_factor_monotonic(n: nat)
    ensures
        spec_pow_factor(n + 1) <= spec_pow_factor(n),
    decreases n,
{
    lemma_pow_factor_bounds(n);
    assert(RATE_REDUCTION_FACTOR * spec_pow_factor(n) / (SCALE as int) <= spec_pow_factor(n))
        by (nonlinear_arith)
        requires
            0 <= spec_pow_factor(n) <= SCALE,
    ;
}

/// The first trigger of a fresh identifier gets the full multiplier, and an
/// immediate repeat gets exactly the reduction factor.
pub proof fn lemma_rate_limiter_discounts(now: i64)
    ensures
        spec_pow_factor(spec_retained(Seq::<i64>::empty(), now as int).len()) == SCALE,
        spec_pow_factor(spec_retained(seq![now], now as int).len()) == RATE_REDUCTION_FACTOR,
{
    assert(spec_retained(Seq::<i64>::empty(), now as int) =~= Seq::<i64>::empty());
    assert(seq![now].drop_last() =~= Seq::<i64>::empty());
    assert(spec_retained(seq![now], now as int) =~= seq![now]);
    assert(RATE_REDUCTION_FACTOR * (SCALE as int) / (SCALE as int) == RATE_REDUCTION_FACTOR)
        by (nonlinear_arith);
}

/// The triggers of `h` still within the window at instant `now`, oldest
/// first, in their original order.
pub open spec fn spec_retained(h: Seq<i64>, now: int) -> Seq<i64>
    decreases h.len(),
{
    if h.len() == 0 {
        Seq::empty()
    } else {
        let rest = spec_retained(h.drop_last(), now);
        if now - h.last() <= RATE_WINDOW_US {
            rest.push(h.last())
        } else {
            rest
        }
    }
}

/// Compute the reduction factor raised to the `n`th power.
fn pow_factor(n: usize) -> (r: i64)
    ensures
        r == spec_pow_factor(n as nat),
        0 <= r <= SCALE,
{
    proof {
        lemma_pow_factor_bounds(n as nat);
    }
    let mut m: i64 = SCALE;
    let mut j: usize = 0;
    while j < n
        invariant
            0 <= j <= n,
            m == spec_pow_factor(j as nat),
            0 <= m <= SCALE,
        decreases n - j,
    {
        let m2: i64 = RATE_REDUCTION_FACTOR * m / SCALE;
        assert(0 <= RATE_REDUCTION_FACTOR * (m as int) / (SCALE as int) <= m) by (nonlinear_arith)
            requires
                0 <= m <= SCALE,
        ;
        m = m2;
        j = j + 1;
    }
    m
}

/// Keep only the triggers still within the window at instant `now`.
fn retain_recent(h: &Vec<i64>, now: i64) -> (r: Vec<i64>)
    requires
        forall|i: int| 0 <= i < h@.len() ==> 0 <= #[trigger] h@[i] <= MAX_TIME_US,
        0 <= now <= MAX_TIME_US,
    ensures
        r@ == spec_retained(h@, now as int),
        r@.len() <= h@.len(),
        forall|i: int| 0 <= i < r@.len() ==> 0 <= #[trigger] r@[i] <= MAX_TIME_US,
{
    let mut r: Vec<i64> = Vec::new();
    let mut i: usize = 0;
    while i < h.len()
        invariant
            0 <= i <= h@.len(),
            forall|k: int| 0 <= k < h@.len() ==> 0 <= #[trigger] h@[k] <= MAX_TIME_US,
            0 <= now <= MAX_TIME_US,
            r@ == spec_retained(h@.take(i as int), now as int),
            r@.len() <= i,
            forall|k: int| 0 <= k < r@.len() ==> 0 <= #[trigger] r@[k] <= MAX_TIME_US,
        decreases h@.len() - i,
    {
        let ts: i64 = h[i];
        proof {
            assert(h@.take(i as int + 1).drop_last() =~= h@.take(i as int));
            assert(h@.take(i as int + 1).last() == h@[i as int]);
        }
        if now - ts <= RATE_WINDOW_US {
            r.push(ts);
        }
        i = i + 1;
    }
    proof {
        assert(h@.take(h@.len() as int) =~= h@);
    }
    r
}

/// Per-identifier throttle: rapid repeated triggers on one identifier get a
/// progressively smaller volume multiplier, computed from how many earlier
/// triggers are still within a half-second window.
pub struct RateLimiter {
    /// Recent trigger instants per identifier, in microseconds.
    pub press_history: Vec<(String, Vec<i64>)>,
}

impl RateLimiter {
    /// Unique identifiers, bounded size, instants in range.
    pub open spec fn wf(&self) -> bool {
        &&& self.press_history@.len() <= MAX_ENTRIES
        &&& forall|j: int, k: int|
            0 <= j < k < self.press_history@.len() ==> #[trigger] self.press_history@[j].0@
                != #[trigger] self.press_history@[k].0@
        &&& forall|j: int, k: int|
            0 <= j < self.press_history@.len() && 0 <= k < self.press_history@[j].1@.len()
                ==> 0 <= #[trigger] self.press_history@[j].1@[k] <= MAX_TIME_US
    }

    /// The recorded trigger instants of `id`; empty for a fresh identifier.
    pub open spec fn spec_history_of(&self, id: Seq<char>) -> Seq<i64> {
        let k = spec_find_key(self.press_history@, id);
        if k == -1 {
            Seq::empty()
        } else {
            self.press_history@[k].1@
        }
    }

    /// A limiter with no history.
    pub fn new() -> (r: RateLimiter)
        ensures
            r.wf(),
            r.press_history@.len() == 0,
    {
        RateLimiter { press_history: Vec::new() }
    }

    /// Record a trigger of `key_id` at instant `now` and return the volume
    /// multiplier for it: the reduction factor raised to the number of
    /// earlier triggers of the same identifier still within the window.  A
    /// fresh identifier, or one quiet for longer than the window, gets the
    /// full multiplier `SCALE`; other identifiers' histories are untouched.
    pub fn record_press_and_get_volume_multiplier(&mut self, key_id: &str, now: i64) -> (r: i64)
        requires
            old(self).wf(),
            0 <= now <= MAX_TIME_US,
            old(self).press_history@.len() < MAX_ENTRIES,
        ensures
            final(self).wf(),
            r == spec_pow_factor(spec_retained(old(self).spec_history_of(key_id@), now as int).len()),
            0 <= r <= SCALE,
            final(self).spec_history_of(key_id@) == spec_retained(
                old(self).spec_history_of(key_id@),
                now as int,
            ).push(now),
            forall|other: Seq<char>|
                other != key_id@ ==> #[trigger] final(self).spec_history_of(other)
                    == old(self).spec_history_of(other),
            final(self).press_history@.len() == old(self).press_history@.len()
                || final(self).press_history@.len() == old(self).press_history@.len() + 1,
    {
        proof {
            crate::keyed::lemma_find_key_props(self.press_history@, key_id@);
        }
        match find_key(&self.press_history, key_id) {
            Some(i) => {
                let ghost old_entries = self.press_history@;
                let (key, old_ts) = self.press_history.remove(i);
                let retained = retain_recent(&old_ts, now);
                let m: i64 = pow_factor(retained.len());
                let mut new_ts = retained;
                new_ts.push(now);
                let ghost new_entry_view = (key, new_ts);
                self.press_history.insert(i, (key, new_ts));
                proof {
                    let s2 = self.press_history@;
                    assert(s2 =~= old_entries.update(i as int, s2[i as int]));
                    assert(s2[i as int].0@ == key_id@);
                    lemma_find_key_update(old_entries, i as int, s2[i as int], key_id@);
                    assert(spec_find_key(s2, key_id@) == i);
                    assert forall|j: int, k: int| 0 <= j < k < s2.len() implies
                        #[trigger] s2[j].0@ != #[trigger] s2[k].0@ by {
                        assert(s2[j].0@ == old_entries[j].0@);
                        assert(s2[k].0@ == old_entries[k].0@);
                    }
                    assert forall|j: int, k: int|
                        0 <= j < s2.len() && 0 <= k < s2[j].1@.len() implies 0
                            <= #[trigger] s2[j].1@[k] <= MAX_TIME_US by {
                        if j != i {
                            assert(s2[j] == old_entries[j]);
                        } else {
                            assert(s2[j].1@ == spec_retained(
                                old_entries[j as int].1@,
                                now as int,
                            ).push(now));
                        }
                    }
                    assert forall|other: Seq<char>| other != key_id@ implies
                        #[trigger] final(self).spec_history_of(other)
                            == old(self).spec_history_of(other) by {
                        lemma_find_key_update(old_entries, i as int, s2[i as int], other);
                        let k = spec_find_key(old_entries, other);
                        if k != -1 {
                            crate::keyed::lemma_find_key_props(old_entries, other);
                            assert(old_entries[k].0@ == other);
                            assert(k != i);
                            assert(s2[k] == old_entries[k]);
                        }
                    }
                }
                m
            },
            None => {
                let ghost old_entries = self.press_history@;
                let m: i64 = SCALE;
                let mut ts: Vec<i64> = Vec::new();
                ts.push(now);
                self.press_history.push((key_id.to_owned(), ts));
                proof {
                    let s2 = self.press_history@;
                    let e = s2[s2.len() - 1];
                    assert(s2 =~= old_entries.push(e));
                    assert(e.0@ == key_id@);
                    lemma_find_key_push(old_entries, e, key_id@);
                    assert(spec_find_key(s2, key_id@) == old_entries.len());
                    assert(old(self).spec_history_of(key_id@) =~= Seq::<i64>::empty());
                    assert(spec_retained(Seq::<i64>::empty(), now as int) =~= Seq::<i64>::empty());
                    assert(final(self).spec_history_of(key_id@) =~= seq![now]);
                    assert(spec_retained(old(self).spec_history_of(key_id@), now as int).push(now)
                        =~= seq![now]);
                    assert forall|other: Seq<char>| other != key_id@ implies
                        #[trigger] final(self).spec_history_of(other)
                            == old(self).spec_history_of(other) by {
                        lemma_find_key_push(old_entries, e, other);
                        let k = spec_find_key(old_entries, other);
                        if k != -1 {
                            crate::keyed::lemma_find_key_props(old_entries, other);
                            assert(s2[k] == old_entries[k]);
                        }
                    }
                    assert forall|j: int, k: int|
                        0 <= j < k < s2.len() implies #[trigger] s2[j].0@ != #[trigger] s2[k].0@ by {
                        if k == s2.len() - 1 {
                            crate::keyed::lemma_find_key_props(old_entries, key_id@);
                            assert(old_entries[j].0@ != key_id@);
                        }
                    }
                    assert forall|j: int, k: int|
                        0 <= j < s2.len() && 0 <= k < s2[j].1@.len() implies 0
                            <= #[trigger] s2[j].1@[k] <= MAX_TIME_US by {
                        if j == s2.len() - 1 {
                            assert(s2[j].1@ =~= seq![now]);
                        } else {
                            assert(s2[j] == old_entries[j]);
                        }
                    }
                }
                m
            },
        }
    }
}

/// The default envelope assigned to new voices of a waveform kind.
pub open spec fn spec_default_adsr_for(w: Waveform) -> ADSRParams {
    match w {
        Waveform::Natural | Waveform::Harmonic | Waveform::Bass => ADSRParams {
            attack_time: 20_000,
            decay_time: 100_000,
            sustain_level: 700_000,
            release_time: 150_000,
        },
        Waveform::Electronic | Waveform::Triangle => ADSRParams {
            attack_time: 10_000,
            decay_time: 50_000,
            sustain_level: 800_000,
            release_time: 100_000,
        },
        Waveform::Saw | Waveform::Square => ADSRParams {
            attack_time: 5_000,
            decay_time: 20_000,
            sustain_level: 600_000,
            release_time: 80_000,
        },
        Waveform::Cyberpunk => ADSRParams {
            attack_time: 30_000,
            decay_time: 150_000,
            sustain_level: 650_000,
            release_time: 250_000,
        },
        Waveform::Fart => ADSRParams {
            attack_time: 10_000,
            decay_time: 80_000,
            sustain_level: 750_000,
            release_time: 300_000,
        },
    }
}

/// The voice a note-on creates: in Attack at phase zero, with the pool's
/// current defaults.
pub open spec fn spec_fresh_note(
    frequency: i64,
    volume: i64,
    adsr: ADSRParams,
    waveform: Waveform,
    start_time: i64,
) -> NoteState {
    NoteState {
        frequency,
        base_volume: volume,
        phase: 0,
        envelope_state: EnvelopeState::Attack,
        envelope_time: 0,
        adsr,
        waveform,
        start_time,
        current_hold_volume: SCALE,
        target_hold_volume: SCALE,
    }
}

/// The voice pool and mixer: every active voice keyed by identifier, the
/// playing PCM instances, the output sample rate, the master volume and a
/// global clock advanced once per generated sample.
pub struct AudioState {
    /// Active voices, one per identifier, in creation order.
    pub active_notes_by_id: Vec<(String, NoteState)>,
    /// Output sample rate in hertz.
    pub sample_rate: i64,
    /// The kind new voices are synthesized with.
    pub current_waveform: Waveform,
    /// The envelope new voices get.
    pub default_adsr: ADSRParams,
    /// Master volume in fixed point, applied to new voices.
    pub master_volume: i64,
    /// Configured filter cutoff in millihertz; kept for collaborators.
    pub filter_cutoff: i64,
    /// The per-identifier trigger throttle.
    pub rate_limiter: RateLimiter,
    /// The PCM buffer played for the percussive kind, when one was loaded.
    pub fart_sample: Option<AudioSample>,
    /// PCM instances currently playing, unkeyed.
    pub active_sample_playbacks: Vec<SamplePlayback>,
    /// Microseconds of audio generated since the stream started.
    pub global_time: i64,
}

impl AudioState {
    /// Every range and uniqueness condition the synthesis loop preserves.
    pub open spec fn wf(&self) -> bool {
        &&& 0 < self.sample_rate <= 1_000_000
        &&& 0 <= self.master_volume <= SCALE
        &&& self.default_adsr.wf()
        &&& self.rate_limiter.wf()
        &&& 0 <= self.global_time <= MAX_TIME_US
        &&& self.active_notes_by_id@.len() <= MAX_ENTRIES
        &&& forall|j: int, k: int|
            0 <= j < k < self.active_notes_by_id@.len() ==> #[trigger] self.active_notes_by_id@[j].0@
                != #[trigger] self.active_notes_by_id@[k].0@
        &&& forall|j: int|
            0 <= j < self.active_notes_by_id@.len() ==> (#[trigger] self.active_notes_by_id@[j].1).wf()
                && self.active_notes_by_id@[j].1.start_time <= self.global_time
        &&& self.active_sample_playbacks@.len() <= MAX_ENTRIES
        &&& forall|j: int|
            0 <= j < self.active_sample_playbacks@.len() ==> (
            #[trigger] self.active_sample_playbacks@[j]).wf()
        &&& match self.fart_sample {
            Some(s) => s.wf(),
            None => true,
        }
    }

    /// The volume a note-on of `id` at `volume` would get right now: the
    /// requested volume scaled by the master volume and by the rate
    /// limiter's discount for the identifier.
    pub open spec fn spec_note_on_volume(&self, id: Seq<char>, volume: int) -> int {
        let d = spec_pow_factor(
            spec_retained(self.rate_limiter.spec_history_of(id), self.global_time as int).len(),
        );
        spec_attenuate(spec_attenuate(volume, self.master_volume as int), d)
    }

    /// A fresh pool: no voices, no playbacks, the clock at zero, the master
    /// volume clamped into `[0, SCALE]` and the default envelope chosen by
    /// the waveform kind.
    pub fn new(sample_rate: i64, waveform: Waveform, master_volume: i64, filter_cutoff: i64) -> (r: AudioState)
        requires
            0 < sample_rate <= 1_000_000,
        ensures
            r.wf(),
            r.sample_rate == sample_rate,
            r.current_waveform == waveform,
            r.default_adsr == spec_default_adsr_for(waveform),
            r.master_volume == if master_volume < 0 {
                0
            } else if master_volume > SCALE {
                SCALE as int
            } else {
                master_volume as int
            },
            r.filter_cutoff == filter_cutoff,
            r.active_notes_by_id@.len() == 0,
            r.active_sample_playbacks@.len() == 0,
            r.global_time == 0,
            r.fart_sample is None,
            r.rate_limiter.press_history@.len() == 0,
    {
        let default_adsr: ADSRParams = match waveform {
            Waveform::Natural | Waveform::Harmonic | Waveform::Bass => ADSRParams::natural(),
            Waveform::Electronic | Waveform::Triangle => ADSRParams::electronic(),
            Waveform::Saw | Waveform::Square => ADSRParams::punchy(),
            Waveform::Cyberpunk => ADSRParams::cyberpunk(),
            Waveform::Fart => ADSRParams::fart(),
        };
        let mv: i64 = if master_volume < 0 {
            0
        } else if master_volume > SCALE {
            SCALE
        } else {
            master_volume
        };
        AudioState {
            active_notes_by_id: Vec::new(),
            sample_rate,
            current_waveform: waveform,
            default_adsr,
            master_volume: mv,
            filter_cutoff,
            rate_limiter: RateLimiter::new(),
            fart_sample: None,
            active_sample_playbacks: Vec::new(),
            global_time: 0,
        }
    }

    /// Hand the pool the PCM buffer played for the percussive kind.
    pub fn set_fart_sample(&mut self, sample: AudioSample)
        requires
            old(self).wf(),
            sample.wf(),
        ensures
            final(self).wf(),
            *final(self) == (AudioState { fart_sample: final(self).fart_sample, ..*old(self) }),
            final(self).fart_sample == Some(sample),
    {
        self.fart_sample = Some(sample);
    }

    /// The PCM buffer played for the percussive kind, if one was loaded.
    pub fn get_fart_sample(&self) -> (r: &Option<AudioSample>)
        ensures
            r == &self.fart_sample,
    {
        &self.fart_sample
    }

    /// The global clock, in microseconds of generated audio.
    pub fn get_global_time(&self) -> (r: i64)
        ensures
            r == self.global_time,
    {
        self.global_time
    }

    /// How many voices are active.
    pub fn active_note_count(&self) -> (r: usize)
        ensures
            r == self.active_notes_by_id@.len(),
    {
        self.active_notes_by_id.len()
    }

    /// How many PCM instances are playing.
    pub fn active_playback_count(&self) -> (r: usize)
        ensures
            r == self.active_sample_playbacks@.len(),
    {
        self.active_sample_playbacks.len()
    }

    /// Add a PCM playback instance to the mix.
    pub fn add_sample_playback(&mut self, playback: SamplePlayback)
        requires
            old(self).wf(),
            playback.wf(),
            old(self).active_sample_playbacks@.len() < MAX_ENTRIES,
        ensures
            final(self).wf(),
            *final(self) == (AudioState {
                active_sample_playbacks: final(self).active_sample_playbacks,
                ..*old(self)
            }),
            final(self).active_sample_playbacks@ == old(self).active_sample_playbacks@.push(
                playback,
            ),
    {
        self.active_sample_playbacks.push(playback);
    }

    /// Select the waveform kind for voices created from now on; voices
    /// already in flight keep theirs.
    pub fn set_waveform(&mut self, waveform: Waveform)
        requires
            old(self).wf(),
        ensures
            final(self).wf(),
            *final(self) == (AudioState { current_waveform: waveform, ..*old(self) }),
    {
        self.current_waveform = waveform;
    }

    /// Set the master volume, clamped into `[0, SCALE]`; only new voices
    /// observe it.
    pub fn set_volume(&mut self, volume: i64)
        requires
            old(self).wf(),
        ensures
            final(self).wf(),
            *final(self) == (AudioState { master_volume: final(self).master_volume, ..*old(self) }),
            final(self).master_volume == if volume < 0 {
                0
            } else if volume > SCALE {
                SCALE as int
            } else {
                volume as int
            },
    {
        self.master_volume = if volume < 0 {
            0
        } else if volume > SCALE {
            SCALE
        } else {
            volume
        };
    }

    /// Start (or restart) the note for `key_id`.  The requested volume is
    /// scaled by the master volume and the rate limiter's discount; a result
    /// at or below the negligible threshold starts nothing and returns zero.
    /// For the percussive kind with a loaded PCM buffer a playback instance
    /// is added instead of a voice.  Otherwise a fresh voice replaces any
    /// voice already held under the same identifier — one voice per
    /// identifier, never two.  Returns the volume the note was started with.
    pub fn start_note_with_id(&mut self, key_id: &str, frequency: i64, volume: i64) -> (r: i64)
        requires
            old(self).wf(),
            0 < frequency <= 1_000_000_000,
            0 <= volume <= SCALE,
            old(self).active_notes_by_id@.len() < MAX_ENTRIES,
            old(self).active_sample_playbacks@.len() < MAX_ENTRIES,
            old(self).rate_limiter.press_history@.len() < MAX_ENTRIES,
        ensures
            final(self).wf(),
            final(self).sample_rate == old(self).sample_rate,
            final(self).current_waveform == old(self).current_waveform,
            final(self).default_adsr == old(self).default_adsr,
            final(self).master_volume == old(self).master_volume,
            final(self).filter_cutoff == old(self).filter_cutoff,
            final(self).global_time == old(self).global_time,
            final(self).fart_sample == old(self).fart_sample,
            final(self).rate_limiter.spec_history_of(key_id@) == spec_retained(
                old(self).rate_limiter.spec_history_of(key_id@),
                old(self).global_time as int,
            ).push(old(self).global_time),
            forall|other: Seq<char>|
                other != key_id@ ==> #[trigger] final(self).rate_limiter.spec_history_of(other)
                    == old(self).rate_limiter.spec_history_of(other),
            ({
                let adj = old(self).spec_note_on_volume(key_id@, volume as int);
                &&& r == if adj <= NEGLIGIBLE_VOLUME {
                    0
                } else {
                    adj
                }
                &&& (adj <= NEGLIGIBLE_VOLUME ==> final(self).active_notes_by_id@ == old(
                    self,
                ).active_notes_by_id@ && final(self).active_sample_playbacks@ == old(
                    self,
                ).active_sample_playbacks@)
                &&& (adj > NEGLIGIBLE_VOLUME && old(self).current_waveform is Fart && old(
                    self,
                ).fart_sample is Some ==> final(self).active_notes_by_id@ == old(
                    self,
                ).active_notes_by_id@ && final(self).active_sample_playbacks@.len() == old(
                    self,
                ).active_sample_playbacks@.len() + 1 && (forall|j: int|
                    0 <= j < old(self).active_sample_playbacks@.len()
                        ==> #[trigger] final(self).active_sample_playbacks@[j] == old(
                        self,
                    ).active_sample_playbacks@[j]) && {
                    let pb = final(self).active_sample_playbacks@.last();
                    &&& pb.sample.samples@ == old(self).fart_sample->Some_0.samples@
                    &&& pb.sample.sample_rate == old(self).fart_sample->Some_0.sample_rate
                    &&& pb.sample.channels == old(self).fart_sample->Some_0.channels
                    &&& pb.start_time == old(self).global_time
                    &&& pb.volume == adj
                    &&& pb.active
                })
                &&& (adj > NEGLIGIBLE_VOLUME && !(old(self).current_waveform is Fart && old(
                    self,
                ).fart_sample is Some) ==> final(self).active_sample_playbacks@ == old(
                    self,
                ).active_sample_playbacks@ && {
                    let k = spec_find_key(old(self).active_notes_by_id@, key_id@);
                    let newk = if k == -1 {
                        old(self).active_notes_by_id@.len() as int
                    } else {
                        k
                    };
                    &&& final(self).active_notes_by_id@.len() == if k == -1 {
                        old(self).active_notes_by_id@.len() as int + 1
                    } else {
                        old(self).active_notes_by_id@.len() as int
                    }
                    &&& spec_find_key(final(self).active_notes_by_id@, key_id@) == newk
                    &&& final(self).active_notes_by_id@[newk].0@ == key_id@
                    &&& final(self).active_notes_by_id@[newk].1 == spec_fresh_note(
                        frequency,
                        adj as i64,
                        old(self).default_adsr,
                        old(self).current_waveform,
                        old(self).global_time,
                    )
                    &&& forall|j: int|
                        0 <= j < old(self).active_notes_by_id@.len() && j != k
                            ==> #[trigger] final(self).active_notes_by_id@[j] == old(
                            self,
                        ).active_notes_by_id@[j]
                })
            }),
    {
        let now: i64 = self.global_time;
        let discount: i64 = self.rate_limiter.record_press_and_get_volume_multiplier(key_id, now);
        let adjusted: i64 = attenuate(attenuate(volume, self.master_volume), discount);
        if adjusted <= NEGLIGIBLE_VOLUME {
            return 0;
        }
        if matches!(self.current_waveform, Waveform::Fart) {
            let mut pb_opt: Option<SamplePlayback> = None;
            match &self.fart_sample {
                Some(fs) => {
                    pb_opt = Some(SamplePlayback::new(fs.duplicate(), now, adjusted));
                },
                None => {},
            }
            match pb_opt {
                Some(pb) => {
                    self.active_sample_playbacks.push(pb);
                    return adjusted;
                },
                None => {},
            }
        }
        let note = NoteState::new(frequency, adjusted, self.default_adsr, self.current_waveform, now);
        let ghost old_voices = self.active_notes_by_id@;
        match find_key(&self.active_notes_by_id, key_id) {
            Some(i) => {
                let (key, _old_note) = self.active_notes_by_id.remove(i);
                self.active_notes_by_id.insert(i, (key, note));
                proof {
                    let s2 = self.active_notes_by_id@;
                    assert(s2 =~= old_voices.update(i as int, s2[i as int]));
                    assert(s2[i as int].0@ == key_id@);
                    lemma_find_key_update(old_voices, i as int, s2[i as int], key_id@);
                }
            },
            None => {
                self.active_notes_by_id.push((key_id.to_owned(), note));
                proof {
                    let s2 = self.active_notes_by_id@;
                    let e = s2[s2.len() - 1];
                    assert(s2 =~= old_voices.push(e));
                    lemma_find_key_push(old_voices, e, key_id@);
                    crate::keyed::lemma_find_key_props(old_voices, key_id@);
                    assert forall|j: int, k: int|
                        0 <= j < k < s2.len() implies #[trigger] s2[j].0@ != #[trigger] s2[k].0@ by {
                        if k == s2.len() - 1 {
                            assert(old_voices[j].0@ != key_id@);
                        }
                    }
                }
            },
        }
        adjusted
    }

    /// Release the voice held under `id`, if any: it moves to its release
    /// ramp and keeps sounding until the ramp completes.  No-op for an
    /// unknown identifier, and for the percussive kind, whose triggers play
    /// to completion.
    pub fn stop_note_with_id(&mut self, id: &str)
        requires
            old(self).wf(),
        ensures
            final(self).wf(),
            final(self).sample_rate == old(self).sample_rate,
            final(self).current_waveform == old(self).current_waveform,
            final(self).default_adsr == old(self).default_adsr,
            final(self).master_volume == old(self).master_volume,
            final(self).filter_cutoff == old(self).filter_cutoff,
            final(self).global_time == old(self).global_time,
            final(self).fart_sample == old(self).fart_sample,
            final(self).rate_limiter == old(self).rate_limiter,
            final(self).active_sample_playbacks@ == old(self).active_sample_playbacks@,
            old(self).current_waveform is Fart ==> final(self).active_notes_by_id@ == old(
                self,
            ).active_notes_by_id@,
            !(old(self).current_waveform is Fart) ==> {
                let k = spec_find_key(old(self).active_notes_by_id@, id@);
                if k == -1 {
                    final(self).active_notes_by_id@ == old(self).active_notes_by_id@
                } else {
                    &&& final(self).active_notes_by_id@.len() == old(
                        self,
                    ).active_notes_by_id@.len()
                    &&& forall|j: int|
                        0 <= j < old(self).active_notes_by_id@.len() && j != k
                            ==> #[trigger] final(self).active_notes_by_id@[j] == old(
                            self,
                        ).active_notes_by_id@[j]
                    &&& final(self).active_notes_by_id@[k].0 == old(self).active_notes_by_id@[k].0
                    &&& final(self).active_notes_by_id@[k].1.envelope_state == crate::engine::spec_release(
                        old(self).active_notes_by_id@[k].1.envelope_state,
                        old(self).active_notes_by_id@[k].1.envelope_time as int,
                    ).0
                    &&& final(self).active_notes_by_id@[k].1.envelope_time == crate::engine::spec_release(
                        old(self).active_notes_by_id@[k].1.envelope_state,
                        old(self).active_notes_by_id@[k].1.envelope_time as int,
                    ).1
                    &&& final(self).active_notes_by_id@[k].1 == (NoteState {
                        envelope_state: final(self).active_notes_by_id@[k].1.envelope_state,
                        envelope_time: final(self).active_notes_by_id@[k].1.envelope_time,
                        ..old(self).active_notes_by_id@[k].1
                    })
                }
            },
    {
        if matches!(self.current_waveform, Waveform::Fart) {
            return;
        }
        let ghost old_voices = self.active_notes_by_id@;
        match find_key(&self.active_notes_by_id, id) {
            Some(i) => {
                let (key, mut note) = self.active_notes_by_id.remove(i);
                note.release();
                self.active_notes_by_id.insert(i, (key, note));
                proof {
                    let s2 = self.active_notes_by_id@;
                    assert(s2 =~= old_voices.update(i as int, s2[i as int]));
                    assert(s2[i as int].0@ == id@);
                    lemma_find_key_update(old_voices, i as int, s2[i as int], id@);

                }
            },
            None => {
            },
        }
    }
}

/// What one tick does to one voice: the advanced voice, its contribution to
/// the mix, and whether it finished (releasing and faded to silence).  A
/// finished voice contributes nothing and is removed on this very tick.
pub open spec fn spec_note_tick(n: NoteState, dt: int, sr: int, now: int) -> (NoteState, int, bool) {
    let step = spec_envelope_step(n.envelope_state, n.envelope_time as int, n.adsr, dt);
    if step.0 is Release && step.2 <= 0 {
        (n, 0, true)
    } else {
        let target = spec_hold_target(now - n.start_time);
        let hold = spec_hold_step(n.current_hold_volume as int, target, (SCALE as int) / 2 / sr);
        let part = spec_attenuate(
            spec_attenuate(
                spec_attenuate(
                    spec_waveform_sample(n.waveform, n.phase as int, n.frequency as int, sr),
                    n.base_volume as int,
                ),
                step.2,
            ),
            hold,
        );
        let n2 = NoteState {
            envelope_state: step.0,
            envelope_time: step.1 as i64,
            phase: ((n.phase as int + n.frequency as int * 1000 / sr) % (SCALE as int)) as i64,
            current_hold_volume: hold as i64,
            target_hold_volume: target as i64,
            ..n
        };
        (n2, part, false)
    }
}

/// One tick over a whole voice sequence: the surviving voices, advanced, in
/// their original order, and the sum of their contributions.
pub open spec fn spec_mix_voices(
    s: Seq<(String, NoteState)>,
    dt: int,
    sr: int,
    now: int,
) -> (Seq<(String, NoteState)>, int)
    decreases s.len(),
{
    if s.len() == 0 {
        (Seq::empty(), 0)
    } else {
        let prev = spec_mix_voices(s.drop_last(), dt, sr, now);
        let t = spec_note_tick(s.last().1, dt, sr, now);
        if t.2 {
            prev
        } else {
            (prev.0.push((s.last().0, t.0)), prev.1 + t.1)
        }
    }
}

/// One tick over the playback list: the unfinished instances, unchanged, in
/// their original order, and the sum of their playback values.
pub open spec fn spec_mix_playbacks(s: Seq<SamplePlayback>, now: int, sr: int) -> (
    Seq<SamplePlayback>,
    int,
)
    decreases s.len(),
{
    if s.len() == 0 {
        (Seq::empty(), 0)
    } else {
        let prev = spec_mix_playbacks(s.drop_last(), now, sr);
        let pb = s.last();
        if now - pb.start_time >= 0 && now - pb.start_time >= pb.spec_duration_at(sr) {
            prev
        } else {
            (prev.0.push(pb), prev.1 + pb.spec_current_sample(now, sr))
        }
    }
}

/// Mixing keeps at most the voices it was given, each key at most once.
pub proof fn lemma_mix_voices_keys(s: Seq<(String, NoteState)>, dt: int, sr: int, now: int)
    ensures
        spec_mix_voices(s, dt, sr, now).0.len() <= s.len(),
        forall|a: int|
            0 <= a < spec_mix_voices(s, dt, sr, now).0.len() ==> exists|b: int|
                0 <= b < s.len() && (#[trigger] spec_mix_voices(s, dt, sr, now).0[a]).0@ == s[b].0@,
        (forall|j: int, k: int| 0 <= j < k < s.len() ==> #[trigger] s[j].0@ != #[trigger] s[k].0@)
            ==> (forall|j: int, k: int|
            0 <= j < k < spec_mix_voices(s, dt, sr, now).0.len()
                ==> #[trigger] spec_mix_voices(s, dt, sr, now).0[j].0@
                != #[trigger] spec_mix_voices(s, dt, sr, now).0[k].0@),
    decreases s.len(),
{
    if s.len() > 0 {
        let st = s.drop_last();
        lemma_mix_voices_keys(st, dt, sr, now);
        let prev = spec_mix_voices(st, dt, sr, now);
        let r = spec_mix_voices(s, dt, sr, now);
        let t = spec_note_tick(s.last().1, dt, sr, now);
        assert(forall|b: int| 0 <= b < st.len() ==> st[b] == s[b]);
        assert forall|a: int| 0 <= a < r.0.len() implies exists|b: int|
            0 <= b < s.len() && (#[trigger] r.0[a]).0@ == s[b].0@ by {
            if a < prev.0.len() {
                let b = choose|b: int| 0 <= b < st.len() && prev.0[a].0@ == st[b].0@;
                assert(0 <= b < s.len() && r.0[a].0@ == s[b].0@);
            } else {
                assert(r.0[a].0@ == s[s.len() - 1].0@);
            }
        }
        if forall|j: int, k: int| 0 <= j < k < s.len() ==> #[trigger] s[j].0@ != #[trigger] s[k].0@ {
            assert(forall|j: int, k: int|
                0 <= j < k < st.len() ==> #[trigger] st[j].0@ != #[trigger] st[k].0@);
            assert forall|j: int, k: int| 0 <= j < k < r.0.len() implies #[trigger] r.0[j].0@
                != #[trigger] r.0[k].0@ by {
                if k < prev.0.len() {
                } else if !t.2 && k == prev.0.len() {
                    let b = choose|b: int| 0 <= b < st.len() && prev.0[j].0@ == st[b].0@;
                    assert(s[b].0@ != s[s.len() - 1].0@);
                    assert(r.0[k].0@ == s[s.len() - 1].0@);
                }
            }
        }
    }
}


/// Advance every voice by one tick, remove the finished ones and sum the
/// contributions of the survivors.
#[verifier::rlimit(100)]
fn mix_voices_tick(notes: &mut Vec<(String, NoteState)>, dt: i64, sr: i64, now: i64) -> (sum: i64)
    requires
        0 < sr <= 1_000_000,
        1 <= dt <= 1_000_000,
        0 <= now <= MAX_TIME_US,
        old(notes)@.len() <= MAX_ENTRIES,
        forall|a: int|
            0 <= a < old(notes)@.len() ==> (#[trigger] old(notes)@[a].1).wf()
                && old(notes)@[a].1.start_time <= now,
    ensures
        final(notes)@ == spec_mix_voices(old(notes)@, dt as int, sr as int, now as int).0,
        sum == spec_mix_voices(old(notes)@, dt as int, sr as int, now as int).1,
        -2_000_000_000_000 <= sum <= 2_000_000_000_000,
        final(notes)@.len() <= old(notes)@.len(),
        forall|a: int|
            0 <= a < final(notes)@.len() ==> (#[trigger] final(notes)@[a].1).wf()
                && final(notes)@[a].1.start_time <= now,
{
    let ghost old_voices = notes@;
    let mut sum: i64 = 0;
    let mut i: usize = 0;
    let ghost mut j: int = 0;
    while i < notes.len()
        invariant
            0 < sr <= 1_000_000,
            1 <= dt <= 1_000_000,
            0 <= now <= MAX_TIME_US,
            old_voices.len() <= MAX_ENTRIES,
            forall|a: int|
                0 <= a < old_voices.len() ==> (#[trigger] old_voices[a].1).wf()
                    && old_voices[a].1.start_time <= now,
            0 <= j <= old_voices.len(),
            i as int <= j,
            i as int == spec_mix_voices(old_voices.take(j), dt as int, sr as int, now as int).0.len(),
            notes@ == spec_mix_voices(old_voices.take(j), dt as int, sr as int, now as int).0
                + old_voices.skip(j),
            sum as int == spec_mix_voices(old_voices.take(j), dt as int, sr as int, now as int).1,
            -2_000_000 * j <= sum <= 2_000_000 * j,
            forall|a: int|
                0 <= a < notes@.len() ==> (#[trigger] notes@[a].1).wf() && notes@[a].1.start_time
                    <= now,
        decreases old_voices.len() - j,
    {
        proof {
            assert(notes@.len() == i + old_voices.skip(j).len());
            assert(old_voices.skip(j).len() > 0);
            assert(j < old_voices.len());
            assert(notes@[i as int] == old_voices.skip(j)[0]);
            assert(old_voices.skip(j)[0] == old_voices[j]);
        }
        let ghost prev_mix = spec_mix_voices(old_voices.take(j), dt as int, sr as int, now as int);
        let (key, mut note) = notes.remove(i);
        proof {
            assert((key, note) == old_voices[j]);
            assert(notes@ =~= prev_mix.0 + old_voices.skip(j + 1));
            assert(old_voices.take(j + 1).drop_last() =~= old_voices.take(j));
            assert(old_voices.take(j + 1).last() == old_voices[j]);
        }
        let m: i64 = note.update_envelope(dt);
        let ghost tick = spec_note_tick(old_voices[j].1, dt as int, sr as int, now as int);
        if note.is_finished(m) {
            proof {
                assert(tick.2);
                assert(spec_mix_voices(old_voices.take(j + 1), dt as int, sr as int, now as int)
                    == prev_mix);
                j = j + 1;
            }
        } else {
            let c: i64 = note.generate_sample(sr, m, now);
            sum = sum + c;
            notes.insert(i, (key, note));
            i = i + 1;
            proof {
                assert(!tick.2);
                assert(note =~= tick.0);
                assert(c == tick.1);
                let next_mix = spec_mix_voices(
                    old_voices.take(j + 1),
                    dt as int,
                    sr as int,
                    now as int,
                );
                assert(next_mix.0 == prev_mix.0.push((old_voices[j].0, tick.0)));
                assert(notes@ =~= next_mix.0 + old_voices.skip(j + 1));
                j = j + 1;
            }
        }
    }
    proof {
        assert(old_voices.take(j) =~= old_voices);
        assert(old_voices.skip(j) =~= Seq::<(String, NoteState)>::empty());
        assert(notes@ =~= spec_mix_voices(old_voices, dt as int, sr as int, now as int).0);
    }
    sum
}

/// Read every playback instance at the current instant, remove the finished
/// ones and sum the contributions of the rest.
fn mix_playbacks_tick(playbacks: &mut Vec<SamplePlayback>, now: i64, sr: i64) -> (sum: i64)
    requires
        0 < sr <= 1_000_000,
        0 <= now <= MAX_TIME_US,
        old(playbacks)@.len() <= MAX_ENTRIES,
        forall|a: int| 0 <= a < old(playbacks)@.len() ==> (#[trigger] old(playbacks)@[a]).wf(),
    ensures
        final(playbacks)@ == spec_mix_playbacks(old(playbacks)@, now as int, sr as int).0,
        sum == spec_mix_playbacks(old(playbacks)@, now as int, sr as int).1,
        -1_000_000_000_000 <= sum <= 1_000_000_000_000,
        final(playbacks)@.len() <= old(playbacks)@.len(),
        forall|a: int| 0 <= a < final(playbacks)@.len() ==> (#[trigger] final(playbacks)@[a]).wf(),
{
    let ghost old_playbacks = playbacks@;
    let mut sum: i64 = 0;
    let mut i: usize = 0;
    let ghost mut j: int = 0;
    while i < playbacks.len()
        invariant
            0 < sr <= 1_000_000,
            0 <= now <= MAX_TIME_US,
            old_playbacks.len() <= MAX_ENTRIES,
            forall|a: int| 0 <= a < old_playbacks.len() ==> (#[trigger] old_playbacks[a]).wf(),
            0 <= j <= old_playbacks.len(),
            i as int <= j,
            i as int == spec_mix_playbacks(old_playbacks.take(j), now as int, sr as int).0.len(),
            playbacks@ == spec_mix_playbacks(old_playbacks.take(j), now as int, sr as int).0
                + old_playbacks.skip(j),
            sum as int == spec_mix_playbacks(old_playbacks.take(j), now as int, sr as int).1,
            -1_000_000 * j <= sum <= 1_000_000 * j,
            forall|a: int| 0 <= a < playbacks@.len() ==> (#[trigger] playbacks@[a]).wf(),
        decreases old_playbacks.len() - j,
    {
        proof {
            assert(playbacks@.len() == i + old_playbacks.skip(j).len());
            assert(old_playbacks.skip(j).len() > 0);
            assert(j < old_playbacks.len());
            assert(playbacks@[i as int] == old_playbacks.skip(j)[0]);
            assert(old_playbacks.skip(j)[0] == old_playbacks[j]);
            assert(old_playbacks.take(j + 1).drop_last() =~= old_playbacks.take(j));
            assert(old_playbacks.take(j + 1).last() == old_playbacks[j]);
        }
        let ghost prev_mix = spec_mix_playbacks(old_playbacks.take(j), now as int, sr as int);
        let finished = playbacks[i].is_finished(now, sr);
        if finished {
            let _ = playbacks.remove(i);
            proof {
                assert(playbacks@ =~= prev_mix.0 + old_playbacks.skip(j + 1));
                j = j + 1;
            }
        } else {
            let c: i64 = playbacks[i].get_current_sample(now, sr);
            sum = sum + c;
            i = i + 1;
            proof {
                let next_mix = spec_mix_playbacks(old_playbacks.take(j + 1), now as int, sr as int);
                assert(next_mix.0 == prev_mix.0.push(old_playbacks[j]));
                assert(playbacks@ =~= next_mix.0 + old_playbacks.skip(j + 1));
                j = j + 1;
            }
        }
    }
    proof {
        assert(old_playbacks.take(j) =~= old_playbacks);
        assert(old_playbacks.skip(j) =~= Seq::<SamplePlayback>::empty());
        assert(playbacks@ =~= spec_mix_playbacks(old_playbacks, now as int, sr as int).0);
    }
    sum
}

impl AudioState {
    /// Generate one mixed output sample.  The global clock advances by one
    /// tick; every voice advances its envelope and phase and contributes its
    /// scaled waveform value; every playback instance contributes its
    /// current value; voices whose release just completed, and playbacks
    /// past their end, are removed on this same tick.  Returns the sum of
    /// all contributions.
    pub fn generate_sample(&mut self) -> (r: i64)
        requires
            old(self).wf(),
            old(self).global_time + 1_000_000 <= MAX_TIME_US,
        ensures
            final(self).wf(),
            final(self).sample_rate == old(self).sample_rate,
            final(self).current_waveform == old(self).current_waveform,
            final(self).default_adsr == old(self).default_adsr,
            final(self).master_volume == old(self).master_volume,
            final(self).filter_cutoff == old(self).filter_cutoff,
            final(self).rate_limiter == old(self).rate_limiter,
            final(self).fart_sample == old(self).fart_sample,
            ({
                let dt = 1_000_000 as int / (old(self).sample_rate as int);
                let now = old(self).global_time + dt;
                let mv = spec_mix_voices(
                    old(self).active_notes_by_id@,
                    dt,
                    old(self).sample_rate as int,
                    now,
                );
                let mp = spec_mix_playbacks(
                    old(self).active_sample_playbacks@,
                    now,
                    old(self).sample_rate as int,
                );
                &&& final(self).global_time == now
                &&& final(self).active_notes_by_id@ == mv.0
                &&& final(self).active_sample_playbacks@ == mp.0
                &&& r == mv.1 + mp.1
            }),
    {
        let sr: i64 = self.sample_rate;
        let dt: i64 = 1_000_000 / sr;
        assert(1 <= dt <= 1_000_000) by (nonlinear_arith)
            requires
                0 < sr <= 1_000_000,
                dt == 1_000_000 as int / (sr as int),
        ;
        self.global_time = self.global_time + dt;
        let now: i64 = self.global_time;
        let voice_sum: i64 = mix_voices_tick(&mut self.active_notes_by_id, dt, sr, now);
        let playback_sum: i64 = mix_playbacks_tick(&mut self.active_sample_playbacks, now, sr);
        proof {
            lemma_mix_voices_keys(
                old(self).active_notes_by_id@,
                dt as int,
                sr as int,
                now as int,
            );
        }
        voice_sum + playback_sum
    }
}

} // verus!
