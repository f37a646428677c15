//! Decoded PCM audio and its playback with resampling and interpolation.
//!
//! An `AudioSample` holds normalized fixed-point samples (channel data
//! interleaved); a `SamplePlayback` plays one through the mixing loop from a
//! start instant, converting between the buffer's native rate and the output
//! rate and interpolating linearly between frames.  Reads past the end of
//! the buffer yield silence, never a panic.

use vstd::prelude::*;

use crate::engine::MAX_TIME_US;
use crate::fixed::{attenuate, spec_attenuate, SCALE};
use crate::waveforms::{modulate, spec_modulate};

verus! {

/// The most PCM samples one buffer may hold.
pub const MAX_PCM_SAMPLES: usize = 100_000_000;

/// Decoded PCM data: normalized fixed-point samples in `[-SCALE, SCALE]`,
/// the buffer's native sample rate in hertz, and its channel count.
#[derive(Debug)]
pub struct AudioSample {
    /// Interleaved samples, each in `[-SCALE, SCALE]`.
    pub samples: Vec<i64>,
    /// Native sample rate in hertz.
    pub sample_rate: i64,
    /// Number of interleaved channels.
    pub channels: i64,
}

impl AudioSample {
    /// The ranges every playback computation needs.
    pub open spec fn wf(&self) -> bool {
        &&& 1 <= self.sample_rate <= 1_000_000
        &&& 1 <= self.channels <= 16
        &&& self.samples@.len() <= MAX_PCM_SAMPLES
        &&& forall|i: int|
            0 <= i < self.samples@.len() ==> -SCALE <= #[trigger] self.samples@[i] <= SCALE
    }

    /// Build a PCM buffer after checking every range, so that all playback
    /// contracts apply; `None` when some range is out.
    pub fn new(samples: Vec<i64>, sample_rate: i64, channels: i64) -> (r: Option<AudioSample>)
        ensures
            match r {
                Some(s) => s.wf() && s.samples@ == samples@ && s.sample_rate == sample_rate
                    && s.channels == channels,
                None => !(1 <= sample_rate <= 1_000_000 && 1 <= channels <= 16
                    && samples@.len() <= MAX_PCM_SAMPLES && (forall|i: int|
                    0 <= i < samples@.len() ==> -SCALE <= #[trigger] samples@[i] <= SCALE)),
            },
    {
        if !(1 <= sample_rate && sample_rate <= 1_000_000) {
            return None;
        }
        if !(1 <= channels && channels <= 16) {
            return None;
        }
        if samples.len() > MAX_PCM_SAMPLES {
            return None;
        }
        let mut i: usize = 0;
        while i < samples.len()
            invariant
                0 <= i <= samples@.len(),
                forall|j: int| 0 <= j < i ==> -SCALE <= #[trigger] samples@[j] <= SCALE,
            decreases samples@.len() - i,
        {
            let s: i64 = samples[i];
            if s < -SCALE || s > SCALE {
                return None;
            }
            i = i + 1;
        }
        Some(AudioSample { samples, sample_rate, channels })
    }

    /// An identical copy of this buffer.
    pub fn duplicate(&self) -> (r: AudioSample)
        ensures
            r.samples@ == self.samples@,
            r.sample_rate == self.sample_rate,
            r.channels == self.channels,
    {
        let mut samples: Vec<i64> = Vec::new();
        let mut i: usize = 0;
        while i < self.samples.len()
            invariant
                0 <= i <= self.samples@.len(),
                samples@ =~= self.samples@.subrange(0, i as int),
            decreases self.samples@.len() - i,
        {
            samples.push(self.samples[i]);
            i = i + 1;
        }
        proof {
            assert(samples@ =~= self.samples@);
        }
        AudioSample { samples, sample_rate: self.sample_rate, channels: self.channels }
    }

    /// The duration of the buffer at its native rate, in microseconds.
    pub open spec fn spec_duration_us(&self) -> int {
        self.samples@.len() as int * 1_000_000 / (self.sample_rate as int * self.channels as int)
    }

    /// The duration of the buffer at its native rate, in microseconds.
    pub fn duration_us(&self) -> (r: i64)
        requires
            self.wf(),
        ensures
            r == self.spec_duration_us(),
            0 <= r <= 100_000_000_000_000,
    {
        let total: i64 = (self.samples.len() as i64) * 1_000_000;
        assert(0 < (self.sample_rate as int) * (self.channels as int) <= 16_000_000)
            by (nonlinear_arith)
            requires
                1 <= self.sample_rate <= 1_000_000,
                1 <= self.channels <= 16,
        ;
        let denom: i64 = self.sample_rate * self.channels;
        let r: i64 = total / denom;
        assert(0 <= r <= 100_000_000_000_000) by (nonlinear_arith)
            requires
                0 <= total <= 100_000_000_000_000,
                0 < denom,
                r == (total as int) / (denom as int),
        ;
        r
    }

    /// The playback duration when resampled to `target_rate`, in
    /// microseconds, saturated at `MAX_TIME_US`.
    pub open spec fn spec_duration_at_us(&self, target_rate: int) -> int {
        let d = self.spec_duration_us() * target_rate / (self.sample_rate as int);
        if d > MAX_TIME_US {
            MAX_TIME_US as int
        } else {
            d
        }
    }

    /// The playback duration when resampled to `target_rate`, in
    /// microseconds.
    pub fn duration_at_sample_rate_us(&self, target_rate: i64) -> (r: i64)
        requires
            self.wf(),
            0 < target_rate <= 1_000_000,
        ensures
            r == self.spec_duration_at_us(target_rate as int),
            0 <= r <= MAX_TIME_US,
    {
        let dur: i64 = self.duration_us();
        assert(0 <= (dur as int) * (target_rate as int) <= 100_000_000_000_000_000_000)
            by (nonlinear_arith)
            requires
                0 <= dur <= 100_000_000_000_000,
                0 < target_rate <= 1_000_000,
        ;
        let num: i128 = (dur as i128) * (target_rate as i128);
        let d: i128 = num / (self.sample_rate as i128);
        assert(0 <= d <= 100_000_000_000_000_000_000) by (nonlinear_arith)
            requires
                0 <= num <= 100_000_000_000_000_000_000,
                1 <= self.sample_rate,
                d == (num as int) / (self.sample_rate as int),
        ;
        if d > (MAX_TIME_US as i128) {
            MAX_TIME_US
        } else {
            d as i64
        }
    }

    /// The interpolated mono value of the buffer `time_us` microseconds into
    /// playback at `target_rate`: the playback position is rescaled by
    /// native over target rate, the two adjacent frames are averaged down to
    /// mono (for two-channel data) and blended by the fractional position;
    /// any position at or past the end of the data reads as zero.
    pub open spec fn spec_sample_at_time(&self, time_us: int, target_rate: int) -> int {
        let pos_num = time_us * self.sample_rate * self.sample_rate;
        let denom = target_rate * 1_000_000;
        let frame = pos_num / denom;
        let frac = pos_num % denom * SCALE / denom;
        if frame * self.channels >= self.samples@.len() {
            0
        } else {
            let cur = self.spec_mono_frame(frame);
            if (frame + 1) * self.channels < self.samples@.len() {
                cur + spec_modulate(self.spec_mono_frame(frame + 1) - cur, frac)
            } else {
                cur
            }
        }
    }

    /// The mono value of frame `frame`: both channels averaged for
    /// two-channel data, the frame's first sample otherwise.
    pub open spec fn spec_mono_frame(&self, frame: int) -> int {
        let idx = frame * self.channels;
        if self.channels == 2 && idx + 1 < self.samples@.len() {
            let s = self.samples@[idx] + self.samples@[idx + 1];
            if s >= 0 {
                s / 2
            } else {
                -((-s) / 2)
            }
        } else {
            self.samples@[idx] as int
        }
    }

    fn mono_frame(&self, frame: i64) -> (r: i64)
        requires
            self.wf(),
            0 <= frame,
            frame * self.channels < self.samples@.len(),
        ensures
            r == self.spec_mono_frame(frame as int),
            -SCALE <= r <= SCALE,
    {
        assert(0 <= (frame as int) * (self.channels as int) < self.samples@.len())
            by (nonlinear_arith)
            requires
                0 <= frame,
                1 <= self.channels,
                (frame as int) * (self.channels as int) < self.samples@.len(),
        ;
        let idx: usize = (frame * self.channels) as usize;
        if self.channels == 2 && idx + 1 < self.samples.len() {
            let a: i64 = self.samples[idx];
            let b: i64 = self.samples[idx + 1];
            let s: i64 = a + b;
            if s >= 0 {
                s / 2
            } else {
                -((-s) / 2)
            }
        } else {
            self.samples[idx]
        }
    }

    /// Read the buffer `time_us` microseconds into playback at
    /// `target_rate`, with linear interpolation; zero at or past the end.
    pub fn get_sample_at_time(&self, time_us: i64, target_rate: i64) -> (r: i64)
        requires
            self.wf(),
            0 <= time_us <= MAX_TIME_US,
            0 < target_rate <= 1_000_000,
        ensures
            r == self.spec_sample_at_time(time_us as int, target_rate as int),
            -SCALE <= r <= SCALE,
    {
        assert(0 <= (time_us as int) * (self.sample_rate as int)
            <= 1_000_000_000_000_000_000_000) by (nonlinear_arith)
            requires
                0 <= time_us <= MAX_TIME_US,
                1 <= self.sample_rate <= 1_000_000,
        ;
        let first: i128 = (time_us as i128) * (self.sample_rate as i128);
        assert(0 <= (first as int) * (self.sample_rate as int)
            <= 1_000_000_000_000_000_000_000_000_000) by (nonlinear_arith)
            requires
                0 <= first <= 1_000_000_000_000_000_000_000,
                1 <= self.sample_rate <= 1_000_000,
        ;
        let pos_num: i128 = first * (self.sample_rate as i128);
        let denom: i128 = (target_rate as i128) * 1_000_000;
        let frame128: i128 = pos_num / denom;
        let rem: i128 = pos_num % denom;
        assert(0 <= frame128 <= pos_num && 0 <= rem < denom) by (nonlinear_arith)
            requires
                0 <= pos_num,
                0 < denom,
                frame128 == (pos_num as int) / (denom as int),
                rem == (pos_num as int) % (denom as int),
        ;
        let frac128: i128 = rem * (SCALE as i128) / denom;
        assert(0 <= frac128 < SCALE) by (nonlinear_arith)
            requires
                0 <= rem < denom,
                0 < denom,
                frac128 == (rem as int) * (SCALE as int) / (denom as int),
        ;
        let frac: i64 = frac128 as i64;
        assert(0 <= (frame128 as int) * (self.channels as int)
            <= 100_000_000_000_000_000_000_000_000_000) by (nonlinear_arith)
            requires
                0 <= frame128 <= 1_000_000_000_000_000_000_000_000_000,
                1 <= self.channels <= 16,
        ;
        if frame128 * (self.channels as i128) >= (self.samples.len() as i128) {
            return 0;
        }
        assert(frame128 < 100_000_001) by (nonlinear_arith)
            requires
                0 <= frame128,
                1 <= self.channels,
                (frame128 as int) * (self.channels as int) < 100_000_001,
        ;
        let frame: i64 = frame128 as i64;
        let cur: i64 = self.mono_frame(frame);
        assert(0 <= ((frame as int) + 1) * (self.channels as int) <= 1_600_000_032)
            by (nonlinear_arith)
            requires
                0 <= frame <= 100_000_001,
                1 <= self.channels <= 16,
        ;
        if (frame + 1) * self.channels < self.samples.len() as i64 {
            let next: i64 = self.mono_frame(frame + 1);
            cur + modulate(next - cur, frac)
        } else {
            cur
        }
    }

    /// Whether playback at the native rate is over after `time_us`.
    pub fn is_finished(&self, time_us: i64) -> (r: bool)
        requires
            self.wf(),
            0 <= time_us,
        ensures
            r == (time_us >= self.spec_duration_us()),
    {
        time_us >= self.duration_us()
    }

    /// Whether playback at `target_rate` is over after `time_us`.
    pub fn is_finished_at_sample_rate(&self, time_us: i64, target_rate: i64) -> (r: bool)
        requires
            self.wf(),
            0 <= time_us,
            0 < target_rate <= 1_000_000,
        ensures
            r == (time_us >= self.spec_duration_at_us(target_rate as int)),
    {
        time_us >= self.duration_at_sample_rate_us(target_rate)
    }

    /// The buffer's native sample rate in hertz.
    pub fn get_sample_rate(&self) -> (r: i64)
        ensures
            r == self.sample_rate,
    {
        self.sample_rate
    }
}

/// One playing instance of a PCM buffer.
#[derive(Debug)]
pub struct SamplePlayback {
    /// The buffer being played.
    pub sample: AudioSample,
    /// Global instant playback started, in microseconds.
    pub start_time: i64,
    /// Volume of this instance, in fixed point.
    pub volume: i64,
    /// Cleared once the instance is stopped; a stopped instance reads as
    /// silence forever.
    pub active: bool,
}

impl SamplePlayback {
    /// The ranges the mixing loop preserves.
    pub open spec fn wf(&self) -> bool {
        &&& self.sample.wf()
        &&& 0 <= self.start_time <= MAX_TIME_US
        &&& 0 <= self.volume <= SCALE
    }

    /// Start playing `sample` at global instant `start_time`.
    pub fn new(sample: AudioSample, start_time: i64, volume: i64) -> (r: SamplePlayback)
        requires
            sample.wf(),
            0 <= start_time <= MAX_TIME_US,
            0 <= volume <= SCALE,
        ensures
            r.wf(),
            r.sample.samples@ == sample.samples@,
            r.sample.sample_rate == sample.sample_rate,
            r.sample.channels == sample.channels,
            r.start_time == start_time,
            r.volume == volume,
            r.active,
    {
        SamplePlayback { sample, start_time, volume, active: true }
    }

    /// The playback value at global instant `current_time`: the interpolated
    /// buffer value at the elapsed time, scaled by the instance volume;
    /// zero before the start instant, after the end, or once stopped.
    pub open spec fn spec_current_sample(&self, current_time: int, target_rate: int) -> int {
        if !self.active {
            0
        } else if current_time < self.start_time {
            0
        } else if current_time - self.start_time >= self.spec_duration_at(target_rate) {
            0
        } else {
            spec_attenuate(
                self.sample.spec_sample_at_time(current_time - self.start_time, target_rate),
                self.volume as int,
            )
        }
    }

    /// The resampled duration of the underlying buffer.
    pub open spec fn spec_duration_at(&self, target_rate: int) -> int {
        self.sample.spec_duration_at_us(target_rate)
    }

    /// Read this instance's contribution at global instant `current_time`.
    pub fn get_current_sample(&self, current_time: i64, target_rate: i64) -> (r: i64)
        requires
            self.wf(),
            0 <= current_time <= MAX_TIME_US,
            0 < target_rate <= 1_000_000,
        ensures
            r == self.spec_current_sample(current_time as int, target_rate as int),
            -SCALE <= r <= SCALE,
    {
        if !self.active {
            return 0;
        }
        if current_time < self.start_time {
            return 0;
        }
        let elapsed: i64 = current_time - self.start_time;
        if self.sample.is_finished_at_sample_rate(elapsed, target_rate) {
            return 0;
        }
        attenuate(self.sample.get_sample_at_time(elapsed, target_rate), self.volume)
    }

    /// Whether this instance is over: it has started and its resampled
    /// duration has elapsed.
    pub fn is_finished(&self, current_time: i64, target_rate: i64) -> (r: bool)
        requires
            self.wf(),
            0 <= current_time <= MAX_TIME_US,
            0 < target_rate <= 1_000_000,
        ensures
            r == (current_time - self.start_time >= 0 && current_time - self.start_time
                >= self.spec_duration_at(target_rate as int)),
    {
        if current_time < self.start_time {
            return false;
        }
        let elapsed: i64 = current_time - self.start_time;
        self.sample.is_finished_at_sample_rate(elapsed, target_rate)
    }

    /// Stop this instance for good.
    pub fn stop(&mut self)
        requires
            old(self).wf(),
        ensures
            final(self).wf(),
            !final(self).active,
            final(self).sample.samples@ == old(self).sample.samples@,
            final(self).sample.sample_rate == old(self).sample.sample_rate,
            final(self).sample.channels == old(self).sample.channels,
            final(self).start_time == old(self).start_time,
            final(self).volume == old(self).volume,
    {
        self.active = false;
    }
}

} // verus!
