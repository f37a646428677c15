//! Decoding WAV containers into the library's PCM buffers.
//!
//! The container format is read by the `hound` crate behind one trusted
//! wrapper; everything after the decode — normalizing the integer samples to
//! fixed point and checking the ranges the playback contracts need — is
//! verified code.

use vstd::prelude::*;

use crate::fixed::SCALE;
use crate::samples::{AudioSample, MAX_PCM_SAMPLES};

verus! {

/// What decoding WAV bytes as integer PCM yields: the interleaved samples,
/// the sample rate in hertz, the channel count and the bits per sample; or
/// nothing, for bytes that are not a well-formed integer-format WAV file.
/// The result is a function of the bytes alone.
pub uninterp spec fn wav_int_pcm_of(bytes: Seq<u8>) -> Option<(Seq<i32>, u32, u16, u16)>;

/// Relies on hound's `WavReader`: `new` reads and validates the WAV header
/// (rejecting zero channels and ragged data lengths), `spec` reports the
/// format, and `samples::<i32>` yields every integer sample, failing on
/// floating-point files and on widths over 32 bits.
#[verifier::external_body]
fn decode_wav_int(bytes: &[u8]) -> (r: Option<(Vec<i32>, u32, u16, u16)>)
    ensures
        match r {
            Some(t) => {
                &&& wav_int_pcm_of(bytes@) == Some((t.0@, t.1, t.2, t.3))
                &&& t.2 >= 1
                &&& 1 <= t.3 <= 32
                &&& t.0@.len() as int % (t.2 as int) == 0
            },
            None => wav_int_pcm_of(bytes@) is None,
        },
{
    let mut reader = match hound::WavReader::new(std::io::Cursor::new(bytes)) {
        Ok(r) => r,
        Err(_) => return None,
    };
    let spec = reader.spec();
    if spec.sample_format != hound::SampleFormat::Int || spec.bits_per_sample < 1
        || spec.bits_per_sample > 32 {
        return None;
    }
    match reader.samples::<i32>().collect::<Result<Vec<i32>, _>>() {
        Ok(s) => Some((s, spec.sample_rate, spec.channels, spec.bits_per_sample)),
        Err(_) => None,
    }
}

/// An integer sample of the given bit width scaled to fixed point: divided
/// by two to the width less one, then clamped into `[-SCALE, SCALE]`.
pub open spec fn spec_normalize_sample(s: int, half: int) -> int {
    let v = if s >= 0 {
        s * (SCALE as int) / half
    } else {
        -((-s) * (SCALE as int) / half)
    };
    if v > SCALE {
        SCALE as int
    } else if v < -SCALE {
        -SCALE as int
    } else {
        v
    }
}

/// Two to the power `bits - 1`, the magnitude of the smallest value a
/// `bits`-wide integer sample can hold.
pub open spec fn spec_half_range(bits: int) -> int
    decreases bits,
{
    if bits <= 1 {
        1
    } else {
        2 * spec_half_range(bits - 1)
    }
}

fn half_range(bits: u16) -> (r: i64)
    requires
        1 <= bits <= 32,
    ensures
        r == spec_half_range(bits as int),
        1 <= r <= 2_147_483_648,
{
    proof {
        lemma_half_range_values();
    }
    let mut r: i64 = 1;
    let mut k: u16 = 1;
    while k < bits
        invariant
            1 <= k <= bits <= 32,
            r == spec_half_range(k as int),
            1 <= r <= 2_147_483_648,
        decreases bits - k,
    {
        proof {
            lemma_half_range_values();
            assert(1 <= spec_half_range(k as int + 1) <= 2_147_483_648);
        }
        r = r * 2;
        k = k + 1;
    }
    r
}

/// The half range of each accepted bit width.
proof fn lemma_half_range_values()
    ensures
        spec_half_range(1) == 1,
        spec_half_range(2) == 2,
        spec_half_range(3) == 4,
        spec_half_range(4) == 8,
        spec_half_range(5) == 16,
        spec_half_range(6) == 32,
        spec_half_range(7) == 64,
        spec_half_range(8) == 128,
        spec_half_range(9) == 256,
        spec_half_range(10) == 512,
        spec_half_range(11) == 1024,
        spec_half_range(12) == 2048,
        spec_half_range(13) == 4096,
        spec_half_range(14) == 8192,
        spec_half_range(15) == 16384,
        spec_half_range(16) == 32768,
        spec_half_range(17) == 65536,
        spec_half_range(18) == 131072,
        spec_half_range(19) == 262144,
        spec_half_range(20) == 524288,
        spec_half_range(21) == 1048576,
        spec_half_range(22) == 2097152,
        spec_half_range(23) == 4194304,
        spec_half_range(24) == 8388608,
        spec_half_range(25) == 16777216,
        spec_half_range(26) == 33554432,
        spec_half_range(27) == 67108864,
        spec_half_range(28) == 134217728,
        spec_half_range(29) == 268435456,
        spec_half_range(30) == 536870912,
        spec_half_range(31) == 1073741824,
        spec_half_range(32) == 2147483648,
{
    assert(spec_half_range(1) == 1);
    assert(spec_half_range(2) == 2);
    assert(spec_half_range(3) == 4);
    assert(spec_half_range(4) == 8);
    assert(spec_half_range(5) == 16);
    assert(spec_half_range(6) == 32);
    assert(spec_half_range(7) == 64);
    assert(spec_half_range(8) == 128);
    assert(spec_half_range(9) == 256);
    assert(spec_half_range(10) == 512);
    assert(spec_half_range(11) == 1024);
    assert(spec_half_range(12) == 2048);
    assert(spec_half_range(13) == 4096);
    assert(spec_half_range(14) == 8192);
    assert(spec_half_range(15) == 16384);
    assert(spec_half_range(16) == 32768);
    assert(spec_half_range(17) == 65536);
    assert(spec_half_range(18) == 131072);
    assert(spec_half_range(19) == 262144);
    assert(spec_half_range(20) == 524288);
    assert(spec_half_range(21) == 1048576);
    assert(spec_half_range(22) == 2097152);
    assert(spec_half_range(23) == 4194304);
    assert(spec_half_range(24) == 8388608);
    assert(spec_half_range(25) == 16777216);
    assert(spec_half_range(26) == 33554432);
    assert(spec_half_range(27) == 67108864);
    assert(spec_half_range(28) == 134217728);
    assert(spec_half_range(29) == 268435456);
    assert(spec_half_range(30) == 536870912);
    assert(spec_half_range(31) == 1073741824);
    assert(spec_half_range(32) == 2147483648);
}

/// Scale raw integer samples of the given bit width to fixed point, each
/// result within `[-SCALE, SCALE]`.
pub fn normalize_pcm(raw: &Vec<i32>, bits: u16) -> (r: Vec<i64>)
    requires
        1 <= bits <= 32,
    ensures
        r@.len() == raw@.len(),
        forall|i: int|
            0 <= i < r@.len() ==> #[trigger] r@[i] == spec_normalize_sample(
                raw@[i] as int,
                spec_half_range(bits as int),
            ),
        forall|i: int| 0 <= i < r@.len() ==> -SCALE <= #[trigger] r@[i] <= SCALE,
{
    let half: i64 = half_range(bits);
    let mut r: Vec<i64> = Vec::new();
    let mut i: usize = 0;
    while i < raw.len()
        invariant
            0 <= i <= raw@.len(),
            1 <= half <= 2_147_483_648,
            half == spec_half_range(bits as int),
            r@.len() == i,
            forall|j: int|
                0 <= j < i ==> #[trigger] r@[j] == spec_normalize_sample(
                    raw@[j] as int,
                    spec_half_range(bits as int),
                ),
            forall|j: int| 0 <= j < i ==> -SCALE <= #[trigger] r@[j] <= SCALE,
        decreases raw@.len() - i,
    {
        let s: i64 = raw[i] as i64;
        let scaled: i64 = if s >= 0 {
            assert(0 <= s * (SCALE as int) <= 3_000_000_000_000_000) by (nonlinear_arith)
                requires
                    0 <= s <= 3_000_000_000,
            ;
            let v: i64 = s * SCALE / half;
            assert(0 <= v) by (nonlinear_arith)
                requires
                    0 <= s * (SCALE as int),
                    half >= 1,
                    v == s * (SCALE as int) / (half as int),
            ;
            v
        } else {
            assert(0 <= (-s) * (SCALE as int) <= 3_000_000_000_000_000) by (nonlinear_arith)
                requires
                    0 < -s <= 3_000_000_000,
            ;
            let v: i64 = (-s) * SCALE / half;
            assert(0 <= v) by (nonlinear_arith)
                requires
                    0 <= (-s) * (SCALE as int),
                    half >= 1,
                    v == (-s) * (SCALE as int) / (half as int),
            ;
            -v
        };
        let clamped: i64 = if scaled > SCALE {
            SCALE
        } else if scaled < -SCALE {
            -SCALE
        } else {
            scaled
        };
        r.push(clamped);
        i = i + 1;
    }
    r
}

impl AudioSample {
    /// Decode WAV bytes into a PCM buffer: the container is read as integer
    /// PCM, the samples are scaled to fixed point, and the result is checked
    /// against the ranges playback needs.  `None` exactly for bytes that
    /// decode to no integer-format WAV, or to one outside those ranges.
    pub fn load_from_bytes(bytes: &[u8]) -> (r: Option<AudioSample>)
        ensures
            match r {
                Some(s) => {
                    &&& wav_int_pcm_of(bytes@) is Some
                    &&& s.wf()
                    &&& {
                        let t = wav_int_pcm_of(bytes@)->Some_0;
                        &&& s.sample_rate == t.1
                        &&& s.channels == t.2
                        &&& s.samples@.len() == t.0.len()
                        &&& forall|i: int|
                            0 <= i < s.samples@.len() ==> #[trigger] s.samples@[i]
                                == spec_normalize_sample(
                                t.0[i] as int,
                                spec_half_range(t.3 as int),
                            )
                    }
                },
                None => wav_int_pcm_of(bytes@) is None || {
                    let t = wav_int_pcm_of(bytes@)->Some_0;
                    ||| t.1 == 0
                    ||| t.1 > 1_000_000
                    ||| t.2 == 0
                    ||| t.2 > 16
                    ||| t.0.len() > MAX_PCM_SAMPLES
                },
            },
    {
        match decode_wav_int(bytes) {
            None => None,
            Some((raw, rate, channels, bits)) => {
                if rate < 1 || rate > 1_000_000 {
                    return None;
                }
                if channels < 1 || channels > 16 {
                    return None;
                }
                if raw.len() > MAX_PCM_SAMPLES {
                    return None;
                }
                let samples: Vec<i64> = normalize_pcm(&raw, bits);
                Some(AudioSample { samples, sample_rate: rate as i64, channels: channels as i64 })
            },
        }
    }
}

} // verus!
