use codebeats::audio_engine::AudioState;
use codebeats::embedded_configs::get_fart_audio_data;
use codebeats::fixed::SCALE;
use codebeats::samples::{AudioSample, SamplePlayback};
use codebeats::waveforms::Waveform;

#[test]
fn test_audio_sample_creation() {
    let sample = AudioSample {
        samples: vec![0, 500_000, 1_000_000, 500_000, 0, -500_000, -1_000_000, -500_000],
        sample_rate: 44_100,
        channels: 1,
    };

    assert_eq!(sample.channels, 1);
    assert_eq!(sample.sample_rate, 44_100);
    assert!(sample.duration_us() > 0);
}

#[test]
fn test_sample_playback() {
    let sample = AudioSample {
        samples: vec![1_000_000, 500_000, 0, -500_000, -1_000_000],
        sample_rate: 44_100,
        channels: 1,
    };

    let mut playback = SamplePlayback::new(sample, 0, 800_000);

    // Should be active initially
    assert!(playback.active);

    // Should return sample value multiplied by volume
    let sample_val = playback.get_current_sample(0, 44_100);
    assert_eq!(sample_val, 800_000); // 1.0 * 0.8

    // Should be able to stop
    playback.stop();
    assert!(!playback.active);
    assert_eq!(playback.get_current_sample(0, 44_100), 0);
}

#[test]
fn test_sample_interpolation() {
    let sample = AudioSample {
        samples: vec![0, 1_000_000],
        sample_rate: 2, // 2 samples per second for easy testing
        channels: 1,
    };

    // At 0.25 seconds, should be halfway between samples
    let mid_sample = sample.get_sample_at_time(250_000, 2);
    assert_eq!(mid_sample, 500_000);
}

#[test]
fn test_playback_silence_past_end() {
    // A five-sample mono buffer at 44,100 Hz: the first read returns the
    // first sample scaled by volume; any time past the buffer's duration
    // reads exactly zero, and the instance then reports finished.
    let sample = AudioSample {
        samples: vec![1_000_000, 500_000, 0, -500_000, -1_000_000],
        sample_rate: 44_100,
        channels: 1,
    };
    let duration = sample.duration_at_sample_rate_us(44_100);
    let playback = SamplePlayback::new(sample, 0, 800_000);

    assert_eq!(playback.get_current_sample(0, 44_100), 800_000);
    assert!(!playback.is_finished(0, 44_100));

    let past = duration + 1_000;
    assert_eq!(playback.get_current_sample(past, 44_100), 0);
    assert!(playback.is_finished(past, 44_100));
}

#[test]
fn test_stereo_frames_average_to_mono() {
    let sample = AudioSample {
        samples: vec![1_000_000, 0, -1_000_000, 0],
        sample_rate: 44_100,
        channels: 2,
    };
    // The first frame holds 1.0 on the left and 0.0 on the right: the mono
    // value is their average.
    assert_eq!(sample.get_sample_at_time(0, 44_100), 500_000);
}

#[test]
fn test_embedded_fart_audio_data() {
    let fart_data = get_fart_audio_data();

    // Check that we have some data
    assert!(!fart_data.is_empty(), "Audio data should not be empty");

    // Check that it's a valid WAV file by loading it
    let audio_sample = AudioSample::load_from_bytes(&fart_data);
    assert!(audio_sample.is_some(), "Should be able to load audio from the built-in data");

    if let Some(sample) = audio_sample {
        assert!(sample.samples.len() > 0, "Audio sample should have data");
        assert!(sample.sample_rate > 0, "Sample rate should be positive");
        assert!(sample.channels > 0, "Should have at least one channel");

        // The built-in burst: 800 mono samples at 8000 Hz.
        assert_eq!(sample.samples.len(), 800);
        assert_eq!(sample.sample_rate, 8_000);
        assert_eq!(sample.channels, 1);
        for &s in &sample.samples {
            assert!(-SCALE <= s && s <= SCALE);
        }
    }
}

#[test]
fn test_load_from_bytes_rejects_garbage() {
    assert!(AudioSample::load_from_bytes(&[]).is_none());
    assert!(AudioSample::load_from_bytes(&[1, 2, 3, 4, 5, 6, 7, 8]).is_none());
}

#[test]
fn test_fart_sample_loading() {
    // An AudioState created for the percussive kind starts with no loaded
    // sample and an empty playback list.
    let audio_state = AudioState::new(44_100, Waveform::Fart, SCALE, 1_200_000);

    assert_eq!(audio_state.sample_rate, 44_100);
    assert_eq!(audio_state.current_waveform, Waveform::Fart);

    if audio_state.get_fart_sample().is_some() {
        println!("Sample loaded");
    } else {
        println!("Sample not loaded, synthetic fallback in use");
    }

    // Verify sample playback list is initialized empty
    assert_eq!(audio_state.active_playback_count(), 0);
}

#[test]
fn test_fart_waveform_triggers_playback() {
    // With a PCM buffer loaded and the percussive kind selected, note-on
    // adds a playback instance instead of a voice, and note-off is a no-op.
    let mut state = AudioState::new(44_100, Waveform::Fart, SCALE, 1_200_000);
    let data = get_fart_audio_data();
    let sample = AudioSample::load_from_bytes(&data).unwrap();
    state.set_fart_sample(sample);

    let v = state.start_note_with_id("k", 440_000, 500_000);
    assert_eq!(v, 500_000);
    assert_eq!(state.active_note_count(), 0);
    assert_eq!(state.active_playback_count(), 1);

    state.stop_note_with_id("k");
    assert_eq!(state.active_playback_count(), 1);

    // The burst is 0.1 s at its native 8 kHz, which resamples to about
    // 0.55 s at the output rate; generate a little longer than that.
    for _ in 0..30_000 {
        state.generate_sample();
    }
    assert_eq!(state.active_playback_count(), 0);
}
