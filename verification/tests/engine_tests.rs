use codebeats::audio_engine::{AudioState, RateLimiter};
use codebeats::engine::{ADSRParams, EnvelopeState, NoteState};
use codebeats::fixed::SCALE;
use codebeats::keyboard_mapping::KeyRateLimiter;
use codebeats::waveforms::Waveform;

#[test]
fn engine_test_adsr_creation() {
    let adsr = ADSRParams::natural();
    assert_eq!(adsr.attack_time, 20_000);
    assert_eq!(adsr.sustain_level, 700_000);
}

#[test]
fn audio_engine_test_adsr_creation() {
    let adsr = ADSRParams::natural();
    assert_eq!(adsr.attack_time, 20_000);
    assert_eq!(adsr.sustain_level, 700_000);
}

#[test]
fn engine_test_audio_state_creation() {
    let state = AudioState::new(44_100, Waveform::Electronic, SCALE, 1_200_000);
    assert_eq!(state.sample_rate, 44_100);
    assert_eq!(state.active_note_count(), 0);
}

#[test]
fn audio_engine_test_audio_state_creation() {
    let state = AudioState::new(44_100, Waveform::Electronic, SCALE, 1_200_000);
    assert_eq!(state.sample_rate, 44_100);
}

#[test]
fn engine_test_note_lifecycle() {
    let mut state = AudioState::new(44_100, Waveform::Electronic, SCALE, 1_200_000);

    // Start note
    state.start_note_with_id("A", 440_000, 500_000);
    assert_eq!(state.active_note_count(), 1);

    // Stop note
    state.stop_note_with_id("A");
    // Note should still be active (in release phase)
    assert_eq!(state.active_note_count(), 1);
}

#[test]
fn audio_engine_test_note_lifecycle() {
    let mut state = AudioState::new(44_100, Waveform::Electronic, SCALE, 1_200_000);

    // Start note
    state.start_note_with_id("A", 440_000, 500_000);
    assert_eq!(state.active_note_count(), 1);

    // Stop note
    state.stop_note_with_id("A");
    // Note should still exist but be in release phase
    assert_eq!(state.active_note_count(), 1);
}

#[test]
fn audio_engine_test_rate_limiter() {
    let mut limiter = RateLimiter::new();

    // First press should have full volume
    let vol1 = limiter.record_press_and_get_volume_multiplier("test_key", 0);
    assert_eq!(vol1, SCALE);

    // Rapid second press should have reduced volume (0.7)
    let vol2 = limiter.record_press_and_get_volume_multiplier("test_key", 0);
    assert_eq!(vol2, 700_000);

    // Different key should start fresh
    let vol_other = limiter.record_press_and_get_volume_multiplier("other_key", 0);
    assert_eq!(vol_other, SCALE);
}

#[test]
fn mapping_test_rate_limiter() {
    let mut limiter = KeyRateLimiter::new();

    // First press should be full volume
    let first_volume = limiter.check_key_press("J", 0);
    println!("First press volume: {}", first_volume);
    assert_eq!(first_volume, SCALE);

    // Immediate second press should reduce volume (simulating rapid press)
    let second_volume = limiter.check_key_press("J", 0);
    println!("Second press volume: {}", second_volume);
    assert!(second_volume < SCALE, "Expected reduced volume but got {}", second_volume);

    // Third rapid press should reduce even more
    let third_volume = limiter.check_key_press("J", 0);
    println!("Third press volume: {}", third_volume);
    assert!(
        third_volume <= second_volume,
        "Expected further reduction but got {}",
        third_volume
    );

    // Different keys shouldn't interfere
    let different_key_volume = limiter.check_key_press("K", 0);
    println!("Different key volume: {}", different_key_volume);
    assert_eq!(different_key_volume, SCALE);
}

#[test]
fn test_hold_duration_volume_reduction() {
    let mut state = AudioState::new(44_100, Waveform::Electronic, SCALE, 1_200_000);

    // Start a note
    state.start_note_with_id("J", 440_000, 500_000);

    // Get the note to test hold duration calculation
    let note = &state.active_notes_by_id[0].1;

    // Test initial volume (should be full for the first 0.5 s)
    let initial_reduction = note.calculate_hold_volume_reduction(100_000);
    assert_eq!(initial_reduction, SCALE);

    // Test volume reduction after 1 second
    let one_sec_reduction = note.calculate_hold_volume_reduction(1_000_000);
    assert_eq!(one_sec_reduction, 600_000);

    // Test volume reduction after 3 seconds
    let three_sec_reduction = note.calculate_hold_volume_reduction(3_000_000);
    assert_eq!(three_sec_reduction, 200_000);

    // Test volume reduction after 6 seconds
    let six_sec_reduction = note.calculate_hold_volume_reduction(6_000_000);
    assert_eq!(six_sec_reduction, 100_000);
}

#[test]
fn test_envelope_progression() {
    // Attack of 0.02 s: after exactly 0.02 s of advancement the state is
    // Decay and the multiplier on the transitioning tick is exactly 1.0.
    let adsr = ADSRParams { attack_time: 20_000, decay_time: 100_000, sustain_level: 700_000, release_time: 150_000 };
    let mut note = NoteState::new(440_000, 500_000, adsr, Waveform::Electronic, 0);
    assert_eq!(note.envelope_state, EnvelopeState::Attack);

    for _ in 0..19 {
        let m = note.update_envelope(1_000);
        assert_eq!(note.envelope_state, EnvelopeState::Attack);
        assert!(m < SCALE);
    }
    let m = note.update_envelope(1_000);
    assert_eq!(m, SCALE);
    assert_eq!(note.envelope_state, EnvelopeState::Decay);
    assert_eq!(note.envelope_time, 0);

    // After decay_time more, state is Sustain with the sustain multiplier.
    for _ in 0..99 {
        let m = note.update_envelope(1_000);
        assert_eq!(note.envelope_state, EnvelopeState::Decay);
        assert!(m <= SCALE && m >= 700_000);
    }
    let m = note.update_envelope(1_000);
    assert_eq!(m, 700_000);
    assert_eq!(note.envelope_state, EnvelopeState::Sustain);

    // Sustain holds the level with no time-based transition, while the
    // elapsed time keeps counting.
    for _ in 0..1000 {
        assert_eq!(note.update_envelope(1_000), 700_000);
        assert_eq!(note.envelope_state, EnvelopeState::Sustain);
    }
    assert_eq!(note.envelope_time, 1_000_000);

    // release() moves to Release with elapsed reset to zero.
    note.release();
    assert_eq!(note.envelope_state, EnvelopeState::Release);
    assert_eq!(note.envelope_time, 0);

    // After release_time in Release the multiplier is zero and the note
    // reports finished.
    let mut last = SCALE;
    for _ in 0..149 {
        last = note.update_envelope(1_000);
        assert!(!note.is_finished(last));
    }
    let m = note.update_envelope(1_000);
    assert_eq!(m, 0);
    assert!(note.is_finished(m));
    assert_eq!(note.envelope_time, 150_000);

    // The elapsed time keeps advancing past completion too.
    let m = note.update_envelope(1_000);
    assert_eq!(m, 0);
    assert_eq!(note.envelope_time, 151_000);
}

#[test]
fn test_release_idempotent() {
    // Calling release() twice in a row does not reset elapsed a second
    // time: release progress is monotonic, never restarted.
    let adsr = ADSRParams::natural();
    let mut note = NoteState::new(440_000, 500_000, adsr, Waveform::Electronic, 0);
    note.release();
    assert_eq!(note.envelope_state, EnvelopeState::Release);
    assert_eq!(note.envelope_time, 0);

    for _ in 0..50 {
        note.update_envelope(1_000);
    }
    assert_eq!(note.envelope_time, 50_000);

    note.release();
    assert_eq!(note.envelope_state, EnvelopeState::Release);
    assert_eq!(note.envelope_time, 50_000);
}

#[test]
fn test_zero_length_release_finishes_next_tick() {
    let adsr = ADSRParams { attack_time: 10_000, decay_time: 10_000, sustain_level: 700_000, release_time: 0 };
    let mut note = NoteState::new(440_000, 500_000, adsr, Waveform::Electronic, 0);
    note.release();
    let m = note.update_envelope(22);
    assert_eq!(m, 0);
    assert!(note.is_finished(m));
}

#[test]
fn test_note_on_replaces_same_identifier() {
    // A second note-on for the same identifier replaces rather than stacks:
    // the voice count stays constant.
    let mut state = AudioState::new(44_100, Waveform::Electronic, SCALE, 1_200_000);
    state.start_note_with_id("k", 440_000, 500_000);
    assert_eq!(state.active_note_count(), 1);
    state.start_note_with_id("k", 550_000, 500_000);
    assert_eq!(state.active_note_count(), 1);
    state.start_note_with_id("other", 660_000, 500_000);
    assert_eq!(state.active_note_count(), 2);
}

#[test]
fn test_released_voice_reaped_after_ramp() {
    // After note-off the voice persists in Release until its ramp
    // completes, at which point generate_sample reaps it.
    let mut state = AudioState::new(44_100, Waveform::Electronic, SCALE, 1_200_000);
    state.start_note_with_id("k", 440_000, 500_000);
    for _ in 0..100 {
        state.generate_sample();
    }
    assert_eq!(state.active_note_count(), 1);
    state.stop_note_with_id("k");
    assert_eq!(state.active_note_count(), 1);
    // The electronic release is 0.1 s; generate a little more than that.
    let mut reaped_at = 0;
    for i in 0..10_000 {
        state.generate_sample();
        if state.active_note_count() == 0 {
            reaped_at = i;
            break;
        }
    }
    assert_eq!(state.active_note_count(), 0);
    assert!(reaped_at > 0);
}

#[test]
fn test_one_second_sustain_then_release() {
    // End to end: a pool at 44,100 Hz holds a sustained note through one
    // second of samples, and reaps it only after note-off and its release.
    let mut state = AudioState::new(44_100, Waveform::Electronic, SCALE, 1_200_000);
    state.start_note_with_id("k", 440_000, 500_000);
    for _ in 0..44_100 {
        state.generate_sample();
    }
    assert_eq!(state.active_note_count(), 1);
    state.stop_note_with_id("k");
    for _ in 0..10_000 {
        state.generate_sample();
    }
    assert_eq!(state.active_note_count(), 0);
}

#[test]
fn test_negligible_volume_note_is_dropped() {
    let mut state = AudioState::new(44_100, Waveform::Electronic, SCALE, 1_200_000);
    let actual = state.start_note_with_id("k", 440_000, 5_000);
    assert_eq!(actual, 0);
    assert_eq!(state.active_note_count(), 0);
}

#[test]
fn test_rate_limited_repeats_get_quieter() {
    // Rapid repeats on one identifier get progressively quieter; another
    // identifier is unaffected.
    let mut state = AudioState::new(44_100, Waveform::Electronic, SCALE, 1_200_000);
    let v1 = state.start_note_with_id("k", 440_000, SCALE);
    let v2 = state.start_note_with_id("k", 440_000, SCALE);
    let v3 = state.start_note_with_id("k", 440_000, SCALE);
    assert_eq!(v1, SCALE);
    assert_eq!(v2, 700_000);
    assert!(v3 < v2);
    let other = state.start_note_with_id("m", 440_000, SCALE);
    assert_eq!(other, SCALE);
}

#[test]
fn test_set_volume_clamps() {
    let mut state = AudioState::new(44_100, Waveform::Electronic, SCALE, 1_200_000);
    state.set_volume(2 * SCALE);
    assert_eq!(state.master_volume, SCALE);
    state.set_volume(-5);
    assert_eq!(state.master_volume, 0);
    state.set_waveform(Waveform::Saw);
    assert_eq!(state.current_waveform, Waveform::Saw);
}
