use codebeats::fixed::SCALE;
use codebeats::waveforms::{get_all_waveforms, Waveform};

fn all_waveforms() -> Vec<Waveform> {
    vec![
        Waveform::Natural,
        Waveform::Electronic,
        Waveform::Saw,
        Waveform::Square,
        Waveform::Cyberpunk,
        Waveform::Triangle,
        Waveform::Harmonic,
        Waveform::Fart,
        Waveform::Bass,
    ]
}

#[test]
fn test_waveform_generation() {
    for waveform in all_waveforms() {
        let sample = waveform.generate_sample(250_000, 440_000, 44_100);
        assert!(
            sample >= -5 * SCALE && sample <= 5 * SCALE,
            "Waveform {:?} sample out of reasonable range: {}",
            waveform,
            sample
        );
    }
}

#[test]
fn waveforms_test_waveform_parsing() {
    // Test valid waveforms
    assert_eq!("natural".parse::<Waveform>().unwrap(), Waveform::Natural);
    assert_eq!("electronic".parse::<Waveform>().unwrap(), Waveform::Electronic);
    assert_eq!("sine".parse::<Waveform>().unwrap(), Waveform::Electronic); // Alias
    assert_eq!("cyberpunk".parse::<Waveform>().unwrap(), Waveform::Cyberpunk);
    assert_eq!("saw".parse::<Waveform>().unwrap(), Waveform::Saw);
    assert_eq!("sawtooth".parse::<Waveform>().unwrap(), Waveform::Saw); // Alias
    assert_eq!("square".parse::<Waveform>().unwrap(), Waveform::Square);
    assert_eq!("triangle".parse::<Waveform>().unwrap(), Waveform::Triangle);
    assert_eq!("fart".parse::<Waveform>().unwrap(), Waveform::Fart);
    assert_eq!("bass".parse::<Waveform>().unwrap(), Waveform::Bass);

    // Test case insensitive
    assert_eq!("NATURAL".parse::<Waveform>().unwrap(), Waveform::Natural);
    assert_eq!("Electronic".parse::<Waveform>().unwrap(), Waveform::Electronic);

    // Test invalid waveforms
    assert!("invalid".parse::<Waveform>().is_err());
    assert!("".parse::<Waveform>().is_err());
    assert!("organ".parse::<Waveform>().is_err()); // Removed waveform
}

#[test]
fn main_test_waveform_parsing() {
    // Test valid waveforms
    assert_eq!(Waveform::from_str("natural"), Some(Waveform::Natural));
    assert_eq!(Waveform::from_str("electronic"), Some(Waveform::Electronic));
    assert_eq!(Waveform::from_str("cyberpunk"), Some(Waveform::Cyberpunk));
    assert_eq!(Waveform::from_str("fart"), Some(Waveform::Fart));

    // Test invalid waveform
    assert_eq!(Waveform::from_str("invalid"), None);
}

#[test]
fn test_adsr_params() {
    for waveform in all_waveforms() {
        let (attack, decay, sustain, release) = waveform.get_adsr_params();

        // All ADSR parameters should be non-negative
        assert!(attack >= 0, "Attack should be non-negative for {:?}: {}", waveform, attack);
        assert!(decay >= 0, "Decay should be non-negative for {:?}: {}", waveform, decay);
        assert!(release >= 0, "Release should be non-negative for {:?}: {}", waveform, release);

        // Sustain should be between 0 and 1
        assert!(
            sustain >= 0 && sustain <= SCALE,
            "Sustain should be 0-1 for {:?}: {}",
            waveform,
            sustain
        );

        // Reasonable limits for timing parameters (in microseconds)
        assert!(attack <= 2_000_000, "Attack too long for {:?}: {}", waveform, attack);
        assert!(decay <= 2_000_000, "Decay too long for {:?}: {}", waveform, decay);
        assert!(release <= 3_000_000, "Release too long for {:?}: {}", waveform, release);
    }
}

#[test]
fn test_bass_waveform_characteristics() {
    let waveform = Waveform::Bass;

    // Test that bass produces low-frequency content
    let sample_low = waveform.generate_sample(250_000, 55_000, 44_100); // A1
    let sample_mid = waveform.generate_sample(250_000, 440_000, 44_100); // A4

    // Both should be within a reasonable range
    assert!(sample_low.abs() <= 3 * SCALE);
    assert!(sample_mid.abs() <= 3 * SCALE);

    // Bass should have good ADSR for sustained notes
    let (attack, _decay, sustain, _release) = waveform.get_adsr_params();
    assert!(sustain >= 800_000, "Bass should have high sustain: {}", sustain);
    assert!(attack >= 10_000, "Bass should have some attack time: {}", attack);
}

#[test]
fn test_fart_waveform_frequency_limiting() {
    let waveform = Waveform::Fart;

    // Fart should work with various input frequencies but focus on low frequencies
    let high_freq_sample = waveform.generate_sample(250_000, 2_000_000, 44_100);
    let low_freq_sample = waveform.generate_sample(250_000, 80_000, 44_100);

    // Should produce reasonable output even with high input frequency
    assert!(high_freq_sample.abs() <= 2 * SCALE);
    assert!(low_freq_sample.abs() <= 2 * SCALE);
}

#[test]
fn test_cyberpunk_complexity() {
    let waveform = Waveform::Cyberpunk;

    // Test multiple phases to ensure variation
    let samples: Vec<i64> = (0..8)
        .map(|i| waveform.generate_sample(i * 125_000, 440_000, 44_100))
        .collect();

    // Cyberpunk should have variation (not all samples identical)
    let first_sample = samples[0];
    let has_variation = samples.iter().any(|&s| (s - first_sample).abs() > 1000);
    assert!(has_variation, "Cyberpunk waveform should have variation between phases");
}

#[test]
fn test_sine_wave_exact_points() {
    // The sine kind starts the cycle at zero and peaks at exactly one
    // quarter of the way through.
    assert_eq!(Waveform::Electronic.generate_sample(0, 440_000, 44_100), 0);
    assert_eq!(Waveform::Electronic.generate_sample(250_000, 440_000, 44_100), SCALE);
}

#[test]
fn test_square_wave_levels() {
    // Exactly +1 over the first half cycle and -1 over the second.
    assert_eq!(Waveform::Square.generate_sample(0, 440_000, 44_100), SCALE);
    assert_eq!(Waveform::Square.generate_sample(499_999, 440_000, 44_100), SCALE);
    assert_eq!(Waveform::Square.generate_sample(500_000, 440_000, 44_100), -SCALE);
    assert_eq!(Waveform::Square.generate_sample(999_999, 440_000, 44_100), -SCALE);
}

#[test]
fn test_saw_and_triangle_shape() {
    assert_eq!(Waveform::Saw.generate_sample(0, 440_000, 44_100), -SCALE);
    assert_eq!(Waveform::Saw.generate_sample(500_000, 440_000, 44_100), 0);
    assert_eq!(Waveform::Triangle.generate_sample(250_000, 440_000, 44_100), 0);
    assert_eq!(Waveform::Triangle.generate_sample(500_000, 440_000, 44_100), SCALE);
}

#[test]
fn test_get_all_waveforms_listing() {
    let all = get_all_waveforms();
    assert_eq!(all.len(), 9);
    assert_eq!(all[0].0, "natural");
    assert_eq!(all[1].0, "electronic");
    assert_eq!(all[8].0, "bass");
    for (name, description) in &all {
        assert_eq!(Waveform::from_str(name).unwrap().name(), *name);
        assert!(!description.is_empty());
    }
}
