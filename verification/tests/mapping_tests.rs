use codebeats::embedded_configs::{config_exists, get_config_description, get_config_names};
use codebeats::keyboard_config::KeyboardConfig;
use codebeats::keyboard_mapping::{get_frequency_and_volume_with_config, get_frequency_from_note};

#[test]
fn test_frequency_calculation() {
    // Test A4 = 440 Hz (440,000 millihertz), exact under this tuning table
    let a4_freq = get_frequency_from_note("A4").unwrap();
    assert_eq!(a4_freq, 440_000);

    // Test middle C (261.63 Hz)
    let c4_freq = get_frequency_from_note("C4").unwrap();
    assert!((c4_freq - 261_630).abs() < 1_000);

    // Test octave relationships: doubling is exact
    let c3_freq = get_frequency_from_note("C3").unwrap();
    let c5_freq = get_frequency_from_note("C5").unwrap();
    assert_eq!(c5_freq, 2 * c4_freq);
    assert_eq!(c4_freq, 2 * c3_freq);
}

#[test]
fn test_sharp_and_flat_notes() {
    let cs4_freq = get_frequency_from_note("C#4").unwrap();
    let db4_freq = get_frequency_from_note("DB4").unwrap();
    assert_eq!(cs4_freq, db4_freq);
}

#[test]
fn test_invalid_notes() {
    assert_eq!(get_frequency_from_note("H4"), None);
    assert_eq!(get_frequency_from_note("C"), None);
    assert_eq!(get_frequency_from_note(""), None);
}

#[test]
fn test_keyboard_mapping() {
    let config = KeyboardConfig::default();

    // Test common programming keys
    let (freq, vol, note) = get_frequency_and_volume_with_config("A", &config).unwrap();
    assert_eq!(note, "C4");
    assert_eq!(vol, 300_000);
    assert!((freq - 261_630).abs() < 1_000);

    // Test that we can get frequency and volume for valid keys
    assert!(get_frequency_and_volume_with_config("F9", &config).is_some());
}

#[test]
fn test_volume_levels() {
    let config = KeyboardConfig::default();

    // Common keys should be louder than modifiers
    let (_, common_vol, _) = get_frequency_and_volume_with_config("E", &config).unwrap();
    let (_, modifier_vol, _) = get_frequency_and_volume_with_config("LShift", &config).unwrap();

    assert!(common_vol > modifier_vol);
}

#[test]
fn test_default_config() {
    let config = KeyboardConfig::default();
    assert_eq!(config.version, "1.0");
    assert!(config.mappings.len() > 0);
}

#[test]
fn test_keyboard_config_loading() {
    let keyboard_config = KeyboardConfig::default();
    assert!(!keyboard_config.description.is_empty());
}

#[test]
fn test_piano_layout_mapping() {
    let config = KeyboardConfig::piano_layout();
    let (_, _, note) = get_frequency_and_volume_with_config("Q", &config).unwrap();
    assert_eq!(note, "C4");
}

#[test]
fn test_config_waveform_selection() {
    let config = KeyboardConfig::default();
    assert!(config.get_waveform().is_none());
}

#[test]
fn test_config_registry() {
    let names = get_config_names();
    assert_eq!(names.len(), 24);
    assert_eq!(names[0], "c");
    assert_eq!(names[23], "typescript");

    assert!(config_exists("rust"));
    assert!(config_exists("python"));
    assert!(!config_exists("cobol"));
    assert!(!config_exists(""));

    assert!(get_config_description("rust").is_some());
    assert!(get_config_description("cobol").is_none());
}
