use codebeats::scale_comparison::ScaleComparison;

#[test]
fn test_note_to_number_conversion() {
    assert_eq!(ScaleComparison::note_to_number("C4"), 48);
    assert_eq!(ScaleComparison::note_to_number("A4"), 57);
    assert_eq!(ScaleComparison::note_to_number("Bb4"), 58);
}

#[test]
fn test_scale_definitions() {
    let scales = ScaleComparison::get_language_scales();

    // Verify all expected languages have scales
    assert!(scales.contains_key("rust"));
    assert!(scales.contains_key("javascript"));
    assert!(scales.contains_key("c"));
    assert!(scales.contains_key("go"));
    assert!(scales.contains_key("python"));

    // Verify pentatonic scales have 5 notes
    assert_eq!(scales.get("rust").unwrap().notes.len(), 5);
    assert_eq!(scales.get("go").unwrap().notes.len(), 5);

    // Verify heptatonic scales have 7 notes
    assert_eq!(scales.get("javascript").unwrap().notes.len(), 7);
    assert_eq!(scales.get("c").unwrap().notes.len(), 7);
    assert_eq!(scales.get("python").unwrap().notes.len(), 7);
}

#[test]
fn test_scale_moods() {
    assert_eq!(
        ScaleComparison::get_scale_mood("C Minor Pentatonic"),
        "Powerful, direct, bluesy"
    );
    assert_eq!(ScaleComparison::get_scale_mood("F Major"), "Warm, friendly, pastoral");
    assert_eq!(ScaleComparison::get_scale_mood("Lydian Dominant"), "Neutral");
}

#[test]
fn test_sort_mappings_by_note() {
    let mappings = vec![
        ("s".to_string(), "G5".to_string()),
        ("a".to_string(), "C4".to_string()),
        ("k".to_string(), "A4".to_string()),
        ("b".to_string(), "C3".to_string()),
    ];
    let sorted = ScaleComparison::sort_mappings_by_note(mappings);
    let notes: Vec<&str> = sorted.iter().map(|p| p.1.as_str()).collect();
    assert_eq!(notes, vec!["C3", "C4", "A4", "G5"]);
}
