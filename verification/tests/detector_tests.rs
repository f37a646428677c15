use codebeats::sequence_detector::SequenceDetector;

#[test]
fn test_sequence_detector_creation() {
    let detector = SequenceDetector::new();
    assert_eq!(detector.get_target_string(), "oppokokoppokosuttenten");
    assert_eq!(detector.get_history_string(), "");
}

#[test]
fn test_sequence_detection() {
    let mut detector = SequenceDetector::new();

    // Input the target sequence
    let sequence = "oppokokoppokosuttenten";
    let mut triggered = false;

    for ch in sequence.chars() {
        if detector.process_input(ch) {
            triggered = true;
            break;
        }
    }

    assert!(triggered, "Sequence should have been detected");
}

#[test]
fn test_partial_sequence_no_trigger() {
    let mut detector = SequenceDetector::new();

    // Input partial sequence
    let partial = "oppoko"; // Only first part

    for ch in partial.chars() {
        let triggered = detector.process_input(ch);
        assert!(!triggered, "Partial sequence should not trigger");
    }
}

#[test]
fn test_sequence_with_noise() {
    let mut detector = SequenceDetector::new();

    // Input some noise first
    detector.process_input('x');
    detector.process_input('y');
    detector.process_input('z');

    // Then input the target sequence
    let sequence = "oppokokoppokosuttenten";
    let mut triggered = false;

    for ch in sequence.chars() {
        if detector.process_input(ch) {
            triggered = true;
            break;
        }
    }

    assert!(triggered, "Sequence should be detected even with noise");
}

#[test]
fn test_no_spam_triggering() {
    let mut detector = SequenceDetector::new();

    // Input the sequence twice quickly
    let sequence = "oppokokoppokosuttenten";
    let mut trigger_count = 0;

    // First sequence
    for ch in sequence.chars() {
        if detector.process_input(ch) {
            trigger_count += 1;
        }
    }

    // Second sequence immediately
    for ch in sequence.chars() {
        if detector.process_input(ch) {
            trigger_count += 1;
        }
    }

    assert_eq!(trigger_count, 1, "Should only trigger once to prevent spam");
}

#[test]
fn test_non_letters_ignored_and_case_folded() {
    let mut detector = SequenceDetector::new();
    detector.process_input('1');
    detector.process_input(' ');
    detector.process_input('!');
    assert_eq!(detector.get_history_string(), "");

    detector.process_input('A');
    detector.process_input('b');
    assert_eq!(detector.get_history_string(), "ab");

    detector.reset();
    assert_eq!(detector.get_history_string(), "");
}
