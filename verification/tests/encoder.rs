use morse_blink::morse::encode;
use morse_blink::morse::Action;

#[test]
fn single_dot_trace() {
    let (actions, ignored) = encode(".", 200);
    assert_eq!(actions, vec![Action::High(200), Action::Low(200)]);
    assert!(ignored.is_empty());
}

#[test]
fn single_dash_trace() {
    let (actions, ignored) = encode("-", 200);
    assert_eq!(actions, vec![Action::High(600), Action::Low(200)]);
    assert!(ignored.is_empty());
}

#[test]
fn dot_space_dot_trace() {
    let (actions, ignored) = encode(". .", 100);
    assert_eq!(
        actions,
        vec![
            Action::High(100),
            Action::Low(100),
            Action::Wait(200),
            Action::High(100),
            Action::Low(100),
        ]
    );
    assert!(ignored.is_empty());
    // The silence between the two marks totals three units: the
    // one-unit symbol gap plus the two-unit letter-gap wait.
    let mut between = 0u32;
    match actions[1] {
        Action::Low(ms) => between += ms,
        _ => panic!("expected the symbol gap"),
    }
    match actions[2] {
        Action::Wait(ms) => between += ms,
        _ => panic!("expected the letter-gap wait"),
    }
    assert_eq!(between, 300);
}

#[test]
fn empty_pattern_trace() {
    let (actions, ignored) = encode("", 200);
    assert!(actions.is_empty());
    assert!(ignored.is_empty());
}

#[test]
fn unrecognized_character_is_skipped_with_diagnostic() {
    let (actions, ignored) = encode("x", 200);
    assert!(actions.is_empty());
    assert_eq!(ignored, vec!['x']);

    // Playback continues after the bad character.
    let (actions, ignored) = encode("x-", 200);
    assert_eq!(actions, vec![Action::High(600), Action::Low(200)]);
    assert_eq!(ignored, vec!['x']);
}

#[test]
fn encoding_twice_gives_identical_traces() {
    let first = encode("... --- ...", 200);
    let second = encode("... --- ...", 200);
    assert_eq!(first.0, second.0);
    assert_eq!(first.1, second.1);
}

#[test]
fn sos_trace_exact() {
    let (actions, ignored) = encode("... --- ...", 200);
    let dot = [Action::High(200), Action::Low(200)];
    let dash = [Action::High(600), Action::Low(200)];
    let gap = [Action::Wait(400)];
    let mut expected: Vec<Action> = Vec::new();
    for _ in 0..3 {
        expected.extend_from_slice(&dot);
    }
    expected.extend_from_slice(&gap);
    for _ in 0..3 {
        expected.extend_from_slice(&dash);
    }
    expected.extend_from_slice(&gap);
    for _ in 0..3 {
        expected.extend_from_slice(&dot);
    }
    assert_eq!(actions, expected);
    assert!(ignored.is_empty());
}
