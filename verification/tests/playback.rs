use morse_blink::morse::Action;
use morse_blink::player::Player;
use morse_blink::player::Step;

// A scripted stand-in for the real pin and clock: it records what was
// performed and fails on one chosen action.
fn drive(player: &mut Player, fail_on: Option<usize>, max_steps: usize) -> Vec<Action> {
    let mut performed: Vec<Action> = Vec::new();
    for attempt in 0..max_steps {
        match player.next_step() {
            Step::Halted => break,
            Step::Perform(action) => {
                if fail_on == Some(attempt) {
                    player.step_failed();
                } else {
                    performed.push(action);
                    player.step_done();
                }
            }
        }
    }
    performed
}

#[test]
fn failure_on_third_action_halts_playback() {
    // ".." encodes to four actions; the third set-level fails.
    let mut player = Player::try_new("..", 100).unwrap();
    let performed = drive(&mut player, Some(2), 100);
    // The first two actions were performed; the third failed; the
    // fourth was never attempted.
    assert_eq!(performed, vec![Action::High(100), Action::Low(100)]);
    assert!(player.aborted);
    assert_eq!(player.next_step(), Step::Halted);
    assert_eq!(player.next_step(), Step::Halted);
}

#[test]
fn word_gap_between_passes() {
    // One dot, then the pass is over: the player asks for exactly one
    // pure wait of seven dot units before the pattern starts again.
    let mut player = Player::try_new(".", 100).unwrap();
    let performed = drive(&mut player, None, 5);
    assert_eq!(
        performed,
        vec![
            Action::High(100),
            Action::Low(100),
            Action::Wait(700),
            Action::High(100),
            Action::Low(100),
        ]
    );
}

#[test]
fn empty_pattern_goes_straight_to_the_pause() {
    let mut player = Player::try_new("", 200).unwrap();
    assert_eq!(player.next_step(), Step::Perform(Action::Wait(1400)));
    player.step_done();
    assert_eq!(player.next_step(), Step::Perform(Action::Wait(1400)));
}

#[test]
fn zero_time_unit_is_rejected() {
    assert!(Player::try_new("...", 0).is_none());
    assert!(Player::try_new("...", u32::MAX).is_none());
    assert!(Player::try_new("...", 1).is_some());
    assert!(Player::try_new("...", u32::MAX / 7).is_some());
    assert!(Player::try_new("...", u32::MAX / 7 + 1).is_none());
}

#[test]
fn ignored_characters_are_reported() {
    let player = Player::try_new(".x-y", 100).unwrap();
    assert_eq!(player.ignored, vec!['x', 'y']);
    assert_eq!(
        player.actions,
        vec![Action::High(100), Action::Low(100), Action::High(300), Action::Low(100)]
    );
}
