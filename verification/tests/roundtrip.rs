use serwasm::roundtrip::{RoundTrip, RoundTripAction};

fn run(outcomes: &[Result<(), String>]) -> (Result<(), String>, usize) {
    let (mut trip, mut action) = RoundTrip::start();
    assert!(matches!(action, RoundTripAction::Connect));
    let mut steps = 0;
    for outcome in outcomes {
        assert!(!trip.is_finished());
        steps += 1;
        action = trip.advance(outcome.clone());
        if let RoundTripAction::Complete(r) = action {
            assert!(trip.is_finished());
            return (r, steps);
        }
    }
    panic!("round trip did not complete");
}

#[test]
fn all_steps_succeed() {
    let (mut trip, _) = RoundTrip::start();
    assert!(matches!(trip.advance(Ok(())), RoundTripAction::Write));
    assert!(matches!(trip.advance(Ok(())), RoundTripAction::Read));
    assert!(matches!(trip.advance(Ok(())), RoundTripAction::Complete(Ok(()))));
    assert!(trip.is_finished());
}

#[test]
fn connect_failure_ends_at_once() {
    assert_eq!(run(&[Err("no route".into())]), (Err("no route".to_string()), 1));
}

#[test]
fn write_failure_is_reported() {
    assert_eq!(run(&[Ok(()), Err("READONLY".into())]), (Err("READONLY".to_string()), 2));
}

#[test]
fn read_failure_is_reported() {
    assert_eq!(run(&[Ok(()), Ok(()), Err("timeout".into())]), (Err("timeout".to_string()), 3));
}

#[test]
fn success_takes_three_steps() {
    assert_eq!(run(&[Ok(()), Ok(()), Ok(())]), (Ok(()), 3));
}
