use up_down::status::{Message, Status};
use up_down::tracker::{transition_message, Tracker};

#[test]
fn message_for_each_transition() {
    assert_eq!(
        transition_message(Status::Down, Status::Up),
        Some(Message::Recovered)
    );
    assert_eq!(
        transition_message(Status::Up, Status::Down),
        Some(Message::Failure)
    );
    assert_eq!(
        transition_message(Status::Up, Status::Up),
        Some(Message::StillHealthy)
    );
    assert_eq!(transition_message(Status::Down, Status::Down), None);
}

#[test]
fn message_iff_not_both_down() {
    for prev in [Status::Up, Status::Down] {
        for cur in [Status::Up, Status::Down] {
            let emitted = transition_message(prev, cur).is_some();
            let both_down = prev == Status::Down && cur == Status::Down;
            assert_eq!(emitted, !both_down);
        }
    }
}

#[test]
fn single_failure_message_over_consecutive_downs() {
    let mut tracker = Tracker::new(Status::Up);
    let mut messages = Vec::new();
    for _ in 0..5 {
        if let Some(m) = tracker.step(Status::Down) {
            messages.push(m);
        }
    }
    assert_eq!(messages, vec![Message::Failure]);
}

#[test]
fn state_carried_forward_even_when_silent() {
    let mut tracker = Tracker::new(Status::Down);
    assert_eq!(tracker.step(Status::Down), None);
    assert_eq!(tracker.previous, Status::Down);
    assert_eq!(tracker.step(Status::Up), Some(Message::Recovered));
    assert_eq!(tracker.previous, Status::Up);
}

#[test]
fn probe_outcome_maps_to_status() {
    assert_eq!(Status::from_success(true), Status::Up);
    assert_eq!(Status::from_success(false), Status::Down);
}

#[test]
fn lines_are_distinct_and_newline_terminated() {
    let lines = [
        Message::StillHealthy.line(),
        Message::Failure.line(),
        Message::Recovered.line(),
    ];
    for line in &lines {
        assert_eq!(*line.last().unwrap(), b'\n');
        assert_eq!(line.iter().filter(|b| **b == b'\n').count(), 1);
    }
    assert_ne!(lines[0], lines[1]);
    assert_ne!(lines[0], lines[2]);
    assert_ne!(lines[1], lines[2]);
}
