use crucibles::round::{PollRound, RoundStep};
use crucibles::polling::{keep_draining, next_message, StreamPoll};

#[test]
fn drain_continues_after_completion_or_failure() {
    assert!(keep_draining(&StreamPoll::Item(())));
    assert!(keep_draining(&StreamPoll::<()>::Failed));
}

#[test]
fn drain_stops_when_nothing_ready_or_left() {
    assert!(!keep_draining(&StreamPoll::<()>::NotReady));
    assert!(!keep_draining(&StreamPoll::<()>::Ended));
}

#[test]
fn receive_takes_item() {
    assert_eq!(next_message(StreamPoll::Item(42u32)), Some(42u32));
}

#[test]
fn receive_stops_otherwise() {
    assert_eq!(next_message(StreamPoll::<u32>::NotReady), None);
    assert_eq!(next_message(StreamPoll::<u32>::Ended), None);
    assert_eq!(next_message(StreamPoll::<u32>::Failed), None);
}

#[test]
fn round_dispatches_each_received_message() {
    let mut round = PollRound::new();
    assert!(matches!(round.received(StreamPoll::Item(3u8)), RoundStep::Dispatch(3)));
    assert!(matches!(round.received(StreamPoll::Item(4u8)), RoundStep::Dispatch(4)));
    assert!(matches!(round.received(StreamPoll::<u8>::NotReady), RoundStep::BeginDraining));
}

#[test]
fn round_drains_before_running() {
    let mut round = PollRound::new();
    assert!(matches!(round.received(StreamPoll::<u8>::Ended), RoundStep::BeginDraining));
    assert!(matches!(round.spawned_polled::<u8, ()>(&StreamPoll::Item(())), RoundStep::PollSpawned));
    assert!(matches!(round.spawned_polled::<u8, ()>(&StreamPoll::Failed), RoundStep::PollSpawned));
    assert!(matches!(round.spawned_polled::<u8, ()>(&StreamPoll::NotReady), RoundStep::PollRunning));
}

#[test]
fn round_with_empty_spawned_set_polls_running_next() {
    let mut round = PollRound::new();
    assert!(matches!(round.received(StreamPoll::<u8>::Failed), RoundStep::BeginDraining));
    assert!(matches!(round.spawned_polled::<u8, ()>(&StreamPoll::Ended), RoundStep::PollRunning));
}
