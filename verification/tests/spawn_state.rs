use crucibles::spawn_state::SpawnState;
use futures::executor::{self, Notify};
use futures::future;
use futures::task::{self, EventSet, Task, UnparkEvent};
use futures::Async;
use std::sync::{Arc, Mutex};

/// An executor-side notifier that does nothing; wakeups are observed through
/// the unpark event attached to the task instead.
struct Quiet;

impl Notify for Quiet {
    fn notify(&self, _id: usize) {}
}

/// Counts the wakeups of the task it is attached to.
struct WakeCounter {
    wakes: Mutex<usize>,
}

impl EventSet for WakeCounter {
    fn insert(&self, _id: usize) {
        *self.wakes.lock().unwrap() += 1;
    }
}

impl WakeCounter {
    fn count(&self) -> usize {
        *self.wakes.lock().unwrap()
    }
}

/// Wakes the task handed back, as the executor does; returns whether there
/// was one.
fn wake(handed_back: Option<&Task>) -> bool {
    match handed_back {
        Some(task) => {
            task.notify();
            true
        }
        None => false,
    }
}

/// A task whose wakeups are counted.
#[allow(deprecated)]
fn counted_task() -> (Task, Arc<WakeCounter>) {
    let counter = Arc::new(WakeCounter { wakes: Mutex::new(0) });
    let event = UnparkEvent::new(counter.clone(), 0);
    let quiet: &'static Quiet = &Quiet;
    let mut spawned = executor::spawn(future::lazy(move || {
        Ok::<Task, ()>(task::with_unpark_event(event, || task::current()))
    }));
    match spawned.poll_future_notify(&quiet, 0) {
        Ok(Async::Ready(t)) => (t, counter),
        _ => panic!("the task was not captured"),
    }
}

#[test]
fn new_state_has_no_task_and_nothing_pending() {
    let s = SpawnState::new();
    assert!(s.poll_task().is_none());
    assert!(!s.needs_notify());
}

#[test]
fn push_marks_pending_without_waking() {
    let (t, counter) = counted_task();
    let mut s = SpawnState::new();
    s.begin_poll(t);
    s.push();
    assert!(s.needs_notify());
    assert_eq!(counter.count(), 0);
}

#[test]
fn notify_without_task_keeps_pending() {
    let mut s = SpawnState::new();
    s.push();
    assert!(!wake(s.notify()));
    assert!(s.needs_notify());
}

#[test]
fn begin_poll_records_task_and_clears_pending() {
    let (t, _counter) = counted_task();
    let mut s = SpawnState::new();
    s.push();
    s.begin_poll(t);
    assert!(s.poll_task().is_some());
    assert!(!s.needs_notify());
}

#[test]
fn notify_wakes_recorded_task() {
    let (t, counter) = counted_task();
    let mut s = SpawnState::new();
    s.begin_poll(t);
    s.push();
    assert!(wake(s.notify()));
    assert_eq!(counter.count(), 1);
    assert!(!s.needs_notify());
}

#[test]
fn notify_wakes_even_with_nothing_pending() {
    let (t, counter) = counted_task();
    let mut s = SpawnState::new();
    s.begin_poll(t);
    assert!(wake(s.notify()));
    assert_eq!(counter.count(), 1);
}

#[test]
fn notify_if_needed_wakes_only_after_push() {
    let (t, counter) = counted_task();
    let mut s = SpawnState::new();
    s.begin_poll(t);
    assert!(!wake(s.notify_if_needed()));
    assert_eq!(counter.count(), 0);
    s.push();
    assert!(wake(s.notify_if_needed()));
    assert_eq!(counter.count(), 1);
    assert!(!s.needs_notify());
}

#[test]
fn spawn_wakes_at_once() {
    let (t, counter) = counted_task();
    let mut s = SpawnState::new();
    s.begin_poll(t);
    assert!(wake(s.spawn()));
    assert_eq!(counter.count(), 1);
    assert!(!s.needs_notify());
}

#[test]
fn spawn_without_task_keeps_pending() {
    let mut s = SpawnState::new();
    assert!(!wake(s.spawn()));
    assert!(s.needs_notify());
    assert!(s.poll_task().is_none());
}

#[test]
fn law_no_lost_wakeup_example() {
    let (t, counter) = counted_task();
    let mut s = SpawnState::new();
    s.begin_poll(t);
    s.push();
    s.push();
    assert!(wake(s.notify_if_needed()));
    assert_eq!(counter.count(), 1);
}

#[test]
fn law_no_redundant_wakeup_example() {
    let (t, counter) = counted_task();
    let mut s = SpawnState::new();
    s.begin_poll(t);
    s.push();
    assert!(wake(s.notify_if_needed()));
    assert!(!wake(s.notify_if_needed()));
    assert!(wake(s.notify()));
    assert!(!wake(s.notify_if_needed()));
    assert_eq!(counter.count(), 2);
}

#[test]
fn law_registration_persists_example() {
    let (t, _counter) = counted_task();
    let mut s = SpawnState::new();
    s.begin_poll(t);
    s.push();
    wake(s.notify());
    wake(s.spawn());
    wake(s.notify_if_needed());
    assert!(s.poll_task().is_some());
}

#[test]
fn law_silent_before_first_poll_example() {
    let mut s = SpawnState::new();
    s.push();
    assert!(!wake(s.notify_if_needed()));
    assert!(!wake(s.spawn()));
    assert!(!wake(s.notify()));
    assert!(s.poll_task().is_none());
    assert!(s.needs_notify());
}

#[test]
fn poll_after_pending_needs_no_wake() {
    let (t, counter) = counted_task();
    let (t2, _counter2) = counted_task();
    let mut s = SpawnState::new();
    s.begin_poll(t);
    s.push();
    s.begin_poll(t2);
    assert!(!wake(s.notify_if_needed()));
    assert_eq!(counter.count(), 0);
}

#[test]
fn handed_back_task_is_the_last_recorded() {
    let (t1, counter1) = counted_task();
    let (t2, counter2) = counted_task();
    let mut s = SpawnState::new();
    s.begin_poll(t1);
    s.begin_poll(t2);
    s.push();
    assert!(wake(s.notify_if_needed()));
    assert_eq!(counter1.count(), 0);
    assert_eq!(counter2.count(), 1);
}

#[test]
fn law_pending_exact_example() {
    let (t, _counter) = counted_task();
    let mut s = SpawnState::new();
    s.push();
    assert!(!wake(s.notify()));
    assert!(s.needs_notify());
    s.begin_poll(t);
    assert!(!s.needs_notify());
    s.push();
    assert!(s.needs_notify());
    assert!(wake(s.notify()));
    assert!(!s.needs_notify());
    assert!(wake(s.spawn()));
    assert!(!s.needs_notify());
}
