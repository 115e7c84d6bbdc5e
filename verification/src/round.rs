use crate::polling::{keep_draining, next_message, StreamPoll};
use vstd::prelude::*;

verus! {

/// Where a crucible's poll stands: taking in remote messages, driving the
/// spawned futures, or done with both (only the running future is left).
pub enum RoundStage {
    Receiving,
    Draining,
    Finished,
}

/// What the executor does next within one poll of a crucible.
pub enum RoundStep<M> {
    /// Push the future that this received message carries onto the spawned
    /// set, then poll the channel of remote messages again.
    Dispatch(M),
    /// Record the current task as the one to wake, then poll the spawned set.
    BeginDraining,
    /// Poll the spawned set once more.
    PollSpawned,
    /// Poll the running future; its result is the crucible's.
    PollRunning,
}

/// One poll of a crucible: every message waiting on the channel is
/// dispatched first, then the spawned futures are driven until none is
/// ready, and only then is the running future polled.
pub struct PollRound {
    stage: RoundStage,
}

impl PollRound {
    /// The stage the round is in.
    pub closed spec fn stage(&self) -> RoundStage {
        self.stage
    }

    /// A round that starts by polling the channel of remote messages.
    pub fn new() -> (r: Self)
        ensures
            r.stage() is Receiving,
    {
        PollRound { stage: RoundStage::Receiving }
    }

    /// Whether the round is taking in remote messages, so that `received`
    /// may be called.
    pub fn is_receiving(&self) -> (r: bool)
        ensures
            r == (self.stage() is Receiving),
    {
        match self.stage {
            RoundStage::Receiving => true,
            _ => false,
        }
    }

    /// Whether the round is driving the spawned futures, so that
    /// `spawned_polled` may be called.
    pub fn is_draining(&self) -> (r: bool)
        ensures
            r == (self.stage() is Draining),
    {
        match self.stage {
            RoundStage::Draining => true,
            _ => false,
        }
    }

    /// The next step after the channel was polled: dispatch the message it
    /// gave, or, when it gave none, start driving the spawned futures.
    pub fn received<M>(&mut self, outcome: StreamPoll<M>) -> (next: RoundStep<M>)
        requires
            old(self).stage() is Receiving,
        ensures
            match outcome {
                StreamPoll::Item(m) => next == RoundStep::Dispatch(m) && final(self).stage() is Receiving,
                _ => next is BeginDraining && final(self).stage() is Draining,
            },
    {
        match next_message(outcome) {
            Some(m) => RoundStep::Dispatch(m),
            None => {
                self.stage = RoundStage::Draining;
                RoundStep::BeginDraining
            },
        }
    }

    /// The next step after the spawned set was polled: poll it again while
    /// futures keep completing or failing, otherwise poll the running future.
    pub fn spawned_polled<M, T>(&mut self, outcome: &StreamPoll<T>) -> (next: RoundStep<M>)
        requires
            old(self).stage() is Draining,
        ensures
            (outcome is Item || outcome is Failed) ==> next is PollSpawned && final(self).stage() is Draining,
            (outcome is NotReady || outcome is Ended) ==> next is PollRunning && final(self).stage() is Finished,
    {
        if keep_draining(outcome) {
            RoundStep::PollSpawned
        } else {
            self.stage = RoundStage::Finished;
            RoundStep::PollRunning
        }
    }
}

} // verus!
