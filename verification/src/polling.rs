use vstd::prelude::*;

verus! {

/// What one poll of a stream gave: not ready yet, ended, an item, or an
/// error (whose value the decisions below never read).
pub enum StreamPoll<T> {
    NotReady,
    Ended,
    Item(T),
    Failed,
}

/// Decides, after one poll of the set of spawned futures, whether to poll it
/// again: yes when a future completed or failed (it has left the set and
/// others may be ready), no when none is ready or none is left.
pub fn keep_draining<T>(outcome: &StreamPoll<T>) -> (more: bool)
    ensures
        more == (outcome is Item || outcome is Failed),
{
    match outcome {
        StreamPoll::Item(_) | StreamPoll::Failed => true,
        StreamPoll::NotReady | StreamPoll::Ended => false,
    }
}

/// Decides, after one poll of the channel of remote messages, which message
/// to act on: the item received, or none, which ends the receiving loop
/// (not ready, closed, or failed).
pub fn next_message<T>(outcome: StreamPoll<T>) -> (msg: Option<T>)
    ensures
        match outcome {
            StreamPoll::Item(m) => msg == Some(m),
            _ => msg is None,
        },
{
    match outcome {
        StreamPoll::Item(m) => Some(m),
        _ => None,
    }
}

} // verus!
