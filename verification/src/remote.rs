use crate::channel::{ChannelFlush, ChannelStart, RemoteSender};
use vstd::prelude::*;

verus! {

/// A request sent to a crucible from another thread: a future to spawn, or a
/// function that builds the future from a handle to the crucible.
pub enum RemoteMessage<Fut, Fun> {
    SpawnFuture(Fut),
    SpawnFn(Fun),
}

/// What a sink answers to `start_send`: the item was taken, or it is handed
/// back to be offered again later.
pub enum StartSend<T> {
    Ready,
    NotReady(T),
}

/// Whether a sink has finished flushing.
pub enum Readiness {
    Ready,
    NotReady,
}

/// A remote's `start_send` for a future: offers it to the channel as a
/// spawn request, if the remote has a channel. A remote with no channel, and
/// a closed channel, count the future as taken and drop it; a future the
/// channel handed back would be handed back unchanged, but an unbounded
/// channel hands nothing back, so the future is always taken.
pub fn remote_start_send<Fut, Fun>(
    sender: &mut RemoteSender<RemoteMessage<Fut, Fun>>,
    item: Fut,
) -> (r: StartSend<Fut>)
    ensures
        r is Ready,
        final(sender).connected() == old(sender).connected(),
        old(sender).connected() ==> final(sender).offered() == old(sender).offered().push(
            RemoteMessage::SpawnFuture(item),
        ),
        !old(sender).connected() ==> final(sender).offered() == old(sender).offered(),
{
    let channel = if sender.is_connected() {
        Some(sender.offer(RemoteMessage::SpawnFuture(item)))
    } else {
        None
    };
    match channel {
        None => StartSend::Ready,
        Some(ChannelStart::Accepted) | Some(ChannelStart::Closed) => StartSend::Ready,
        Some(ChannelStart::Rejected(RemoteMessage::SpawnFuture(f))) => StartSend::NotReady(f),
        Some(ChannelStart::Rejected(RemoteMessage::SpawnFn(_))) => {
            assert(false);
            StartSend::Ready
        },
    }
}

/// A remote's `poll_complete`: flushes the channel, if the remote has one,
/// and is not ready only while the channel is not; an unbounded channel is
/// always flushed, so the remote always is. Nothing is offered.
pub fn remote_poll_complete<M>(sender: &mut RemoteSender<M>) -> (r: Readiness)
    ensures
        r is Ready,
        final(sender).connected() == old(sender).connected(),
        final(sender).offered() == old(sender).offered(),
{
    let channel = if sender.is_connected() {
        Some(sender.flush())
    } else {
        None
    };
    match channel {
        Some(ChannelFlush::NotReady) => Readiness::NotReady,
        _ => Readiness::Ready,
    }
}

} // verus!
