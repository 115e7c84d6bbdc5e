use futures::sync::mpsc::UnboundedSender;
use futures::{Async, AsyncSink, Sink};
use vstd::prelude::*;

verus! {

/// Declares `futures::sync::mpsc::UnboundedSender` as an opaque type: the
/// sending end of the channel that carries remote messages to a crucible.
#[verifier::external_type_specification]
#[verifier::external_body]
#[verifier::reject_recursive_types(T)]
pub struct ExUnboundedSender<T>(UnboundedSender<T>);

/// What offering a message to the channel gave: taken, handed back because
/// the channel is full, or refused because the receiving end is gone.
pub enum ChannelStart<T> {
    Accepted,
    Rejected(T),
    Closed,
}

/// What flushing the channel gave: done, not yet, or the receiving end is
/// gone.
pub enum ChannelFlush {
    Ready,
    NotReady,
    Closed,
}

/// The sending end a remote may hold, with the messages offered through it
/// so far.
#[verifier::reject_recursive_types(M)]
pub struct RemoteSender<M> {
    sender: Option<UnboundedSender<M>>,
    offered: Ghost<Seq<M>>,
}

impl<M> RemoteSender<M> {
    /// Whether there is a channel to send on.
    pub closed spec fn connected(&self) -> bool {
        self.sender is Some
    }

    /// The messages offered to the channel through this sender, oldest
    /// first.
    pub closed spec fn offered(&self) -> Seq<M> {
        self.offered@
    }

    /// A sender on the given channel, with nothing offered yet.
    pub fn new(sender: UnboundedSender<M>) -> (r: Self)
        ensures
            r.connected(),
            r.offered() == Seq::<M>::empty(),
    {
        RemoteSender { sender: Some(sender), offered: Ghost(Seq::empty()) }
    }

    /// A sender with no channel: nothing it is given goes anywhere.
    pub fn empty() -> (r: Self)
        ensures
            !r.connected(),
            r.offered() == Seq::<M>::empty(),
    {
        RemoteSender { sender: None, offered: Ghost(Seq::empty()) }
    }

    /// The channel, if there is one.
    pub fn sender(&self) -> (r: Option<&UnboundedSender<M>>)
        ensures
            r is Some <==> self.connected(),
    {
        self.sender.as_ref()
    }

    /// Whether there is a channel to send on.
    pub fn is_connected(&self) -> (r: bool)
        ensures
            r == self.connected(),
    {
        self.sender.is_some()
    }

    /// Calls `Sink::start_send` of `futures::sync::mpsc::UnboundedSender`
    /// with `msg`, which is thereby offered to the channel. The sender of an
    /// unbounded channel is never parked, so the channel never hands the
    /// message back: it takes it, or reports the receiving end gone. Left
    /// unsaid: the channel panics when its count of queued messages would
    /// pass its capacity.
    #[verifier::external_body]
    pub(crate) fn offer(&mut self, msg: M) -> (r: ChannelStart<M>)
        requires
            old(self).connected(),
        ensures
            !(r is Rejected),
            final(self).connected(),
            final(self).offered() == old(self).offered().push(msg),
    {
        match self.sender.as_mut().unwrap().start_send(msg) {
            Ok(AsyncSink::Ready) => ChannelStart::Accepted,
            Ok(AsyncSink::NotReady(msg)) => ChannelStart::Rejected(msg),
            Err(_) => ChannelStart::Closed,
        }
    }

    /// Calls `Sink::poll_complete` of `futures::sync::mpsc::UnboundedSender`.
    /// An unbounded sender is never parked, and a channel whose receiving end
    /// is gone counts as flushed too, so flushing is always done; nothing is
    /// offered.
    #[verifier::external_body]
    pub(crate) fn flush(&mut self) -> (r: ChannelFlush)
        requires
            old(self).connected(),
        ensures
            r is Ready,
            final(self).connected(),
            final(self).offered() == old(self).offered(),
    {
        match self.sender.as_mut().unwrap().poll_complete() {
            Ok(Async::Ready(())) => ChannelFlush::Ready,
            Ok(Async::NotReady) => ChannelFlush::NotReady,
            Err(_) => ChannelFlush::Closed,
        }
    }
}

} // verus!
