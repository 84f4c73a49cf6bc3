//! Fan-out channels: one side broadcasts to every reader of the other side,
//! which answers through a shared queue.

use vstd::prelude::*;

verus! {

/// The sending half of an `async_broadcast` channel.
#[verifier::external_type_specification]
#[verifier::external_body]
#[verifier::reject_recursive_types(T)]
pub struct ExBroadcastSender<T>(async_broadcast::Sender<T>);

/// The receiving half of an `async_broadcast` channel.
#[verifier::external_type_specification]
#[verifier::external_body]
#[verifier::reject_recursive_types(T)]
pub struct ExBroadcastReceiver<T>(async_broadcast::Receiver<T>);

/// A fan-out channel: a broadcast channel carrying `A` one way and a queue
/// carrying `B` back.
#[verifier::reject_recursive_types(A)]
#[verifier::reject_recursive_types(B)]
pub struct Fan<A, B> where A: Clone {
    a_tx: async_broadcast::Sender<A>,
    a_rx: async_broadcast::Receiver<A>,
    b_tx: async_channel::Sender<B>,
    b_rx: async_channel::Receiver<B>,
}

/// The fan-out side of a [`Fan`]: it broadcasts `I` and collects `O`.
#[verifier::reject_recursive_types(I)]
#[verifier::reject_recursive_types(O)]
pub struct FanOut<I, O> {
    tx: async_broadcast::Sender<I>,
    rx: async_channel::Receiver<O>,
}

/// The fan-in side of a [`Fan`]: it answers with `I` and hears the broadcast
/// `O`.
#[verifier::reject_recursive_types(I)]
#[verifier::reject_recursive_types(O)]
pub struct FanIn<I, O> {
    tx: async_channel::Sender<I>,
    rx: async_broadcast::Receiver<O>,
}

impl<I, O> FanOut<I, O> {
    /// The broadcast sender of this side.
    pub closed spec fn broadcast_sender(&self) -> async_broadcast::Sender<I> {
        self.tx
    }

    /// The queue receiver of this side.
    pub closed spec fn queue_receiver(&self) -> async_channel::Receiver<O> {
        self.rx
    }
}

impl<I, O> FanIn<I, O> {
    /// The queue sender of this side.
    pub closed spec fn queue_sender(&self) -> async_channel::Sender<I> {
        self.tx
    }

    /// The broadcast receiver of this side.
    pub closed spec fn broadcast_receiver(&self) -> async_broadcast::Receiver<O> {
        self.rx
    }
}

impl<A, B> Fan<A, B> where A: Clone {
    /// The broadcast sender of the channel.
    pub closed spec fn broadcast_sender(&self) -> async_broadcast::Sender<A> {
        self.a_tx
    }

    /// The broadcast receiver of the channel.
    pub closed spec fn broadcast_receiver(&self) -> async_broadcast::Receiver<A> {
        self.a_rx
    }

    /// The queue sender of the channel.
    pub closed spec fn queue_sender(&self) -> async_channel::Sender<B> {
        self.b_tx
    }

    /// The queue receiver of the channel.
    pub closed spec fn queue_receiver(&self) -> async_channel::Receiver<B> {
        self.b_rx
    }

    /// Splits the channel into its fan-out side, which broadcasts and reads
    /// the queue, and its fan-in side, which writes the queue and hears the
    /// broadcast.
    pub fn split(self) -> (res: (FanOut<A, B>, FanIn<B, A>))
        ensures
            res.0.broadcast_sender() == self.broadcast_sender(),
            res.0.queue_receiver() == self.queue_receiver(),
            res.1.queue_sender() == self.queue_sender(),
            res.1.broadcast_receiver() == self.broadcast_receiver(),
    {
        (FanOut { tx: self.a_tx, rx: self.b_rx }, FanIn { tx: self.b_tx, rx: self.a_rx })
    }
}

} // verus!
