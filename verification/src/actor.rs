//! Actor markers and references to running actors.

use core::marker::PhantomData;
use vstd::prelude::*;

verus! {

/// The sending half of an `async_channel` channel.
#[verifier::external_type_specification]
#[verifier::external_body]
#[verifier::reject_recursive_types(T)]
pub struct ExChannelSender<T>(async_channel::Sender<T>);

/// The receiving half of an `async_channel` channel.
#[verifier::external_type_specification]
#[verifier::external_body]
#[verifier::reject_recursive_types(T)]
pub struct ExChannelReceiver<T>(async_channel::Receiver<T>);

/// Makes a new unbounded channel with `async_channel::unbounded`.
///
/// The two halves belong to one fresh channel: what goes into the sender comes
/// out of the receiver. No clause states this, since nothing here can name a
/// channel; the caller relies on it only in how it places the two halves.
#[verifier::external_body]
pub(crate) fn new_channel<T>() -> (async_channel::Sender<T>, async_channel::Receiver<T>) {
    async_channel::unbounded()
}

/// `async_channel::Sender::clone`: another handle on the same channel.
///
/// The clone is the same handle: its one field is a clone of the original's
/// `Arc` on the channel, so it sends into the same channel. The outside
/// function aborts once the count of senders passes half of `usize::MAX`, a
/// machine limit that no clause can exclude, as the count is not visible
/// here.
pub assume_specification<T>[<async_channel::Sender<T> as std::clone::Clone>::clone](
    tx: &async_channel::Sender<T>,
) -> (res: async_channel::Sender<T>)
    ensures
        res == *tx,
;

/// `async_channel::Receiver::clone`: another handle on the same channel.
///
/// The clone is stated to be the same handle: it holds a clone of the
/// original's `Arc` on the channel, so it receives from the same channel as
/// the original. Its only other state, the registration for a wake-up that a
/// receiver polled as a stream keeps while it waits, starts out empty in the
/// clone; that registration decides no message that either handle receives.
/// The outside function aborts once the count of receivers passes half of
/// `usize::MAX`, a machine limit that no clause can exclude, as the count is
/// not visible here.
pub assume_specification<T>[<async_channel::Receiver<T> as std::clone::Clone>::clone](
    rx: &async_channel::Receiver<T>,
) -> (res: async_channel::Receiver<T>)
    ensures
        res == *rx,
;

/// A marker struct for indicating Sink actors.
pub struct Sink<T> {
    pub __marker: PhantomData<T>,
}

/// A marker struct for indicating Source actors.
pub struct Source<T> {
    pub __marker: PhantomData<T>,
}

/// A marker struct for indicating Pipeline actors.
pub struct Pipeline<T> {
    pub __marker: PhantomData<T>,
}

/// A marker struct for indicating Stream actors.
pub struct Stream<T> {
    pub __marker: PhantomData<T>,
}

/// A reference to a running actor: the channel ends through which it is fed
/// and read.
#[verifier::reject_recursive_types(I)]
#[verifier::reject_recursive_types(O)]
pub enum ActorRef<I, O> {
    /// Represents a closed actor.
    Closed,
    /// Represents a source actor with a receiver for output items.
    Source(async_channel::Receiver<O>),
    /// Represents a pipeline actor with both a sender for input items and a
    /// receiver for output items.
    Pipeline(async_channel::Sender<I>, async_channel::Receiver<O>),
}

impl<I, O> ActorRef<I, O> {
    /// Joins two actor references, creating a new pipeline.
    ///
    /// Returns the joined reference, which is fed where `self` is fed and read
    /// where `other` is read, together with the receiver of `self`'s output
    /// and the sender of `other`'s input, between which the caller forwards
    /// the messages.
    pub fn pipe<T>(self, other: ActorRef<O, T>) -> (res: (
        ActorRef<I, T>,
        async_channel::Receiver<O>,
        async_channel::Sender<O>,
    ))
        requires
            !(self is Closed),
            other is Pipeline,
        ensures
            self is Source ==> {
                &&& res.0 == ActorRef::<I, T>::Source(other->Pipeline_1)
                &&& res.1 == self->Source_0
                &&& res.2 == other->Pipeline_0
            },
            self is Pipeline ==> {
                &&& res.0 == ActorRef::<I, T>::Pipeline(self->Pipeline_0, other->Pipeline_1)
                &&& res.1 == self->Pipeline_1
                &&& res.2 == other->Pipeline_0
            },
    {
        match (self, other) {
            (ActorRef::Source(rx), ActorRef::Pipeline(tx, out)) => (ActorRef::Source(out), rx, tx),
            (ActorRef::Pipeline(a_tx, a_rx), ActorRef::Pipeline(b_tx, b_rx)) => {
                (ActorRef::Pipeline(a_tx, b_rx), a_rx, b_tx)
            },
            _ => vstd::pervasive::unreached(),
        }
    }

    /// Splits the current actor reference so that its output can be
    /// transformed.
    ///
    /// Returns a reference fed where `self` is fed and read from a fresh
    /// channel, the receiver of `self`'s current output, and the sender into
    /// the fresh channel.
    pub fn splice<T>(self) -> (res: (ActorRef<I, T>, async_channel::Receiver<O>, async_channel::Sender<T>))
        requires
            !(self is Closed),
        ensures
            self is Source ==> res.0 is Source && res.1 == self->Source_0,
            self is Pipeline ==> {
                &&& res.0 is Pipeline
                &&& res.0->Pipeline_0 == self->Pipeline_0
                &&& res.1 == self->Pipeline_1
            },
    {
        let (tx, rx) = new_channel();
        match self {
            ActorRef::Source(receiver) => (ActorRef::Source(rx), receiver, tx),
            ActorRef::Pipeline(sender, receiver) => (ActorRef::Pipeline(sender, rx), receiver, tx),
            ActorRef::Closed => vstd::pervasive::unreached(),
        }
    }

    /// The sender through which this actor is fed; only a pipeline actor has
    /// one.
    pub fn sender(&self) -> (res: &async_channel::Sender<I>)
        requires
            self is Pipeline,
        ensures
            *res == self->Pipeline_0,
    {
        match self {
            ActorRef::Pipeline(tx, _) => tx,
            _ => vstd::pervasive::unreached(),
        }
    }

    /// The receiver from which this actor's output is read; a closed actor
    /// has none.
    pub fn receiver(&self) -> (res: &async_channel::Receiver<O>)
        requires
            !(self is Closed),
        ensures
            self is Source ==> *res == self->Source_0,
            self is Pipeline ==> *res == self->Pipeline_1,
    {
        match self {
            ActorRef::Source(rx) => rx,
            ActorRef::Pipeline(_, rx) => rx,
            ActorRef::Closed => vstd::pervasive::unreached(),
        }
    }
}

impl<I, O> Clone for ActorRef<I, O> {
    /// Another reference to the same actor, of the same kind: it holds
    /// handles on the same channels as `self`.
    fn clone(&self) -> (res: Self)
        ensures
            res == *self,
            res is Closed <==> self is Closed,
            res is Source <==> self is Source,
            res is Pipeline <==> self is Pipeline,
    {
        match self {
            ActorRef::Closed => ActorRef::Closed,
            ActorRef::Source(rx) => ActorRef::Source(rx.clone()),
            ActorRef::Pipeline(tx, rx) => ActorRef::Pipeline(tx.clone(), rx.clone()),
        }
    }
}

} // verus!
