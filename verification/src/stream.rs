//! Actors over streams.

use vstd::prelude::*;

verus! {

/// A wrapper type that turns a stream into an actor.
pub struct StreamActor<S> {
    pub inner: S,
}

impl<S> StreamActor<S> {
    /// The actor that emits the items of `inner`.
    pub fn new(inner: S) -> (res: Self)
        ensures
            res.inner == inner,
    {
        StreamActor { inner }
    }
}

} // verus!
