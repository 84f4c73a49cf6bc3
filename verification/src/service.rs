//! Types for [`Service`]s.

use crate::combinator::Pipe;
use core::marker::PhantomData;
use vstd::prelude::*;

verus! {

/// A wrapper around an actor that takes `I` and gives `O`.
pub trait Service<I, O> {

}

/// Extension methods for types implementing [`Service`].
pub trait ServiceExt<I, O>: Service<I, O> {
    /// A pipe that feeds this service's output into `into`.
    fn pipe<B, OB>(self, into: B) -> (res: Pipe<Self, B>) where Self: Sized, B: Service<O, OB>
        ensures
            res.first == self,
            res.second == into,
    {
        Pipe { first: self, second: into }
    }
}

impl<S, I, O> ServiceExt<I, O> for S where S: Service<I, O> {

}

/// A service that runs an actor taking `I` and giving `O`.
pub struct Once<A, I, O> {
    pub actor: A,
    pub __marker: PhantomData<(I, O)>,
}

impl<A, I, O> Service<I, O> for Once<A, I, O> {

}

/// A service around `actor`.
pub fn once<A, I, O>(actor: A) -> (res: Once<A, I, O>)
    ensures
        res.actor == actor,
{
    Once { actor, __marker: PhantomData }
}

/// A service around a source actor, which takes no input and gives `T`.
pub struct Source<A, T> {
    pub actor: A,
    pub __marker: PhantomData<T>,
}

/// A source service around `actor`.
pub fn source<A, T>(actor: A) -> (res: Source<A, T>)
    ensures
        res.actor == actor,
{
    Source { actor, __marker: PhantomData }
}

impl<A, T> Service<(), T> for Source<A, T> {

}

} // verus!
