//! Concrete actors for functions and closures.

use core::marker::PhantomData;
use vstd::prelude::*;

verus! {

/// A concrete actor around a function or closure `F`; `Marker` records the
/// shape of its signature.
pub struct FunctionalActor<Marker, F> {
    pub func: F,
    pub marker: PhantomData<Marker>,
}

impl<Marker, F> FunctionalActor<Marker, F> {
    /// The actor around `func`.
    pub fn new(func: F) -> (res: Self)
        ensures
            res.func == func,
    {
        FunctionalActor { func, marker: PhantomData }
    }
}

impl<Marker, F: Clone> Clone for FunctionalActor<Marker, F> {
    /// An actor around a clone of the function.
    fn clone(&self) -> (res: Self)
        ensures
            cloned::<F>(self.func, res.func),
    {
        FunctionalActor { func: self.func.clone(), marker: PhantomData }
    }
}

} // verus!
