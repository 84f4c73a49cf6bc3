//! Actors that operate on buffers of raw data.

use crate::buffer::compression::{Algorithm, Compress, Compression, Decompress};
use core::marker::PhantomData;
use vstd::prelude::*;

pub mod compression;

verus! {

/// Actors that operate on buffers of raw data, and can be turned into
/// compression or decompression actors.
pub trait BufferActor {
    /// A compression actor for the algorithm `T`.
    fn compress<T: Algorithm>(self) -> (res: Compression<T, Compress>) where Self: Sized
        ensures
            res == (Compression::<T, Compress> { mode: Compress, __algorithm: PhantomData }),
    {
        Compression { mode: Compress, __algorithm: PhantomData }
    }

    /// A decompression actor for the algorithm `T`.
    fn decompress<T: Algorithm>(self) -> (res: Compression<T, Decompress>) where Self: Sized
        ensures
            res == (Compression::<T, Decompress> { mode: Decompress, __algorithm: PhantomData }),
    {
        Compression { mode: Decompress, __algorithm: PhantomData }
    }
}

impl<A> BufferActor for A {}

} // verus!
