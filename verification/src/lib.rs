//! A stupendously simple actor framework for the functionally inclined.
//!
//! The library holds the data of every actor combinator and the decision
//! that each actor's task takes on the messages it sees, with their
//! contracts. The asynchronous plumbing that moves messages between the
//! channels lives in the application crate around it.

pub mod actor;
pub mod buffer;
pub mod channel;
pub mod combinator;
pub mod functional;
pub mod numeric;
pub mod service;
pub mod stream;
