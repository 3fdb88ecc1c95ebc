//! Traits for the values a channel communicates through.
//!
//! Sending and receiving are done by an IO value of the caller's choice; a
//! channel only needs it to be able to send or receive values of the types of
//! its protocol.

use vstd::prelude::*;

verus! {

/// A value that can send values of type `T`.
pub trait Sender<T> {
    /// The error a failed send reports.
    type Error;

    /// Sends a value.
    fn send(&mut self, value: T) -> Result<(), Self::Error>;
}

/// A value that can receive values of type `T`.
pub trait Receiver<T> {
    /// The error a failed receive reports.
    type Error;

    /// Receives a value.
    fn recv(&mut self) -> Result<T, Self::Error>;
}

} // verus!
