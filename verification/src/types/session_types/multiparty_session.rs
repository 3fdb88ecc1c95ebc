//! Multiparty session execution.
//!
//! A `MultipartySession<R, P, T>` runs a local protocol for role `R`: it is
//! at protocol state `P` and talks through the multiparty transport `T`.
//! Every step consumes the session and gives back one at the next state;
//! messages travel as encoded payloads.

use vstd::prelude::*;
use std::marker::PhantomData;
use crate::types::error::{SessionError, lemma_unit_outcome};
use crate::types::roles::Role;
use crate::types::transport::{MultipartyTransport, RoleIdentifier};
use super::state_sealed::Sealed;

verus! {

/// A protocol state of a multiparty session.
pub trait ProtocolState: Sealed {}

/// A protocol state that sends a message of type `M`.
pub trait SendState<M>: ProtocolState {
    /// The state after sending.
    type Next: ProtocolState;
}

/// A protocol state that receives a message of type `M`.
pub trait ReceiveState<M>: ProtocolState {
    /// The state after receiving.
    type Next: ProtocolState;
}

/// A protocol state that ends the protocol.
pub trait EndState: ProtocolState {}

/// Send a message of type `M`, then continue at `Next`.
#[derive(Debug)]
pub struct Send<M, Next> {
    _message: PhantomData<M>,
    _next: PhantomData<Next>,
}

/// Receive a message of type `M`, then continue at `Next`.
#[derive(Debug)]
pub struct Receive<M, Next> {
    _message: PhantomData<M>,
    _next: PhantomData<Next>,
}

/// The end of the protocol.
#[derive(Debug)]
pub struct End;

impl<M, Next> Sealed for Send<M, Next> {}

impl<M, Next> Sealed for Receive<M, Next> {}

impl Sealed for End {}

impl<M, Next: ProtocolState> ProtocolState for Send<M, Next> {}

impl<M, Next: ProtocolState> SendState<M> for Send<M, Next> {
    type Next = Next;
}

impl<M, Next: ProtocolState> ProtocolState for Receive<M, Next> {}

impl<M, Next: ProtocolState> ReceiveState<M> for Receive<M, Next> {
    type Next = Next;
}

impl ProtocolState for End {}

impl EndState for End {}

/// A session of role `R` at protocol state `P`, talking through `T`.
#[derive(Debug)]
pub struct MultipartySession<R: Role, P: ProtocolState, T: MultipartyTransport> {
    transport: T,
    _role: PhantomData<R>,
    _protocol: PhantomData<P>,
}

impl<R: Role, P: ProtocolState, T: MultipartyTransport> MultipartySession<R, P, T> {
    /// The transport of the session.
    pub closed spec fn transport(self) -> T {
        self.transport
    }

    /// Creates a session at its initial state.
    pub fn new(transport: T) -> (r: Self)
        ensures
            r.transport() == transport,
    {
        MultipartySession { transport, _role: PhantomData, _protocol: PhantomData }
    }
}

impl<R: Role, M, Next: ProtocolState, T: MultipartyTransport> MultipartySession<R, Send<M, Next>, T> {
    /// Sends the encoding of a message of type `M` to the participant `to`;
    /// the session continues at `Next`, or fails with the transport's error.
    pub fn send(self, to: &RoleIdentifier, payload: Vec<u8>) -> (r: Result<
        MultipartySession<R, Next, T>,
        SessionError,
    >)
        ensures
            match r {
                Ok(s) => self.transport().send_to_outcome(to@, payload@, s.transport(), Ok(())),
                Err(e) => exists|t: T| self.transport().send_to_outcome(to@, payload@, t, Err(e)),
            },
    {
        let mut transport = self.transport;
        let ghost p = payload@;
        let outcome = transport.send_to(to, payload);
        proof {
            assert(self.transport().send_to_outcome(to@, p, transport, outcome));
            lemma_unit_outcome(outcome);
        }
        match outcome {
            Ok(()) => Ok(MultipartySession { transport, _role: PhantomData, _protocol: PhantomData }),
            Err(e) => Err(e),
        }
    }
}

impl<R: Role, M, Next: ProtocolState, T: MultipartyTransport> MultipartySession<
    R,
    Receive<M, Next>,
    T,
> {
    /// Receives the encoding of a message of type `M` from the participant
    /// `from`; the session continues at `Next`, or fails with the transport's
    /// error.
    pub fn receive(self, from: &RoleIdentifier) -> (r: Result<
        (Vec<u8>, MultipartySession<R, Next, T>),
        SessionError,
    >)
        ensures
            match r {
                Ok((p, s)) => self.transport().receive_from_outcome(from@, s.transport(), Ok(p)),
                Err(e) => exists|t: T| self.transport().receive_from_outcome(from@, t, Err(e)),
            },
    {
        let mut transport = self.transport;
        match transport.receive_from(from) {
            Ok(payload) => Ok(
                (payload, MultipartySession { transport, _role: PhantomData, _protocol: PhantomData }),
            ),
            Err(e) => {
                assert(self.transport().receive_from_outcome(from@, transport, Err(e)));
                Err(e)
            },
        }
    }
}

impl<R: Role, T: MultipartyTransport> MultipartySession<R, End, T> {
    /// Closes the session and gives back the transport.
    pub fn close(self) -> (r: Result<T, SessionError>)
        ensures
            r == Ok::<T, SessionError>(self.transport()),
    {
        Ok(self.transport)
    }
}

} // verus!
