//! Channels typed by the protocol they follow.
//!
//! A `Chan<P, R, IO>` is a channel of role `R` that is at protocol step `P`
//! and communicates through `IO`. Every step consumes the channel and gives
//! back one typed by the rest of the protocol; the IO value and the role pass
//! through unchanged.
//!
//! The communication of a step is done by the caller (it may await); the
//! functions named `complete_*` take its outcome and give the next channel, or
//! the error the step fails with.

use vstd::prelude::*;
use std::marker::PhantomData;
use crate::proto::{Choose, End, Offer, Protocol, Rec, Recv, Role, Send, Var};
use crate::proto::compat::ProtocolCompat;
use crate::error::Error;

verus! {

/// A channel of role `R` at protocol step `P`, communicating through `IO`.
pub struct Chan<P: Protocol, R: Role, IO> {
    io: IO,
    role: R,
    _marker: PhantomData<P>,
}

impl<P: Protocol, R: Role, IO> Chan<P, R, IO> {
    /// The IO value of this channel.
    pub closed spec fn io_value(self) -> IO {
        self.io
    }

    /// The role value of this channel.
    pub closed spec fn role_value(self) -> R {
        self.role
    }

    /// Creates a new channel with the given IO value and the default value
    /// of role `R`.
    pub fn new(io: IO) -> (r: Self)
        ensures
            r.io_value() == io,
            call_ensures(R::default, (), r.role_value()),
    {
        Chan { io, role: R::default(), _marker: PhantomData }
    }

    /// Returns the role of this channel.
    pub fn role(&self) -> (r: &R)
        ensures
            *r == self.role_value(),
    {
        &self.role
    }

    /// Returns the IO value of this channel.
    pub fn io(&self) -> (r: &IO)
        ensures
            *r == self.io_value(),
    {
        &self.io
    }

    /// Returns the IO value of this channel, to be changed in place.
    pub fn io_mut(&mut self) -> (r: &mut IO)
        ensures
            *r == old(self).io_value(),
            final(self).io_value() == *final(r),
            final(self).role_value() == old(self).role_value(),
    {
        &mut self.io
    }

    /// Creates a new channel with the given IO value and role.
    pub fn with_role(io: IO, role: R) -> (r: Self)
        ensures
            r.io_value() == io,
            r.role_value() == role,
    {
        Chan { io, role, _marker: PhantomData }
    }

    /// The same channel, typed by protocol `Q`.
    pub fn convert<Q: Protocol>(self) -> (r: Chan<Q, R, IO>)
        ensures
            r.io_value() == self.io_value(),
            r.role_value() == self.role_value(),
    {
        Chan { io: self.io, role: self.role, _marker: PhantomData }
    }

    /// The same channel, of role `S`.
    pub fn for_role<S: Role>(self, role: S) -> (r: Chan<P, S, IO>)
        ensures
            r.io_value() == self.io_value(),
            r.role_value() == role,
    {
        Chan { io: self.io, role, _marker: PhantomData }
    }
}

/// Conversion of a channel to and from the binary form of its protocol.
pub trait ChanCompat<P: Protocol + ProtocolCompat<R>, R: Role, IO>: Sized {
    /// The IO value of the channel.
    spec fn chan_io(self) -> IO;

    /// The role value of the channel.
    spec fn chan_role(self) -> R;

    /// The channel, typed by the binary form of its protocol.
    fn to_binary(self) -> (r: Chan<P::BinaryProtocol, R, IO>)
        ensures
            r.io_value() == self.chan_io(),
            r.role_value() == self.chan_role(),
    ;

    /// A channel typed by the binary form of `P`, typed by `P` again.
    fn from_binary<Q: Protocol>(binary_chan: Chan<Q, R, IO>) -> (r: Chan<P, R, IO>) where
        P: ProtocolCompat<R, BinaryProtocol = Q>
        ensures
            r.io_value() == binary_chan.io_value(),
            r.role_value() == binary_chan.role_value(),
    ;
}

impl<P: Protocol + ProtocolCompat<R>, R: Role, IO> ChanCompat<P, R, IO> for Chan<P, R, IO> {
    open spec fn chan_io(self) -> IO {
        self.io_value()
    }

    open spec fn chan_role(self) -> R {
        self.role_value()
    }

    fn to_binary(self) -> (r: Chan<P::BinaryProtocol, R, IO>) {
        Chan { io: self.io, role: self.role, _marker: PhantomData }
    }

    fn from_binary<Q: Protocol>(binary_chan: Chan<Q, R, IO>) -> (r: Chan<P, R, IO>) where
        P: ProtocolCompat<R, BinaryProtocol = Q>,
     {
        Chan { io: binary_chan.io, role: binary_chan.role, _marker: PhantomData }
    }
}

/// Whether `r` is the outcome of a step that continues with the IO value and
/// role of `before` when the communication succeeded, and fails with its IO
/// error when it did not.
pub open spec fn step_outcome<P: Protocol, Q: Protocol, R: Role, IO, T>(
    before: Chan<P, R, IO>,
    outcome: std::result::Result<T, std::io::Error>,
    r: std::result::Result<Chan<Q, R, IO>, Error>,
) -> bool {
    match outcome {
        Ok(_) => r matches Ok(c) && c.io_value() == before.io_value() && c.role_value()
            == before.role_value(),
        Err(e) => r == Err::<Chan<Q, R, IO>, Error>(Error::Io(e)),
    }
}

impl<T, P: Protocol, R: Role, IO> Chan<Send<T, P>, R, IO> {
    /// Completes a send step with the outcome of sending the value: the
    /// channel continues with `P`, or the step fails with the IO error.
    pub fn complete_send(self, outcome: std::result::Result<(), std::io::Error>) -> (r:
        std::result::Result<Chan<P, R, IO>, Error>)
        ensures
            step_outcome(self, outcome, r),
    {
        match outcome {
            Ok(()) => Ok(Chan { io: self.io, role: self.role, _marker: PhantomData }),
            Err(e) => Err(Error::Io(e)),
        }
    }
}

impl<T, P: Protocol, R: Role, IO> Chan<Recv<T, P>, R, IO> {
    /// Completes a receive step with the outcome of receiving: the value and
    /// the channel, which continues with `P`, or the IO error.
    pub fn complete_recv(self, outcome: std::result::Result<T, std::io::Error>) -> (r:
        std::result::Result<(T, Chan<P, R, IO>), Error>)
        ensures
            match outcome {
                Ok(v) => r matches Ok((w, c)) && w == v && c.io_value() == self.io_value()
                    && c.role_value() == self.role_value(),
                Err(e) => r == Err::<(T, Chan<P, R, IO>), Error>(Error::Io(e)),
            },
    {
        match outcome {
            Ok(v) => Ok((v, Chan { io: self.io, role: self.role, _marker: PhantomData })),
            Err(e) => Err(Error::Io(e)),
        }
    }
}

/// The value a choice sends and an offer reads: `true` for the left branch,
/// `false` for the right one.
pub open spec fn choice_signal(left: bool) -> bool {
    left
}

/// The signals of the two branches differ, so an offer that reads the value a
/// choice of the left branch sent continues with the left branch, and the
/// same for the right one.
pub proof fn law_choice_signals_differ()
    ensures
        choice_signal(true) != choice_signal(false),
{
}

impl<L: Protocol, R1: Protocol, R2: Role, IO> Chan<Offer<L, R1>, R2, IO> {
    /// The channel that continues with the left branch.
    pub closed spec fn left_branch(self) -> Chan<L, R2, IO> {
        Chan { io: self.io, role: self.role, _marker: PhantomData }
    }

    /// The channel that continues with the right branch.
    pub closed spec fn right_branch(self) -> Chan<R1, R2, IO> {
        Chan { io: self.io, role: self.role, _marker: PhantomData }
    }

    /// Completes an offer with the outcome of receiving the other party's
    /// choice: the left signal continues with the left branch, handled by
    /// `f`, and the right signal with the right branch, handled by `g`; an IO
    /// error fails the offer. The channel either handler gets keeps the IO
    /// value and the role.
    pub fn complete_offer<F, G, T>(
        self,
        outcome: std::result::Result<bool, std::io::Error>,
        f: F,
        g: G,
    ) -> (r: std::result::Result<T, Error>) where
        F: FnOnce(Chan<L, R2, IO>) -> std::result::Result<T, Error>,
        G: FnOnce(Chan<R1, R2, IO>) -> std::result::Result<T, Error>,

        requires
            outcome == Ok::<bool, std::io::Error>(choice_signal(true)) ==> f.requires(
                (self.left_branch(),),
            ),
            outcome == Ok::<bool, std::io::Error>(choice_signal(false)) ==> g.requires(
                (self.right_branch(),),
            ),
        ensures
            self.left_branch().io_value() == self.io_value(),
            self.left_branch().role_value() == self.role_value(),
            self.right_branch().io_value() == self.io_value(),
            self.right_branch().role_value() == self.role_value(),
            outcome == Ok::<bool, std::io::Error>(choice_signal(true)) ==> f.ensures(
                (self.left_branch(),),
                r,
            ),
            outcome == Ok::<bool, std::io::Error>(choice_signal(false)) ==> g.ensures(
                (self.right_branch(),),
                r,
            ),
            outcome matches Err(e) ==> r == Err::<T, Error>(Error::Io(e)),
    {
        match outcome {
            Ok(choice) => {
                if choice == choice_signal_value(true) {
                    f(Chan { io: self.io, role: self.role, _marker: PhantomData })
                } else {
                    g(Chan { io: self.io, role: self.role, _marker: PhantomData })
                }
            },
            Err(e) => Err(Error::Io(e)),
        }
    }
}

impl<R: Role, IO> Chan<End, R, IO> {
    /// Closes the channel.
    pub fn close(self) -> (r: std::result::Result<(), Error>)
        ensures
            r is Ok,
    {
        Ok(())
    }
}

/// The value that chooses the left branch (`left`) or the right one.
pub fn choice_signal_value(left: bool) -> (r: bool)
    ensures
        r == choice_signal(left),
{
    left
}

impl<L: Protocol, R1: Protocol, R2: Role, IO> Chan<Choose<L, R1>, R2, IO> {
    /// The value to send to choose the left branch.
    pub fn left_signal(&self) -> (r: bool)
        ensures
            r == choice_signal(true),
    {
        choice_signal_value(true)
    }

    /// The value to send to choose the right branch.
    pub fn right_signal(&self) -> (r: bool)
        ensures
            r == choice_signal(false),
    {
        choice_signal_value(false)
    }

    /// Completes the choice of the left branch with the outcome of sending
    /// the left signal: the channel continues with `L`, or the step fails.
    pub fn complete_choose_left(self, outcome: std::result::Result<(), std::io::Error>) -> (r:
        std::result::Result<Chan<L, R2, IO>, Error>)
        ensures
            step_outcome(self, outcome, r),
    {
        match outcome {
            Ok(()) => Ok(Chan { io: self.io, role: self.role, _marker: PhantomData }),
            Err(e) => Err(Error::Io(e)),
        }
    }

    /// Completes the choice of the right branch with the outcome of sending
    /// the right signal: the channel continues with `R1`, or the step fails.
    pub fn complete_choose_right(self, outcome: std::result::Result<(), std::io::Error>) -> (r:
        std::result::Result<Chan<R1, R2, IO>, Error>)
        ensures
            step_outcome(self, outcome, r),
    {
        match outcome {
            Ok(()) => Ok(Chan { io: self.io, role: self.role, _marker: PhantomData }),
            Err(e) => Err(Error::Io(e)),
        }
    }
}

impl<P: Protocol, R: Role, IO> Chan<Rec<P>, R, IO> {
    /// Enters the recursive protocol: the channel continues with its body.
    pub fn enter(self) -> (r: Chan<P, R, IO>)
        ensures
            r.io_value() == self.io_value(),
            r.role_value() == self.role_value(),
    {
        Chan { io: self.io, role: self.role, _marker: PhantomData }
    }
}

impl<R: Role, IO> Chan<Var<0>, R, IO> {
    /// Goes back to the innermost enclosing recursion, `Rec<P>`.
    pub fn zero<P: Protocol>(self) -> (r: Chan<Rec<P>, R, IO>)
        ensures
            r.io_value() == self.io_value(),
            r.role_value() == self.role_value(),
    {
        Chan { io: self.io, role: self.role, _marker: PhantomData }
    }
}

/// Type-level increment of a recursion index.
pub trait Inc {
    /// The incremented index type.
    type Result;
}

/// Type-level decrement of a recursion index.
pub trait Dec {
    /// The decremented index type.
    type Result;
}

} // verus!
