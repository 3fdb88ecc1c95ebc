//! Binary session types over a transport.
//!
//! A `Session<S, T>` is at protocol state `S` and talks through transport `T`.
//! Messages travel as encoded payloads: the caller encodes what it sends and
//! decodes what it receives. A choice travels as the encoding of its variant
//! index (`Left` is 0, `Right` is 1) as a little-endian `u32`, as `bincode`
//! encodes a unit variant.

use vstd::prelude::*;
use std::marker::PhantomData;
use crate::types::error::{SessionError, SessionErrorKind, lemma_unit_outcome};
use crate::types::transport::Transport;

verus! {

broadcast use vstd::std_specs::vec::group_vec_axioms;

/// The choice sent by the selecting party and received by the offering one.
#[derive(Debug, Clone, PartialEq, Eq, Structural)]
pub enum ChoiceSignal {
    /// The left branch.
    Left,
    /// The right branch.
    Right,
}

/// One of two values.
#[derive(Debug, Clone, PartialEq)]
pub enum Either<L, R> {
    /// The left value.
    Left(L),
    /// The right value.
    Right(R),
}

/// The end of a session.
#[derive(Debug)]
pub struct End;

impl Default for End {
    fn default() -> (r: Self) {
        End
    }
}

/// Send a message of type `M`, then continue with `NextP`.
#[derive(Debug)]
pub struct Send<M, NextP>(pub PhantomData<(M, NextP)>);

impl<M, NextP> Send<M, NextP> {
    /// Creates the state.
    pub fn new() -> (r: Self) {
        Send(PhantomData)
    }
}

impl<M, NextP> Default for Send<M, NextP> {
    fn default() -> (r: Self) {
        Send(PhantomData)
    }
}

/// Receive a message of type `M`, then continue with `NextP`.
#[derive(Debug)]
pub struct Receive<M, NextP>(pub PhantomData<(M, NextP)>);

impl<M, NextP> Receive<M, NextP> {
    /// Creates the state.
    pub fn new() -> (r: Self) {
        Receive(PhantomData)
    }
}

impl<M, NextP> Default for Receive<M, NextP> {
    fn default() -> (r: Self) {
        Receive(PhantomData)
    }
}

/// Offer a choice: the other party decides between `L` and `R`.
#[derive(Debug)]
pub struct Offer<L, R>(PhantomData<(L, R)>);

impl<L, R> Default for Offer<L, R> {
    fn default() -> (r: Self) {
        Offer(PhantomData)
    }
}

/// Select a branch: this party decides between `L` and `R`.
#[derive(Debug)]
pub struct Select<L, R>(PhantomData<(L, R)>);

impl<L, R> Default for Select<L, R> {
    fn default() -> (r: Self) {
        Select(PhantomData)
    }
}

/// A protocol state.
pub trait ProtocolState {}

impl ProtocolState for End {}

impl<M, P> ProtocolState for Send<M, P> {}

impl<M, P> ProtocolState for Receive<M, P> {}

impl<L, R> ProtocolState for Offer<L, R> {}

impl<L, R> ProtocolState for Select<L, R> {}

/// A recursive protocol: `F` gives the body, given the recursion variable.
#[derive(Debug)]
pub struct Rec<F>(pub F);

impl<F> Rec<F> {
    /// Creates a recursive protocol from its body function.
    pub fn new(f: F) -> (r: Self)
        ensures
            r.0 == f,
    {
        Rec(f)
    }
}

impl<F> ProtocolState for Rec<F> {}

/// The recursion variable: the point where the protocol starts over.
#[derive(Debug)]
pub struct Var;

impl Default for Var {
    fn default() -> (r: Self) {
        Var
    }
}

impl ProtocolState for Var {}

/// The little-endian bytes of a `u32`.
pub open spec fn le_bytes(v: u32) -> Seq<u8> {
    seq![
        (v % 256) as u8,
        ((v / 256) % 256) as u8,
        ((v / 65536) % 256) as u8,
        (v / 16777216) as u8,
    ]
}

/// The `u32` the first four bytes of `b` give, read little-endian.
pub open spec fn le_value(b: Seq<u8>) -> int {
    b[0] + b[1] * 256 + b[2] * 65536 + b[3] * 16777216
}

/// Calls `bincode::serialize` on a `u32`. Its default configuration (fixed
/// width integers, little-endian, no size limit) writes the four
/// little-endian bytes of the value into a `Vec`, which cannot fail.
#[verifier::external_body]
fn bincode_encode_u32(v: u32) -> (r: Result<Vec<u8>, bincode::Error>)
    ensures
        r is Ok,
        r matches Ok(b) ==> b@ == le_bytes(v),
{
    bincode::serialize(&v)
}

/// Calls `bincode::deserialize` for a `u32`. With the default configuration a
/// value is read from the first four bytes, little-endian (trailing bytes are
/// allowed); it succeeds exactly when there are at least four bytes.
#[verifier::external_body]
fn bincode_decode_u32(bytes: &[u8]) -> (r: Result<u32, bincode::Error>)
    ensures
        r is Ok <==> bytes@.len() >= 4,
        r matches Ok(v) ==> v == le_value(bytes@),
{
    bincode::deserialize::<u32>(bytes)
}

/// Calls serde's `de::Error::invalid_value` for bincode's error type, with
/// the unexpected variant index and the expectation serde's derive states for
/// an enum of two variants: the error `bincode::deserialize` gives for a
/// two-variant enum whose index is out of range. Nothing is claimed of the
/// error value.
#[verifier::external_body]
fn bincode_invalid_variant(index: u32) -> (r: bincode::Error) {
    <bincode::Error as serde::de::Error>::invalid_value(
        serde::de::Unexpected::Unsigned(index as u64),
        &"variant index 0 <= i < 2",
    )
}

/// The variant index of a choice.
pub open spec fn choice_index(c: ChoiceSignal) -> u32 {
    match c {
        ChoiceSignal::Left => 0,
        ChoiceSignal::Right => 1,
    }
}

/// Reading the little-endian bytes of a number gives back the number.
pub proof fn lemma_le_round_trip(v: u32)
    ensures
        le_bytes(v).len() == 4,
        le_value(le_bytes(v)) == v,
{
    let b0 = v % 256;
    let b1 = (v / 256) % 256;
    let b2 = (v / 65536) % 256;
    let b3 = v / 16777216;
    assert(b3 < 256);
    assert(b0 + b1 * 256 + b2 * 65536 + b3 * 16777216 == v) by (nonlinear_arith)
        requires
            b0 == v % 256,
            b1 == (v / 256) % 256,
            b2 == (v / 65536) % 256,
            b3 == v / 16777216,
    ;
}

/// A choice decodes from its own encoding and from no other: the bytes
/// `encode_choice` gives for `c` are four, and a choice whose index they give
/// is `c`.
pub proof fn law_choice_round_trip(c: ChoiceSignal, other: ChoiceSignal)
    ensures
        le_bytes(choice_index(c)).len() == 4,
        le_value(le_bytes(choice_index(c))) == choice_index(other) ==> other == c,
{
    lemma_le_round_trip(choice_index(c));
}

/// Encodes a choice: its variant index as a `u32`.
pub fn encode_choice(c: &ChoiceSignal) -> (r: Result<Vec<u8>, SessionError>)
    ensures
        r matches Ok(b) && b@ == le_bytes(choice_index(*c)),
{
    let index: u32 = match c {
        ChoiceSignal::Left => 0,
        ChoiceSignal::Right => 1,
    };
    match bincode_encode_u32(index) {
        Ok(b) => Ok(b),
        Err(e) => Err(SessionError::Serialization(e)),
    }
}

/// Whether `e` is the error decoding a choice from `b` gives: a decoding
/// error exactly when there are fewer than four bytes or the variant index
/// is above 1.
pub open spec fn choice_decode_error(b: Seq<u8>, e: SessionErrorKind) -> bool {
    &&& e == SessionErrorKind::Serialization
    &&& (b.len() < 4 || le_value(b) > 1)
}

/// Decodes a choice: a variant index of 0 is `Left`, 1 is `Right`; fewer
/// than four bytes, or any other index, fail to decode.
pub fn decode_choice(bytes: &[u8]) -> (r: Result<ChoiceSignal, SessionError>)
    ensures
        r is Ok <==> bytes@.len() >= 4 && le_value(bytes@) <= 1,
        r matches Ok(c) ==> le_value(bytes@) == choice_index(c),
        r matches Err(e) ==> choice_decode_error(bytes@, e@),
{
    match bincode_decode_u32(bytes) {
        Ok(0) => Ok(ChoiceSignal::Left),
        Ok(1) => Ok(ChoiceSignal::Right),
        Ok(index) => Err(SessionError::Serialization(bincode_invalid_variant(index))),
        Err(e) => Err(SessionError::Serialization(e)),
    }
}

/// A session at protocol state `S`, talking through transport `T`.
#[derive(Debug)]
pub struct Session<S, T: Transport> {
    state: S,
    channel: T,
}

/// The session that continues at state `N` over `channel` when a step
/// succeeded, or the error the step failed with.
fn continue_with<N: Default, T: Transport>(channel: T, outcome: Result<(), SessionError>) -> (r:
    Result<Session<N, T>, SessionError>)
    ensures
        match outcome {
            Ok(()) => r matches Ok(s) && s.transport() == channel,
            Err(e) => r == Err::<Session<N, T>, SessionError>(e),
        },
{
    match outcome {
        Ok(()) => Ok(Session { state: N::default(), channel }),
        Err(e) => Err(e),
    }
}

/// Sends `payload` over the session's transport; the session continues at
/// `N` over the transport the send left, or fails with the send's error.
fn send_and_continue<S, N: Default, T: Transport>(session: Session<S, T>, payload: Vec<u8>) -> (r:
    Result<Session<N, T>, SessionError>)
    ensures
        match r {
            Ok(s) => session.transport().send_outcome(payload@, s.transport(), Ok(())),
            Err(e) => exists|t: T| session.transport().send_outcome(payload@, t, Err(e)),
        },
{
    let ghost p = payload@;
    let mut channel = session.channel;
    let outcome = channel.send_payload(payload);
    proof {
        assert(session.transport().send_outcome(p, channel, outcome));
        lemma_unit_outcome(outcome);
    }
    continue_with(channel, outcome)
}

impl<S, T: Transport> Session<S, T> {
    /// The protocol state value.
    pub closed spec fn state(self) -> S {
        self.state
    }

    /// The transport.
    pub closed spec fn transport(self) -> T {
        self.channel
    }

    /// Creates a session at the default value of state `S`.
    pub fn new(channel: T) -> (r: Self) where S: Default
        ensures
            r.transport() == channel,
    {
        Session { state: S::default(), channel }
    }

    /// Creates a session at the given state.
    pub fn with_state(state: S, channel: T) -> (r: Self)
        ensures
            r.state() == state,
            r.transport() == channel,
    {
        Session { state, channel }
    }

    /// Gives back the transport.
    pub fn into_transport(self) -> (r: T)
        ensures
            r == self.transport(),
    {
        self.channel
    }
}

impl<T: Transport> Session<End, T> {
    /// Closes the session and gives back the transport.
    pub fn close(self) -> (r: T)
        ensures
            r == self.transport(),
    {
        self.channel
    }
}

impl<M, NextP: Default, T: Transport> Session<Send<M, NextP>, T> {
    /// Sends the encoding of a message of type `M`; the session continues at
    /// `NextP`, or fails with the transport's error.
    pub fn send(self, payload: Vec<u8>) -> (r: Result<Session<NextP, T>, SessionError>)
        ensures
            match r {
                Ok(s) => self.transport().send_outcome(payload@, s.transport(), Ok(())),
                Err(e) => exists|t: T| self.transport().send_outcome(payload@, t, Err(e)),
            },
    {
        send_and_continue(self, payload)
    }
}

impl<M, NextP: Default, T: Transport> Session<Receive<M, NextP>, T> {
    /// Receives the encoding of a message of type `M`; the session continues
    /// at `NextP`, or fails with the transport's error.
    pub fn receive(self) -> (r: Result<(Vec<u8>, Session<NextP, T>), SessionError>)
        ensures
            match r {
                Ok((p, s)) => self.transport().receive_outcome(s.transport(), Ok(p)),
                Err(e) => exists|t: T| self.transport().receive_outcome(t, Err(e)),
            },
    {
        let mut channel = self.channel;
        match channel.receive_payload() {
            Ok(payload) => Ok((payload, Session { state: NextP::default(), channel })),
            Err(e) => {
                assert(self.transport().receive_outcome(channel, Err(e)));
                Err(e)
            },
        }
    }
}

impl<L: Default, R: Default, T: Transport> Session<Select<L, R>, T> {
    /// Selects the left branch: sends the `Left` choice, and the session
    /// continues at `L`.
    pub fn select_left(self) -> (r: Result<Session<L, T>, SessionError>)
        ensures
            match r {
                Ok(s) => self.transport().send_outcome(
                    le_bytes(choice_index(ChoiceSignal::Left)),
                    s.transport(),
                    Ok(()),
                ),
                Err(e) => exists|t: T|
                    self.transport().send_outcome(
                        le_bytes(choice_index(ChoiceSignal::Left)),
                        t,
                        Err(e),
                    ),
            },
    {
        match encode_choice(&ChoiceSignal::Left) {
            Ok(bytes) => send_and_continue(self, bytes),
            Err(e) => Err(e),
        }
    }

    /// Selects the right branch: sends the `Right` choice, and the session
    /// continues at `R`.
    pub fn select_right(self) -> (r: Result<Session<R, T>, SessionError>)
        ensures
            match r {
                Ok(s) => self.transport().send_outcome(
                    le_bytes(choice_index(ChoiceSignal::Right)),
                    s.transport(),
                    Ok(()),
                ),
                Err(e) => exists|t: T|
                    self.transport().send_outcome(
                        le_bytes(choice_index(ChoiceSignal::Right)),
                        t,
                        Err(e),
                    ),
            },
    {
        match encode_choice(&ChoiceSignal::Right) {
            Ok(bytes) => send_and_continue(self, bytes),
            Err(e) => Err(e),
        }
    }
}

/// The session of the branch a received choice selects.
fn offered_branch<L: Default, R: Default, T: Transport>(channel: T, choice: ChoiceSignal) -> (r:
    Either<Session<L, T>, Session<R, T>>)
    ensures
        match choice {
            ChoiceSignal::Left => r matches Either::Left(s) && s.transport() == channel,
            ChoiceSignal::Right => r matches Either::Right(s) && s.transport() == channel,
        },
{
    match choice {
        ChoiceSignal::Left => Either::Left(Session { state: L::default(), channel }),
        ChoiceSignal::Right => Either::Right(Session { state: R::default(), channel }),
    }
}

impl<L: Default, R: Default, T: Transport> Session<Offer<L, R>, T> {
    /// Receives the other party's choice and continues at the branch it
    /// selects.
    pub fn offer(self) -> (r: Result<Either<Session<L, T>, Session<R, T>>, SessionError>)
        ensures
            match r {
                Ok(Either::Left(s)) => exists|b: Vec<u8>|
                    #![trigger self.transport().receive_outcome(s.transport(), Ok(b))]
                    self.transport().receive_outcome(s.transport(), Ok(b)) && le_value(b@)
                        == choice_index(ChoiceSignal::Left) && b@.len() >= 4,
                Ok(Either::Right(s)) => exists|b: Vec<u8>|
                    #![trigger self.transport().receive_outcome(s.transport(), Ok(b))]
                    self.transport().receive_outcome(s.transport(), Ok(b)) && le_value(b@)
                        == choice_index(ChoiceSignal::Right) && b@.len() >= 4,
                Err(e) => (exists|t: T| self.transport().receive_outcome(t, Err(e))) || (exists|
                    t: T,
                    b: Vec<u8>,
                |
                    #![trigger self.transport().receive_outcome(t, Ok(b))]
                    self.transport().receive_outcome(t, Ok(b)) && choice_decode_error(b@, e@)),
            },
    {
        let mut channel = self.channel;
        match channel.receive_payload() {
            Ok(bytes) => {
                let ghost received = bytes;
                assert(self.transport().receive_outcome(channel, Ok(received)));
                match decode_choice(bytes.as_slice()) {
                    Ok(choice) => {
                        assert(le_value(received@) == choice_index(choice));
                        Ok(offered_branch(channel, choice))
                    },
                    Err(e) => {
                        assert(choice_decode_error(received@, e@));
                        Err(e)
                    },
                }
            },
            Err(e) => {
                assert(self.transport().receive_outcome(channel, Err(e)));
                Err(e)
            },
        }
    }
}

impl<F, P: ProtocolState, T: Transport> Session<Rec<F>, T> where F: FnOnce(Var) -> P {
    /// Enters the recursion: the session continues at the body its function
    /// gives.
    pub fn enter_rec(self) -> (r: Session<P, T>)
        requires
            self.state().0.requires((Var,)),
        ensures
            self.state().0.ensures((Var,), r.state()),
            r.transport() == self.transport(),
    {
        let body = (self.state.0)(Var);
        Session { state: body, channel: self.channel }
    }
}

impl<T: Transport> Session<Var, T> {
    /// Starts the recursion over with the given body function.
    pub fn recurse<F, P>(self, f: F) -> (r: Session<Rec<F>, T>) where
        F: FnOnce(Var) -> P,
        P: ProtocolState,

        ensures
            r.state() == Rec(f),
            r.transport() == self.transport(),
    {
        Session { state: Rec(f), channel: self.channel }
    }
}

/// The dual of a protocol state: the behaviour of the other party.
pub trait Dual {
    /// The dual state.
    type DualType;
}

impl Dual for End {
    type DualType = End;
}

impl<M, P> Dual for Send<M, P> where P: Dual {
    type DualType = Receive<M, P::DualType>;
}

impl<M, P> Dual for Receive<M, P> where P: Dual {
    type DualType = Send<M, P::DualType>;
}

impl<L, R> Dual for Offer<L, R> where L: Dual, R: Dual {
    type DualType = Select<L::DualType, R::DualType>;
}

impl<L, R> Dual for Select<L, R> where L: Dual, R: Dual {
    type DualType = Offer<L::DualType, R::DualType>;
}

impl Dual for Var {
    type DualType = Var;
}

/// The body of the dual of a recursion whose body gives `Q`'s dual: it
/// stands for a function from the recursion variable to `Q`.
#[derive(Debug)]
pub struct DualBody<Q>(PhantomData<Q>);

impl<F, P> Dual for Rec<F> where F: FnOnce(Var) -> P, P: Dual {
    type DualType = Rec<DualBody<P::DualType>>;
}

impl<Q> Dual for Rec<DualBody<Q>> where Q: Dual {
    type DualType = Rec<DualBody<Q::DualType>>;
}

} // verus!
