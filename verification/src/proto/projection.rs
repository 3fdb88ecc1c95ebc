//! Type-level projection of global protocols onto local protocols.
//!
//! For a global protocol type `G` and a role `R`, `<G as Project<R>>::LocalProtocol`
//! is the local protocol type that `R` follows.

use vstd::prelude::*;
use super::global::{GChoice, GEnd, GOffer, GPar, GRec, GRecv, GSend, GSeq, GVar, GlobalProtocol};
use super::roles::Role;
use super::send::Send;
use super::recv::Recv;
use super::end::End;
use super::choice::Choose;
use super::offer::Offer;
use super::rec::Rec;
use super::var::Var;
use super::base::Protocol;

verus! {

/// Projection of a global protocol type onto role `R`.
pub trait Project<R: Role> {
    /// The local protocol type of role `R`.
    type LocalProtocol: Protocol + Default;
}

impl<R: Role> Project<R> for GEnd {
    type LocalProtocol = End;
}

/// A message step projects to `Send` for its sender.
impl<T, From: Role, To: Role, Next> Project<From> for GSend<T, From, To, Next> where
    Next: Project<From>,
    From: PartialEq<From>,
    To: PartialEq<To>,
 {
    type LocalProtocol = Send<T, <Next as Project<From>>::LocalProtocol>;
}

/// A receive step projects to `Recv` for its receiver.
impl<T, From: Role, To: Role, Next> Project<To> for GRecv<T, From, To, Next> where
    Next: Project<To>,
    From: PartialEq<From>,
    To: PartialEq<To>,
 {
    type LocalProtocol = Recv<T, <Next as Project<To>>::LocalProtocol>;
}

impl<Label, P: GlobalProtocol, R: Role> Project<R> for GRec<Label, P> where P: Project<R> {
    type LocalProtocol = Rec<<P as Project<R>>::LocalProtocol>;
}

impl<Label, R: Role> Project<R> for GVar<Label> {
    type LocalProtocol = Var<0>;
}

/// A choice projects to `Choose` for the chooser.
impl<Chooser: Role, G1, G2> Project<Chooser> for GChoice<Chooser, (G1, G2)> where
    G1: Project<Chooser>,
    G2: Project<Chooser>,
    Chooser: PartialEq<Chooser>,
 {
    type LocalProtocol = Choose<
        <G1 as Project<Chooser>>::LocalProtocol,
        <G2 as Project<Chooser>>::LocalProtocol,
    >;
}

/// An offer projects to `Offer` for the offeree.
impl<Offeree: Role, G1, G2> Project<Offeree> for GOffer<Offeree, (G1, G2)> where
    G1: Project<Offeree>,
    G2: Project<Offeree>,
    Offeree: PartialEq<Offeree>,
 {
    type LocalProtocol = Offer<
        <G1 as Project<Offeree>>::LocalProtocol,
        <G2 as Project<Offeree>>::LocalProtocol,
    >;
}

/// A sequence projects to the projection of its first part.
impl<First, Second, R: Role> Project<R> for GSeq<First, Second> where
    First: Project<R>,
    Second: Project<R>,
 {
    type LocalProtocol = <First as Project<R>>::LocalProtocol;
}

/// A parallel composition projects to the projection of its first part.
impl<First, Second, R: Role> Project<R> for GPar<First, Second> where
    First: Project<R>,
    Second: Project<R>,
 {
    type LocalProtocol = <First as Project<R>>::LocalProtocol;
}

/// Projection of a tuple of global protocols onto role `R`.
pub trait ProjectTuple<R: Role> {
    /// The tuple of the local protocol types.
    type LocalProtocolTuple;
}

impl<R: Role> ProjectTuple<R> for () {
    type LocalProtocolTuple = ();
}

impl<R: Role, Head> ProjectTuple<R> for (Head,) where Head: Project<R> {
    type LocalProtocolTuple = (<Head as Project<R>>::LocalProtocol,);
}

impl<R: Role, T1, T2> ProjectTuple<R> for (T1, T2) where T1: Project<R>, T2: Project<R> {
    type LocalProtocolTuple = (
        <T1 as Project<R>>::LocalProtocol,
        <T2 as Project<R>>::LocalProtocol,
    );
}

impl<R: Role, T1, T2, T3> ProjectTuple<R> for (T1, T2, T3) where
    T1: Project<R>,
    T2: Project<R>,
    T3: Project<R>,
 {
    type LocalProtocolTuple = (
        <T1 as Project<R>>::LocalProtocol,
        <T2 as Project<R>>::LocalProtocol,
        <T3 as Project<R>>::LocalProtocol,
    );
}

/// The local protocol value of role `R` in global protocol `G`. Protocol
/// values carry no data: the result is fixed by its type, whose structure is
/// `<<G as Project<R>>::LocalProtocol as Protocol>::shape()`.
pub fn project<G, R>() -> (r: <G as Project<R>>::LocalProtocol) where
    G: GlobalProtocol + Project<R>,
    R: Role,
 {
    <G as Project<R>>::LocalProtocol::default()
}

} // verus!
