//! Compatibility between binary and multiparty session types.
//!
//! A binary protocol can be seen as the local protocol of one role, and a
//! local protocol as a binary one; the conversions keep the value.

use vstd::prelude::*;
use std::marker::PhantomData;
use super::base::{Protocol, ProtocolShape};
use super::roles::Role;
use super::send::Send;
use super::recv::Recv;
use super::end::End;
use super::choice::Choose;
use super::offer::Offer;
use super::rec::Rec;
use super::var::Var;

verus! {

/// Conversion between a protocol and its binary form for role `R`.
pub trait ProtocolCompat<R: Role>: Sized {
    /// The binary form of the protocol.
    type BinaryProtocol: Protocol;

    /// Whether `binary` is the binary form of `self`.
    spec fn binary_form(self, binary: Self::BinaryProtocol) -> bool;

    /// Converts to the binary form.
    fn to_binary(self) -> (r: Self::BinaryProtocol)
        ensures
            self.binary_form(r),
    ;

    /// Converts back from the binary form.
    fn from_binary(binary: Self::BinaryProtocol) -> (r: Self)
        ensures
            r.binary_form(binary),
    ;
}

/// A binary protocol `P` used as the local protocol of role `R`.
pub struct BinaryWrapper<P: Protocol, R: Role>(P, PhantomData<R>);

impl<P: Protocol, R: Role> BinaryWrapper<P, R> {
    /// Wraps a binary protocol.
    pub fn new(protocol: P) -> (r: Self)
        ensures
            r.inner() == protocol,
    {
        BinaryWrapper(protocol, PhantomData)
    }

    /// The wrapped protocol.
    pub closed spec fn inner(self) -> P {
        self.0
    }

    /// Returns the wrapped protocol.
    pub fn unwrap(self) -> (r: P)
        ensures
            r == self.inner(),
    {
        self.0
    }
}

impl<P: Protocol, R: Role> Protocol for BinaryWrapper<P, R> where P::Dual: Protocol {
    type Dual = BinaryWrapper<P::Dual, R>;

    open spec fn shape() -> ProtocolShape {
        P::shape()
    }
}

/// A local protocol `P` of role `R` used as a binary protocol.
pub struct MPSTWrapper<P, R: Role>(P, PhantomData<R>);

impl<P, R: Role> MPSTWrapper<P, R> {
    /// Wraps a local protocol.
    pub fn new(protocol: P) -> (r: Self)
        ensures
            r.inner() == protocol,
    {
        MPSTWrapper(protocol, PhantomData)
    }

    /// The wrapped protocol.
    pub closed spec fn inner(self) -> P {
        self.0
    }

    /// Returns the wrapped protocol.
    pub fn unwrap(self) -> (r: P)
        ensures
            r == self.inner(),
    {
        self.0
    }
}

impl<P: 'static, R: Role> Protocol for MPSTWrapper<P, R> {
    type Dual = MPSTWrapper<P, R>;

    open spec fn shape() -> ProtocolShape {
        ProtocolShape::Wrapped
    }
}

impl<T, P: Protocol, R: Role> ProtocolCompat<R> for Send<T, P> {
    type BinaryProtocol = Self;

    open spec fn binary_form(self, binary: Self) -> bool {
        binary == self
    }

    fn to_binary(self) -> (r: Self) {
        self
    }

    fn from_binary(binary: Self) -> (r: Self) {
        binary
    }
}

impl<T, P: Protocol, R: Role> ProtocolCompat<R> for Recv<T, P> {
    type BinaryProtocol = Self;

    open spec fn binary_form(self, binary: Self) -> bool {
        binary == self
    }

    fn to_binary(self) -> (r: Self) {
        self
    }

    fn from_binary(binary: Self) -> (r: Self) {
        binary
    }
}

impl<R: Role> ProtocolCompat<R> for End {
    type BinaryProtocol = Self;

    open spec fn binary_form(self, binary: Self) -> bool {
        binary == self
    }

    fn to_binary(self) -> (r: Self) {
        self
    }

    fn from_binary(binary: Self) -> (r: Self) {
        binary
    }
}

impl<L: Protocol, R1: Protocol, R2: Role> ProtocolCompat<R2> for Choose<L, R1> {
    type BinaryProtocol = Self;

    open spec fn binary_form(self, binary: Self) -> bool {
        binary == self
    }

    fn to_binary(self) -> (r: Self) {
        self
    }

    fn from_binary(binary: Self) -> (r: Self) {
        binary
    }
}

impl<L: Protocol, R1: Protocol, R2: Role> ProtocolCompat<R2> for Offer<L, R1> {
    type BinaryProtocol = Self;

    open spec fn binary_form(self, binary: Self) -> bool {
        binary == self
    }

    fn to_binary(self) -> (r: Self) {
        self
    }

    fn from_binary(binary: Self) -> (r: Self) {
        binary
    }
}

impl<P: Protocol, R: Role> ProtocolCompat<R> for Rec<P> {
    type BinaryProtocol = Self;

    open spec fn binary_form(self, binary: Self) -> bool {
        binary == self
    }

    fn to_binary(self) -> (r: Self) {
        self
    }

    fn from_binary(binary: Self) -> (r: Self) {
        binary
    }
}

impl<const N: usize, R: Role> ProtocolCompat<R> for Var<N> {
    type BinaryProtocol = Self;

    open spec fn binary_form(self, binary: Self) -> bool {
        binary == self
    }

    fn to_binary(self) -> (r: Self) {
        self
    }

    fn from_binary(binary: Self) -> (r: Self) {
        binary
    }
}

} // verus!
