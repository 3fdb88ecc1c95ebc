//! The `Offer<L, R>` protocol type: offer the other party a choice between
//! continuations `L` and `R`.

use vstd::prelude::*;
use std::marker::PhantomData;
use super::base::{Protocol, ProtocolShape};
use super::choice::Choose;

verus! {

/// A protocol that offers a choice between `L` and `R`.
pub struct Offer<L, R> {
    _marker: PhantomData<(L, R)>,
}

impl<L, R> Default for Offer<L, R> {
    fn default() -> (r: Self) {
        Offer { _marker: PhantomData }
    }
}

impl<L: Protocol, R: Protocol> Protocol for Offer<L, R> {
    type Dual = Choose<L::Dual, R::Dual>;

    open spec fn shape() -> ProtocolShape {
        ProtocolShape::Offer(Box::new(L::shape()), Box::new(R::shape()))
    }

}

} // verus!
