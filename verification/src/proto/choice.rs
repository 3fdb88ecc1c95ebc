//! The `Choose<L, R>` protocol type: choose between continuations `L` and
//! `R`.

use vstd::prelude::*;
use std::marker::PhantomData;
use super::base::{Protocol, ProtocolShape};
use super::offer::Offer;

verus! {

/// A protocol that chooses between `L` and `R`.
pub struct Choose<L, R> {
    _marker: PhantomData<(L, R)>,
}

impl<L, R> Default for Choose<L, R> {
    fn default() -> (r: Self) {
        Choose { _marker: PhantomData }
    }
}

impl<L: Protocol, R: Protocol> Protocol for Choose<L, R> {
    type Dual = Offer<L::Dual, R::Dual>;

    open spec fn shape() -> ProtocolShape {
        ProtocolShape::Choose(Box::new(L::shape()), Box::new(R::shape()))
    }

}

} // verus!
