//! The `Rec<P>` protocol type: a recursive protocol whose body `P` may refer
//! back to it with `Var`.

use vstd::prelude::*;
use std::marker::PhantomData;
use super::base::{Protocol, ProtocolShape};

verus! {

/// A recursive protocol with body `P`.
pub struct Rec<P> {
    _marker: PhantomData<P>,
}

impl<P> Default for Rec<P> {
    fn default() -> (r: Self) {
        Rec { _marker: PhantomData }
    }
}

impl<P: Protocol> Protocol for Rec<P> {
    type Dual = Rec<P::Dual>;

    open spec fn shape() -> ProtocolShape {
        ProtocolShape::Rec(Box::new(P::shape()))
    }

}

} // verus!
