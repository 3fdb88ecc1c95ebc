//! The `Recv<T, P>` protocol type: receive a value of type `T`, then continue
//! with protocol `P`.

use vstd::prelude::*;
use std::marker::PhantomData;
use super::base::{Protocol, ProtocolShape};
use super::send::Send;

verus! {

/// A protocol that receives a value of type `T` and then continues with `P`.
pub struct Recv<T, P> {
    _marker: PhantomData<(T, P)>,
}

impl<T, P> Default for Recv<T, P> {
    fn default() -> (r: Self) {
        Recv { _marker: PhantomData }
    }
}

impl<T, P: Protocol> Protocol for Recv<T, P> {
    type Dual = Send<T, P::Dual>;

    open spec fn shape() -> ProtocolShape {
        ProtocolShape::Recv(Box::new(P::shape()))
    }

}

} // verus!
