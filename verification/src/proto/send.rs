//! The `Send<T, P>` protocol type: send a value of type `T`, then continue
//! with protocol `P`.

use vstd::prelude::*;
use std::marker::PhantomData;
use super::base::{Protocol, ProtocolShape};
use super::recv::Recv;

verus! {

/// A protocol that sends a value of type `T` and then continues with `P`.
pub struct Send<T, P> {
    _marker: PhantomData<(T, P)>,
}

impl<T, P> Default for Send<T, P> {
    fn default() -> (r: Self) {
        Send { _marker: PhantomData }
    }
}

impl<T, P: Protocol> Protocol for Send<T, P> {
    type Dual = Recv<T, P::Dual>;

    open spec fn shape() -> ProtocolShape {
        ProtocolShape::Send(Box::new(P::shape()))
    }

}

} // verus!
