//! The duality laws of the protocol types.
//!
//! For each protocol constructor: when the continuations' duals have the
//! structure dual to theirs, the dual of the whole has the structure dual to
//! the whole. So, by induction on a protocol type, `P::Dual` always has the
//! structure `dual_shape(P::shape())`: what `P` sends `P::Dual` receives, and
//! what `P` chooses `P::Dual` offers.

use vstd::prelude::*;
use super::base::{Protocol, dual_shape};
use super::send::Send;
use super::recv::Recv;
use super::end::End;
use super::offer::Offer;
use super::choice::Choose;
use super::rec::Rec;
use super::var::Var;

verus! {

/// The dual of `End` is `End`.
pub proof fn law_end_dual()
    ensures
        <<End as Protocol>::Dual as Protocol>::shape() == dual_shape(<End as Protocol>::shape()),
{
}

/// The dual of sending a `T` is receiving a `T`, then the dual of the rest.
pub proof fn law_send_dual<T, P: Protocol>() where P::Dual: Protocol
    requires
        <P::Dual as Protocol>::shape() == dual_shape(P::shape()),
    ensures
        <<Send<T, P> as Protocol>::Dual as Protocol>::shape() == dual_shape(
            <Send<T, P> as Protocol>::shape(),
        ),
{
}

/// The dual of receiving a `T` is sending a `T`, then the dual of the rest.
pub proof fn law_recv_dual<T, P: Protocol>() where P::Dual: Protocol
    requires
        <P::Dual as Protocol>::shape() == dual_shape(P::shape()),
    ensures
        <<Recv<T, P> as Protocol>::Dual as Protocol>::shape() == dual_shape(
            <Recv<T, P> as Protocol>::shape(),
        ),
{
}

/// The dual of offering a choice is making it, between the duals of the
/// branches.
pub proof fn law_offer_dual<L: Protocol, R: Protocol>() where L::Dual: Protocol, R::Dual: Protocol
    requires
        <L::Dual as Protocol>::shape() == dual_shape(L::shape()),
        <R::Dual as Protocol>::shape() == dual_shape(R::shape()),
    ensures
        <<Offer<L, R> as Protocol>::Dual as Protocol>::shape() == dual_shape(
            <Offer<L, R> as Protocol>::shape(),
        ),
{
}

/// The dual of making a choice is offering it, between the duals of the
/// branches.
pub proof fn law_choose_dual<L: Protocol, R: Protocol>() where L::Dual: Protocol, R::Dual: Protocol
    requires
        <L::Dual as Protocol>::shape() == dual_shape(L::shape()),
        <R::Dual as Protocol>::shape() == dual_shape(R::shape()),
    ensures
        <<Choose<L, R> as Protocol>::Dual as Protocol>::shape() == dual_shape(
            <Choose<L, R> as Protocol>::shape(),
        ),
{
}

/// The dual of a recursion is the recursion of the dual body.
pub proof fn law_rec_dual<P: Protocol>() where P::Dual: Protocol
    requires
        <P::Dual as Protocol>::shape() == dual_shape(P::shape()),
    ensures
        <<Rec<P> as Protocol>::Dual as Protocol>::shape() == dual_shape(
            <Rec<P> as Protocol>::shape(),
        ),
{
}

/// A recursion variable is its own dual.
pub proof fn law_var_dual<const N: usize>()
    ensures
        <<Var<N> as Protocol>::Dual as Protocol>::shape() == dual_shape(
            <Var<N> as Protocol>::shape(),
        ),
{
}

} // verus!
