//! The `Var<N>` protocol type: a reference to the recursion point `N` levels
//! out.

use vstd::prelude::*;
use super::base::{Protocol, ProtocolShape};

verus! {

/// A reference to an enclosing `Rec`; it is its own dual.
pub struct Var<const N: usize>;

impl<const N: usize> Default for Var<N> {
    fn default() -> (r: Self) {
        Var
    }
}

impl<const N: usize> Protocol for Var<N> {
    type Dual = Var<N>;

    open spec fn shape() -> ProtocolShape {
        ProtocolShape::Var(N as nat)
    }

}

} // verus!
