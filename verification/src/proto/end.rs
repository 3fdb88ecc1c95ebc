//! The `End` protocol type: the end of a session.

use vstd::prelude::*;
use super::base::{Protocol, ProtocolShape};

verus! {

/// The end of a communication session; it is its own dual.
#[derive(Debug)]
pub struct End;

impl Default for End {
    fn default() -> (r: Self) {
        End
    }
}

impl Protocol for End {
    type Dual = End;

    open spec fn shape() -> ProtocolShape {
        ProtocolShape::End
    }

}

} // verus!
