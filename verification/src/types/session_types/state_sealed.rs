//! The sealing trait that keeps the multiparty protocol states closed to
//! this crate.

use vstd::prelude::*;

verus! {

/// Implemented only by the protocol states of this crate.
pub trait Sealed {}

} // verus!
