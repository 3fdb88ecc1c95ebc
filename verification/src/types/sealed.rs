//! The sealing trait that keeps `Role` closed to this crate.

use vstd::prelude::*;

verus! {

/// Implemented only by the roles of this crate.
pub trait Sealed {}

} // verus!
