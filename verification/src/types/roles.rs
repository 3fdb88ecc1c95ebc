//! Role definitions for session type protocols.
//!
//! Roles are zero-sized types that identify protocol participants at the type
//! level.

use vstd::prelude::*;
use crate::types::sealed::Sealed;

verus! {

/// Trait marking types that can act as roles in a protocol.
///
/// The trait is sealed: only the roles of this module implement it.
pub trait Role: Sealed {}

/// Client role in a client-server protocol.
#[derive(Debug, Clone, Copy)]
pub struct Client;

/// Server role in a client-server protocol.
#[derive(Debug, Clone, Copy)]
pub struct Server;

impl Sealed for Client {}

impl Sealed for Server {}

impl Role for Client {}

impl Role for Server {}

} // verus!
