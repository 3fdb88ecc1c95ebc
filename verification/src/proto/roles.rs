//! The `Role` trait and concrete role types for multiparty protocols.

use vstd::prelude::*;

verus! {

/// A role in a multiparty protocol. Each role has a fixed name.
pub trait Role: Send + 'static + Default {
    /// The name of this role type.
    open spec fn role_name() -> Seq<char> {
        Seq::empty()
    }

    /// Returns a string representation of the role.
    fn name(&self) -> (r: &'static str)
        ensures
            r@ == Self::role_name(),
    ;
}

/// A concrete role type, RoleA.
#[derive(Debug, Clone, Copy, PartialEq, Eq, Hash, Structural)]
pub struct RoleA;

impl Default for RoleA {
    fn default() -> (r: Self) {
        RoleA
    }
}

impl Role for RoleA {
    open spec fn role_name() -> Seq<char> {
        "RoleA"@
    }

    fn name(&self) -> (r: &'static str) {
        "RoleA"
    }
}

/// A concrete role type, RoleB.
#[derive(Debug, Clone, Copy, PartialEq, Eq, Hash, Structural)]
pub struct RoleB;

impl Default for RoleB {
    fn default() -> (r: Self) {
        RoleB
    }
}

impl Role for RoleB {
    open spec fn role_name() -> Seq<char> {
        "RoleB"@
    }

    fn name(&self) -> (r: &'static str) {
        "RoleB"
    }
}

} // verus!
