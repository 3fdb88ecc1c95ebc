//! Core Protocol trait for session types.
//!
//! Each protocol type has a dual: the behaviour of the other party. In
//! contracts a protocol type is seen through its [`ProtocolShape`], the tree of
//! its communication steps without the message types.

use vstd::prelude::*;

verus! {

/// The communication structure of a protocol type.
pub enum ProtocolShape {
    /// Send a value, then continue.
    Send(Box<ProtocolShape>),
    /// Receive a value, then continue.
    Recv(Box<ProtocolShape>),
    /// End of the session.
    End,
    /// Offer a choice between two continuations.
    Offer(Box<ProtocolShape>, Box<ProtocolShape>),
    /// Choose between two continuations.
    Choose(Box<ProtocolShape>, Box<ProtocolShape>),
    /// A recursive protocol.
    Rec(Box<ProtocolShape>),
    /// A reference to the recursion point `n` levels out.
    Var(nat),
    /// A protocol wrapped for another session-type system, which is its own
    /// dual.
    Wrapped,
    /// A protocol type defined outside this crate, whose structure is not
    /// described.
    Other,
}

/// The dual of a protocol structure: sends and receives swap, offers and
/// choices swap.
pub open spec fn dual_shape(s: ProtocolShape) -> ProtocolShape
    decreases s,
{
    match s {
        ProtocolShape::Send(p) => ProtocolShape::Recv(Box::new(dual_shape(*p))),
        ProtocolShape::Recv(p) => ProtocolShape::Send(Box::new(dual_shape(*p))),
        ProtocolShape::End => ProtocolShape::End,
        ProtocolShape::Offer(l, r) => ProtocolShape::Choose(
            Box::new(dual_shape(*l)),
            Box::new(dual_shape(*r)),
        ),
        ProtocolShape::Choose(l, r) => ProtocolShape::Offer(
            Box::new(dual_shape(*l)),
            Box::new(dual_shape(*r)),
        ),
        ProtocolShape::Rec(p) => ProtocolShape::Rec(Box::new(dual_shape(*p))),
        ProtocolShape::Var(n) => ProtocolShape::Var(n),
        ProtocolShape::Wrapped => ProtocolShape::Wrapped,
        ProtocolShape::Other => ProtocolShape::Other,
    }
}

/// The `Protocol` trait represents a communication protocol type.
///
/// For any protocol `P`, `P::Dual` is the complementary protocol of the other
/// party. (The dual is not bound to be a `Protocol` in the trait itself: the
/// bound would make the impls of `Send` and `Recv` depend on each other in a
/// cycle; functions that need it state it in a `where` clause.)
pub trait Protocol: Sized {
    /// The dual protocol type.
    type Dual;

    /// The communication structure of this protocol type (`Other` for a
    /// protocol type that does not describe it).
    open spec fn shape() -> ProtocolShape {
        ProtocolShape::Other
    }
}

/// Taking the dual twice gives back the structure one started from.
pub proof fn lemma_dual_shape_involutive(s: ProtocolShape)
    ensures
        dual_shape(dual_shape(s)) == s,
    decreases s,
{
    match s {
        ProtocolShape::Send(p) => lemma_dual_shape_involutive(*p),
        ProtocolShape::Recv(p) => lemma_dual_shape_involutive(*p),
        ProtocolShape::Offer(l, r) => {
            lemma_dual_shape_involutive(*l);
            lemma_dual_shape_involutive(*r);
        },
        ProtocolShape::Choose(l, r) => {
            lemma_dual_shape_involutive(*l);
            lemma_dual_shape_involutive(*r);
        },
        ProtocolShape::Rec(p) => lemma_dual_shape_involutive(*p),
        _ => {},
    }
}

/// Duality is symmetric: the dual of the dual of a protocol structure is
/// the structure one started from.
pub proof fn law_dual_involutive(s: ProtocolShape)
    ensures
        dual_shape(dual_shape(s)) == s,
{
    lemma_dual_shape_involutive(s);
}

} // verus!
