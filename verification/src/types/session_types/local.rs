//! Local protocol representation for multiparty session types.
//!
//! A local protocol describes the interactions of a single participant. Each
//! value of [`LocalProtocol`] is seen, in contracts, as a [`LocalType`].

use vstd::prelude::*;
use std::marker::PhantomData;
use crate::types::roles::Role;
use super::common::{RoleIdentifier, Label, RecursionLabel};

verus! {

broadcast use vstd::std_specs::vec::group_vec_axioms;

/// The mathematical view of a local protocol.
pub enum LocalType {
    /// Send a message to `to`, then continue with `cont`.
    Send { to: Seq<char>, cont: Box<LocalType> },
    /// Receive a message from `from`, then continue with `cont`.
    Receive { from: Seq<char>, cont: Box<LocalType> },
    /// Select one of the labelled branches.
    Select { branches: Seq<(Seq<char>, LocalType)> },
    /// Follow the branch that `decider` selects.
    Offer { decider: Seq<char>, branches: Seq<(Seq<char>, LocalType)> },
    /// A recursion point named `label`.
    Rec { label: Seq<char>, body: Box<LocalType> },
    /// A jump back to the recursion point named `label`.
    Var { label: Seq<char> },
    /// The end of the protocol.
    End,
}

/// Represents a local protocol in a multiparty session type system, from the
/// point of view of role `R`.
#[derive(Debug)]
pub enum LocalProtocol<R: Role, M: Clone> {
    /// Sending a message to another role.
    Send {
        /// The role identifier of the receiver
        to: RoleIdentifier,
        /// A phantom type representing the message type
        msg: PhantomData<M>,
        /// The continuation of the protocol after this message is sent
        cont: Box<LocalProtocol<R, M>>,
        /// Phantom data to associate with the compile-time role type
        _role: PhantomData<R>,
    },
    /// Receiving a message from another role.
    Receive {
        /// The role identifier of the sender
        from: RoleIdentifier,
        /// A phantom type representing the message type
        msg: PhantomData<M>,
        /// The continuation of the protocol after this message is received
        cont: Box<LocalProtocol<R, M>>,
        /// Phantom data to associate with the compile-time role type
        _role: PhantomData<R>,
    },
    /// Selecting one of multiple branches (used by the deciding role).
    Select {
        /// The available branches, each with a label and continuation
        branches: Vec<(Label, Box<LocalProtocol<R, M>>)>,
        /// Phantom data to associate with the compile-time role type
        _role: PhantomData<R>,
    },
    /// Offering multiple branches for selection by another role.
    Offer {
        /// The role that makes the decision
        decider: RoleIdentifier,
        /// The available branches, each with a label and continuation
        branches: Vec<(Label, Box<LocalProtocol<R, M>>)>,
        /// Phantom data to associate with the compile-time role type
        _role: PhantomData<R>,
    },
    /// Recursion point in the local protocol.
    Rec {
        /// The label identifying this recursion point
        label: RecursionLabel,
        /// The body of the recursive protocol
        body: Box<LocalProtocol<R, M>>,
        /// Phantom data to associate with the compile-time role type
        _role: PhantomData<R>,
    },
    /// Reference to a recursion point.
    Var {
        /// The label of the referenced recursion point
        label: RecursionLabel,
        /// Phantom data to associate with the compile-time role type
        _role: PhantomData<R>,
    },
    /// The termination of the protocol.
    End {
        /// Phantom data to associate with the compile-time role type
        _role: PhantomData<R>,
    },
}

/// The view of a local protocol value.
pub open spec fn local_view<R: Role, M: Clone>(p: LocalProtocol<R, M>) -> LocalType
    decreases p,
{
    match p {
        LocalProtocol::Send { to, cont, .. } => LocalType::Send {
            to: to@,
            cont: Box::new(local_view(*cont)),
        },
        LocalProtocol::Receive { from, cont, .. } => LocalType::Receive {
            from: from@,
            cont: Box::new(local_view(*cont)),
        },
        LocalProtocol::Select { branches, .. } => LocalType::Select {
            branches: local_branches_view(branches@),
        },
        LocalProtocol::Offer { decider, branches, .. } => LocalType::Offer {
            decider: decider@,
            branches: local_branches_view(branches@),
        },
        LocalProtocol::Rec { label, body, .. } => LocalType::Rec {
            label: label@,
            body: Box::new(local_view(*body)),
        },
        LocalProtocol::Var { label, .. } => LocalType::Var { label: label@ },
        LocalProtocol::End { .. } => LocalType::End,
    }
}

/// The view of a sequence of labelled local branches.
pub open spec fn local_branches_view<R: Role, M: Clone>(
    bs: Seq<(Label, Box<LocalProtocol<R, M>>)>,
) -> Seq<(Seq<char>, LocalType)>
    decreases bs,
{
    if bs.len() == 0 {
        Seq::empty()
    } else {
        local_branches_view(bs.subrange(0, bs.len() - 1)).push(
            (bs[bs.len() - 1].0@, local_view(*bs[bs.len() - 1].1)),
        )
    }
}

/// The view of local branches handed to a constructor, before they are boxed.
pub open spec fn unboxed_local_branches_view<R: Role, M: Clone>(
    bs: Seq<(Label, LocalProtocol<R, M>)>,
) -> Seq<(Seq<char>, LocalType)> {
    bs.map_values(|b: (Label, LocalProtocol<R, M>)| (b.0@, local_view(b.1)))
}

impl<R: Role, M: Clone> View for LocalProtocol<R, M> {
    type V = LocalType;

    open spec fn view(&self) -> LocalType {
        local_view(*self)
    }
}

/// The branch view has one entry per branch, each the view of that branch.
pub proof fn lemma_local_branches_view<R: Role, M: Clone>(
    bs: Seq<(Label, Box<LocalProtocol<R, M>>)>,
)
    ensures
        local_branches_view(bs).len() == bs.len(),
        forall|i: int|
            0 <= i < bs.len() ==> #[trigger] local_branches_view(bs)[i] == (
                bs[i].0@,
                local_view(*bs[i].1),
            ),
    decreases bs.len(),
{
    if bs.len() > 0 {
        lemma_local_branches_view(bs.subrange(0, bs.len() - 1));
    }
}

/// Boxes the continuations of labelled branches, keeping their order.
fn box_branches<R: Role, M: Clone>(branches: Vec<(Label, LocalProtocol<R, M>)>) -> (r: Vec<
    (Label, Box<LocalProtocol<R, M>>),
>)
    ensures
        local_branches_view(r@) == unboxed_local_branches_view(branches@),
{
    let ghost input = branches@;
    let mut boxed: Vec<(Label, Box<LocalProtocol<R, M>>)> = Vec::new();
    for b in it: branches
        invariant
            it.seq() == input,
            boxed@.len() == it.index(),
            forall|j: int|
                0 <= j < it.index() ==> #[trigger] boxed@[j].0 == input[j].0 && *boxed@[j].1
                    == input[j].1,
    {
        let ghost k = boxed@.len() as int;
        let (label, cont) = b;
        boxed.push((label, Box::new(cont)));
        assert(boxed@[k].0 == input[k].0 && *boxed@[k].1 == input[k].1);
    }
    proof {
        lemma_local_branches_view(boxed@);
        assert(local_branches_view(boxed@) =~= unboxed_local_branches_view(input));
    }
    boxed
}

/// Clones every branch of a selection or an offer.
fn clone_local_branches<R: Role, M: Clone>(
    p: &LocalProtocol<R, M>,
    branches: &Vec<(Label, Box<LocalProtocol<R, M>>)>,
) -> (r: Vec<(Label, Box<LocalProtocol<R, M>>)>)
    requires
        (p matches LocalProtocol::Select { branches: bs, .. } && bs == *branches) || (
        p matches LocalProtocol::Offer { branches: bs, .. } && bs == *branches),
    ensures
        local_branches_view(r@) == local_branches_view(branches@),
    decreases p, 0nat,
{
    proof {
        lemma_local_branches_view(branches@);
    }
    let mut out: Vec<(Label, Box<LocalProtocol<R, M>>)> = Vec::new();
    let mut i: usize = 0;
    while i < branches.len()
        invariant
            i <= branches.len(),
            (p matches LocalProtocol::Select { branches: bs, .. } && bs == *branches) || (
            p matches LocalProtocol::Offer { branches: bs, .. } && bs == *branches),
            out@.len() == i,
            forall|j: int|
                0 <= j < i ==> #[trigger] out@[j].0@ == branches@[j].0@ && local_view(*out@[j].1)
                    == local_view(*branches@[j].1),
        decreases branches.len() - i,
    {
        let copy = clone_local(&*branches[i].1);
        let ghost k = i as int;
        out.push((branches[i].0.clone(), Box::new(copy)));
        assert(out@[k].0@ == branches@[k].0@);
        i = i + 1;
    }
    proof {
        lemma_local_branches_view(out@);
        assert(local_branches_view(out@) =~= local_branches_view(branches@));
    }
    out
}

/// A copy of a local protocol with the same view.
fn clone_local<R: Role, M: Clone>(p: &LocalProtocol<R, M>) -> (r: LocalProtocol<R, M>)
    ensures
        r@ == p@,
    decreases p, 1nat,
{
    match p {
        LocalProtocol::Send { to, cont, .. } => LocalProtocol::Send {
            to: to.clone(),
            msg: PhantomData,
            cont: Box::new(clone_local(&**cont)),
            _role: PhantomData,
        },
        LocalProtocol::Receive { from, cont, .. } => LocalProtocol::Receive {
            from: from.clone(),
            msg: PhantomData,
            cont: Box::new(clone_local(&**cont)),
            _role: PhantomData,
        },
        LocalProtocol::Select { branches, .. } => LocalProtocol::Select {
            branches: clone_local_branches(p, branches),
            _role: PhantomData,
        },
        LocalProtocol::Offer { decider, branches, .. } => LocalProtocol::Offer {
            decider: decider.clone(),
            branches: clone_local_branches(p, branches),
            _role: PhantomData,
        },
        LocalProtocol::Rec { label, body, .. } => LocalProtocol::Rec {
            label: label.clone(),
            body: Box::new(clone_local(&**body)),
            _role: PhantomData,
        },
        LocalProtocol::Var { label, .. } => LocalProtocol::Var {
            label: label.clone(),
            _role: PhantomData,
        },
        LocalProtocol::End { .. } => LocalProtocol::End { _role: PhantomData },
    }
}

impl<R: Role, M: Clone> Clone for LocalProtocol<R, M> {
    /// A copy with the same view.
    fn clone(&self) -> (r: Self)
        ensures
            r@ == self@,
    {
        clone_local(self)
    }
}

impl<R: Role, M: Clone> LocalProtocol<R, M> {
    /// Creates a new send interaction in the local protocol.
    pub fn send(to: &str, cont: LocalProtocol<R, M>) -> (r: Self)
        ensures
            r@ == (LocalType::Send { to: to@, cont: Box::new(cont@) }),
    {
        LocalProtocol::Send {
            to: RoleIdentifier::new(to),
            msg: PhantomData,
            cont: Box::new(cont),
            _role: PhantomData,
        }
    }

    /// Creates a new receive interaction in the local protocol.
    pub fn receive(from: &str, cont: LocalProtocol<R, M>) -> (r: Self)
        ensures
            r@ == (LocalType::Receive { from: from@, cont: Box::new(cont@) }),
    {
        LocalProtocol::Receive {
            from: RoleIdentifier::new(from),
            msg: PhantomData,
            cont: Box::new(cont),
            _role: PhantomData,
        }
    }

    /// Creates a new end interaction, representing protocol termination.
    pub fn end() -> (r: Self)
        ensures
            r@ == LocalType::End,
    {
        LocalProtocol::End { _role: PhantomData }
    }

    /// Creates a new select interaction in the local protocol.
    pub fn select(branches: Vec<(Label, LocalProtocol<R, M>)>) -> (r: Self)
        ensures
            r@ == (LocalType::Select { branches: unboxed_local_branches_view(branches@) }),
    {
        LocalProtocol::Select { branches: box_branches(branches), _role: PhantomData }
    }

    /// Creates a new offer interaction in the local protocol.
    pub fn offer(decider: &str, branches: Vec<(Label, LocalProtocol<R, M>)>) -> (r: Self)
        ensures
            r@ == (LocalType::Offer {
                decider: decider@,
                branches: unboxed_local_branches_view(branches@),
            }),
    {
        LocalProtocol::Offer {
            decider: RoleIdentifier::new(decider),
            branches: box_branches(branches),
            _role: PhantomData,
        }
    }

    /// Creates a new recursion point in the local protocol.
    pub fn rec(label: &str, body: LocalProtocol<R, M>) -> (r: Self)
        ensures
            r@ == (LocalType::Rec { label: label@, body: Box::new(body@) }),
    {
        LocalProtocol::Rec {
            label: RecursionLabel::new(label),
            body: Box::new(body),
            _role: PhantomData,
        }
    }

    /// Creates a new reference to a recursion point.
    pub fn var(label: &str) -> (r: Self)
        ensures
            r@ == (LocalType::Var { label: label@ }),
    {
        LocalProtocol::Var { label: RecursionLabel::new(label), _role: PhantomData }
    }
}

} // verus!
