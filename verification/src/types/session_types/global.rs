//! Global protocol representation for multiparty session types.
//!
//! A global protocol describes all interactions between the participants from
//! a central point of view. Each value of [`GlobalInteraction`] is seen, in
//! contracts, as a [`GlobalType`]: the same tree with names as character
//! sequences.

use vstd::prelude::*;
use std::marker::PhantomData;
use super::common::{RoleIdentifier, Label, RecursionLabel};

verus! {

broadcast use vstd::std_specs::vec::group_vec_axioms;

/// The mathematical view of a global protocol.
pub enum GlobalType {
    /// `from` sends a message to `to`, then the protocol continues with `cont`.
    Message { from: Seq<char>, to: Seq<char>, cont: Box<GlobalType> },
    /// `decider` selects one of the labelled branches.
    Choice { decider: Seq<char>, branches: Seq<(Seq<char>, GlobalType)> },
    /// A recursion point named `label`.
    Rec { label: Seq<char>, body: Box<GlobalType> },
    /// A jump back to the recursion point named `label`.
    Var { label: Seq<char> },
    /// The end of the protocol.
    End,
}

/// Represents a global protocol interaction in a multiparty session type system.
#[derive(Debug)]
pub enum GlobalInteraction<M: Clone> {
    /// A message exchange from one role to another.
    Message {
        /// The role identifier of the sender
        from: RoleIdentifier,
        /// The role identifier of the receiver
        to: RoleIdentifier,
        /// A phantom type representing the message type
        msg: PhantomData<M>,
        /// The continuation of the protocol after this message exchange
        cont: Box<GlobalInteraction<M>>,
    },
    /// A choice point, where the deciding role selects one of the branches.
    Choice {
        /// The role that makes the decision
        decider: RoleIdentifier,
        /// The available branches, each with a label and continuation
        branches: Vec<(Label, Box<GlobalInteraction<M>>)>,
    },
    /// Recursion point in the protocol.
    Rec {
        /// The label identifying this recursion point
        label: RecursionLabel,
        /// The body of the recursive protocol
        body: Box<GlobalInteraction<M>>,
    },
    /// Reference to a recursion point.
    Var {
        /// The label of the referenced recursion point
        label: RecursionLabel,
    },
    /// The termination of the protocol.
    End,
}

/// The view of a global protocol value.
pub open spec fn global_view<M: Clone>(g: GlobalInteraction<M>) -> GlobalType
    decreases g,
{
    match g {
        GlobalInteraction::Message { from, to, cont, .. } => GlobalType::Message {
            from: from@,
            to: to@,
            cont: Box::new(global_view(*cont)),
        },
        GlobalInteraction::Choice { decider, branches } => GlobalType::Choice {
            decider: decider@,
            branches: global_branches_view(branches@),
        },
        GlobalInteraction::Rec { label, body } => GlobalType::Rec {
            label: label@,
            body: Box::new(global_view(*body)),
        },
        GlobalInteraction::Var { label } => GlobalType::Var { label: label@ },
        GlobalInteraction::End => GlobalType::End,
    }
}

/// The view of a sequence of labelled branches.
pub open spec fn global_branches_view<M: Clone>(
    bs: Seq<(Label, Box<GlobalInteraction<M>>)>,
) -> Seq<(Seq<char>, GlobalType)>
    decreases bs,
{
    if bs.len() == 0 {
        Seq::empty()
    } else {
        global_branches_view(bs.subrange(0, bs.len() - 1)).push(
            (bs[bs.len() - 1].0@, global_view(*bs[bs.len() - 1].1)),
        )
    }
}

/// The view of branches handed to a constructor, before they are boxed.
pub open spec fn unboxed_branches_view<M: Clone>(
    bs: Seq<(Label, GlobalInteraction<M>)>,
) -> Seq<(Seq<char>, GlobalType)> {
    bs.map_values(|b: (Label, GlobalInteraction<M>)| (b.0@, global_view(b.1)))
}

impl<M: Clone> View for GlobalInteraction<M> {
    type V = GlobalType;

    open spec fn view(&self) -> GlobalType {
        global_view(*self)
    }
}

/// The branch view has one entry per branch, each the view of that branch.
pub proof fn lemma_global_branches_view<M: Clone>(bs: Seq<(Label, Box<GlobalInteraction<M>>)>)
    ensures
        global_branches_view(bs).len() == bs.len(),
        forall|i: int|
            0 <= i < bs.len() ==> #[trigger] global_branches_view(bs)[i] == (
                bs[i].0@,
                global_view(*bs[i].1),
            ),
    decreases bs.len(),
{
    if bs.len() > 0 {
        lemma_global_branches_view(bs.subrange(0, bs.len() - 1));
    }
}

/// The text of a failed recursion check for a label bound twice on one path.
pub open spec fn duplicate_label_message(label: Seq<char>) -> Seq<char> {
    "Duplicate recursion label: "@ + recursion_label_debug(label)
}

/// The text of a failed recursion check for a label that no enclosing
/// recursion point binds.
pub open spec fn undefined_label_message(label: Seq<char>) -> Seq<char> {
    "Reference to undefined recursion label: "@ + recursion_label_debug(label)
}

/// The `Debug` text of a recursion label with the given name.
pub uninterp spec fn recursion_label_debug(label: Seq<char>) -> Seq<char>;

/// Formats a recursion label with its derived `Debug` implementation
/// (`format!("{:?}", ..)`). The text is named, not spelled out: it is a
/// function of the label's name.
#[verifier::external_body]
fn debug_recursion_label(label: &RecursionLabel) -> (r: String)
    ensures
        r@ == recursion_label_debug(label@),
{
    format!("{:?}", label)
}

/// The outcome of checking recursion well-formedness of `g`, where `defined`
/// holds the labels of the recursion points that enclose `g`: the first
/// offending label on a left-to-right walk makes the error.
pub open spec fn recursion_check(g: GlobalType, defined: Seq<Seq<char>>) -> Result<(), Seq<char>>
    decreases g,
{
    match g {
        GlobalType::Message { cont, .. } => recursion_check(*cont, defined),
        GlobalType::Choice { branches, .. } => recursion_check_branches(branches, defined),
        GlobalType::Rec { label, body } => {
            if defined.contains(label) {
                Err(duplicate_label_message(label))
            } else {
                recursion_check(*body, defined.push(label))
            }
        },
        GlobalType::Var { label } => {
            if defined.contains(label) {
                Ok(())
            } else {
                Err(undefined_label_message(label))
            }
        },
        GlobalType::End => Ok(()),
    }
}

/// The outcome of checking the branches of a choice in order.
pub open spec fn recursion_check_branches(
    bs: Seq<(Seq<char>, GlobalType)>,
    defined: Seq<Seq<char>>,
) -> Result<(), Seq<char>>
    decreases bs,
{
    if bs.len() == 0 {
        Ok(())
    } else {
        match recursion_check_branches(bs.subrange(0, bs.len() - 1), defined) {
            Err(e) => Err(e),
            Ok(_) => recursion_check(bs[bs.len() - 1].1, defined),
        }
    }
}

/// The names of a sequence of recursion labels.
pub open spec fn label_names(s: Seq<RecursionLabel>) -> Seq<Seq<char>> {
    s.map_values(|l: RecursionLabel| l@)
}

/// The view of the outcome of a recursion check.
pub open spec fn check_outcome(r: Result<(), String>) -> Result<(), Seq<char>> {
    match r {
        Ok(_) => Ok(()),
        Err(e) => Err(e@),
    }
}

/// Whether `labels` holds a label with the name of `label`.
fn contains_label(labels: &Vec<RecursionLabel>, label: &RecursionLabel) -> (r: bool)
    ensures
        r == label_names(labels@).contains(label@),
{
    let mut i: usize = 0;
    while i < labels.len()
        invariant
            i <= labels.len(),
            forall|j: int| 0 <= j < i ==> labels@[j]@ != label@,
        decreases labels.len() - i,
    {
        if labels[i].0 == label.0 {
            assert(label_names(labels@)[i as int] == label@);
            return true;
        }
        i = i + 1;
    }
    assert forall|j: int| 0 <= j < label_names(labels@).len() implies label_names(labels@)[j]
        != label@ by {
        assert(labels@[j]@ != label@);
    }
    false
}

/// Clones every branch of a choice.
fn clone_global_branches<M: Clone>(
    g: &GlobalInteraction<M>,
    branches: &Vec<(Label, Box<GlobalInteraction<M>>)>,
) -> (r: Vec<(Label, Box<GlobalInteraction<M>>)>)
    requires
        g matches GlobalInteraction::Choice { branches: bs, .. } && bs == *branches,
    ensures
        global_branches_view(r@) == global_branches_view(branches@),
    decreases g, 0nat,
{
    proof {
        lemma_global_branches_view(branches@);
    }
    let mut out: Vec<(Label, Box<GlobalInteraction<M>>)> = Vec::new();
    let mut i: usize = 0;
    while i < branches.len()
        invariant
            i <= branches.len(),
            g matches GlobalInteraction::Choice { branches: bs, .. } && bs == *branches,
            out@.len() == i,
            forall|j: int|
                0 <= j < i ==> #[trigger] out@[j].0@ == branches@[j].0@ && global_view(*out@[j].1)
                    == global_view(*branches@[j].1),
        decreases branches.len() - i,
    {
        let copy = clone_global(&*branches[i].1);
        let ghost k = i as int;
        out.push((branches[i].0.clone(), Box::new(copy)));
        assert(out@[k].0@ == branches@[k].0@);
        i = i + 1;
    }
    proof {
        lemma_global_branches_view(out@);
        assert(global_branches_view(out@) =~= global_branches_view(branches@));
    }
    out
}

/// A copy of a global protocol with the same view.
fn clone_global<M: Clone>(g: &GlobalInteraction<M>) -> (r: GlobalInteraction<M>)
    ensures
        r@ == g@,
    decreases g, 1nat,
{
    match g {
        GlobalInteraction::Message { from, to, cont, .. } => GlobalInteraction::Message {
            from: from.clone(),
            to: to.clone(),
            msg: PhantomData,
            cont: Box::new(clone_global(&**cont)),
        },
        GlobalInteraction::Choice { decider, branches } => GlobalInteraction::Choice {
            decider: decider.clone(),
            branches: clone_global_branches(g, branches),
        },
        GlobalInteraction::Rec { label, body } => GlobalInteraction::Rec {
            label: label.clone(),
            body: Box::new(clone_global(&**body)),
        },
        GlobalInteraction::Var { label } => GlobalInteraction::Var { label: label.clone() },
        GlobalInteraction::End => GlobalInteraction::End,
    }
}

impl<M: Clone> Clone for GlobalInteraction<M> {
    /// A copy with the same view.
    fn clone(&self) -> (r: Self)
        ensures
            r@ == self@,
    {
        clone_global(self)
    }
}

impl<M: Clone> GlobalInteraction<M> {
    /// Creates a new message interaction in the global protocol.
    pub fn message(from: &str, to: &str, cont: GlobalInteraction<M>) -> (r: Self)
        ensures
            r@ == (GlobalType::Message { from: from@, to: to@, cont: Box::new(cont@) }),
    {
        GlobalInteraction::Message {
            from: RoleIdentifier::new(from),
            to: RoleIdentifier::new(to),
            msg: PhantomData,
            cont: Box::new(cont),
        }
    }

    /// Creates a new end interaction, representing protocol termination.
    pub fn end() -> (r: Self)
        ensures
            r@ == GlobalType::End,
    {
        GlobalInteraction::End
    }

    /// Creates a new choice interaction in the global protocol.
    pub fn choice(decider: &str, branches: Vec<(Label, GlobalInteraction<M>)>) -> (r: Self)
        ensures
            r@ == (GlobalType::Choice {
                decider: decider@,
                branches: unboxed_branches_view(branches@),
            }),
    {
        let ghost input = branches@;
        let mut boxed: Vec<(Label, Box<GlobalInteraction<M>>)> = Vec::new();
        for b in it: branches
            invariant
                it.seq() == input,
                boxed@.len() == it.index(),
                forall|j: int|
                    0 <= j < it.index() ==> #[trigger] boxed@[j].0 == input[j].0 && *boxed@[j].1
                        == input[j].1,
        {
            let (label, cont) = b;
            boxed.push((label, Box::new(cont)));
        }
        proof {
            lemma_global_branches_view(boxed@);
            assert(global_branches_view(boxed@) =~= unboxed_branches_view(input));
        }
        GlobalInteraction::Choice { decider: RoleIdentifier::new(decider), branches: boxed }
    }

    /// Creates a new recursion point in the global protocol.
    pub fn rec(label: &str, body: GlobalInteraction<M>) -> (r: Self)
        ensures
            r@ == (GlobalType::Rec { label: label@, body: Box::new(body@) }),
    {
        GlobalInteraction::Rec { label: RecursionLabel::new(label), body: Box::new(body) }
    }

    /// Creates a new reference to a recursion point.
    pub fn var(label: &str) -> (r: Self)
        ensures
            r@ == (GlobalType::Var { label: label@ }),
    {
        GlobalInteraction::Var { label: RecursionLabel::new(label) }
    }

    /// Checks that this protocol is well-formed with respect to recursion:
    /// every `Var` refers to an enclosing `Rec`, and no `Rec` reuses the label
    /// of an enclosing one.
    pub fn check_recursion_well_formedness(&self) -> (r: Result<(), String>)
        ensures
            check_outcome(r) == recursion_check(self@, Seq::empty()),
    {
        let mut defined_labels: Vec<RecursionLabel> = Vec::new();
        proof {
            assert(label_names(defined_labels@) =~= Seq::<Seq<char>>::empty());
        }
        self.check_recursion_well_formedness_inner(&mut defined_labels)
    }

    fn check_recursion_well_formedness_inner(
        &self,
        defined_labels: &mut Vec<RecursionLabel>,
    ) -> (r: Result<(), String>)
        ensures
            check_outcome(r) == recursion_check(self@, label_names(old(defined_labels)@)),
            final(defined_labels)@ == old(defined_labels)@,
        decreases self,
    {
        match self {
            GlobalInteraction::Message { cont, .. } => {
                cont.check_recursion_well_formedness_inner(defined_labels)
            },
            GlobalInteraction::Choice { branches, .. } => {
                let ghost defined = label_names(defined_labels@);
                let ghost bview = global_branches_view(branches@);
                proof {
                    lemma_global_branches_view(branches@);
                }
                let mut i: usize = 0;
                while i < branches.len()
                    invariant
                        i <= branches.len(),
                        defined_labels@ == old(defined_labels)@,
                        defined == label_names(defined_labels@),
                        bview == global_branches_view(branches@),
                        bview.len() == branches@.len(),
                        forall|j: int|
                            0 <= j < branches@.len() ==> #[trigger] bview[j] == (
                                branches@[j].0@,
                                global_view(*branches@[j].1),
                            ),
                        recursion_check_branches(bview.subrange(0, i as int), defined) == Ok::<
                            (),
                            Seq<char>,
                        >(()),
                        *self == (GlobalInteraction::Choice { decider: self->decider, branches: *branches }),
                    decreases branches.len() - i,
                {
                    let r = branches[i].1.check_recursion_well_formedness_inner(defined_labels);
                    proof {
                        assert(bview.subrange(0, i + 1).subrange(0, i as int) =~= bview.subrange(
                            0,
                            i as int,
                        ));
                    }
                    match r {
                        Err(e) => {
                            proof {
                                lemma_branches_error_persists(bview, (i + 1) as int, defined);
                            }
                            return Err(e);
                        },
                        Ok(()) => {},
                    }
                    i = i + 1;
                }
                proof {
                    assert(bview.subrange(0, i as int) =~= bview);
                }
                Ok(())
            },
            GlobalInteraction::Rec { label, body } => {
                if contains_label(defined_labels, label) {
                    let mut msg = String::from_str("Duplicate recursion label: ");
                    let d = debug_recursion_label(label);
                    msg.append(d.as_str());
                    return Err(msg);
                }
                let ghost before = defined_labels@;
                defined_labels.push(label.clone());
                proof {
                    assert(label_names(defined_labels@) =~= label_names(before).push(label@));
                }
                let result = body.check_recursion_well_formedness_inner(defined_labels);
                defined_labels.pop();
                proof {
                    assert(defined_labels@ =~= before);
                }
                result
            },
            GlobalInteraction::Var { label } => {
                if !contains_label(defined_labels, label) {
                    let mut msg = String::from_str("Reference to undefined recursion label: ");
                    let d = debug_recursion_label(label);
                    msg.append(d.as_str());
                    return Err(msg);
                }
                Ok(())
            },
            GlobalInteraction::End => Ok(()),
        }
    }
}

/// A recursion variable is accepted exactly when some enclosing recursion
/// point binds its label, at whatever depth.
pub proof fn law_var_needs_an_enclosing_binder(label: Seq<char>, defined: Seq<Seq<char>>)
    ensures
        recursion_check(GlobalType::Var { label }, defined) is Ok <==> defined.contains(label),
        !defined.contains(label) ==> recursion_check(GlobalType::Var { label }, defined) == Err::<
            (),
            Seq<char>,
        >(undefined_label_message(label)),
{
}

/// An inner loop may jump back to the loop around it: for different labels
/// `outer` and `inner`, a recursion `outer` whose body is a recursion `inner`
/// whose body jumps to `outer` is well formed.
pub proof fn law_inner_loop_may_jump_to_outer(outer: Seq<char>, inner: Seq<char>)
    requires
        outer != inner,
    ensures
        recursion_check(
            GlobalType::Rec {
                label: outer,
                body: Box::new(
                    GlobalType::Rec {
                        label: inner,
                        body: Box::new(GlobalType::Var { label: outer }),
                    },
                ),
            },
            Seq::empty(),
        ) is Ok,
{
    let d1 = Seq::<Seq<char>>::empty().push(outer);
    let d2 = d1.push(inner);
    assert(!Seq::<Seq<char>>::empty().contains(outer));
    assert(!d1.contains(inner)) by {
        if d1.contains(inner) {
            let k = choose|k: int| 0 <= k < d1.len() && d1[k] == inner;
            assert(d1[k] == outer);
        }
    }
    assert(d2[0] == outer);
    assert(d2.contains(outer));
    let v = GlobalType::Var { label: outer };
    let ri = GlobalType::Rec { label: inner, body: Box::new(v) };
    let ro = GlobalType::Rec { label: outer, body: Box::new(ri) };
    assert(recursion_check(v, d2) == Ok::<(), Seq<char>>(()));
    assert(recursion_check(ri, d1) == recursion_check(v, d2));
    assert(recursion_check(ro, Seq::empty()) == recursion_check(ri, d1));
}

/// Once a prefix of the branches fails the check, every longer prefix fails
/// with the same error.
proof fn lemma_branches_error_persists(
    bs: Seq<(Seq<char>, GlobalType)>,
    n: int,
    defined: Seq<Seq<char>>,
)
    requires
        0 < n <= bs.len(),
        recursion_check_branches(bs.subrange(0, n), defined) is Err,
    ensures
        recursion_check_branches(bs, defined) == recursion_check_branches(bs.subrange(0, n), defined),
    decreases bs.len() - n,
{
    if n < bs.len() {
        assert(bs.subrange(0, n + 1).subrange(0, n) =~= bs.subrange(0, n));
        assert(recursion_check_branches(bs.subrange(0, n + 1), defined)
            == recursion_check_branches(bs.subrange(0, n), defined));
        lemma_branches_error_persists(bs, n + 1, defined);
    } else {
        assert(bs.subrange(0, n) =~= bs);
    }
}

} // verus!
