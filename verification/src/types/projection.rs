//! Projection of global protocols onto role-specific local protocols.
//!
//! The rules:
//!
//! 1. A message from A to B becomes `Send` for A and `Receive` for B; any
//!    other role skips it.
//! 2. A choice becomes `Select` for the deciding role and `Offer` for every
//!    other role; the branch labels are kept, in order.
//! 3. `Rec` and `Var` are kept, but a `Rec` whose projected body holds no
//!    send, receive, select or offer becomes `End`.
//! 4. `End` projects to `End` for every role.

use vstd::prelude::*;
use std::marker::PhantomData;
use crate::types::roles::{Role, Client, Server};
use crate::types::session_types::common::{RoleIdentifier, Label};
use crate::types::session_types::global::{
    GlobalInteraction, GlobalType, global_view, global_branches_view, lemma_global_branches_view,
};
use crate::types::session_types::local::{
    LocalProtocol, LocalType, local_view, local_branches_view, lemma_local_branches_view,
};

verus! {

broadcast use vstd::std_specs::vec::group_vec_axioms;

/// The lowercase form of a string, as `str::to_lowercase` computes it.
pub uninterp spec fn lowercase(s: Seq<char>) -> Seq<char>;

/// Whether every character of a string is ASCII.
pub open spec fn is_ascii_text(s: Seq<char>) -> bool {
    forall|i: int| 0 <= i < s.len() ==> (#[trigger] s[i] as u32) < 128
}

/// The lowercase form of an ASCII character: `A` to `Z` become `a` to `z`,
/// every other character stays.
pub open spec fn ascii_lower(c: char) -> char {
    if 65 <= (c as u32) <= 90 {
        ((c as u32) + 32) as char
    } else {
        c
    }
}

/// The lowercase form of an ASCII string.
pub open spec fn ascii_lowercase(s: Seq<char>) -> Seq<char> {
    s.map_values(|c: char| ascii_lower(c))
}

/// Calls `str::to_lowercase`. Its result is named, not spelled out: it is a
/// function of the string alone (Unicode lowercase mapping). On ASCII text
/// the Unicode mapping lowers the letters `A` to `Z` and keeps every other
/// character, which is stated.
#[verifier::external_body]
fn str_to_lowercase(s: &str) -> (r: String)
    ensures
        r@ == lowercase(s@),
        is_ascii_text(s@) ==> r@ == ascii_lowercase(s@),
{
    s.to_lowercase()
}

/// Extension trait for `Role` to check whether a role matches a runtime
/// role identifier.
pub trait RoleExt: Role {
    /// Whether this role type answers to the runtime name `role_id`.
    spec fn answers_to(role_id: Seq<char>) -> bool;

    /// Checks whether this role type matches the given role identifier.
    fn is_role(role_id: &RoleIdentifier) -> (r: bool)
        ensures
            r == Self::answers_to(role_id@),
    ;
}

impl RoleExt for Client {
    /// The client answers to every name whose lowercase form is `client`.
    open spec fn answers_to(role_id: Seq<char>) -> bool {
        lowercase(role_id) == "client"@
    }

    /// On an ASCII name this is the ASCII lowercase comparison.
    fn is_role(role_id: &RoleIdentifier) -> (r: bool)
        ensures
            is_ascii_text(role_id@) ==> (r <==> ascii_lowercase(role_id@) == "client"@),
    {
        str_to_lowercase(role_id.name()) == String::from_str("client")
    }
}

impl RoleExt for Server {
    /// The server answers to every name whose lowercase form is `server`.
    open spec fn answers_to(role_id: Seq<char>) -> bool {
        lowercase(role_id) == "server"@
    }

    /// On an ASCII name this is the ASCII lowercase comparison.
    fn is_role(role_id: &RoleIdentifier) -> (r: bool)
        ensures
            is_ascii_text(role_id@) ==> (r <==> ascii_lowercase(role_id@) == "server"@),
    {
        str_to_lowercase(role_id.name()) == String::from_str("server")
    }
}

/// Whether a local protocol holds a send, receive, select or offer before
/// reaching `End` or `Var` (looking through recursion points).
pub open spec fn meaningful(p: LocalType) -> bool
    decreases p,
{
    match p {
        LocalType::Send { .. } | LocalType::Receive { .. } | LocalType::Select { .. }
        | LocalType::Offer { .. } => true,
        LocalType::Rec { body, .. } => meaningful(*body),
        LocalType::Var { .. } | LocalType::End => false,
    }
}

/// The projection of a global protocol onto role `R`.
pub open spec fn projection<R: RoleExt>(g: GlobalType) -> LocalType
    decreases g,
{
    match g {
        GlobalType::Message { from, to, cont } => {
            if R::answers_to(from) {
                LocalType::Send { to, cont: Box::new(projection::<R>(*cont)) }
            } else if R::answers_to(to) {
                LocalType::Receive { from, cont: Box::new(projection::<R>(*cont)) }
            } else {
                projection::<R>(*cont)
            }
        },
        GlobalType::End => LocalType::End,
        GlobalType::Choice { decider, branches } => {
            if R::answers_to(decider) {
                LocalType::Select { branches: project_branches::<R>(branches) }
            } else {
                LocalType::Offer { decider, branches: project_branches::<R>(branches) }
            }
        },
        GlobalType::Rec { label, body } => {
            let projected = projection::<R>(*body);
            if meaningful(projected) {
                LocalType::Rec { label, body: Box::new(projected) }
            } else {
                LocalType::End
            }
        },
        GlobalType::Var { label } => LocalType::Var { label },
    }
}

/// The projection of the branches of a choice, label by label.
pub open spec fn project_branches<R: RoleExt>(bs: Seq<(Seq<char>, GlobalType)>) -> Seq<
    (Seq<char>, LocalType),
>
    decreases bs,
{
    if bs.len() == 0 {
        Seq::empty()
    } else {
        project_branches::<R>(bs.subrange(0, bs.len() - 1)).push(
            (bs[bs.len() - 1].0, projection::<R>(bs[bs.len() - 1].1)),
        )
    }
}

/// Branch projection keeps the number of branches and projects each one.
pub proof fn lemma_project_branches<R: RoleExt>(bs: Seq<(Seq<char>, GlobalType)>)
    ensures
        project_branches::<R>(bs).len() == bs.len(),
        forall|i: int|
            0 <= i < bs.len() ==> #[trigger] project_branches::<R>(bs)[i] == (
                bs[i].0,
                projection::<R>(bs[i].1),
            ),
    decreases bs.len(),
{
    if bs.len() > 0 {
        lemma_project_branches::<R>(bs.subrange(0, bs.len() - 1));
    }
}

/// Checks if a local protocol contains any meaningful interactions for a
/// role: a send, receive, select or offer.
fn contains_meaningful_interactions<R: Role + RoleExt, M: Clone>(
    protocol: &LocalProtocol<R, M>,
) -> (r: bool)
    ensures
        r == meaningful(protocol@),
    decreases protocol,
{
    match protocol {
        LocalProtocol::Send { .. } | LocalProtocol::Receive { .. } | LocalProtocol::Select { .. }
        | LocalProtocol::Offer { .. } => true,
        LocalProtocol::Rec { body, .. } => contains_meaningful_interactions(&**body),
        LocalProtocol::Var { .. } | LocalProtocol::End { .. } => false,
    }
}

/// Projects every branch of a choice onto role `R`.
fn project_branch_vec<R: Role + RoleExt, M: Clone>(
    g: &GlobalInteraction<M>,
    branches: &Vec<(Label, Box<GlobalInteraction<M>>)>,
) -> (r: Vec<(Label, Box<LocalProtocol<R, M>>)>)
    requires
        g matches GlobalInteraction::Choice { branches: bs, .. } && bs == *branches,
    ensures
        local_branches_view(r@) == project_branches::<R>(global_branches_view(branches@)),
    decreases g, 0nat,
{
    let ghost gview = global_branches_view(branches@);
    proof {
        lemma_global_branches_view(branches@);
        lemma_project_branches::<R>(gview);
    }
    let mut out: Vec<(Label, Box<LocalProtocol<R, M>>)> = Vec::new();
    let mut i: usize = 0;
    while i < branches.len()
        invariant
            i <= branches.len(),
            g matches GlobalInteraction::Choice { branches: bs, .. } && bs == *branches,
            gview == global_branches_view(branches@),
            gview.len() == branches@.len(),
            forall|j: int|
                0 <= j < branches@.len() ==> #[trigger] gview[j] == (
                    branches@[j].0@,
                    global_view(*branches@[j].1),
                ),
            project_branches::<R>(gview).len() == gview.len(),
            forall|j: int|
                0 <= j < gview.len() ==> #[trigger] project_branches::<R>(gview)[j] == (
                    gview[j].0,
                    projection::<R>(gview[j].1),
                ),
            out@.len() == i,
            forall|j: int|
                0 <= j < i ==> #[trigger] out@[j].0@ == branches@[j].0@ && local_view(*out@[j].1)
                    == projection::<R>(global_view(*branches@[j].1)),
        decreases branches.len() - i,
    {
        let projected = project_ref::<R, M>(&*branches[i].1);
        let ghost k = i as int;
        out.push((branches[i].0.clone(), Box::new(projected)));
        assert(out@[k].0@ == branches@[k].0@);
        i = i + 1;
    }
    proof {
        lemma_local_branches_view(out@);
        assert(local_branches_view(out@) =~= project_branches::<R>(gview));
    }
    out
}

/// Projects a global protocol onto role `R`.
fn project_ref<R: Role + RoleExt, M: Clone>(g: &GlobalInteraction<M>) -> (r: LocalProtocol<R, M>)
    ensures
        r@ == projection::<R>(g@),
    decreases g, 1nat,
{
    match g {
        GlobalInteraction::Message { from, to, cont, .. } => {
            if R::is_role(from) {
                LocalProtocol::Send {
                    to: to.clone(),
                    msg: PhantomData,
                    cont: Box::new(project_ref::<R, M>(&**cont)),
                    _role: PhantomData,
                }
            } else if R::is_role(to) {
                LocalProtocol::Receive {
                    from: from.clone(),
                    msg: PhantomData,
                    cont: Box::new(project_ref::<R, M>(&**cont)),
                    _role: PhantomData,
                }
            } else {
                project_ref::<R, M>(&**cont)
            }
        },
        GlobalInteraction::End => LocalProtocol::End { _role: PhantomData },
        GlobalInteraction::Choice { decider, branches } => {
            let projected = project_branch_vec::<R, M>(g, branches);
            if R::is_role(decider) {
                LocalProtocol::Select { branches: projected, _role: PhantomData }
            } else {
                LocalProtocol::Offer { decider: decider.clone(), branches: projected, _role: PhantomData }
            }
        },
        GlobalInteraction::Rec { label, body } => {
            let projected_body = project_ref::<R, M>(&**body);
            if contains_meaningful_interactions(&projected_body) {
                LocalProtocol::Rec {
                    label: label.clone(),
                    body: Box::new(projected_body),
                    _role: PhantomData,
                }
            } else {
                LocalProtocol::End { _role: PhantomData }
            }
        },
        GlobalInteraction::Var { label } => LocalProtocol::Var {
            label: label.clone(),
            _role: PhantomData,
        },
    }
}

/// Trait for projecting a global protocol to a role-specific local protocol.
pub trait Project<R: Role, M: Clone = ()> {
    /// The resulting local protocol type after projection
    type Output;

    /// Whether `out` is the projection of `self` onto role `R`.
    spec fn is_projection(self, out: Self::Output) -> bool;

    /// Project this global protocol to a local protocol for role R
    fn project(self) -> (r: Self::Output)
        ensures
            self.is_projection(r),
    ;
}

impl<R: Role + RoleExt, M: Clone> Project<R, M> for GlobalInteraction<M> {
    type Output = LocalProtocol<R, M>;

    open spec fn is_projection(self, out: LocalProtocol<R, M>) -> bool {
        out@ == projection::<R>(self@)
    }

    fn project(self) -> (r: Self::Output) {
        project_ref::<R, M>(&self)
    }
}

/// Projects a global protocol for a specific role.
pub fn project_for_role<R: Role + RoleExt, M: Clone>(global: GlobalInteraction<M>) -> (r:
    LocalProtocol<R, M>)
    ensures
        r@ == projection::<R>(global@),
{
    <GlobalInteraction<M> as Project<R, M>>::project(global)
}

} // verus!

verus! {

/// `End` projects to `End` for every role.
pub proof fn law_end_projects_to_end<R: RoleExt>()
    ensures
        projection::<R>(GlobalType::End) == LocalType::End,
{
}

/// A message projects to a send for its sender, to a receive for its
/// receiver, and is skipped by every other role.
pub proof fn law_message_projection<R: RoleExt>(from: Seq<char>, to: Seq<char>, cont: GlobalType)
    ensures
        ({
            let p = projection::<R>(GlobalType::Message { from, to, cont: Box::new(cont) });
            &&& R::answers_to(from) ==> p == LocalType::Send {
                to,
                cont: Box::new(projection::<R>(cont)),
            }
            &&& !R::answers_to(from) && R::answers_to(to) ==> p == LocalType::Receive {
                from,
                cont: Box::new(projection::<R>(cont)),
            }
            &&& !R::answers_to(from) && !R::answers_to(to) ==> p == projection::<R>(cont)
        }),
{
}

/// A choice projects to a select for the deciding role and to an offer for
/// every other role, with the same labels in the same order, each branch
/// projected in turn.
pub proof fn law_choice_keeps_labels<R: RoleExt>(
    decider: Seq<char>,
    branches: Seq<(Seq<char>, GlobalType)>,
)
    ensures
        ({
            let p = projection::<R>(GlobalType::Choice { decider, branches });
            let local_branches = match p {
                LocalType::Select { branches } => branches,
                LocalType::Offer { branches, .. } => branches,
                _ => Seq::empty(),
            };
            &&& R::answers_to(decider) ==> p is Select
            &&& !R::answers_to(decider) ==> p == LocalType::Offer {
                decider,
                branches: local_branches,
            }
            &&& local_branches.len() == branches.len()
            &&& forall|i: int|
                0 <= i < branches.len() ==> #[trigger] local_branches[i] == (
                    branches[i].0,
                    projection::<R>(branches[i].1),
                )
        }),
{
    lemma_project_branches::<R>(branches);
}

/// A recursion point is kept when the projection of its body holds a send,
/// receive, select or offer, and is pruned to `End` otherwise.
pub proof fn law_recursion_pruning<R: RoleExt>(label: Seq<char>, body: GlobalType)
    ensures
        meaningful(projection::<R>(body)) ==> projection::<R>(
            (GlobalType::Rec { label, body: Box::new(body) }),
        ) == (LocalType::Rec { label, body: Box::new(projection::<R>(body)) }),
        !meaningful(projection::<R>(body)) ==> projection::<R>(
            (GlobalType::Rec { label, body: Box::new(body) }),
        ) == LocalType::End,
{
}

/// A projected recursion point always holds an interaction: projection
/// gives `Rec` only around a body that holds one.
proof fn lemma_projected_rec_interacts<R: RoleExt>(g: GlobalType)
    ensures
        projection::<R>(g) is Rec ==> meaningful(projection::<R>(g)),
    decreases g,
{
    match g {
        GlobalType::Message { from, to, cont } => {
            lemma_projected_rec_interacts::<R>(*cont);
        },
        GlobalType::Rec { label, body } => {
            lemma_projected_rec_interacts::<R>(*body);
        },
        _ => {},
    }
}

/// A recursion is kept for a role exactly when its projected body does not
/// end at once: if the body projects to `End` or to a `Var` (the role takes
/// no part before the loop ends or repeats), the recursion projects to `End`;
/// otherwise (the body starts with a send, a receive, a select, an offer or
/// a kept recursion) it projects to `Rec` around the projected body. In
/// particular a role that decides or is offered a choice inside the loop
/// keeps the loop.
pub proof fn law_recursion_kept_unless_body_ends<R: RoleExt>(label: Seq<char>, body: GlobalType)
    ensures
        (projection::<R>(body) is End || projection::<R>(body) is Var) ==> projection::<R>(
            (GlobalType::Rec { label, body: Box::new(body) }),
        ) == LocalType::End,
        !(projection::<R>(body) is End || projection::<R>(body) is Var) ==> projection::<R>(
            (GlobalType::Rec { label, body: Box::new(body) }),
        ) == (LocalType::Rec { label, body: Box::new(projection::<R>(body)) }),
{
    lemma_projected_rec_interacts::<R>(body);
}

/// Two local protocols are dual: each send meets a receive, each select an
/// offer with the same labels, and recursion points and variables agree.
pub open spec fn dual_local(a: LocalType, b: LocalType) -> bool
    decreases a,
{
    match a {
        LocalType::Send { cont: c1, .. } => match b {
            LocalType::Receive { cont: c2, .. } => dual_local(*c1, *c2),
            _ => false,
        },
        LocalType::Receive { cont: c1, .. } => match b {
            LocalType::Send { cont: c2, .. } => dual_local(*c1, *c2),
            _ => false,
        },
        LocalType::Select { branches: b1 } => match b {
            LocalType::Offer { branches: b2, .. } => dual_branches(b1, b2),
            _ => false,
        },
        LocalType::Offer { branches: b1, .. } => match b {
            LocalType::Select { branches: b2 } => dual_branches(b1, b2),
            _ => false,
        },
        LocalType::Rec { label: l1, body: x1 } => match b {
            LocalType::Rec { label: l2, body: x2 } => l1 == l2 && dual_local(*x1, *x2),
            _ => false,
        },
        LocalType::Var { label: l1 } => match b {
            LocalType::Var { label: l2 } => l1 == l2,
            _ => false,
        },
        LocalType::End => b == LocalType::End,
    }
}

/// Branch lists are dual: same length, same labels, dual continuations.
pub open spec fn dual_branches(
    b1: Seq<(Seq<char>, LocalType)>,
    b2: Seq<(Seq<char>, LocalType)>,
) -> bool
    decreases b1,
{
    if b1.len() == 0 {
        b2.len() == 0
    } else {
        &&& b2.len() == b1.len()
        &&& dual_branches(b1.subrange(0, b1.len() - 1), b2.subrange(0, b2.len() - 1))
        &&& b1[b1.len() - 1].0 == b2[b2.len() - 1].0
        &&& dual_local(b1[b1.len() - 1].1, b2[b2.len() - 1].1)
    }
}

/// Every interaction of `g` is between the client and the server: each
/// message goes from one to the other, and each choice is made by one of
/// them.
pub open spec fn client_server_only(g: GlobalType) -> bool
    decreases g,
{
    match g {
        GlobalType::Message { from, to, cont } => {
            &&& ((Client::answers_to(from) && Server::answers_to(to)) || (Server::answers_to(from)
                && Client::answers_to(to)))
            &&& client_server_only(*cont)
        },
        GlobalType::Choice { decider, branches } => {
            &&& (Client::answers_to(decider) || Server::answers_to(decider))
            &&& client_server_branches(branches)
        },
        GlobalType::Rec { body, .. } => client_server_only(*body),
        GlobalType::Var { .. } => true,
        GlobalType::End => true,
    }
}

/// Every branch is a client/server protocol.
pub open spec fn client_server_branches(bs: Seq<(Seq<char>, GlobalType)>) -> bool
    decreases bs,
{
    bs.len() == 0 || (client_server_branches(bs.subrange(0, bs.len() - 1))
        && client_server_only(bs[bs.len() - 1].1))
}

/// No name answers to both the client and the server.
proof fn lemma_client_server_exclusive(name: Seq<char>)
    ensures
        !(Client::answers_to(name) && Server::answers_to(name)),
{
    reveal_strlit("client");
    reveal_strlit("server");
    if Client::answers_to(name) && Server::answers_to(name) {
        assert("client"@[0] != "server"@[0]);
    }
}

/// Dual local protocols agree on whether they hold a real interaction.
proof fn lemma_dual_meaningful(a: LocalType, b: LocalType)
    requires
        dual_local(a, b),
    ensures
        meaningful(a) == meaningful(b),
    decreases a,
{
    if let LocalType::Rec { body: x1, .. } = a {
        if let LocalType::Rec { body: x2, .. } = b {
            lemma_dual_meaningful(*x1, *x2);
        }
    }
}

/// For a protocol between the client and the server only, the projections
/// onto the two roles are dual: what one sends the other receives, what one
/// selects the other is offered.
pub proof fn law_client_server_projections_are_dual(g: GlobalType)
    requires
        client_server_only(g),
    ensures
        dual_local(projection::<Client>(g), projection::<Server>(g)),
    decreases g, 1nat, 0nat,
{
    match g {
        GlobalType::Message { from, to, cont } => {
            lemma_client_server_exclusive(from);
            lemma_client_server_exclusive(to);
            law_client_server_projections_are_dual(*cont);
        },
        GlobalType::Choice { decider, branches } => {
            lemma_client_server_exclusive(decider);
            assert(branches.subrange(0, branches.len() as int) =~= branches);
            lemma_branches_dual(g, branches);
        },
        GlobalType::Rec { label, body } => {
            law_client_server_projections_are_dual(*body);
            lemma_dual_meaningful(projection::<Client>(*body), projection::<Server>(*body));
        },
        _ => {},
    }
}

/// The branch projections of a prefix of the branches of a client/server
/// choice are dual.
proof fn lemma_branches_dual(g: GlobalType, bs: Seq<(Seq<char>, GlobalType)>)
    requires
        g matches GlobalType::Choice { branches, .. } && bs.len() <= branches.len() && bs
            == branches.subrange(0, bs.len() as int),
        client_server_branches(bs),
    ensures
        dual_branches(project_branches::<Client>(bs), project_branches::<Server>(bs)),
    decreases g, 0nat, bs.len(),
{
    if bs.len() > 0 {
        let n = bs.len() - 1;
        let prefix = bs.subrange(0, n);
        let branches = g->branches;
        assert(prefix =~= branches.subrange(0, n));
        lemma_branches_dual(g, prefix);
        assert(bs[n] == branches[n]);
        assert(decreases_to!(g => branches));
        assert(decreases_to!(branches => branches[n]));
        assert(decreases_to!(branches[n] => branches[n].1));
        law_client_server_projections_are_dual(bs[n].1);
        lemma_project_branches::<Client>(bs);
        lemma_project_branches::<Server>(bs);
        lemma_project_branches::<Client>(prefix);
        lemma_project_branches::<Server>(prefix);
        assert(project_branches::<Client>(bs).subrange(0, n) =~= project_branches::<Client>(
            prefix,
        ));
        assert(project_branches::<Server>(bs).subrange(0, n) =~= project_branches::<Server>(
            prefix,
        ));
    }
}

} // verus!
