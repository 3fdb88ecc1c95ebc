//! Global protocol types for multiparty session types.
//!
//! A global protocol describes the interactions among all roles from a
//! neutral point of view. In contracts each global protocol is seen through
//! its name, whether it is well structured (and, if not, the message it is
//! refused with), and the names of the roles it involves.

use vstd::prelude::*;
use std::marker::PhantomData;
use super::roles::Role;
use super::projection::Project;
use crate::error::{Error, ErrorView, Result};
use crate::names::{names, sorted_names, sort_names, text_equal};

verus! {

broadcast use vstd::std_specs::vec::group_vec_axioms;

/// A global protocol: the interactions among all participating roles.
pub trait GlobalProtocol {
    /// The name of the protocol type.
    spec fn name_of(&self) -> Seq<char>;

    /// Whether the protocol is well structured.
    spec fn well_structured(&self) -> bool;

    /// The message a protocol that is not well structured is refused with.
    spec fn structure_error(&self) -> Seq<char>;

    /// The names of the roles involved, in the order `involved_roles` gives.
    spec fn role_names(&self) -> Seq<Seq<char>>;

    /// Returns a string representation of the protocol type.
    fn protocol_name(&self) -> (r: &'static str)
        ensures
            r@ == self.name_of(),
    ;

    /// Validates the protocol structure.
    fn validate(&self) -> (r: Result<()>)
        ensures
            r is Ok <==> self.well_structured(),
            r matches Err(e) ==> e@ == ErrorView::InvalidProtocolStructure(self.structure_error()),
    ;

    /// Returns the roles involved in this protocol.
    fn involved_roles(&self) -> (r: Vec<&'static str>)
        ensures
            names(r@) == self.role_names(),
    ;
}

/// A message of type `T` sent from role `From` to role `To`, followed by
/// `Next`.
pub struct GSend<T, From: Role, To: Role, Next>(PhantomData<(T, From, To, Next)>);

/// The projection of a message step onto one role: that role sends it, or
/// receives it.
pub enum ProjectedSendRecv<T, Next> {
    /// The projecting role is the sender.
    Send(PhantomData<(T, Next)>),
    /// The projecting role is the receiver.
    Recv(PhantomData<(T, Next)>),
}

/// Whether a projection of a message step from `from` to `to` onto the role
/// named `role` is right: the sender sends, otherwise the receiver receives,
/// and any other role is refused with its own name.
pub open spec fn projects_message_step<T, N>(
    role: Seq<char>,
    from: Seq<char>,
    to: Seq<char>,
    r: Result<ProjectedSendRecv<T, N>>,
) -> bool {
    if role == from {
        r matches Ok(ProjectedSendRecv::Send(_))
    } else if role == to {
        r matches Ok(ProjectedSendRecv::Recv(_))
    } else {
        r matches Err(e) && e@ == ErrorView::UnknownRole(role)
    }
}

/// Projects a message step from `From` to `To` onto role `R`.
fn project_message_step<T, From: Role, To: Role, N, R: Role>() -> (r: Result<
    ProjectedSendRecv<T, N>,
>)
    ensures
        projects_message_step(R::role_name(), From::role_name(), To::role_name(), r),
{
    let r_instance = R::default();
    let from_instance = From::default();
    let to_instance = To::default();
    if text_equal(r_instance.name(), from_instance.name()) {
        Ok(ProjectedSendRecv::Send(PhantomData))
    } else if text_equal(r_instance.name(), to_instance.name()) {
        Ok(ProjectedSendRecv::Recv(PhantomData))
    } else {
        Err(Error::UnknownRole(r_instance.name()))
    }
}

/// Checks that sender and receiver of a message step differ.
fn validate_message_step<From: Role, To: Role>(message: &'static str) -> (r: Result<()>)
    ensures
        r is Ok <==> From::role_name() != To::role_name(),
        r matches Err(e) ==> e@ == ErrorView::InvalidProtocolStructure(message@),
{
    let from_instance = From::default();
    let to_instance = To::default();
    if text_equal(from_instance.name(), to_instance.name()) {
        return Err(Error::InvalidProtocolStructure(message));
    }
    Ok(())
}

/// The names of the roles of a message step: the sender, then the receiver
/// unless it has the sender's name (each name once).
pub open spec fn message_step_role_names(from: Seq<char>, to: Seq<char>) -> Seq<Seq<char>> {
    if from == to {
        seq![from]
    } else {
        seq![from, to]
    }
}

/// The distinct roles of a message step: the sender, then the receiver
/// unless it has the sender's name.
fn message_step_roles<From: Role, To: Role>() -> (r: Vec<&'static str>)
    ensures
        names(r@) == message_step_role_names(From::role_name(), To::role_name()),
{
    let from_instance = From::default();
    let to_instance = To::default();
    let mut roles = vec![from_instance.name()];
    if !text_equal(from_instance.name(), to_instance.name()) {
        roles.push(to_instance.name());
        assert(names(roles@) =~= seq![From::role_name(), To::role_name()]);
    } else {
        assert(names(roles@) =~= seq![From::role_name()]);
    }
    roles
}

impl<T, From: Role, To: Role, Next> GSend<T, From, To, Next> {
    /// Creates a new `GSend` protocol.
    pub fn new() -> (r: Self) {
        GSend(PhantomData)
    }

    /// Projects this step onto role `R`: `Send` for the sender, `Recv` for
    /// the receiver, and an `UnknownRole` error naming `R` for any other role.
    pub fn project_for_role<R: Role>() -> (r: Result<
        ProjectedSendRecv<T, <Next as Project<R>>::LocalProtocol>,
    >) where Next: Project<R>
        ensures
            projects_message_step(R::role_name(), From::role_name(), To::role_name(), r),
    {
        project_message_step::<T, From, To, <Next as Project<R>>::LocalProtocol, R>()
    }
}

impl<T, From: Role, To: Role, Next: GlobalProtocol> GlobalProtocol for GSend<T, From, To, Next> {
    open spec fn name_of(&self) -> Seq<char> {
        "GSend"@
    }

    open spec fn well_structured(&self) -> bool {
        From::role_name() != To::role_name()
    }

    open spec fn structure_error(&self) -> Seq<char> {
        "Sender and receiver must be different roles in GSend"@
    }

    open spec fn role_names(&self) -> Seq<Seq<char>> {
        message_step_role_names(From::role_name(), To::role_name())
    }

    fn protocol_name(&self) -> (r: &'static str) {
        "GSend"
    }

    fn validate(&self) -> (r: Result<()>) {
        validate_message_step::<From, To>("Sender and receiver must be different roles in GSend")
    }

    fn involved_roles(&self) -> (r: Vec<&'static str>) {
        message_step_roles::<From, To>()
    }
}

/// A message of type `T` received by role `To` from role `From`, followed by
/// `Next`.
pub struct GRecv<T, From: Role, To: Role, Next>(PhantomData<(T, From, To, Next)>);

impl<T, From: Role, To: Role, Next> GRecv<T, From, To, Next> {
    /// Creates a new `GRecv` protocol.
    pub fn new() -> (r: Self) {
        GRecv(PhantomData)
    }

    /// Projects this step onto role `R`: `Send` for the sender, `Recv` for
    /// the receiver, and an `UnknownRole` error naming `R` for any other role.
    pub fn project_for_role<R: Role>() -> (r: Result<
        ProjectedSendRecv<T, <Next as Project<R>>::LocalProtocol>,
    >) where Next: Project<R>
        ensures
            projects_message_step(R::role_name(), From::role_name(), To::role_name(), r),
    {
        project_message_step::<T, From, To, <Next as Project<R>>::LocalProtocol, R>()
    }
}

impl<T, From: Role, To: Role, Next: GlobalProtocol> GlobalProtocol for GRecv<T, From, To, Next> {
    open spec fn name_of(&self) -> Seq<char> {
        "GRecv"@
    }

    open spec fn well_structured(&self) -> bool {
        From::role_name() != To::role_name()
    }

    open spec fn structure_error(&self) -> Seq<char> {
        "Sender and receiver must be different roles in GRecv"@
    }

    open spec fn role_names(&self) -> Seq<Seq<char>> {
        message_step_role_names(From::role_name(), To::role_name())
    }

    fn protocol_name(&self) -> (r: &'static str) {
        "GRecv"
    }

    fn validate(&self) -> (r: Result<()>) {
        validate_message_step::<From, To>("Sender and receiver must be different roles in GRecv")
    }

    fn involved_roles(&self) -> (r: Vec<&'static str>) {
        message_step_roles::<From, To>()
    }
}

/// The branches of a choice or an offer.
pub trait GlobalProtocolBranches {
    /// Whether every branch is well structured.
    spec fn branches_well_structured(&self) -> bool;

    /// The message of the first branch that is not well structured.
    spec fn branches_error(&self) -> Seq<char>;

    /// The names of the roles the branches involve, in the order
    /// `involved_roles_in_branches` gives.
    spec fn branch_role_names(&self) -> Seq<Seq<char>>;

    /// Validates all branches.
    fn validate_branches(&self) -> (r: Result<()>)
        ensures
            r is Ok <==> self.branches_well_structured(),
            r matches Err(e) ==> e@ == ErrorView::InvalidProtocolStructure(self.branches_error()),
    ;

    /// Returns the roles involved in the branches.
    fn involved_roles_in_branches(&self) -> (r: Vec<&'static str>)
        ensures
            names(r@) == self.branch_role_names(),
    ;
}

/// A choice or an offer with no branches is not well structured.
impl GlobalProtocolBranches for () {
    open spec fn branches_well_structured(&self) -> bool {
        false
    }

    open spec fn branches_error(&self) -> Seq<char> {
        "A choice or offer must have at least one branch"@
    }

    open spec fn branch_role_names(&self) -> Seq<Seq<char>> {
        Seq::empty()
    }

    fn validate_branches(&self) -> (r: Result<()>) {
        Err(Error::InvalidProtocolStructure("A choice or offer must have at least one branch"))
    }

    fn involved_roles_in_branches(&self) -> (r: Vec<&'static str>) {
        let r: Vec<&'static str> = Vec::new();
        assert(names(r@) =~= Seq::empty());
        r
    }
}

impl<G: GlobalProtocol> GlobalProtocolBranches for (G,) {
    open spec fn branches_well_structured(&self) -> bool {
        self.0.well_structured()
    }

    open spec fn branches_error(&self) -> Seq<char> {
        self.0.structure_error()
    }

    open spec fn branch_role_names(&self) -> Seq<Seq<char>> {
        self.0.role_names()
    }

    fn validate_branches(&self) -> (r: Result<()>) {
        self.0.validate()
    }

    fn involved_roles_in_branches(&self) -> (r: Vec<&'static str>) {
        self.0.involved_roles()
    }
}

impl<G1: GlobalProtocol, G2: GlobalProtocol> GlobalProtocolBranches for (G1, G2) {
    open spec fn branches_well_structured(&self) -> bool {
        self.0.well_structured() && self.1.well_structured()
    }

    open spec fn branches_error(&self) -> Seq<char> {
        if !self.0.well_structured() {
            self.0.structure_error()
        } else {
            self.1.structure_error()
        }
    }

    open spec fn branch_role_names(&self) -> Seq<Seq<char>> {
        sorted_names(self.0.role_names() + self.1.role_names())
    }

    fn validate_branches(&self) -> (r: Result<()>) {
        match self.0.validate() {
            Ok(()) => {},
            Err(e) => {
                return Err(e);
            },
        }
        match self.1.validate() {
            Ok(()) => {},
            Err(e) => {
                return Err(e);
            },
        }
        Ok(())
    }

    fn involved_roles_in_branches(&self) -> (r: Vec<&'static str>) {
        let mut roles = self.0.involved_roles();
        let mut more = self.1.involved_roles();
        let ghost first = roles@;
        let ghost second = more@;
        roles.append(&mut more);
        assert(names(roles@) =~= names(first) + names(second));
        sort_names(roles)
    }
}

/// The roles of a choice or an offer: the deciding role and the roles of the
/// branches, sorted, each once.
fn branching_roles<D: Role, B: GlobalProtocolBranches>(branches: &B) -> (r: Vec<&'static str>)
    ensures
        names(r@) == sorted_names(seq![D::role_name()] + branches.branch_role_names()),
{
    let decider = D::default();
    let mut roles = vec![decider.name()];
    let mut branch_roles = branches.involved_roles_in_branches();
    let ghost first = roles@;
    let ghost second = branch_roles@;
    roles.append(&mut branch_roles);
    assert(names(first) =~= seq![D::role_name()]);
    assert(names(roles@) =~= names(first) + names(second));
    sort_names(roles)
}

/// A choice made by role `Chooser` between the protocols of `Branches`.
pub struct GChoice<Chooser: Role, Branches>(pub Branches, PhantomData<Chooser>);

impl<Chooser: Role, Branches> GChoice<Chooser, Branches> {
    /// Creates a new `GChoice` protocol with the given branches.
    pub fn new(branches: Branches) -> (r: Self)
        ensures
            r.branches() == branches,
    {
        GChoice(branches, PhantomData)
    }

    /// The branches.
    pub closed spec fn branches(self) -> Branches {
        self.0
    }
}

impl<Chooser: Role, Branches: GlobalProtocolBranches> GlobalProtocol for GChoice<
    Chooser,
    Branches,
> {
    open spec fn name_of(&self) -> Seq<char> {
        "GChoice"@
    }

    open spec fn well_structured(&self) -> bool {
        self.branches().branches_well_structured()
    }

    open spec fn structure_error(&self) -> Seq<char> {
        self.branches().branches_error()
    }

    open spec fn role_names(&self) -> Seq<Seq<char>> {
        sorted_names(seq![Chooser::role_name()] + self.branches().branch_role_names())
    }

    fn protocol_name(&self) -> (r: &'static str) {
        "GChoice"
    }

    fn validate(&self) -> (r: Result<()>) {
        self.0.validate_branches()
    }

    fn involved_roles(&self) -> (r: Vec<&'static str>) {
        branching_roles::<Chooser, Branches>(&self.0)
    }
}

/// An offer received by role `Offeree` between the protocols of `Branches`.
pub struct GOffer<Offeree: Role, Branches>(pub Branches, PhantomData<Offeree>);

impl<Offeree: Role, Branches> GOffer<Offeree, Branches> {
    /// Creates a new `GOffer` protocol with the given branches.
    pub fn new(branches: Branches) -> (r: Self)
        ensures
            r.branches() == branches,
    {
        GOffer(branches, PhantomData)
    }

    /// The branches.
    pub closed spec fn branches(self) -> Branches {
        self.0
    }
}

impl<Offeree: Role, Branches: GlobalProtocolBranches> GlobalProtocol for GOffer<
    Offeree,
    Branches,
> {
    open spec fn name_of(&self) -> Seq<char> {
        "GOffer"@
    }

    open spec fn well_structured(&self) -> bool {
        self.branches().branches_well_structured()
    }

    open spec fn structure_error(&self) -> Seq<char> {
        self.branches().branches_error()
    }

    open spec fn role_names(&self) -> Seq<Seq<char>> {
        sorted_names(seq![Offeree::role_name()] + self.branches().branch_role_names())
    }

    fn protocol_name(&self) -> (r: &'static str) {
        "GOffer"
    }

    fn validate(&self) -> (r: Result<()>) {
        self.0.validate_branches()
    }

    fn involved_roles(&self) -> (r: Vec<&'static str>) {
        branching_roles::<Offeree, Branches>(&self.0)
    }
}

/// A recursive global protocol with label `Label` and body `Protocol`.
pub struct GRec<Label, Protocol>(PhantomData<(Label, Protocol)>);

impl<Label, Protocol> GRec<Label, Protocol> {
    /// Creates a new `GRec` protocol.
    pub fn new() -> (r: Self) {
        GRec(PhantomData)
    }

    /// The body of the recursion as a value: a `GRec` holds none.
    pub fn inner_protocol(&self) -> (r: Option<&Protocol>)
        ensures
            r is None,
    {
        None
    }
}

impl<Label, Protocol: GlobalProtocol> GlobalProtocol for GRec<Label, Protocol> {
    open spec fn name_of(&self) -> Seq<char> {
        "GRec"@
    }

    open spec fn well_structured(&self) -> bool {
        true
    }

    open spec fn structure_error(&self) -> Seq<char> {
        Seq::empty()
    }

    open spec fn role_names(&self) -> Seq<Seq<char>> {
        Seq::empty()
    }

    fn protocol_name(&self) -> (r: &'static str) {
        "GRec"
    }

    fn validate(&self) -> (r: Result<()>) {
        Ok(())
    }

    fn involved_roles(&self) -> (r: Vec<&'static str>) {
        no_roles()
    }
}

/// An empty list of roles.
fn no_roles() -> (r: Vec<&'static str>)
    ensures
        names(r@) == Seq::<Seq<char>>::empty(),
{
    let r: Vec<&'static str> = Vec::new();
    assert(names(r@) =~= Seq::empty());
    r
}

/// A reference to the enclosing recursion with label `Label`.
pub struct GVar<Label>(PhantomData<Label>);

impl<Label> GVar<Label> {
    /// Creates a new `GVar` protocol.
    pub fn new() -> (r: Self) {
        GVar(PhantomData)
    }
}

impl<Label> GlobalProtocol for GVar<Label> {
    open spec fn name_of(&self) -> Seq<char> {
        "GVar"@
    }

    open spec fn well_structured(&self) -> bool {
        true
    }

    open spec fn structure_error(&self) -> Seq<char> {
        Seq::empty()
    }

    open spec fn role_names(&self) -> Seq<Seq<char>> {
        Seq::empty()
    }

    fn protocol_name(&self) -> (r: &'static str) {
        "GVar"
    }

    fn validate(&self) -> (r: Result<()>) {
        Ok(())
    }

    fn involved_roles(&self) -> (r: Vec<&'static str>) {
        no_roles()
    }
}

/// Sequential composition of two protocols.
pub struct GSeq<First, Second>(PhantomData<(First, Second)>);

impl<First, Second> GSeq<First, Second> {
    /// Creates a new `GSeq` protocol.
    pub fn new() -> (r: Self) {
        GSeq(PhantomData)
    }
}

impl<First: GlobalProtocol, Second: GlobalProtocol> GlobalProtocol for GSeq<First, Second> {
    open spec fn name_of(&self) -> Seq<char> {
        "GSeq"@
    }

    open spec fn well_structured(&self) -> bool {
        true
    }

    open spec fn structure_error(&self) -> Seq<char> {
        Seq::empty()
    }

    open spec fn role_names(&self) -> Seq<Seq<char>> {
        Seq::empty()
    }

    fn protocol_name(&self) -> (r: &'static str) {
        "GSeq"
    }

    fn validate(&self) -> (r: Result<()>) {
        Ok(())
    }

    fn involved_roles(&self) -> (r: Vec<&'static str>) {
        no_roles()
    }
}

/// Parallel composition of two protocols.
pub struct GPar<First, Second>(PhantomData<(First, Second)>);

impl<First, Second> GPar<First, Second> {
    /// Creates a new `GPar` protocol.
    pub fn new() -> (r: Self) {
        GPar(PhantomData)
    }
}

impl<First: GlobalProtocol, Second: GlobalProtocol> GlobalProtocol for GPar<First, Second> {
    open spec fn name_of(&self) -> Seq<char> {
        "GPar"@
    }

    open spec fn well_structured(&self) -> bool {
        true
    }

    open spec fn structure_error(&self) -> Seq<char> {
        Seq::empty()
    }

    open spec fn role_names(&self) -> Seq<Seq<char>> {
        Seq::empty()
    }

    fn protocol_name(&self) -> (r: &'static str) {
        "GPar"
    }

    fn validate(&self) -> (r: Result<()>) {
        Ok(())
    }

    fn involved_roles(&self) -> (r: Vec<&'static str>) {
        no_roles()
    }
}

/// The end of a global protocol path.
pub struct GEnd;

impl Default for GEnd {
    fn default() -> (r: Self) {
        GEnd
    }
}

impl GEnd {
    /// Creates a new `GEnd` protocol.
    pub fn new() -> (r: Self) {
        GEnd
    }
}

impl GlobalProtocol for GEnd {
    open spec fn name_of(&self) -> Seq<char> {
        "GEnd"@
    }

    open spec fn well_structured(&self) -> bool {
        true
    }

    open spec fn structure_error(&self) -> Seq<char> {
        Seq::empty()
    }

    open spec fn role_names(&self) -> Seq<Seq<char>> {
        Seq::empty()
    }

    fn protocol_name(&self) -> (r: &'static str) {
        "GEnd"
    }

    fn validate(&self) -> (r: Result<()>) {
        Ok(())
    }

    fn involved_roles(&self) -> (r: Vec<&'static str>) {
        no_roles()
    }
}

/// A builder for global protocols.
pub struct GlobalProtocolBuilder;

impl GlobalProtocolBuilder {
    /// Creates a new builder.
    pub fn new() -> (r: Self) {
        GlobalProtocolBuilder
    }

    /// Builds a message step from `From` to `To`.
    pub fn send<T, From: Role, To: Role, Next: GlobalProtocol>(&self) -> (r: GSend<
        T,
        From,
        To,
        Next,
    >) {
        GSend::new()
    }

    /// Builds a receive step of `To` from `From`.
    pub fn recv<T, From: Role, To: Role, Next: GlobalProtocol>(&self) -> (r: GRecv<
        T,
        From,
        To,
        Next,
    >) {
        GRecv::new()
    }

    /// Builds a choice by `Chooser` among the given branches.
    pub fn choice<Chooser: Role, Branches: GlobalProtocolBranches>(&self, branches: Branches) -> (r:
        GChoice<Chooser, Branches>)
        ensures
            r.branches() == branches,
    {
        GChoice::new(branches)
    }

    /// Builds an offer to `Offeree` among the given branches.
    pub fn offer<Offeree: Role, Branches: GlobalProtocolBranches>(&self, branches: Branches) -> (r:
        GOffer<Offeree, Branches>)
        ensures
            r.branches() == branches,
    {
        GOffer::new(branches)
    }

    /// Builds a recursion.
    pub fn rec<Label, Protocol: GlobalProtocol>(&self) -> (r: GRec<Label, Protocol>) {
        GRec::new()
    }

    /// Builds a reference to a recursion.
    pub fn var<Label>(&self) -> (r: GVar<Label>) {
        GVar::new()
    }

    /// Builds the end of a protocol.
    pub fn end(&self) -> (r: GEnd) {
        GEnd::new()
    }

    /// Composes two protocols in sequence (the values only fix the types).
    pub fn seq<First: GlobalProtocol, Second: GlobalProtocol>(
        &self,
        _first: First,
        _second: Second,
    ) -> (r: GSeq<First, Second>) {
        GSeq::new()
    }

    /// Composes two protocols in parallel (the values only fix the types).
    pub fn par<First: GlobalProtocol, Second: GlobalProtocol>(
        &self,
        _first: First,
        _second: Second,
    ) -> (r: GPar<First, Second>) {
        GPar::new()
    }
}

/// Validates a global protocol.
pub fn validate_global_protocol<G: GlobalProtocol>(protocol: &G) -> (r: Result<()>)
    ensures
        r is Ok <==> protocol.well_structured(),
        r matches Err(e) ==> e@ == ErrorView::InvalidProtocolStructure(protocol.structure_error()),
{
    protocol.validate()
}

} // verus!
