//! Common structures for multiparty session types: runtime names for roles,
//! branch labels and recursion labels, and participants that pair a role type
//! with its runtime name.

use vstd::prelude::*;
use std::marker::PhantomData;
use crate::types::roles::Role;

verus! {

/// A runtime identifier for a protocol role.
///
/// Role types give compile-time identity; a `RoleIdentifier` names a role at
/// runtime.
#[derive(Debug, Eq, Hash)]
pub struct RoleIdentifier(pub String);

impl View for RoleIdentifier {
    type V = Seq<char>;

    open spec fn view(&self) -> Seq<char> {
        self.0@
    }
}

impl RoleIdentifier {
    /// Creates a new role identifier with the given name.
    pub fn new(name: &str) -> (r: Self)
        ensures
            r@ == name@,
    {
        RoleIdentifier(name.to_string())
    }

    /// Returns the name of this role identifier as a string slice.
    pub fn name(&self) -> (r: &str)
        ensures
            r@ == self@,
    {
        self.0.as_str()
    }

    /// Returns the text that this role identifier displays as: its name.
    pub fn to_display_string(&self) -> (r: String)
        ensures
            r@ == self@,
    {
        self.0.clone()
    }
}

impl Clone for RoleIdentifier {
    fn clone(&self) -> (r: Self)
        ensures
            r == *self,
    {
        RoleIdentifier(self.0.clone())
    }
}

impl PartialEq for RoleIdentifier {
    fn eq(&self, other: &Self) -> (r: bool) {
        self.0 == other.0
    }
}

impl vstd::std_specs::cmp::PartialEqSpecImpl for RoleIdentifier {
    open spec fn obeys_eq_spec() -> bool {
        true
    }

    open spec fn eq_spec(&self, other: &Self) -> bool {
        self@ == other@
    }
}

impl From<String> for RoleIdentifier {
    fn from(name: String) -> (r: Self)
        ensures
            r@ == name@,
    {
        RoleIdentifier(name)
    }
}

impl vstd::std_specs::convert::FromSpecImpl<String> for RoleIdentifier {
    open spec fn obeys_from_spec() -> bool {
        true
    }

    open spec fn from_spec(name: String) -> Self {
        RoleIdentifier(name)
    }
}

impl From<&str> for RoleIdentifier {
    fn from(name: &str) -> (r: Self)
        ensures
            r@ == name@,
    {
        RoleIdentifier(name.to_string())
    }
}

impl vstd::std_specs::convert::FromSpecImpl<&str> for RoleIdentifier {
    /// A `String` is not determined by its characters in this model, so only
    /// the view of the result is promised, by the `ensures` of `from`.
    open spec fn obeys_from_spec() -> bool {
        false
    }

    open spec fn from_spec(name: &str) -> Self {
        RoleIdentifier(arbitrary())
    }
}

/// A label for protocol branches in choice constructs.
#[derive(Debug, Eq, Hash)]
pub struct Label(pub String);

impl View for Label {
    type V = Seq<char>;

    open spec fn view(&self) -> Seq<char> {
        self.0@
    }
}

impl Label {
    /// Creates a new label with the given name.
    pub fn new(name: &str) -> (r: Self)
        ensures
            r@ == name@,
    {
        Label(name.to_string())
    }

    /// Returns the name of this label as a string slice.
    pub fn name(&self) -> (r: &str)
        ensures
            r@ == self@,
    {
        self.0.as_str()
    }

    /// Returns the text that this label displays as: its name.
    pub fn to_display_string(&self) -> (r: String)
        ensures
            r@ == self@,
    {
        self.0.clone()
    }
}

impl Clone for Label {
    fn clone(&self) -> (r: Self)
        ensures
            r == *self,
    {
        Label(self.0.clone())
    }
}

impl PartialEq for Label {
    fn eq(&self, other: &Self) -> (r: bool) {
        self.0 == other.0
    }
}

impl vstd::std_specs::cmp::PartialEqSpecImpl for Label {
    open spec fn obeys_eq_spec() -> bool {
        true
    }

    open spec fn eq_spec(&self, other: &Self) -> bool {
        self@ == other@
    }
}

impl From<String> for Label {
    fn from(name: String) -> (r: Self)
        ensures
            r@ == name@,
    {
        Label(name)
    }
}

impl vstd::std_specs::convert::FromSpecImpl<String> for Label {
    open spec fn obeys_from_spec() -> bool {
        true
    }

    open spec fn from_spec(name: String) -> Self {
        Label(name)
    }
}

impl From<&str> for Label {
    fn from(name: &str) -> (r: Self)
        ensures
            r@ == name@,
    {
        Label(name.to_string())
    }
}

impl vstd::std_specs::convert::FromSpecImpl<&str> for Label {
    /// A `String` is not determined by its characters in this model, so only
    /// the view of the result is promised, by the `ensures` of `from`.
    open spec fn obeys_from_spec() -> bool {
        false
    }

    open spec fn from_spec(name: &str) -> Self {
        Label(arbitrary())
    }
}

/// A label for recursion points in recursive protocols.
#[derive(Debug, Eq, Hash)]
pub struct RecursionLabel(pub String);

impl View for RecursionLabel {
    type V = Seq<char>;

    open spec fn view(&self) -> Seq<char> {
        self.0@
    }
}

impl RecursionLabel {
    /// Creates a new recursion label with the given name.
    pub fn new(name: &str) -> (r: Self)
        ensures
            r@ == name@,
    {
        RecursionLabel(name.to_string())
    }

    /// Returns the name of this recursion label as a string slice.
    pub fn name(&self) -> (r: &str)
        ensures
            r@ == self@,
    {
        self.0.as_str()
    }

    /// Returns the text that this recursion label displays as: its name.
    pub fn to_display_string(&self) -> (r: String)
        ensures
            r@ == self@,
    {
        self.0.clone()
    }
}

impl Clone for RecursionLabel {
    fn clone(&self) -> (r: Self)
        ensures
            r == *self,
    {
        RecursionLabel(self.0.clone())
    }
}

impl PartialEq for RecursionLabel {
    fn eq(&self, other: &Self) -> (r: bool) {
        self.0 == other.0
    }
}

impl vstd::std_specs::cmp::PartialEqSpecImpl for RecursionLabel {
    open spec fn obeys_eq_spec() -> bool {
        true
    }

    open spec fn eq_spec(&self, other: &Self) -> bool {
        self@ == other@
    }
}

impl From<String> for RecursionLabel {
    fn from(name: String) -> (r: Self)
        ensures
            r@ == name@,
    {
        RecursionLabel(name)
    }
}

impl vstd::std_specs::convert::FromSpecImpl<String> for RecursionLabel {
    open spec fn obeys_from_spec() -> bool {
        true
    }

    open spec fn from_spec(name: String) -> Self {
        RecursionLabel(name)
    }
}

impl From<&str> for RecursionLabel {
    fn from(name: &str) -> (r: Self)
        ensures
            r@ == name@,
    {
        RecursionLabel(name.to_string())
    }
}

impl vstd::std_specs::convert::FromSpecImpl<&str> for RecursionLabel {
    /// A `String` is not determined by its characters in this model, so only
    /// the view of the result is promised, by the `ensures` of `from`.
    open spec fn obeys_from_spec() -> bool {
        false
    }

    open spec fn from_spec(name: &str) -> Self {
        RecursionLabel(arbitrary())
    }
}

/// Associates a runtime role identifier with a compile-time role type.
#[derive(Debug)]
pub struct Participant<R: Role> {
    /// The runtime identifier for this participant
    pub identifier: RoleIdentifier,
    /// Phantom data to associate with the compile-time role type
    _role: PhantomData<R>,
}

impl<R: Role> View for Participant<R> {
    type V = Seq<char>;

    /// A participant is seen as the name of its role.
    closed spec fn view(&self) -> Seq<char> {
        self.identifier@
    }
}

impl<R: Role> Participant<R> {
    /// Creates a new participant with the given role identifier.
    pub fn new(identifier: &str) -> (r: Self)
        ensures
            r@ == identifier@,
    {
        Participant { identifier: RoleIdentifier::new(identifier), _role: PhantomData }
    }

    /// Returns the role identifier for this participant.
    pub fn identifier(&self) -> (r: &RoleIdentifier)
        ensures
            r@ == self@,
    {
        &self.identifier
    }

    /// Returns the text that this participant displays as:
    /// `Participant(` followed by its identifier and `)`.
    pub fn to_display_string(&self) -> (r: String)
        ensures
            r@ == "Participant("@ + self@ + ")"@,
    {
        let mut s = String::from_str("Participant(");
        s.append(self.identifier.name());
        s.append(")");
        s
    }
}

impl<R: Role> Clone for Participant<R> {
    fn clone(&self) -> (r: Self)
        ensures
            r@ == self@,
    {
        Participant { identifier: self.identifier.clone(), _role: PhantomData }
    }
}

} // verus!
