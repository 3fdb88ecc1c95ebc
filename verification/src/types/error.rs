//! Errors of session type operations.
//!
//! In contracts a [`SessionError`] is seen as a [`SessionErrorKind`]: its
//! variant and, for a protocol violation, its message.

use vstd::prelude::*;
use crate::error::{duration_debug_text, io_error_text};

verus! {

/// `bincode::ErrorKind`, the error of a failed encoding or decoding,
/// carried through unchanged.
#[verifier::external_type_specification]
#[verifier::external_body]
pub struct ExBincodeErrorKind(bincode::ErrorKind);

/// `std::sync::PoisonError`, the error of a lock whose holder panicked.
#[verifier::external_type_specification]
#[verifier::external_body]
#[verifier::reject_recursive_types(T)]
pub struct ExPoisonError<T>(std::sync::PoisonError<T>);

/// The view of a session error: its variant and, for a protocol violation,
/// its message.
pub enum SessionErrorKind {
    Transport,
    Serialization,
    ProtocolViolation(Seq<char>),
    UnexpectedClose,
    Timeout,
    LockPoisoned,
}

/// Errors of session type operations.
#[derive(Debug)]
pub enum SessionError {
    /// An error of the underlying transport.
    Transport(std::io::Error),
    /// A value could not be encoded or decoded.
    Serialization(bincode::Error),
    /// The protocol was not followed.
    ProtocolViolation(String),
    /// The channel was closed while a message was expected.
    UnexpectedClose,
    /// An operation timed out after the given duration.
    Timeout(std::time::Duration),
    /// A lock was poisoned.
    LockPoisoned,
}

impl View for SessionError {
    type V = SessionErrorKind;

    open spec fn view(&self) -> SessionErrorKind {
        match self {
            SessionError::Transport(_) => SessionErrorKind::Transport,
            SessionError::Serialization(_) => SessionErrorKind::Serialization,
            SessionError::ProtocolViolation(m) => SessionErrorKind::ProtocolViolation(m@),
            SessionError::UnexpectedClose => SessionErrorKind::UnexpectedClose,
            SessionError::Timeout(_) => SessionErrorKind::Timeout,
            SessionError::LockPoisoned => SessionErrorKind::LockPoisoned,
        }
    }
}

/// The text each kind of error displays before the text of the value it
/// carries (the message of a protocol violation is part of its text here).
pub open spec fn session_error_prefix(k: SessionErrorKind) -> Seq<char> {
    match k {
        SessionErrorKind::Transport => "Transport error: "@,
        SessionErrorKind::Serialization => "Serialization/Deserialization error: "@,
        SessionErrorKind::ProtocolViolation(m) => "Protocol violation: "@ + m,
        SessionErrorKind::UnexpectedClose => "Channel closed unexpectedly"@,
        SessionErrorKind::Timeout => "Operation timed out after "@,
        SessionErrorKind::LockPoisoned => "Lock was poisoned"@,
    }
}

/// Whether the whole text of an error of this kind is its prefix (it carries
/// no value of another library).
pub open spec fn session_error_text_is_prefix(k: SessionErrorKind) -> bool {
    match k {
        SessionErrorKind::ProtocolViolation(_) => true,
        SessionErrorKind::UnexpectedClose => true,
        SessionErrorKind::LockPoisoned => true,
        _ => false,
    }
}

/// Formats a `bincode` error with its `Display` implementation. Nothing is
/// claimed of the text.
#[verifier::external_body]
fn bincode_error_display(e: &bincode::Error) -> (r: String) {
    format!("{}", e)
}

/// An outcome that succeeded is `Ok(())`.
pub proof fn lemma_unit_outcome(r: Result<(), SessionError>)
    ensures
        r is Ok ==> r == Ok::<(), SessionError>(()),
{
    if r is Ok {
        let u = r->Ok_0;
        assert(u == ());
        assert(r == Ok::<(), SessionError>(u));
    }
}

impl SessionError {
    /// The text this error displays as.
    pub fn to_display_string(&self) -> (r: String)
        ensures
            session_error_text_is_prefix(self@) ==> r@ == session_error_prefix(self@),
            r@.len() >= session_error_prefix(self@).len(),
            r@.subrange(0, session_error_prefix(self@).len() as int) == session_error_prefix(
                self@,
            ),
    {
        let (mut s, rest): (String, String) = match self {
            SessionError::Transport(e) => (String::from_str("Transport error: "), io_error_text(e)),
            SessionError::Serialization(e) => (
                String::from_str("Serialization/Deserialization error: "),
                bincode_error_display(e),
            ),
            SessionError::ProtocolViolation(m) => {
                let mut t = String::from_str("Protocol violation: ");
                t.append(m.as_str());
                (t, String::new())
            },
            SessionError::UnexpectedClose => (
                String::from_str("Channel closed unexpectedly"),
                String::new(),
            ),
            SessionError::Timeout(d) => (
                String::from_str("Operation timed out after "),
                duration_debug_text(d),
            ),
            SessionError::LockPoisoned => (String::from_str("Lock was poisoned"), String::new()),
        };
        let ghost prefix = s@;
        assert(prefix == session_error_prefix(self@));
        s.append(rest.as_str());
        proof {
            assert(s@.subrange(0, prefix.len() as int) =~= prefix);
            if session_error_text_is_prefix(self@) {
                assert(s@ =~= prefix);
            }
        }
        s
    }
}

impl From<std::io::Error> for SessionError {
    fn from(err: std::io::Error) -> (r: Self) {
        SessionError::Transport(err)
    }
}

impl vstd::std_specs::convert::FromSpecImpl<std::io::Error> for SessionError {
    open spec fn obeys_from_spec() -> bool {
        true
    }

    open spec fn from_spec(err: std::io::Error) -> Self {
        SessionError::Transport(err)
    }
}

impl From<bincode::Error> for SessionError {
    fn from(err: bincode::Error) -> (r: Self) {
        SessionError::Serialization(err)
    }
}

impl vstd::std_specs::convert::FromSpecImpl<bincode::Error> for SessionError {
    open spec fn obeys_from_spec() -> bool {
        true
    }

    open spec fn from_spec(err: bincode::Error) -> Self {
        SessionError::Serialization(err)
    }
}

impl<T> From<std::sync::PoisonError<T>> for SessionError {
    fn from(_err: std::sync::PoisonError<T>) -> (r: Self) {
        SessionError::LockPoisoned
    }
}

impl<T> vstd::std_specs::convert::FromSpecImpl<std::sync::PoisonError<T>> for SessionError {
    open spec fn obeys_from_spec() -> bool {
        true
    }

    open spec fn from_spec(err: std::sync::PoisonError<T>) -> Self {
        SessionError::LockPoisoned
    }
}

} // verus!
