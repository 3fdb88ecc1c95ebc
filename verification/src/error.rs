//! Error types for session types.
//!
//! These errors represent the failure conditions of protocol communication.
//! In contracts an [`Error`] is seen as an [`ErrorView`]: its variant and, for
//! the variants that carry one, its message.

use vstd::prelude::*;

verus! {

/// `std::io::Error`, carried through unchanged.
#[verifier::external_type_specification]
#[verifier::external_body]
pub struct ExIoError(std::io::Error);

/// The view of an error: its variant and its message, where it has one.
pub enum ErrorView {
    Io,
    Protocol(Seq<char>),
    Connection(Seq<char>),
    Serialization(Seq<char>),
    Deserialization(Seq<char>),
    ChannelClosed,
    Timeout,
    Negotiation(Seq<char>),
    StateMismatch(Seq<char>),
    UnknownRole(Seq<char>),
    InvalidProtocolStructure(Seq<char>),
}

/// Errors that can occur during protocol communication.
#[derive(Debug)]
pub enum Error {
    /// An error occurred in the underlying IO implementation.
    Io(std::io::Error),
    /// A protocol violation occurred.
    Protocol(&'static str),
    /// A connection error occurred.
    Connection(&'static str),
    /// A serialization error occurred.
    Serialization(&'static str),
    /// A deserialization error occurred.
    Deserialization(&'static str),
    /// The channel was closed.
    ChannelClosed,
    /// A timeout occurred during a communication operation.
    Timeout(std::time::Duration),
    /// An error occurred during protocol negotiation.
    Negotiation(&'static str),
    /// An error occurred due to a protocol state mismatch.
    StateMismatch(&'static str),
    /// A role was asked for a projection of a step it takes no part in.
    UnknownRole(&'static str),
    /// A global protocol is not well structured.
    InvalidProtocolStructure(&'static str),
}

impl View for Error {
    type V = ErrorView;

    open spec fn view(&self) -> ErrorView {
        match self {
            Error::Io(_) => ErrorView::Io,
            Error::Protocol(m) => ErrorView::Protocol(m@),
            Error::Connection(m) => ErrorView::Connection(m@),
            Error::Serialization(m) => ErrorView::Serialization(m@),
            Error::Deserialization(m) => ErrorView::Deserialization(m@),
            Error::ChannelClosed => ErrorView::ChannelClosed,
            Error::Timeout(_) => ErrorView::Timeout,
            Error::Negotiation(m) => ErrorView::Negotiation(m@),
            Error::StateMismatch(m) => ErrorView::StateMismatch(m@),
            Error::UnknownRole(m) => ErrorView::UnknownRole(m@),
            Error::InvalidProtocolStructure(m) => ErrorView::InvalidProtocolStructure(m@),
        }
    }
}

/// The view of the outcome of an operation that fails with an [`Error`].
pub open spec fn outcome<T>(r: std::result::Result<T, Error>) -> std::result::Result<T, ErrorView> {
    match r {
        Ok(v) => Ok(v),
        Err(e) => Err(e@),
    }
}

/// The short description of each kind of error.
pub open spec fn description_text(k: ErrorView) -> Seq<char> {
    match k {
        ErrorView::Io => "IO error during communication"@,
        ErrorView::Protocol(_) => "Protocol violation error"@,
        ErrorView::Connection(_) => "Connection establishment or termination error"@,
        ErrorView::Serialization(_) => "Data serialization error"@,
        ErrorView::Deserialization(_) => "Data deserialization error"@,
        ErrorView::ChannelClosed => "Channel closed error"@,
        ErrorView::Timeout => "Communication timeout error"@,
        ErrorView::Negotiation(_) => "Protocol negotiation error"@,
        ErrorView::StateMismatch(_) => "Protocol state mismatch error"@,
        ErrorView::UnknownRole(_) => "Unknown role error"@,
        ErrorView::InvalidProtocolStructure(_) => "Invalid protocol structure error"@,
    }
}

/// The displayed text of an error whose text the library composes itself,
/// or `None` for the two variants (`Io`, `Timeout`) whose text ends in the
/// display of a value of the standard library.
pub open spec fn display_text(k: ErrorView) -> Option<Seq<char>> {
    match k {
        ErrorView::Protocol(m) => Some("Protocol error: "@ + m),
        ErrorView::Connection(m) => Some("Connection error: "@ + m),
        ErrorView::Serialization(m) => Some("Serialization error: "@ + m),
        ErrorView::Deserialization(m) => Some("Deserialization error: "@ + m),
        ErrorView::ChannelClosed => Some(
            "Channel closed: The channel has been closed and cannot be used for further communication"@,
        ),
        ErrorView::Negotiation(m) => Some("Protocol negotiation error: "@ + m),
        ErrorView::StateMismatch(m) => Some("Protocol state mismatch: "@ + m),
        ErrorView::UnknownRole(m) => Some("Unknown role: "@ + m),
        ErrorView::InvalidProtocolStructure(m) => Some("Invalid protocol structure: "@ + m),
        _ => None,
    }
}

/// The prefix of the displayed text of each kind of error.
pub open spec fn display_prefix(k: ErrorView) -> Seq<char> {
    match k {
        ErrorView::Io => "IO error: "@,
        ErrorView::Timeout => "Timeout error: Operation timed out after "@,
        _ => display_text(k).unwrap(),
    }
}

/// Formats an IO error with `format!` and its `Display` implementation. The
/// text comes from the error's own message or from the operating system;
/// nothing is claimed of it.
#[verifier::external_body]
pub(crate) fn io_error_text(e: &std::io::Error) -> (r: String) {
    format!("{}", e)
}

/// Formats a duration with `format!` and its `Debug` implementation (such as
/// `10s`). The duration's value is not modelled here, so nothing is claimed
/// of the text.
#[verifier::external_body]
pub(crate) fn duration_debug_text(d: &std::time::Duration) -> (r: String) {
    format!("{:?}", d)
}

impl Error {
    /// The short description of this error.
    pub fn description(&self) -> (r: &'static str)
        ensures
            r@ == description_text(self@),
    {
        match self {
            Error::Io(_) => "IO error during communication",
            Error::Protocol(_) => "Protocol violation error",
            Error::Connection(_) => "Connection establishment or termination error",
            Error::Serialization(_) => "Data serialization error",
            Error::Deserialization(_) => "Data deserialization error",
            Error::ChannelClosed => "Channel closed error",
            Error::Timeout(_) => "Communication timeout error",
            Error::Negotiation(_) => "Protocol negotiation error",
            Error::StateMismatch(_) => "Protocol state mismatch error",
            Error::UnknownRole(_) => "Unknown role error",
            Error::InvalidProtocolStructure(_) => "Invalid protocol structure error",
        }
    }

    /// The underlying error: the IO error for `Io`, and none for the others.
    pub fn source(&self) -> (r: Option<&std::io::Error>)
        ensures
            r is Some <==> self is Io,
            self matches Error::Io(e) ==> r == Some(e),
    {
        match self {
            Error::Io(e) => Some(e),
            _ => None,
        }
    }

    /// The text this error displays as.
    pub fn to_display_string(&self) -> (r: String)
        ensures
            display_text(self@) matches Some(t) ==> r@ == t,
            r@.len() >= display_prefix(self@).len(),
            r@.subrange(0, display_prefix(self@).len() as int) == display_prefix(self@),
    {
        let (prefix, rest): (&str, String) = match self {
            Error::Io(e) => ("IO error: ", io_error_text(e)),
            Error::Protocol(m) => ("Protocol error: ", String::from_str(m)),
            Error::Connection(m) => ("Connection error: ", String::from_str(m)),
            Error::Serialization(m) => ("Serialization error: ", String::from_str(m)),
            Error::Deserialization(m) => ("Deserialization error: ", String::from_str(m)),
            Error::ChannelClosed => (
                "Channel closed: The channel has been closed and cannot be used for further communication",
                String::new(),
            ),
            Error::Timeout(d) => ("Timeout error: Operation timed out after ", duration_debug_text(d)),
            Error::Negotiation(m) => ("Protocol negotiation error: ", String::from_str(m)),
            Error::StateMismatch(m) => ("Protocol state mismatch: ", String::from_str(m)),
            Error::UnknownRole(m) => ("Unknown role: ", String::from_str(m)),
            Error::InvalidProtocolStructure(m) => (
                "Invalid protocol structure: ",
                String::from_str(m),
            ),
        };
        let mut s = String::from_str(prefix);
        s.append(rest.as_str());
        proof {
            assert(s@.subrange(0, prefix@.len() as int) =~= prefix@);
            if self is ChannelClosed {
                assert(s@ =~= prefix@);
            }
        }
        s
    }
}

impl From<std::io::Error> for Error {
    fn from(err: std::io::Error) -> (r: Self) {
        Error::Io(err)
    }
}

impl vstd::std_specs::convert::FromSpecImpl<std::io::Error> for Error {
    open spec fn obeys_from_spec() -> bool {
        true
    }

    open spec fn from_spec(err: std::io::Error) -> Self {
        Error::Io(err)
    }
}

impl From<std::time::Duration> for Error {
    /// Converts a timeout duration to a session type error.
    fn from(duration: std::time::Duration) -> (r: Self) {
        Error::Timeout(duration)
    }
}

impl vstd::std_specs::convert::FromSpecImpl<std::time::Duration> for Error {
    open spec fn obeys_from_spec() -> bool {
        true
    }

    open spec fn from_spec(duration: std::time::Duration) -> Self {
        Error::Timeout(duration)
    }
}

/// Result type for session type operations.
pub type Result<T> = std::result::Result<T, Error>;

} // verus!
