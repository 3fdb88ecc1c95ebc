//! Session type implementations.

pub mod common;
pub mod global;
pub mod local;
pub mod binary;
mod state_sealed;
pub mod multiparty_session;

pub use binary::{
    ChoiceSignal, Dual, Either, End, Offer, ProtocolState, Rec, Receive, Select, Send, Session,
    Var,
};
pub use multiparty_session::{
    End as MultipartyEnd, MultipartySession, Receive as MultipartyReceive, Send as MultipartySend,
};
