//! Protocol type definitions for session types.
//!
//! The protocols of two parties are expressed at the type level; each has a
//! dual type for the other party.

pub mod roles;
pub use roles::{Role, RoleA, RoleB};

mod base;
pub use base::{Protocol, ProtocolShape, dual_shape, law_dual_involutive};

mod send;
pub use send::Send;

mod recv;
pub use recv::Recv;

mod end;
pub use end::End;

mod offer;
pub use offer::Offer;

mod choice;
pub use choice::Choose;

mod rec;
pub use rec::Rec;

mod var;
pub use var::Var;

pub mod global;
pub use global::{
    GChoice, GEnd, GOffer, GPar, GRec, GRecv, GSend, GSeq, GVar, GlobalProtocol,
    GlobalProtocolBranches, GlobalProtocolBuilder, ProjectedSendRecv, validate_global_protocol,
};

pub mod projection;
pub use projection::{Project, ProjectTuple, project};

pub mod compat;
pub use compat::{BinaryWrapper, MPSTWrapper, ProtocolCompat};

pub mod duality;
