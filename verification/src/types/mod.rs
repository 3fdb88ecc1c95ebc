//! Runtime protocol descriptions for multiparty session types, binary
//! sessions over transports, and their errors.

pub mod roles;
mod sealed;
pub mod error;
pub mod messages;
pub mod transport;
pub mod session_types;
pub mod projection;

pub use error::SessionError;
pub use transport::Transport;
pub use projection::{Project, project_for_role};
