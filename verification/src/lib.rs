//! Session types for Rust: binary and multiparty protocol descriptions,
//! projection of global protocols onto roles, and typed channels.

pub mod names;
pub mod types;
pub mod proto;
pub mod error;
pub mod chan;
pub mod io;
pub mod connect;
pub mod api;
