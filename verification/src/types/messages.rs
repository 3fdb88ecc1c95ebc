//! Message types of the ping-pong protocols.

use vstd::prelude::*;

verus! {

/// A ping, with an optional sequence number.
#[derive(Debug, Clone, PartialEq, Default)]
pub struct PingMsg {
    /// The sequence number.
    pub seq: Option<i32>,
}

/// A pong, answering the ping of the same sequence number.
#[derive(Debug, Clone, PartialEq, Default)]
pub struct PongMsg {
    /// The sequence number of the ping answered.
    pub seq: Option<i32>,
    /// When the pong was sent.
    pub timestamp: u64,
}

} // verus!
