//! Convenience functions and protocol aliases.

use vstd::prelude::*;
use crate::chan::Chan;
use crate::connect::{ConnectInfo, channel_from_connection};
use crate::error::{ErrorView, Result};
use crate::proto::{End, Protocol, Recv, RoleA, RoleB, Send};

verus! {

/// A client that sends a request and receives a response.
pub type RequestClient<Req, Resp> = Send<Req, Recv<Resp, End>>;

/// A server that receives a request and sends a response.
pub type RequestServer<Req, Resp> = Recv<Req, Send<Resp, End>>;

/// A pair of channels with dual protocols: the first, of role `RoleA`, follows
/// `P`; the second, of role `RoleB`, follows `P::Dual`. The second IO value is
/// a clone of the first, which is `IO::default()`.
pub fn channel_pair<P, IO>() -> (r: (Chan<P, RoleA, IO>, Chan<P::Dual, RoleB, IO>)) where
    P: Protocol,
    P::Dual: Protocol,
    IO: Default + Clone,

    ensures
        call_ensures(IO::default, (), r.0.io_value()),
        cloned::<IO>(r.0.io_value(), r.1.io_value()),
{
    let client_io = IO::default();
    let server_io = client_io.clone();
    let client = Chan::<P, RoleA, IO>::new(client_io);
    let server = Chan::<P::Dual, RoleB, IO>::new(server_io);
    (client, server)
}

/// Establishes a connection and returns a channel of role `RoleA` over it; a
/// failed connection gives a `Connection` error.
pub fn connect_with_protocol<P, IO, C>(conn_info: C) -> (r: Result<Chan<P, RoleA, IO>>) where
    P: Protocol,
    C: ConnectInfo<IO = IO>,

    ensures
        match r {
            Ok(c) => conn_info.connect_outcome(Ok(c.io_value())),
            Err(e) => e@ == ErrorView::Connection("Failed to establish connection"@) && exists|
                err: std::io::Error,
            | conn_info.connect_outcome(Err(err)),
        },
{
    let outcome = conn_info.connect();
    proof {
        if outcome is Err {
            assert(conn_info.connect_outcome(Err(outcome->Err_0)));
        }
    }
    channel_from_connection(outcome)
}

} // verus!
