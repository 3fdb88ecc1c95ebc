//! Channels over byte streams.
//!
//! On a stream each value travels as a frame: the length of its encoding as
//! four bytes, most significant first (the length is taken modulo 2^32, as a
//! conversion to `u32` takes it), followed by the encoding itself.

use vstd::prelude::*;
use std::marker::PhantomData;
use crate::chan::Chan;
use crate::error::{Error, ErrorView};
use crate::proto::{Protocol, RoleA};

verus! {

broadcast use vstd::std_specs::vec::group_vec_axioms;

/// A description of a connection that can be established.
///
/// An implementation may describe, by a relation, what establishing the
/// connection may give; by default it allows anything.
pub trait ConnectInfo {
    /// The IO value of an established connection.
    type IO;

    /// Whether establishing the connection may give `r`.
    open spec fn connect_outcome(&self, r: std::io::Result<Self::IO>) -> bool {
        true
    }

    /// Establishes the connection.
    fn connect(&self) -> (r: std::io::Result<Self::IO>)
        ensures
            self.connect_outcome(r),
    ;
}

/// A byte stream used as the IO value of a channel for values of type `T`.
pub struct StreamWrapper<S, T> {
    stream: S,
    _marker: PhantomData<T>,
}

impl<S, T> StreamWrapper<S, T> {
    /// The wrapped stream.
    pub closed spec fn stream_value(self) -> S {
        self.stream
    }

    /// Wraps a stream.
    pub fn new(stream: S) -> (r: Self)
        ensures
            r.stream_value() == stream,
    {
        StreamWrapper { stream, _marker: PhantomData }
    }

    /// Returns the wrapped stream.
    pub fn stream(&self) -> (r: &S)
        ensures
            *r == self.stream_value(),
    {
        &self.stream
    }

    /// Returns the wrapped stream, to be changed in place.
    pub fn stream_mut(&mut self) -> (r: &mut S)
        ensures
            *r == old(self).stream_value(),
            final(self).stream_value() == *final(r),
    {
        &mut self.stream
    }

    /// Unwraps the stream.
    pub fn into_inner(self) -> (r: S)
        ensures
            r == self.stream_value(),
    {
        self.stream
    }
}

/// A pending send of a value over a stream.
pub struct StreamSendFuture<'a, S, T> {
    /// The stream written to.
    pub stream: &'a mut S,
    /// The value still to send; `None` once it has been taken.
    pub value: Option<T>,
}

impl<'a, S, T> StreamSendFuture<'a, S, T> {
    /// Takes the value to send: a pending send sends its value once, and a
    /// second poll finds it taken.
    pub fn take_value(&mut self) -> (r: Result<T, Error>)
        ensures
            final(self).value is None,
            match old(self).value {
                Some(v) => r == Ok::<T, Error>(v),
                None => r matches Err(e) && e@ == ErrorView::Protocol("Value already taken"@),
            },
    {
        match self.value.take() {
            Some(v) => Ok(v),
            None => Err(Error::Protocol("Value already taken")),
        }
    }
}

/// A pending receive of a value from a stream.
pub struct StreamRecvFuture<'a, S, T> {
    /// The stream read from.
    pub stream: &'a mut S,
    /// The type of the value.
    pub _marker: PhantomData<T>,
}

/// The value of four bytes read most significant first.
pub open spec fn be_value(b: Seq<u8>) -> int {
    b[0] * 16777216 + b[1] * 65536 + b[2] * 256 + b[3]
}

/// The four bytes of `n`, most significant first.
pub open spec fn be_bytes(n: u32) -> Seq<u8> {
    seq![
        (n / 16777216) as u8,
        ((n / 65536) % 256) as u8,
        ((n / 256) % 256) as u8,
        (n % 256) as u8,
    ]
}

/// The length a frame header gives for a payload of `len` bytes: `len`
/// modulo 2^32.
pub open spec fn framed_length(len: nat) -> u32 {
    (len % 4294967296) as u32
}

/// The frame of a payload: the header, then the payload.
pub open spec fn frame(payload: Seq<u8>) -> Seq<u8> {
    be_bytes(framed_length(payload.len())) + payload
}

/// The header of a frame for a payload of `len` bytes.
pub fn length_header(len: usize) -> (r: [u8; 4])
    ensures
        r@ == be_bytes(framed_length(len as nat)),
{
    let n: u32 = ((len as u64) % 4294967296) as u32;
    let r = [
        (n / 16777216) as u8,
        ((n / 65536) % 256) as u8,
        ((n / 256) % 256) as u8,
        (n % 256) as u8,
    ];
    assert(r@ =~= be_bytes(framed_length(len as nat)));
    r
}

/// The payload length a frame header gives.
pub fn frame_length(header: [u8; 4]) -> (r: usize)
    ensures
        r == be_value(header@),
{
    let b0 = header[0] as u32;
    let b1 = header[1] as u32;
    let b2 = header[2] as u32;
    let b3 = header[3] as u32;
    let n: u32 = b0 * 16777216 + b1 * 65536 + b2 * 256 + b3;
    n as usize
}

/// The frame of a payload.
pub fn encode_frame(payload: &[u8]) -> (r: Vec<u8>)
    ensures
        r@ == frame(payload@),
{
    let header = length_header(payload.len());
    let mut r: Vec<u8> = Vec::new();
    let mut i: usize = 0;
    while i < 4
        invariant
            i <= 4,
            r@ == header@.take(i as int),
        decreases 4 - i,
    {
        r.push(header[i]);
        assert(header@.take(i + 1) =~= header@.take(i as int).push(header@[i as int]));
        i = i + 1;
    }
    let mut j: usize = 0;
    while j < payload.len()
        invariant
            j <= payload@.len(),
            r@ == header@ + payload@.take(j as int),
        decreases payload.len() - j,
    {
        r.push(payload[j]);
        assert(payload@.take(j + 1) =~= payload@.take(j as int).push(payload@[j as int]));
        j = j + 1;
    }
    assert(header@.take(4) =~= header@);
    assert(payload@.take(j as int) =~= payload@);
    r
}

/// The header of a frame gives back the length of its payload, for every
/// payload shorter than 2^32 bytes.
pub proof fn law_frame_header_round_trip(payload: Seq<u8>)
    requires
        payload.len() < 4294967296,
    ensures
        be_value(frame(payload).take(4)) == payload.len(),
        frame(payload).skip(4) == payload,
{
    let n = framed_length(payload.len());
    assert(n == payload.len());
    lemma_be_round_trip(n);
    assert(frame(payload).take(4) =~= be_bytes(n));
    assert(frame(payload).skip(4) =~= payload);
}

/// Reading the bytes of a number gives back the number.
pub proof fn lemma_be_round_trip(n: u32)
    ensures
        be_value(be_bytes(n)) == n,
{
    let q3 = n / 16777216;
    let q2 = (n / 65536) % 256;
    let q1 = (n / 256) % 256;
    let q0 = n % 256;
    assert(q3 < 256);
    assert(q3 * 16777216 + q2 * 65536 + q1 * 256 + q0 == n) by (nonlinear_arith)
        requires
            q3 == n / 16777216,
            q2 == (n / 65536) % 256,
            q1 == (n / 256) % 256,
            q0 == n % 256,
    ;
}

/// Creates a channel of role `RoleA` over a stream.
pub fn connect<P: Protocol, S, T>(stream: S) -> (r: Chan<P, RoleA, StreamWrapper<S, T>>)
    ensures
        r.io_value().stream_value() == stream,
{
    let wrapper = StreamWrapper::new(stream);
    Chan::new(wrapper)
}

/// The channel over an established connection, or the error a failed
/// connection is reported with.
pub fn channel_from_connection<P: Protocol, IO>(outcome: std::io::Result<IO>) -> (r: Result<
    Chan<P, RoleA, IO>,
    Error,
>)
    ensures
        match outcome {
            Ok(io) => r matches Ok(c) && c.io_value() == io,
            Err(_) => r matches Err(e) && e@ == ErrorView::Connection(
                "Failed to establish connection"@,
            ),
        },
{
    match outcome {
        Ok(io) => Ok(Chan::new(io)),
        Err(_) => Err(Error::Connection("Failed to establish connection")),
    }
}

} // verus!
