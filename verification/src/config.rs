//! Listener configuration and response computation.
//!
//! A `ListenerConfig` is built once at startup and never mutated; every
//! connection handler reads it.  The response to a request is a pure
//! function of the configured payload and the request bytes, given by
//! the spec function `response_of` and computed by `compute_response`.

use vstd::prelude::*;

verus! {

/// How accepted connections are scheduled.
#[derive(Clone, Copy, Debug, PartialEq, Eq)]
pub enum ConcurrencyMode {
    /// One connection at a time: the acceptor handles a connection to
    /// completion before accepting the next.
    Sequential,
    /// Each connection runs on an independently scheduled unit of
    /// execution; `pool_bound` caps how many may run at once, `None`
    /// means unbounded.
    Concurrent { pool_bound: Option<usize> },
}

/// What the server answers with.
#[derive(Clone, Debug, PartialEq, Eq)]
pub enum ResponsePayload {
    /// The fixed minimal status line `HTTP/1.1 200 OK\r\n\r\n`.
    DefaultOk,
    /// A fixed byte sequence, sent for every request.
    Static(Vec<u8>),
    /// The request bytes, sent back unchanged.
    Echo,
}

/// Immutable settings of one listener.
#[derive(Clone, Debug, PartialEq, Eq)]
pub struct ListenerConfig {
    /// Host part of the bind address, e.g. `127.0.0.1`.
    pub host: String,
    /// Port part of the bind address; `0` asks for an ephemeral port.
    pub port: u16,
    /// Scheduling of accepted connections.
    pub mode: ConcurrencyMode,
    /// At most this many bytes are read from a connection.
    pub read_buffer_size: usize,
    /// How long one read may wait for the first bytes; `None` waits
    /// without bound.
    pub read_timeout_ms: Option<u64>,
    /// What the server answers with.
    pub payload: ResponsePayload,
}

/// The bytes of the ASCII status line `HTTP/1.1 200 OK\r\n\r\n`.
pub open spec fn default_ok_bytes() -> Seq<u8> {
    seq![
        72u8, 84u8, 84u8, 80u8, 47u8, 49u8, 46u8, 49u8, 32u8,
        50u8, 48u8, 48u8, 32u8, 79u8, 75u8, 13u8, 10u8, 13u8, 10u8,
    ]
}

/// The response owed to a request: the default status line, the
/// configured static bytes, or the request itself, per the payload.
pub open spec fn response_of(payload: ResponsePayload, request: Seq<u8>) -> Seq<u8> {
    match payload {
        ResponsePayload::DefaultOk => default_ok_bytes(),
        ResponsePayload::Static(p) => p@,
        ResponsePayload::Echo => request,
    }
}

/// A static payload fixes the response: whatever the request holds,
/// the answer is the configured bytes, byte for byte.
pub proof fn lemma_static_payload_fixes_response(payload: ResponsePayload, request: Seq<u8>)
    requires
        payload is Static,
    ensures
        response_of(payload, request) == payload->0@,
{
}

/// The default payload answers every request with the fixed status
/// line, whatever the request holds.
pub proof fn lemma_default_payload_fixes_response(request: Seq<u8>)
    ensures
        response_of(ResponsePayload::DefaultOk, request) == default_ok_bytes(),
{
}

/// Fresh copy of a byte vector.
pub fn copy_bytes(src: &Vec<u8>) -> (r: Vec<u8>)
    ensures
        r@ == src@,
{
    let mut r: Vec<u8> = Vec::new();
    let mut i: usize = 0;
    while i < src.len()
        invariant
            i <= src@.len(),
            r@ == src@.subrange(0, i as int),
        decreases src@.len() - i,
    {
        r.push(src[i]);
        proof {
            assert(r@ =~= src@.subrange(0, i + 1 as int));
        }
        i = i + 1;
    }
    proof {
        assert(r@ =~= src@);
    }
    r
}

/// The fixed minimal response: `HTTP/1.1 200 OK\r\n\r\n` as bytes.
pub fn default_ok_response() -> (r: Vec<u8>)
    ensures
        r@ == default_ok_bytes(),
{
    let mut r: Vec<u8> = Vec::new();
    r.push(72u8);
    r.push(84u8);
    r.push(84u8);
    r.push(80u8);
    r.push(47u8);
    r.push(49u8);
    r.push(46u8);
    r.push(49u8);
    r.push(32u8);
    r.push(50u8);
    r.push(48u8);
    r.push(48u8);
    r.push(32u8);
    r.push(79u8);
    r.push(75u8);
    r.push(13u8);
    r.push(10u8);
    r.push(13u8);
    r.push(10u8);
    proof {
        assert(r@ =~= default_ok_bytes());
    }
    r
}

/// The response to `request` under `payload`: exactly `response_of`.
pub fn compute_response(payload: &ResponsePayload, request: &Vec<u8>) -> (r: Vec<u8>)
    ensures
        r@ == response_of(*payload, request@),
{
    match payload {
        ResponsePayload::DefaultOk => default_ok_response(),
        ResponsePayload::Static(p) => copy_bytes(p),
        ResponsePayload::Echo => copy_bytes(request),
    }
}

} // verus!
