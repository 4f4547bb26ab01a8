//! A DDP-style RPC and event multiplexer, verified with Verus.
//!
//! The core speaks a JSON-tagged message protocol over a single duplex
//! text connection: a connection handshake, request/response method calls
//! correlated by a small integer id, server-pushed subscription events,
//! and a keep-alive ping/pong exchange.
//!
//! The wire values are modelled by [`wire::WireValue`]; the transport
//! (TLS websocket) and the JSON text framing live outside the library.
#![verifier::loop_isolation(false)]

pub mod creds;
pub mod num;
pub mod protocol;
pub mod pump;
pub mod rand_id;
pub mod requests;
pub mod rest;
pub mod schema;
pub mod session;
pub mod slots;
pub mod wire;

pub use creds::Credentials;

use vstd::prelude::*;

verus! {

/// The errors the client can observe.
///
/// A protocol violation — a malformed frame, a result with an unknown
/// id — is never an error here: the pump discards it and the connection
/// stays up.
#[derive(Debug, PartialEq, Eq)]
pub enum ClientError {
    /// Handshake acknowledgements were missing or out of order.
    HandshakeFailed,
    /// The transport ended or errored; delivered to every outstanding call.
    ConnectionClosed,
    /// The correlation table hit its configured maximum of outstanding calls.
    Exhausted,
    /// The server rejected the login.
    LoginFailed,
    /// The server answered a call with an error payload.
    RpcError(wire::WireValue),
    /// A reply had a shape the caller could not use.
    MalformedReply,
}

} // verus!
