//! The messages that travel on the two queues of a comm.

use vstd::prelude::*;

verus! {

/// Why a request was answered with an error.
#[derive(Debug, PartialEq)]
pub enum RpcError {
    /// Nothing on the back end handles requests on this comm.
    Unhandled,
    /// The payload of the request is not what the comm expects.
    Malformed(String),
    /// The handler took the request and failed.
    Failed(String),
}

/// A message on a comm.
#[derive(Debug, PartialEq)]
pub enum CommChannelMsg {
    /// A payload that is no part of a request.
    Data(serde_json::Value),
    /// A request: its id, for the reply to carry, and its payload.
    Rpc(String, serde_json::Value),
    /// The reply to the request of the same id: its payload, or the error.
    Reply(String, Result<serde_json::Value, RpcError>),
    /// The comm is closed.
    Close,
}

} // verus!
