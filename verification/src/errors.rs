//! The failure kinds every public operation of this library can surface.

use vstd::prelude::*;

verus! {

/// Failure reported by a `JsonRpcClient` implementation: either the remote
/// endpoint could not be reached at all, or it processed the call and answered
/// with a domain-level failure.
#[derive(Debug, Clone, PartialEq, Eq)]
pub enum TransportError {
    /// Network, HTTP or timeout failure: the node is unreachable.
    Unreachable(String),
    /// The node replied, but with a domain-level error of its own.
    Remote(String),
}

/// A structured failure of a facade, pool or handler operation.
#[derive(Debug, Clone, PartialEq, Eq)]
pub enum RpcError {
    /// Malformed or ineligible input, caught before any transport call.
    Validation(String),
    /// The remote endpoint could not be reached.
    Transport(String),
    /// A response or binary envelope did not match the expected shape.
    /// Carries the context label identifying which decode failed.
    Decode(String),
    /// The remote node processed the request but returned a domain-level failure.
    Remote(String),
}

/// How a transport failure surfaces as a structured error: the variant is kept,
/// so a caller can still branch on "unreachable node" vs. "node-level failure".
pub open spec fn transport_to_rpc(e: TransportError) -> RpcError {
    match e {
        TransportError::Unreachable(m) => RpcError::Transport(m),
        TransportError::Remote(m) => RpcError::Remote(m),
    }
}

impl RpcError {
    /// Lifts a transport failure into the shared error type.
    pub fn from_transport(e: TransportError) -> (r: RpcError)
        ensures
            r == transport_to_rpc(e),
    {
        match e {
            TransportError::Unreachable(m) => RpcError::Transport(m),
            TransportError::Remote(m) => RpcError::Remote(m),
        }
    }

    /// The human-readable cause carried by this error.
    pub fn message(&self) -> (r: &String)
        ensures
            r@ == self.message_view(),
    {
        match self {
            RpcError::Validation(m) => m,
            RpcError::Transport(m) => m,
            RpcError::Decode(m) => m,
            RpcError::Remote(m) => m,
        }
    }

    /// The cause text of an error, whatever its kind.
    pub open spec fn message_view(&self) -> Seq<char> {
        match self {
            RpcError::Validation(m) => m@,
            RpcError::Transport(m) => m@,
            RpcError::Decode(m) => m@,
            RpcError::Remote(m) => m@,
        }
    }
}

} // verus!
