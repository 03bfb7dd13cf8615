//! The transport capability under the facade: one named RPC call with
//! structured parameters to one configured endpoint.

use vstd::prelude::*;

use crate::errors::TransportError;
use crate::json::JsonValue;

verus! {

/// A transport client: sends one named RPC call with the given parameters to
/// the endpoint it was configured with and returns the structured response,
/// or the transport-level failure. Implementations wrap a real HTTP client or
/// a test double; the facade is generic over this capability and its
/// contracts state what holds for every possible response.
pub trait JsonRpcClient: Sized {
    /// Builds a client bound to one endpoint and an optional bearer token.
    fn from_endpoint(url: &str, bearer_token: Option<&str>) -> Self;

    /// One request/response exchange.
    fn request(&self, method: &str, params: JsonValue) -> Result<JsonValue, TransportError>;
}

} // verus!
