//! A strongly-typed facade over the JSON-RPC dialect of a chain node that
//! bridges a hierarchy of blockchain subnets: checkpoint relay, validator-vote
//! queries, wallet and mempool operations, and state reads, together with a
//! connection pool that resolves a subnet's identity to a facade instance and
//! a relay handler that consumes both.

pub mod amount;
pub mod client;
pub mod cli;
pub mod codecs;
pub mod config;
pub mod errors;
pub mod handlers;
pub mod ids;
pub mod json;
pub mod jsonrpc;
pub mod messages;
pub mod payload;
pub mod pool;
pub mod wire;
