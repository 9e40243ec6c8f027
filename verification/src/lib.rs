//! A thin wrapper that unifies the HTTP, WebSocket and IPC transports of an
//! Ethereum JSON-RPC client behind one enum, choosing the transport from the
//! shape of the endpoint string and forwarding query results unchanged.
pub mod errors;
pub mod provider;
pub mod rpc;
pub mod text;
