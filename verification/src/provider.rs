use vstd::prelude::*;
use vstd::string::{StrSliceExecFns, StringExecFns};
use crate::errors::{wrap_upstream, ConnectionError};
use crate::rpc::{http_provider, parse_tx_hash, parse_url, url_ok, NodeClient};
use crate::text::{contains_seq, contains_str, is_tx_hash, lower_of, lowercase, tx_hash_bytes};

verus! {

/// A provider for an Ethereum-compatible node, tagged with the transport that
/// backs it. Exactly one variant is active, fixed at construction; every query
/// dispatches to the same-named operation of the active client and forwards
/// the result or error unchanged.
pub enum MultiTransportProvider {
    /// WebSocket transport
    Ws(NodeClient),
    /// IPC transport
    Ipc(NodeClient),
    /// HTTP transport
    Http(NodeClient),
}

/// The endpoint selects the HTTP transport: lowercased, it contains "http".
/// This check runs first, so an endpoint containing both "http" and "ws"
/// resolves to HTTP.
pub open spec fn selects_http(s: Seq<char>) -> bool {
    contains_seq(lower_of(s), "http"@)
}

/// The endpoint, lowercased, contains "ws". WebSocket is selected when this
/// holds and `selects_http` does not; everything else falls back to IPC.
pub open spec fn mentions_ws(s: Seq<char>) -> bool {
    contains_seq(lower_of(s), "ws"@)
}

/// What `connect` decided. An HTTP client is built without I/O, so it comes
/// back ready; the WebSocket and IPC handshakes suspend, so the caller runs
/// them and hands the result to `finish_ws` or `finish_ipc`.
pub enum ConnectStep {
    /// The endpoint selected HTTP; the provider is ready.
    Ready(MultiTransportProvider),
    /// The endpoint selected WebSocket; the handshake on this endpoint is
    /// still to be performed.
    NeedsWs(String),
    /// The endpoint selected IPC; the connection to this path is still to be
    /// established.
    NeedsIpc(String),
}

impl MultiTransportProvider {
    /// The handle of the active transport's client: each variant holds one,
    /// and the caller runs every round-trip against it.
    pub fn client(&self) -> (r: &NodeClient)
        ensures
            self is Ws ==> r == self->Ws_0,
            self is Ipc ==> r == self->Ipc_0,
            self is Http ==> r == self->Http_0,
    {
        match self {
            MultiTransportProvider::Ws(c) => c,
            MultiTransportProvider::Ipc(c) => c,
            MultiTransportProvider::Http(c) => c,
        }
    }

    /// Choose a transport for `endpoint` and build as much of the connection
    /// as needs no I/O. An empty endpoint is rejected; one whose lowercased
    /// form contains "http" must parse as a URL and yields a ready HTTP
    /// provider; one containing "ws" is left to the WebSocket handshake; any
    /// other endpoint is treated as an IPC path.
    pub fn connect(endpoint: &str) -> (r: Result<ConnectStep, ConnectionError>)
        ensures
            endpoint@.len() == 0 ==> r matches Err(ConnectionError::MissingEndpoint),
            endpoint@.len() > 0 && selects_http(endpoint@) && url_ok(endpoint@) ==> (r
                matches Ok(step) && step matches ConnectStep::Ready(p) && p is Http),
            endpoint@.len() > 0 && selects_http(endpoint@) && !url_ok(endpoint@) ==> r matches Err(
                ConnectionError::InvalidUrl,
            ),
            endpoint@.len() > 0 && !selects_http(endpoint@) && mentions_ws(endpoint@) ==> (r
                matches Ok(step) && step matches ConnectStep::NeedsWs(e) && e@ == endpoint@),
            endpoint@.len() > 0 && !selects_http(endpoint@) && !mentions_ws(endpoint@) ==> (r
                matches Ok(step) && step matches ConnectStep::NeedsIpc(e) && e@ == endpoint@),
    {
        if endpoint.unicode_len() == 0 {
            return Err(ConnectionError::MissingEndpoint);
        }
        let lowered = lowercase(endpoint);
        if contains_str(lowered.as_str(), "http") {
            match parse_url(endpoint) {
                Some(url) => Ok(
                    ConnectStep::Ready(MultiTransportProvider::Http(http_provider(url))),
                ),
                None => Err(ConnectionError::InvalidUrl),
            }
        } else if contains_str(lowered.as_str(), "ws") {
            Ok(ConnectStep::NeedsWs(String::from_str(endpoint)))
        } else {
            Ok(ConnectStep::NeedsIpc(String::from_str(endpoint)))
        }
    }

    /// Wrap the outcome of the WebSocket handshake that `connect` asked for:
    /// a connected client becomes the WebSocket variant, a failed handshake
    /// becomes `TransportUnavailable` with the handshake error's message.
    pub fn finish_ws(outcome: Result<NodeClient, String>) -> (r: Result<
        MultiTransportProvider,
        ConnectionError,
    >)
        ensures
            outcome matches Ok(client) ==> r == Ok::<MultiTransportProvider, ConnectionError>(
                MultiTransportProvider::Ws(client),
            ),
            outcome matches Err(m) ==> r == Err::<MultiTransportProvider, ConnectionError>(
                ConnectionError::TransportUnavailable(m),
            ),
    {
        match outcome {
            Ok(client) => Ok(MultiTransportProvider::Ws(client)),
            Err(m) => Err(ConnectionError::TransportUnavailable(m)),
        }
    }

    /// Wrap the outcome of the IPC connection that `connect` asked for, the
    /// same way `finish_ws` does for WebSocket.
    pub fn finish_ipc(outcome: Result<NodeClient, String>) -> (r: Result<
        MultiTransportProvider,
        ConnectionError,
    >)
        ensures
            outcome matches Ok(client) ==> r == Ok::<MultiTransportProvider, ConnectionError>(
                MultiTransportProvider::Ipc(client),
            ),
            outcome matches Err(m) ==> r == Err::<MultiTransportProvider, ConnectionError>(
                ConnectionError::TransportUnavailable(m),
            ),
    {
        match outcome {
            Ok(client) => Ok(MultiTransportProvider::Ipc(client)),
            Err(m) => Err(ConnectionError::TransportUnavailable(m)),
        }
    }

    /// Get the chain id. The node's answer to the round-trip the caller
    /// performed is `outcome`; it reaches the caller unchanged, whichever
    /// transport variant is active.
    pub fn get_chainid(&self, outcome: Result<u64, String>) -> (r: Result<u64, ConnectionError>)
        ensures
            r == wrap_upstream(outcome),
    {
        match outcome {
            Ok(v) => Ok(v),
            Err(m) => Err(ConnectionError::UpstreamError(m)),
        }
    }

    /// Get the latest block number; the node's answer reaches the caller
    /// unchanged, whichever transport variant is active.
    pub fn get_block_number(&self, outcome: Result<u64, String>) -> (r: Result<
        u64,
        ConnectionError,
    >)
        ensures
            r == wrap_upstream(outcome),
    {
        match outcome {
            Ok(v) => Ok(v),
            Err(m) => Err(ConnectionError::UpstreamError(m)),
        }
    }

    /// Get the bytecode at an address; the node's answer reaches the caller
    /// unchanged, whichever transport variant is active. An account without
    /// code answers with an empty byte sequence, which is passed on as such,
    /// not turned into an error.
    pub fn get_code_at(&self, outcome: Result<Vec<u8>, String>) -> (r: Result<
        Vec<u8>,
        ConnectionError,
    >)
        ensures
            r == wrap_upstream(outcome),
    {
        match outcome {
            Ok(v) => Ok(v),
            Err(m) => Err(ConnectionError::UpstreamError(m)),
        }
    }

    /// Get a transaction record by hash; the node's answer — `None` when the
    /// transaction is unknown — reaches the caller unchanged, whichever
    /// transport variant is active.
    pub fn get_transaction_by_hash<T>(&self, outcome: Result<Option<T>, String>) -> (r: Result<
        Option<T>,
        ConnectionError,
    >)
        ensures
            r == wrap_upstream(outcome),
    {
        match outcome {
            Ok(v) => Ok(v),
            Err(m) => Err(ConnectionError::UpstreamError(m)),
        }
    }

    /// Parse the hash argument of `trace_replay_transaction`. This runs
    /// before any request is sent: a malformed hash fails with `InvalidHash`
    /// and no round-trip is attempted. A well-formed hash comes back as
    /// exactly the 32 bytes its digits spell, for the caller to hand to the
    /// node.
    pub fn prepare_trace_replay_transaction(tx_hash: &str) -> (r: Result<
        [u8; 32],
        ConnectionError,
    >)
        ensures
            r is Ok <==> is_tx_hash(tx_hash@),
            r matches Ok(b) ==> b@ == tx_hash_bytes(tx_hash@),
            !is_tx_hash(tx_hash@) ==> r matches Err(ConnectionError::InvalidHash),
    {
        match parse_tx_hash(tx_hash) {
            Some(hash) => Ok(hash),
            None => Err(ConnectionError::InvalidHash),
        }
    }

    /// Replay the transaction whose hash went through
    /// `prepare_trace_replay_transaction`; the node's trace reaches the
    /// caller unchanged, whichever transport variant is active.
    pub fn trace_replay_transaction<T>(&self, outcome: Result<T, String>) -> (r: Result<
        T,
        ConnectionError,
    >)
        ensures
            r == wrap_upstream(outcome),
    {
        match outcome {
            Ok(v) => Ok(v),
            Err(m) => Err(ConnectionError::UpstreamError(m)),
        }
    }

    /// Replay all transactions of a block; the node's list of traces reaches
    /// the caller unchanged, whichever transport variant is active.
    pub fn trace_replay_block_transactions<T>(&self, outcome: Result<Vec<T>, String>) -> (r:
        Result<Vec<T>, ConnectionError>)
        ensures
            r == wrap_upstream(outcome),
    {
        match outcome {
            Ok(v) => Ok(v),
            Err(m) => Err(ConnectionError::UpstreamError(m)),
        }
    }

    /// Get the log records matching a filter; the node's list reaches the
    /// caller unchanged, whichever transport variant is active.
    pub fn get_logs<T>(&self, outcome: Result<Vec<T>, String>) -> (r: Result<
        Vec<T>,
        ConnectionError,
    >)
        ensures
            r == wrap_upstream(outcome),
    {
        match outcome {
            Ok(v) => Ok(v),
            Err(m) => Err(ConnectionError::UpstreamError(m)),
        }
    }
}

} // verus!
