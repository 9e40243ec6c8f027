use vstd::prelude::*;

verus! {

/// The ways connecting to a node or querying it can fail.
#[derive(Debug, PartialEq, Eq)]
pub enum ConnectionError {
    /// `connect` was given an empty endpoint string.
    MissingEndpoint,
    /// The endpoint selected the HTTP transport but is not a well-formed URL.
    InvalidUrl,
    /// The WebSocket or IPC handshake failed; holds the handshake error's message.
    TransportUnavailable(String),
    /// A string that should hold a transaction hash does not parse as one.
    InvalidHash,
    /// The underlying RPC client reported an error while answering a query;
    /// holds its message unchanged.
    UpstreamError(String),
}

/// What a query operation hands back once the transport has answered: the
/// payload unchanged on success, or the transport's error message wrapped as
/// `UpstreamError`. Every query operation returns exactly this, whichever
/// transport variant is active.
pub open spec fn wrap_upstream<T>(outcome: Result<T, String>) -> Result<T, ConnectionError> {
    match outcome {
        Ok(v) => Ok(v),
        Err(m) => Err(ConnectionError::UpstreamError(m)),
    }
}

/// A successful answer from the transport reaches the caller unchanged.
pub proof fn lemma_upstream_value_passed_through<T>(v: T)
    ensures
        wrap_upstream::<T>(Ok(v)) == Ok::<T, ConnectionError>(v),
{
}

/// A transport error reaches the caller with its message unchanged, wrapped
/// only as `UpstreamError`.
pub proof fn lemma_upstream_cause_preserved<T>(m: String)
    ensures
        wrap_upstream::<T>(Err(m)) == Err::<T, ConnectionError>(ConnectionError::UpstreamError(m)),
{
}

} // verus!
