use vstd::prelude::*;
use crate::text::{is_tx_hash, tx_hash_bytes};

verus! {

#[verifier::external_type_specification]
#[verifier::external_body]
pub struct ExUrl(url::Url);

/// An owned handle to one of alloy's transport-bound RPC clients: a
/// `RootProvider` on the Ethereum network. Verus refuses to declare that type
/// (its `Network` bound cannot be stated here), so the handle is held behind
/// this opaque struct; nothing in the library reads it.
#[verifier::external_body]
pub struct NodeClient {
    /// The wrapped alloy provider; public so that the unverified rim can
    /// hand clients in and run round-trips on them.
    pub inner: alloy_provider::RootProvider<alloy_network::Ethereum>,
}

/// Whether a string is accepted by the URL parser; acceptance is a function
/// of the string alone.
pub uninterp spec fn url_ok(s: Seq<char>) -> bool;

/// Relies on `url::Url::parse` (the parser behind `reqwest::Url`): whether a
/// string parses as a URL depends on the string alone.
#[verifier::external_body]
pub(crate) fn parse_url(s: &str) -> (r: Option<url::Url>)
    ensures
        r is Some <==> url_ok(s@),
{
    url::Url::parse(s).ok()
}

/// Relies on `alloy_provider::RootProvider::new_http`, which builds an
/// HTTP-backed client from a parsed URL without performing any I/O: HTTP
/// requests are only made later, when a query runs.
#[verifier::external_body]
pub(crate) fn http_provider(url: url::Url) -> NodeClient {
    NodeClient { inner: alloy_provider::RootProvider::new_http(url) }
}

/// Relies on `str::parse::<alloy_primitives::TxHash>` (const-hex decoding
/// behind `FixedBytes::<32>::from_str`): it succeeds exactly on strings of 64
/// hexadecimal digits after an optional `0x`/`0X` prefix, and the parsed
/// hash, handed back as its plain 32 bytes, is the value those digits spell,
/// two digits to a byte, high half first.
#[verifier::external_body]
pub(crate) fn parse_tx_hash(s: &str) -> (r: Option<[u8; 32]>)
    ensures
        r is Some <==> is_tx_hash(s@),
        r matches Some(b) ==> b@ == tx_hash_bytes(s@),
{
    s.parse::<alloy_primitives::TxHash>().ok().map(|h| h.0)
}

} // verus!
