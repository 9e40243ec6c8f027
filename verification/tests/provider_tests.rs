use alloy_provider::RootProvider;
use alloy_network::Ethereum;
use ether_provider::errors::ConnectionError;
use ether_provider::provider::{ConnectStep, MultiTransportProvider};
use ether_provider::rpc::NodeClient;

fn local_client() -> NodeClient {
    let url = url::Url::parse("http://localhost:8545").unwrap();
    NodeClient { inner: RootProvider::<Ethereum>::new_http(url) }
}

fn three_variants() -> Vec<MultiTransportProvider> {
    vec![
        MultiTransportProvider::Http(local_client()),
        MultiTransportProvider::Ws(local_client()),
        MultiTransportProvider::Ipc(local_client()),
    ]
}

#[test]
fn http_endpoint_selects_http() {
    let r = MultiTransportProvider::connect("http://localhost:8545");
    assert!(matches!(
        r,
        Ok(ConnectStep::Ready(MultiTransportProvider::Http(_)))
    ));
}

#[test]
fn http_detection_is_case_insensitive() {
    let r = MultiTransportProvider::connect("HTTP://EXAMPLE.COM/");
    assert!(matches!(
        r,
        Ok(ConnectStep::Ready(MultiTransportProvider::Http(_)))
    ));
}

#[test]
fn http_takes_precedence_over_ws() {
    // Contains both "http" and "ws"; the HTTP check runs first.
    let r = MultiTransportProvider::connect("https://node.example/ws-proxy");
    assert!(matches!(
        r,
        Ok(ConnectStep::Ready(MultiTransportProvider::Http(_)))
    ));
}

#[test]
fn ws_endpoint_selects_websocket() {
    let r = MultiTransportProvider::connect("ws://node.example:8546");
    match r {
        Ok(ConnectStep::NeedsWs(e)) => assert_eq!(e, "ws://node.example:8546"),
        other => panic!("expected NeedsWs, got {:?}", other.is_ok()),
    }
}

#[test]
fn ws_detection_is_case_insensitive() {
    let r = MultiTransportProvider::connect("WS://NODE.EXAMPLE");
    assert!(matches!(r, Ok(ConnectStep::NeedsWs(_))));
}

#[test]
fn wss_endpoint_selects_websocket() {
    let r = MultiTransportProvider::connect("wss://NODE.example");
    assert!(matches!(r, Ok(ConnectStep::NeedsWs(_))));
}

#[test]
fn plain_path_selects_ipc() {
    let r = MultiTransportProvider::connect("/tmp/reth.ipc");
    match r {
        Ok(ConnectStep::NeedsIpc(e)) => assert_eq!(e, "/tmp/reth.ipc"),
        _ => panic!("expected NeedsIpc"),
    }
}

#[test]
fn empty_endpoint_is_missing() {
    let r = MultiTransportProvider::connect("");
    assert!(matches!(r, Err(ConnectionError::MissingEndpoint)));
}

#[test]
fn malformed_http_url_is_invalid() {
    let r = MultiTransportProvider::connect("http://[malformed");
    assert!(matches!(r, Err(ConnectionError::InvalidUrl)));
}

#[test]
fn finish_ws_wraps_handshake_failure() {
    let r = MultiTransportProvider::finish_ws(Err("handshake refused".to_string()));
    match r {
        Err(ConnectionError::TransportUnavailable(m)) => assert_eq!(m, "handshake refused"),
        _ => panic!("expected TransportUnavailable"),
    }
}

#[test]
fn finish_ws_yields_ws_variant() {
    let r = MultiTransportProvider::finish_ws(Ok(local_client()));
    assert!(matches!(r, Ok(MultiTransportProvider::Ws(_))));
}

#[test]
fn finish_ipc_yields_ipc_variant() {
    let r = MultiTransportProvider::finish_ipc(Ok(local_client()));
    assert!(matches!(r, Ok(MultiTransportProvider::Ipc(_))));
}

#[test]
fn chain_id_is_identical_across_variants() {
    for p in three_variants() {
        assert_eq!(p.get_chainid(Ok(1337)), Ok(1337));
    }
}

#[test]
fn block_number_passes_through() {
    for p in three_variants() {
        assert_eq!(p.get_block_number(Ok(123_456)), Ok(123_456));
    }
}

#[test]
fn empty_code_is_not_an_error() {
    for p in three_variants() {
        assert_eq!(p.get_code_at(Ok(vec![])), Ok(vec![]));
    }
}

#[test]
fn code_bytes_pass_through() {
    let p = &three_variants()[0];
    assert_eq!(p.get_code_at(Ok(vec![0x60, 0x80])), Ok(vec![0x60, 0x80]));
}

#[test]
fn missing_transaction_stays_none() {
    let p = &three_variants()[0];
    assert_eq!(p.get_transaction_by_hash::<u32>(Ok(None)), Ok(None));
}

#[test]
fn found_transaction_passes_through() {
    let p = &three_variants()[0];
    assert_eq!(
        p.get_transaction_by_hash(Ok(Some("record".to_string()))),
        Ok(Some("record".to_string()))
    );
}

#[test]
fn malformed_hash_is_rejected_before_any_call() {
    let r = MultiTransportProvider::prepare_trace_replay_transaction("not-a-hash");
    assert!(matches!(r, Err(ConnectionError::InvalidHash)));
}

#[test]
fn short_hash_is_rejected() {
    let h = format!("0x{}", "ab".repeat(31));
    let r = MultiTransportProvider::prepare_trace_replay_transaction(&h);
    assert!(matches!(r, Err(ConnectionError::InvalidHash)));
}

#[test]
fn well_formed_hash_is_parsed() {
    let h = format!("0x{}ff", "00".repeat(31));
    let r = MultiTransportProvider::prepare_trace_replay_transaction(&h);
    let mut expected = [0u8; 32];
    expected[31] = 0xff;
    assert_eq!(r, Ok(expected));
}

#[test]
fn unprefixed_hash_is_parsed() {
    let h = "11".repeat(32);
    let r = MultiTransportProvider::prepare_trace_replay_transaction(&h);
    assert_eq!(r, Ok([0x11u8; 32]));
}

#[test]
fn uppercase_prefix_is_accepted() {
    let h = format!("0X{}", "2a".repeat(32));
    let r = MultiTransportProvider::prepare_trace_replay_transaction(&h);
    assert_eq!(r, Ok([0x2au8; 32]));
}

#[test]
fn trace_result_passes_through() {
    let p = &three_variants()[0];
    assert_eq!(
        p.trace_replay_transaction(Ok("trace".to_string())),
        Ok("trace".to_string())
    );
}

#[test]
fn block_traces_pass_through() {
    let p = &three_variants()[0];
    assert_eq!(
        p.trace_replay_block_transactions(Ok(vec![1u64, 2, 3])),
        Ok(vec![1u64, 2, 3])
    );
}

#[test]
fn logs_pass_through() {
    let p = &three_variants()[0];
    assert_eq!(
        p.get_logs(Ok(vec!["log".to_string()])),
        Ok(vec!["log".to_string()])
    );
}

#[test]
fn upstream_errors_keep_their_cause() {
    let boom = || Err::<u64, String>("boom".to_string());
    let wrapped = Err(ConnectionError::UpstreamError("boom".to_string()));
    for p in three_variants() {
        assert_eq!(p.get_chainid(boom()), wrapped);
        assert_eq!(p.get_block_number(boom()), wrapped);
    }
    let p = &three_variants()[0];
    assert_eq!(
        p.get_code_at(Err("boom".to_string())),
        Err(ConnectionError::UpstreamError("boom".to_string()))
    );
    assert_eq!(
        p.get_transaction_by_hash::<u32>(Err("boom".to_string())),
        Err(ConnectionError::UpstreamError("boom".to_string()))
    );
    assert_eq!(
        p.trace_replay_transaction::<u32>(Err("boom".to_string())),
        Err(ConnectionError::UpstreamError("boom".to_string()))
    );
    assert_eq!(
        p.trace_replay_block_transactions::<u32>(Err("boom".to_string())),
        Err(ConnectionError::UpstreamError("boom".to_string()))
    );
    assert_eq!(
        p.get_logs::<u32>(Err("boom".to_string())),
        Err(ConnectionError::UpstreamError("boom".to_string()))
    );
}
