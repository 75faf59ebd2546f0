use catalyst::config::{choose_l2_ws_rpc_url, resolve_l2_ws_rpc_url};
use catalyst::rpc_url::ParsedUrl;

#[test]
fn explicit_l2_ws_rpc_url_is_used_with_http_rpc() {
    let resolved = resolve_l2_ws_rpc_url(
        "http://127.0.0.1:8545",
        Some("ws://127.0.0.1:8546".to_string()),
    )
    .unwrap();

    assert_eq!(resolved, "ws://127.0.0.1:8546");
}

#[test]
fn legacy_websocket_l2_rpc_url_is_reused() {
    let resolved = resolve_l2_ws_rpc_url("wss://l2.example", None).unwrap();

    assert_eq!(resolved, "wss://l2.example");
}

#[test]
fn empty_l2_ws_rpc_url_reuses_legacy_websocket_l2_rpc_url() {
    let resolved = resolve_l2_ws_rpc_url("wss://l2.example", Some(String::new())).unwrap();

    assert_eq!(resolved, "wss://l2.example");
}

#[test]
fn http_l2_rpc_url_requires_explicit_websocket_url() {
    let error = resolve_l2_ws_rpc_url("https://l2.example", None)
        .unwrap_err()
        .message();

    assert!(error.contains("L2_WS_RPC_URL must be set"));
}

#[test]
fn malformed_l2_rpc_url_is_rejected_with_explicit_websocket_url() {
    let error = resolve_l2_ws_rpc_url("not a valid URL", Some("wss://l2.example".to_string()))
        .unwrap_err()
        .message();

    assert!(error.contains("L2_RPC_URL must be a valid URL"));
}

#[test]
fn l2_rpc_url_rejects_unsupported_scheme() {
    let error = resolve_l2_ws_rpc_url("ftp://l2.example", Some("wss://l2.example".to_string()))
        .unwrap_err()
        .message();

    assert!(error.contains("L2_RPC_URL must use the http, https, ws or wss scheme"));
}

#[test]
fn explicit_l2_ws_rpc_url_rejects_non_websocket_scheme() {
    let error = resolve_l2_ws_rpc_url(
        "http://127.0.0.1:8545",
        Some("http://127.0.0.1:8546".to_string()),
    )
    .unwrap_err()
    .message();

    assert!(error.contains("L2_WS_RPC_URL must use the ws or wss scheme"));
}

#[test]
fn explicit_l2_ws_rpc_url_rejects_malformed_url() {
    let error =
        resolve_l2_ws_rpc_url("http://127.0.0.1:8545", Some("not a valid URL".to_string()))
            .unwrap_err()
            .message();

    assert!(error.contains("L2_WS_RPC_URL must be a valid URL"));
}

#[test]
fn blank_l2_ws_rpc_url_is_ignored() {
    let resolved = resolve_l2_ws_rpc_url("ws://l2.example", Some("  \t ".to_string())).unwrap();
    assert_eq!(resolved, "ws://l2.example");
}

#[test]
fn unsupported_scheme_error_names_the_scheme() {
    let error = resolve_l2_ws_rpc_url("ftp://l2.example", None).unwrap_err().message();
    assert_eq!(error, "L2_RPC_URL must use the http, https, ws or wss scheme, got 'ftp'");
}

#[test]
fn non_websocket_scheme_error_names_the_scheme() {
    let error = resolve_l2_ws_rpc_url("ws://l2.example", Some("https://x.example".to_string()))
        .unwrap_err()
        .message();
    assert_eq!(error, "L2_WS_RPC_URL must use the ws or wss scheme, got 'https'");
}

#[test]
fn missing_websocket_url_message_is_exact() {
    let error = resolve_l2_ws_rpc_url("http://l2.example", None).unwrap_err().message();
    assert_eq!(
        error,
        "L2_WS_RPC_URL must be set to a ws:// or wss:// URL when L2_RPC_URL does not use WebSocket"
    );
}

#[test]
fn invalid_url_error_carries_the_parser_text() {
    let error = resolve_l2_ws_rpc_url("not a valid URL", None).unwrap_err().message();
    assert_eq!(error, "L2_RPC_URL must be a valid URL: relative URL without a base");
}

#[test]
fn ws_url_is_chosen_from_parse_outcomes() {
    let parsed = |scheme: &str, text: &str| Ok(ParsedUrl { scheme: scheme.to_string(), serialization: text.to_string() });
    assert_eq!(choose_l2_ws_rpc_url("ws://l2", parsed("ws", "ws://l2/"), None).unwrap(), "ws://l2");
    assert_eq!(
        choose_l2_ws_rpc_url("http://l2", parsed("http", "http://l2/"), Some(("wss://sub".to_string(), parsed("wss", "wss://sub/"))))
            .unwrap(),
        "wss://sub"
    );
    assert_eq!(
        choose_l2_ws_rpc_url("http://l2", parsed("http", "http://l2/"), None).unwrap_err().message(),
        "L2_WS_RPC_URL must be set to a ws:// or wss:// URL when L2_RPC_URL does not use WebSocket"
    );
    assert_eq!(
        choose_l2_ws_rpc_url("x", Err("bad".to_string()), None).unwrap_err().message(),
        "L2_RPC_URL must be a valid URL: bad"
    );
    assert_eq!(
        choose_l2_ws_rpc_url("http://l2", parsed("http", "http://l2/"), Some(("https://sub".to_string(), parsed("https", "https://sub/"))))
            .unwrap_err()
            .message(),
        "L2_WS_RPC_URL must use the ws or wss scheme, got 'https'"
    );
}
