use catalyst::rpc_url::{parse_rpc_transport, transport_from_parsed, ParsedUrl, RpcTransport, RpcUrlError};

#[test]
fn http_url_with_websocket_text_in_path_uses_http_transport() {
    let transport = parse_rpc_transport("RPC URL", "https://l2.example/ws://archive").unwrap();

    assert!(matches!(transport, RpcTransport::Http(_)));
}

#[test]
fn websocket_url_with_whitespace_is_normalized() {
    let transport = parse_rpc_transport("RPC URL", "  ws://127.0.0.1:1234  ").unwrap();
    match transport {
        RpcTransport::WebSocket(url) => assert_eq!(url, "ws://127.0.0.1:1234/"),
        RpcTransport::Http(_) => panic!("expected a WebSocket transport"),
    }
}

#[test]
fn wss_url_uses_websocket_transport() {
    let transport = parse_rpc_transport("RPC URL", "wss://l2.example").unwrap();
    assert!(matches!(transport, RpcTransport::WebSocket(_)));
}

#[test]
fn http_url_keeps_its_normalized_form() {
    let transport = parse_rpc_transport("RPC URL", "HTTP://L2.Example:8545").unwrap();
    match transport {
        RpcTransport::Http(url) => assert_eq!(url, "http://l2.example:8545/"),
        RpcTransport::WebSocket(_) => panic!("expected an HTTP transport"),
    }
}

#[test]
fn blank_url_is_refused() {
    let error = parse_rpc_transport("RPC URL", "   ").unwrap_err();
    assert_eq!(error.message(), "RPC URL must not be empty");
}

#[test]
fn empty_url_is_refused() {
    let error = parse_rpc_transport("L1 RPC URL", "").unwrap_err();
    assert_eq!(error.message(), "L1 RPC URL must not be empty");
}

#[test]
fn unparsable_url_is_refused() {
    let error = parse_rpc_transport("RPC URL", "not a url").unwrap_err();
    assert_eq!(error.message(), "RPC URL must be a valid URL: relative URL without a base");
}

#[test]
fn other_scheme_is_refused() {
    let error = parse_rpc_transport("RPC URL", "ftp://l2.example").unwrap_err();
    assert_eq!(
        error.message(),
        "RPC URL must use the http, https, ws or wss scheme, got 'ftp'"
    );
}

#[test]
fn transport_is_decided_from_the_parsed_url() {
    let parsed = |scheme: &str, text: &str| Ok(ParsedUrl { scheme: scheme.to_string(), serialization: text.to_string() });
    match transport_from_parsed("RPC URL", parsed("https", "https://a/")).unwrap() {
        RpcTransport::Http(u) => assert_eq!(u, "https://a/"),
        RpcTransport::WebSocket(_) => panic!("expected HTTP"),
    }
    match transport_from_parsed("RPC URL", parsed("wss", "wss://a/")).unwrap() {
        RpcTransport::WebSocket(u) => assert_eq!(u, "wss://a/"),
        RpcTransport::Http(_) => panic!("expected WebSocket"),
    }
    let e = transport_from_parsed("RPC URL", parsed("ftp", "ftp://a/")).unwrap_err();
    assert!(matches!(&e, RpcUrlError::UnsupportedScheme { scheme, .. } if scheme == "ftp"));
    assert_eq!(e.message(), "RPC URL must use the http, https, ws or wss scheme, got 'ftp'");
    let e = transport_from_parsed("RPC URL", Err("relative URL without a base".to_string())).unwrap_err();
    assert_eq!(e.message(), "RPC URL must be a valid URL: relative URL without a base");
}
