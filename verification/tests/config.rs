use catalyst::config::{config_warnings_for, deprecation_warning, get_env_with_deprecation, split_commas, Config};
use catalyst::env::EnvVars;
use catalyst::settings::address_parse_error;

fn env_of(pairs: &[(&str, &str)]) -> EnvVars {
    let mut env = EnvVars::new();
    for (k, v) in pairs {
        env.set(k, v);
    }
    env
}

fn minimal(extra: &[(&str, &str)]) -> EnvVars {
    let mut env = env_of(&[
        ("CATALYST_NODE_ECDSA_PRIVATE_KEY", "0x01"),
        ("MAX_FORCED_INCLUSIONS_PER_PROPOSAL", "3"),
    ]);
    for (k, v) in extra {
        env.set(k, v);
    }
    env
}

fn error_of(env: &EnvVars) -> String {
    match Config::from_env(env) {
        Ok(_) => panic!("expected an error"),
        Err(e) => e.message(),
    }
}

#[test]
fn defaults_are_applied() {
    let config = Config::from_env(&minimal(&[])).unwrap();
    assert_eq!(config.catalyst_node_ecdsa_private_key.as_deref(), Some("0x01"));
    assert_eq!(config.preconfer_address, None);
    assert_eq!(config.l1_rpc_urls, vec!["wss://127.0.0.1".to_string()]);
    assert_eq!(config.l1_beacon_url, "http://127.0.0.1:4000/");
    assert_eq!(config.l1_beacon_timeout_ms, 1000);
    assert_eq!(config.l1_slot_duration_sec, 12);
    assert_eq!(config.l1_slots_per_epoch, 32);
    assert_eq!(config.preconf_heartbeat_ms, 2000);
    assert_eq!(config.l2_rpc_url, "ws://127.0.0.1:1234");
    assert_eq!(config.l2_ws_rpc_url, "ws://127.0.0.1:1234");
    assert_eq!(config.l2_auth_rpc_url, "http://127.0.0.1:1235");
    assert_eq!(config.l2_driver_url, "http://127.0.0.1:1236");
    assert_eq!(config.jwt_secret_file_path, "/tmp/jwtsecret");
    assert_eq!(config.rpc_driver_preconf_timeout_ms, 60000);
    assert_eq!(
        config.anchor_address,
        [22, 112, 1, 0, 0, 0, 0, 0, 0, 0, 0, 0, 0, 0, 0, 0, 0, 1, 0, 1]
    );
    assert_eq!(config.bridge_l2_address, [0u8; 20]);
    assert_eq!(config.max_bytes_size_of_batch, 650220);
    assert_eq!(config.max_blocks_per_batch, 0);
    assert_eq!(config.max_time_shift_between_blocks_sec, 255);
    assert_eq!(config.max_anchor_height_offset_reduction, 10);
    assert_eq!(config.max_forced_inclusions_per_proposal, 3);
    assert_eq!(config.min_anchor_offset, 2);
    assert_eq!(config.min_priority_fee_per_gas_wei, 1_000_000_000);
    assert_eq!(config.tx_fees_increase_percentage, 0);
    assert_eq!(config.max_attempts_to_send_tx, 4);
    assert_eq!(config.max_attempts_to_wait_tx, 5);
    assert_eq!(config.delay_between_tx_attempts_sec, 63);
    assert_eq!(config.extra_gas_percentage, 100);
    assert_eq!(config.funds_monitor_interval_sec, 60);
    assert_eq!(config.threshold_eth, 500_000_000_000_000_000);
    assert!(config.disable_bridging);
    assert_eq!(config.amount_to_bridge_from_l2_to_l1, 1_000_000_000_000_000_000);
    assert_eq!(config.bridge_relayer_fee, 3_047_459_064_000_000);
    assert_eq!(config.bridge_transaction_fee, 1_000_000_000_000_000);
    assert_eq!(config.max_bytes_per_tx_list, 130044);
    assert_eq!(config.min_bytes_per_tx_list, 8192);
    assert_eq!(config.throttling_factor, 2);
    assert_eq!(config.preconf_min_txs, 3);
    assert_eq!(config.preconf_max_skipped_l2_slots, 2);
    assert_eq!(config.proposal_max_time_sec, 384);
    assert_eq!(config.fork_switch_transition_period_sec, 60);
    assert_eq!(config.shasta_timestamp_sec, 0);
    assert_eq!(config.permissionless_timestamp_sec, 99_999_999_999);
    assert_eq!(config.realtime_timestamp_sec, 99_999_999_999);
    assert_eq!(config.whitelist_monitor_interval_sec, 60);
    assert_eq!(config.watchdog_max_counter, 96);
    assert_eq!(config.internal_server_ip, [0, 0, 0, 0]);
    assert_eq!(config.internal_server_port, 9898);
    assert_eq!(config.blob_indexer_url, None);
}

#[test]
fn values_are_read() {
    let config = Config::from_env(&minimal(&[
        ("L1_BEACON_URL", "http://beacon:5052/"),
        ("L1_RPC_URLS", "wss://a,https://b"),
        ("BLOBS_PER_BATCH", "2"),
        ("INTERNAL_SERVER_IP", "10.0.0.1"),
        ("INTERNAL_SERVER_PORT", "8080"),
        ("DISABLE_BRIDGING", "false"),
        ("THRESHOLD_ETH", "340282366920938463463374607431768211455"),
        ("L2_RPC_URL", "http://l2:8545"),
        ("L2_WS_RPC_URL", "ws://l2:8546"),
        ("BLOB_INDEXER_URL", "http://indexer"),
    ]))
    .unwrap();
    assert_eq!(config.l1_beacon_url, "http://beacon:5052/");
    assert_eq!(config.l1_rpc_urls, vec!["wss://a".to_string(), "https://b".to_string()]);
    assert_eq!(config.max_bytes_size_of_batch, 260088);
    assert_eq!(config.internal_server_ip, [10, 0, 0, 1]);
    assert_eq!(config.internal_server_port, 8080);
    assert!(!config.disable_bridging);
    assert_eq!(config.threshold_eth, u128::MAX);
    assert_eq!(config.l2_rpc_url, "http://l2:8545");
    assert_eq!(config.l2_ws_rpc_url, "ws://l2:8546");
    assert_eq!(config.blob_indexer_url.as_deref(), Some("http://indexer"));
}

#[test]
fn web3signer_setup_is_accepted() {
    let config = Config::from_env(&env_of(&[
        ("WEB3SIGNER_L1_URL", "http://signer1"),
        ("WEB3SIGNER_L2_URL", "http://signer2"),
        ("PRECONFER_ADDRESS", "0x0000000000000000000000000000000000000001"),
        ("MAX_FORCED_INCLUSIONS_PER_PROPOSAL", "0"),
    ]))
    .unwrap();
    let mut expected = [0u8; 20];
    expected[19] = 1;
    assert_eq!(config.preconfer_address, Some(expected));
    assert_eq!(config.web3signer_l1_url.as_deref(), Some("http://signer1"));
    assert_eq!(config.catalyst_node_ecdsa_private_key, None);
}

#[test]
fn missing_signer_is_refused() {
    assert_eq!(
        error_of(&env_of(&[("MAX_FORCED_INCLUSIONS_PER_PROPOSAL", "3")])),
        "When CATALYST_NODE_ECDSA_PRIVATE_KEY is not set, WEB3SIGNER_L1_URL, WEB3SIGNER_L2_URL and PRECONFER_ADDRESS must be set"
    );
}

#[test]
fn both_signers_are_refused() {
    assert_eq!(
        error_of(&minimal(&[("WEB3SIGNER_L1_URL", "http://signer")])),
        "When CATALYST_NODE_ECDSA_PRIVATE_KEY is set, WEB3SIGNER_L1_URL, WEB3SIGNER_L2_URL and PRECONFER_ADDRESS must not be set"
    );
}

#[test]
fn bad_preconfer_address_is_reported_first() {
    assert_eq!(
        error_of(&env_of(&[("PRECONFER_ADDRESS", "0x123")])),
        "Failed to parse PRECONFER_ADDRESS: odd number of digits. Address must be exactly 42 characters (0x followed by 40 hex characters). Got: '0x123' (length: 5)"
    );
}

#[test]
fn not_a_number_is_reported() {
    assert_eq!(
        error_of(&minimal(&[("L1_SLOT_DURATION_SEC", "abc")])),
        "L1_SLOT_DURATION_SEC must be a number: invalid digit found in string"
    );
}

#[test]
fn zero_slot_duration_is_refused() {
    assert_eq!(
        error_of(&minimal(&[("L1_SLOT_DURATION_SEC", "0")])),
        "L1_SLOT_DURATION_SEC must be a positive number"
    );
}

#[test]
fn first_failing_setting_decides() {
    assert_eq!(
        error_of(&minimal(&[("L1_SLOT_DURATION_SEC", "0"), ("L1_BEACON_TIMEOUT_MS", "")])),
        "L1_BEACON_TIMEOUT_MS must be a number: cannot parse integer from empty string"
    );
}

#[test]
fn forced_inclusion_limit_is_required() {
    assert_eq!(
        error_of(&env_of(&[("CATALYST_NODE_ECDSA_PRIVATE_KEY", "0x01")])),
        "MAX_FORCED_INCLUSIONS_PER_PROPOSAL must be set: environment variable not found"
    );
}

#[test]
fn forced_inclusion_limit_must_fit_u16() {
    assert_eq!(
        error_of(&minimal(&[("MAX_FORCED_INCLUSIONS_PER_PROPOSAL", "70000")])),
        "MAX_FORCED_INCLUSIONS_PER_PROPOSAL must be a number: number too large to fit in target type"
    );
}

#[test]
fn min_anchor_offset_must_be_positive() {
    assert_eq!(
        error_of(&minimal(&[("MIN_ANCHOR_OFFSET", "0")])),
        "MIN_ANCHOR_OFFSET must be at least 1, but got 0."
    );
}

#[test]
fn low_priority_fee_is_refused() {
    assert_eq!(
        error_of(&minimal(&[("MIN_PRIORITY_FEE_PER_GAS_WEI", "999999999")])),
        "MIN_PRIORITY_FEE_PER_GAS_WEI is less than 1 Gwei! It must be at least 1,000,000,000 wei."
    );
}

#[test]
fn batch_size_overflow_is_refused() {
    assert_eq!(
        error_of(&minimal(&[("BLOBS_PER_BATCH", "18446744073709551615")])),
        "Overflow while computing BLOBS_PER_BATCH * BLOB_MAX_DATA_SIZE. Try to reduce BLOBS_PER_BATCH"
    );
}

#[test]
fn bad_boolean_is_refused() {
    assert_eq!(
        error_of(&minimal(&[("DISABLE_BRIDGING", "yes")])),
        "DISABLE_BRIDGING must be a boolean: provided string was not `true` or `false`"
    );
}

#[test]
fn bad_ip_is_refused() {
    assert_eq!(
        error_of(&minimal(&[("INTERNAL_SERVER_IP", "localhost")])),
        "INTERNAL_SERVER_IP must be a valid IPv4 address: invalid IPv4 address syntax"
    );
}

#[test]
fn http_l2_url_without_websocket_url_is_refused() {
    assert_eq!(
        error_of(&minimal(&[("L2_RPC_URL", "http://l2:8545")])),
        "L2_WS_RPC_URL must be set to a ws:// or wss:// URL when L2_RPC_URL does not use WebSocket"
    );
}

#[test]
fn deprecated_names_are_used() {
    let config = Config::from_env(&minimal(&[
        ("TAIKO_ANCHOR_ADDRESS", "0x0000000000000000000000000000000000000002"),
        ("TAIKO_GETH_RPC_URL", "wss://old.example"),
        ("L2_DRIVER_URL", "http://new-driver"),
        ("TAIKO_DRIVER_URL", "http://old-driver"),
    ]))
    .unwrap();
    let mut expected = [0u8; 20];
    expected[19] = 2;
    assert_eq!(config.anchor_address, expected);
    assert_eq!(config.l2_rpc_url, "wss://old.example");
    assert_eq!(config.l2_ws_rpc_url, "wss://old.example");
    assert_eq!(config.l2_driver_url, "http://new-driver");
}

#[test]
fn bad_anchor_address_message() {
    assert_eq!(
        error_of(&minimal(&[("ANCHOR_ADDRESS", "0xzz00000000000000000000000000000000000000")])),
        "Failed to parse ANCHOR_ADDRESS: invalid character 'z' at position 0. Address must be exactly 42 characters (0x followed by 40 hex characters). Got: '0xzz00000000000000000000000000000000000000' (length: 42)"
    );
}

#[test]
fn deprecation_lookup_and_warnings() {
    let env = env_of(&[("NEW", "n"), ("OLD", "o"), ("ONLY_OLD", "x")]);
    assert_eq!(get_env_with_deprecation(&env, "NEW", "OLD").as_deref(), Some("n"));
    assert_eq!(get_env_with_deprecation(&env, "MISSING", "ONLY_OLD").as_deref(), Some("x"));
    assert_eq!(get_env_with_deprecation(&env, "MISSING", "ALSO_MISSING"), None);
    assert_eq!(
        deprecation_warning(&env, "NEW", "OLD").as_deref(),
        Some("Both NEW and deprecated OLD are set; using NEW")
    );
    assert_eq!(
        deprecation_warning(&env, "MISSING", "ONLY_OLD").as_deref(),
        Some("ONLY_OLD is deprecated and will be removed in a future release; use MISSING instead")
    );
    assert_eq!(deprecation_warning(&env, "NEW", "MISSING"), None);
}

#[test]
fn warnings_for_defaults() {
    let warnings = config_warnings_for(&minimal(&[
        ("MAX_ANCHOR_HEIGHT_OFFSET_REDUCTION_VALUE", "3"),
        ("TAIKO_GETH_RPC_URL", "wss://old"),
        ("L2_AUTH_RPC_URL", "http://auth"),
        ("L2_DRIVER_URL", "http://driver"),
        ("JWT_SECRET_FILE_PATH", "/secret"),
    ]));
    assert_eq!(
        warnings,
        vec![
            "No L1 beacon URL found in L1_BEACON_URL env var, using default".to_string(),
            "No Bridge contract address found in BRIDGE_L2_ADDRESS env var, using default".to_string(),
            "MAX_ANCHOR_HEIGHT_OFFSET_REDUCTION_VALUE is less than 5: you have a small number of slots to call the proposeBatch transaction".to_string(),
            "TAIKO_GETH_RPC_URL is deprecated and will be removed in a future release; use L2_RPC_URL instead".to_string(),
        ]
    );
}

#[test]
fn later_entries_override_earlier_ones() {
    let mut env = EnvVars::new();
    env.set("A", "1");
    env.set("A", "2");
    assert_eq!(env.get("A").as_deref(), Some("2"));
    assert_eq!(env.get("B"), None);
}

#[test]
fn commas_split_like_str_split() {
    assert_eq!(split_commas(""), vec!["".to_string()]);
    assert_eq!(split_commas("a,,b,"), vec!["a".to_string(), "".to_string(), "b".to_string(), "".to_string()]);
}

#[test]
fn address_parse_error_message() {
    let e = address_parse_error("ANCHOR_ADDRESS", "invalid string length", "0x12");
    assert_eq!(
        e.message(),
        "Failed to parse ANCHOR_ADDRESS: invalid string length. Address must be exactly 42 characters (0x followed by 40 hex characters). Got: '0x12' (length: 4)"
    );
    let e = address_parse_error("X", "bad", "é");
    assert!(e.message().ends_with("Got: 'é' (length: 2)"));
}

#[test]
fn warnings_stop_at_the_first_invalid_setting() {
    // An invalid slot duration stops the reading before the JWT path.
    let warnings = config_warnings_for(&minimal(&[("L1_SLOT_DURATION_SEC", "0"), ("TAIKO_GETH_RPC_URL", "wss://old")]));
    assert_eq!(warnings, vec!["No L1 beacon URL found in L1_BEACON_URL env var, using default".to_string()]);

    // A bad anchor address stops it after the anchor's deprecation warning.
    let warnings = config_warnings_for(&minimal(&[
        ("L1_BEACON_URL", "http://beacon"),
        ("JWT_SECRET_FILE_PATH", "/secret"),
        ("TAIKO_ANCHOR_ADDRESS", "0x12"),
        ("TAIKO_GETH_RPC_URL", "wss://old"),
    ]));
    assert_eq!(
        warnings,
        vec!["TAIKO_ANCHOR_ADDRESS is deprecated and will be removed in a future release; use ANCHOR_ADDRESS instead".to_string()]
    );

    // A missing signer setup stops it before any warning.
    let mut env = EnvVars::new();
    env.set("MAX_FORCED_INCLUSIONS_PER_PROPOSAL", "3");
    assert!(config_warnings_for(&env).is_empty());

    // A missing forced-inclusion limit stops it after the reduction warning.
    let mut env = EnvVars::new();
    env.set("CATALYST_NODE_ECDSA_PRIVATE_KEY", "0x01");
    env.set("MAX_ANCHOR_HEIGHT_OFFSET_REDUCTION_VALUE", "1");
    env.set("L1_BEACON_URL", "http://beacon");
    env.set("JWT_SECRET_FILE_PATH", "/secret");
    env.set("BRIDGE_L2_ADDRESS", "0x0000000000000000000000000000000000000000");
    assert_eq!(
        config_warnings_for(&env),
        vec!["MAX_ANCHOR_HEIGHT_OFFSET_REDUCTION_VALUE is less than 5: you have a small number of slots to call the proposeBatch transaction".to_string()]
    );

    // An L2 RPC URL over http with no WebSocket URL stops it before the auth URL.
    let warnings = config_warnings_for(&minimal(&[
        ("L1_BEACON_URL", "http://beacon"),
        ("JWT_SECRET_FILE_PATH", "/secret"),
        ("BRIDGE_L2_ADDRESS", "0x0000000000000000000000000000000000000000"),
        ("L2_RPC_URL", "http://l2"),
    ]));
    assert!(warnings.is_empty());
}
