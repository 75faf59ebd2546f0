use catalyst::config::Config;
use catalyst::env::EnvVars;
use catalyst::node_setup::{batch_builder_config, check_max_blocks_to_reanchor, main_l1_rpc_url, REALTIME_MAX_ANCHOR_HEIGHT_OFFSET};

fn config(extra: &[(&str, &str)]) -> Config {
    let mut env = EnvVars::new();
    env.set("CATALYST_NODE_ECDSA_PRIVATE_KEY", "0x01");
    env.set("MAX_FORCED_INCLUSIONS_PER_PROPOSAL", "2");
    for (k, v) in extra {
        env.set(k, v);
    }
    Config::from_env(&env).unwrap()
}

#[test]
fn default_blocks_per_batch_comes_from_the_protocol() {
    let c = config(&[]);
    let b = batch_builder_config(&c, 128, [1u8; 20], 768).unwrap();
    assert_eq!(b.max_blocks_per_batch, 768);
    assert_eq!(b.max_anchor_height_offset, 118);
    assert_eq!(b.max_bytes_size_of_batch, 650220);
    assert_eq!(b.default_coinbase, [1u8; 20]);
    assert_eq!(b.max_forced_inclusions, 2);
    assert_eq!(b.preconf_min_txs, 3);
}

#[test]
fn configured_blocks_per_batch_wins() {
    let c = config(&[("MAX_BLOCKS_PER_BATCH", "12")]);
    let b = batch_builder_config(&c, REALTIME_MAX_ANCHOR_HEIGHT_OFFSET, [0u8; 20], 768).unwrap();
    assert_eq!(b.max_blocks_per_batch, 12);
    assert_eq!(b.max_anchor_height_offset, 246);
}

#[test]
fn protocol_limit_must_fit_u16() {
    let c = config(&[]);
    let e = batch_builder_config(&c, 128, [0u8; 20], 70000).unwrap_err();
    assert_eq!(e.message(), "out of range integral type conversion attempted");
    assert_eq!(e.message(), u16::try_from(70000u64).unwrap_err().to_string());
}

#[test]
fn reanchor_limit_is_checked() {
    assert!(check_max_blocks_to_reanchor(10, 11).is_ok());
    assert_eq!(
        check_max_blocks_to_reanchor(11, 11).unwrap_err().message(),
        "MAX_BLOCKS_TO_REANCHOR (11) must be less than TIMESTAMP_MAX_OFFSET (11)"
    );
}

#[test]
fn first_l1_rpc_url_is_the_main_one() {
    let c = config(&[("L1_RPC_URLS", "http://a,http://b")]);
    assert_eq!(main_l1_rpc_url(&c).unwrap(), "http://a");
    let mut empty = config(&[]);
    empty.l1_rpc_urls.clear();
    assert_eq!(main_l1_rpc_url(&empty).unwrap_err().message(), "L1 RPC URL is required");
}
