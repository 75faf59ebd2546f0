use catalyst::protocol_config::{ProtocolConfig, RefreshOutcome};

#[test]
fn clones_share_the_basefee_sharing_pctg() {
    let config = ProtocolConfig::new(75, 128, 1536);
    let block_advancer_copy = config.clone();

    assert_eq!(config.set_basefee_sharing_pctg(100), 75);

    assert_eq!(config.get_basefee_sharing_pctg(), 100);
    assert_eq!(block_advancer_copy.get_basefee_sharing_pctg(), 100);
}

#[test]
fn refresh_tracks_the_inbox_and_keeps_the_last_value_on_errors() {
    let config = ProtocolConfig::new(75, 128, 1536);

    // The inbox is upgraded: the next tick picks the new percentage up.
    assert_eq!(config.get_basefee_sharing_pctg(), 75);
    let outcome = config.apply_refresh(Ok(100));
    assert!(matches!(outcome, RefreshOutcome::Changed { previous: 75, current: 100 }));
    assert_eq!(config.get_basefee_sharing_pctg(), 100);

    // A failed read keeps the last value.
    let outcome = config.apply_refresh(Err("rpc down".to_string()));
    assert!(matches!(outcome, RefreshOutcome::Kept { value: 100, .. }));
    assert_eq!(config.get_basefee_sharing_pctg(), 100);
}

#[test]
fn offsets_are_kept() {
    let config = ProtocolConfig::new(50, 128, 1536);
    assert_eq!(config.get_max_anchor_height_offset(), 128);
    assert_eq!(config.get_timestamp_max_offset(), 1536);
    let shared = config.clone();
    assert_eq!(shared.get_max_anchor_height_offset(), 128);
    assert_eq!(shared.get_timestamp_max_offset(), 1536);
    shared.set_basefee_sharing_pctg(7);
    assert_eq!(config.get_basefee_sharing_pctg(), 7);
}

#[test]
fn unchanged_refresh_logs_nothing() {
    let config = ProtocolConfig::new(75, 1, 1);
    let outcome = config.apply_refresh(Ok(75));
    assert!(matches!(outcome, RefreshOutcome::Unchanged { value: 75 }));
    assert_eq!(outcome.log_message(), None);
}

#[test]
fn refresh_log_messages() {
    let config = ProtocolConfig::new(75, 1, 1);
    let changed = config.apply_refresh(Ok(12));
    assert_eq!(
        changed.log_message().unwrap(),
        "Inbox basefee sharing percentage changed from 75 to 12; blocks built from now on carry the new value"
    );
    let kept = config.apply_refresh(Err("inbox lock".to_string()));
    assert_eq!(
        kept.log_message().unwrap(),
        "Failed to refresh the basefee sharing percentage from the inbox, keeping 12: inbox lock"
    );
}

#[test]
fn default_config_is_zero() {
    let config = ProtocolConfig::default();
    assert_eq!(config.get_basefee_sharing_pctg(), 0);
    assert_eq!(config.get_max_anchor_height_offset(), 0);
    assert_eq!(config.get_timestamp_max_offset(), 0);
}

#[test]
fn clones_of_clones_keep_the_offsets() {
    let config = ProtocolConfig::new(10, 64, 768);
    let first = config.clone();
    let second = first.clone();
    first.set_basefee_sharing_pctg(90);
    let _ = second.apply_refresh(Ok(33));
    for c in [&config, &first, &second] {
        assert_eq!(c.get_max_anchor_height_offset(), 64);
        assert_eq!(c.get_timestamp_max_offset(), 768);
        assert_eq!(c.get_basefee_sharing_pctg(), 33);
    }
}
