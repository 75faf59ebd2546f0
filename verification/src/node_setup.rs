//! The decisions taken while a node is set up: the limits its proposals are
//! built within, and the checks on its reanchoring settings.
use vstd::prelude::*;
use crate::config::Config;
use crate::proposal_manager::BatchBuilderConfig;
use crate::text::{decimal, append_decimal};

verus! {

/// An error while setting a node up: the message the node reports.
#[derive(Debug)]
pub struct SetupError {
    pub message: String,
}

impl SetupError {
    /// The error's text.
    pub fn message(&self) -> (r: String)
        ensures
            r@ == self.message@,
    {
        self.message.clone()
    }
}

/// The anchor height offset a realtime node works with.
pub const REALTIME_MAX_ANCHOR_HEIGHT_OFFSET: u64 = 256;

/// The maximum number of blocks per batch: the configured one, or, when it is
/// 0, the protocol's limit of blocks per derivation source.
pub open spec fn max_blocks_per_batch_spec(configured: u16, derivation_source_max_blocks: u64) -> Option<u16> {
    if configured != 0 {
        Some(configured)
    } else if derivation_source_max_blocks <= u16::MAX {
        Some(derivation_source_max_blocks as u16)
    } else {
        None
    }
}

/// The limits proposals are built within, from the node configuration, the
/// protocol's anchor height offset limit and the preconfer's address.
pub open spec fn batch_builder_config_spec(
    config: Config,
    max_anchor_height_offset: u64,
    default_coinbase: Seq<u8>,
    max_blocks_per_batch: u16,
    r: BatchBuilderConfig,
) -> bool {
    &&& r.max_bytes_size_of_batch == config.max_bytes_size_of_batch
    &&& r.max_blocks_per_batch == max_blocks_per_batch
    &&& r.l1_slot_duration_sec == config.l1_slot_duration_sec
    &&& r.max_time_shift_between_blocks_sec == config.max_time_shift_between_blocks_sec
    &&& r.max_anchor_height_offset == max_anchor_height_offset - config.max_anchor_height_offset_reduction
    &&& r.default_coinbase@ == default_coinbase
    &&& r.preconf_min_txs == config.preconf_min_txs
    &&& r.preconf_max_skipped_l2_slots == config.preconf_max_skipped_l2_slots
    &&& r.proposal_max_time_sec == config.proposal_max_time_sec
    &&& r.max_forced_inclusions == config.max_forced_inclusions_per_proposal
}

/// Builds the proposal limits; fails when the number of blocks per batch is
/// left at 0 and the protocol's limit does not fit in a `u16`.
pub fn batch_builder_config(
    config: &Config,
    max_anchor_height_offset: u64,
    default_coinbase: [u8; 20],
    derivation_source_max_blocks: u64,
) -> (r: Result<BatchBuilderConfig, SetupError>)
    requires
        config.max_anchor_height_offset_reduction <= max_anchor_height_offset,
    ensures
        match r {
            Ok(c) => max_blocks_per_batch_spec(config.max_blocks_per_batch, derivation_source_max_blocks) matches Some(m)
                && batch_builder_config_spec(*config, max_anchor_height_offset, default_coinbase@, m, c),
            Err(e) => max_blocks_per_batch_spec(config.max_blocks_per_batch, derivation_source_max_blocks) is None
                && e.message@ == "out of range integral type conversion attempted"@,
        },
{
    let max_blocks_per_batch: u16 = if config.max_blocks_per_batch == 0 {
        if derivation_source_max_blocks > 0xffff {
            return Err(SetupError { message: String::from_str("out of range integral type conversion attempted") });
        }
        derivation_source_max_blocks as u16
    } else {
        config.max_blocks_per_batch
    };
    Ok(BatchBuilderConfig {
        max_bytes_size_of_batch: config.max_bytes_size_of_batch,
        max_blocks_per_batch,
        l1_slot_duration_sec: config.l1_slot_duration_sec,
        max_time_shift_between_blocks_sec: config.max_time_shift_between_blocks_sec,
        max_anchor_height_offset: max_anchor_height_offset - config.max_anchor_height_offset_reduction,
        default_coinbase,
        preconf_min_txs: config.preconf_min_txs,
        preconf_max_skipped_l2_slots: config.preconf_max_skipped_l2_slots,
        proposal_max_time_sec: config.proposal_max_time_sec,
        max_forced_inclusions: config.max_forced_inclusions_per_proposal,
    })
}

/// Reanchoring must stay within the protocol's timestamp offset.
pub fn check_max_blocks_to_reanchor(max_blocks_to_reanchor: u64, timestamp_max_offset: u64) -> (r: Result<(), SetupError>)
    ensures
        r is Ok <==> max_blocks_to_reanchor < timestamp_max_offset,
        r matches Err(e) ==> e.message@ == "MAX_BLOCKS_TO_REANCHOR ("@ + decimal(max_blocks_to_reanchor as nat)
            + ") must be less than TIMESTAMP_MAX_OFFSET ("@ + decimal(timestamp_max_offset as nat) + ")"@,
{
    if max_blocks_to_reanchor >= timestamp_max_offset {
        let mut m = String::from_str("MAX_BLOCKS_TO_REANCHOR (");
        append_decimal(&mut m, max_blocks_to_reanchor);
        m.append(") must be less than TIMESTAMP_MAX_OFFSET (");
        append_decimal(&mut m, timestamp_max_offset);
        m.append(")");
        return Err(SetupError { message: m });
    }
    Ok(())
}

/// The L1 RPC URL the chain monitor follows: the first configured one.
pub fn main_l1_rpc_url(config: &Config) -> (r: Result<String, SetupError>)
    ensures
        match r {
            Ok(u) => config.l1_rpc_urls@.len() > 0 && u@ == config.l1_rpc_urls@[0]@,
            Err(e) => config.l1_rpc_urls@.len() == 0 && e.message@ == "L1 RPC URL is required"@,
        },
{
    if config.l1_rpc_urls.len() == 0 {
        return Err(SetupError { message: String::from_str("L1 RPC URL is required") });
    }
    Ok(config.l1_rpc_urls[0].clone())
}

} // verus!
