//! Properties that hold across the library's operations.
use vstd::prelude::*;
use crate::config::{Config, config_error, signer_error, l2_ws_rpc_url_spec, l2_ws_from_parsed, deprecated_string_setting, BLOB_MAX_DATA_SIZE, batch_size_setting};
use crate::proposal_manager::{ProposalManager, Proposal, ProposalBlock, forced_inclusion_count, timestamp_lower_bound};
use crate::proposal_manager::BatchBuilderConfig;
use crate::node_setup::batch_builder_config_spec;
use crate::protocol_config::ProtocolConfig;
use crate::reanchor::ReanchorWalk;
use crate::rpc_url::{url_parse, is_ws_scheme, is_http_scheme, is_blank};
use crate::settings::{Entries, u64_setting};
use crate::env::env_lookup;
use crate::trace::{error_entries, error_marker, trace_errors_spec, trace_errors_prefix, find_from, find_char_from, lemma_find_from_bounds, lemma_find_char_from_bounds};

verus! {

/// Handing out the finished proposals and putting them back restores the
/// queue: `prepend_proposals(take_proposals_to_send())` loses nothing and
/// keeps the order.
pub proof fn law_take_then_prepend_restores_queue(before: Seq<Proposal>, taken: Seq<Proposal>, after_take: Seq<Proposal>, after_prepend: Seq<Proposal>)
    requires
        taken == before,
        after_take.len() == 0,
        after_prepend == taken + after_take,
    ensures
        after_prepend == before,
{
    assert(taken + after_take =~= before);
}

/// Prepended proposals come out first, in their order, followed by the ones
/// that were already queued.
pub proof fn law_prepended_proposals_come_first(prepended: Seq<Proposal>, before: Seq<Proposal>, after: Seq<Proposal>)
    requires
        after == prepended + before,
    ensures
        after.len() == prepended.len() + before.len(),
        forall|i: int| 0 <= i < prepended.len() ==> after[i] == prepended[i],
        forall|i: int| 0 <= i < before.len() ==> after[prepended.len() + i] == before[i],
{
}

/// Closing the current proposal a second time changes nothing: once closed,
/// there is no current proposal and the queue stays as it is.
pub proof fn law_finalize_is_idempotent(m: ProposalManager)
    requires
        m.current_proposal() is None,
    ensures
        m.queue_after_finalize() == m.queue(),
{
}

/// Every proposal is counted once: the total is the proposals ready to send,
/// plus the one in flight, plus the one being filled.
pub proof fn law_proposal_counts_add_up(m: ProposalManager)
    ensures
        m.proposal_count() == m.ready_to_send_count()
            + (if m.in_flight() is Some { 1nat } else { 0nat })
            + (if m.current_proposal() is Some { 1nat } else { 0nat }),
        m.ready_to_send_count() <= m.proposal_count(),
        (m.queue().len() > 0 || m.in_flight() is Some || m.current_proposal() is Some) <==> m.proposal_count() > 0,
{
}

/// Handing out the proposals to send hands out exactly as many as were
/// counted ready; none is ready afterwards, and the total drops by that many.
pub proof fn law_take_hands_out_the_ready_proposals(before: ProposalManager, after: ProposalManager, taken: Seq<Proposal>)
    requires
        taken == before.queue(),
        after.queue().len() == 0,
        after.in_flight() == before.in_flight(),
        after.current_proposal() == before.current_proposal(),
    ensures
        taken.len() == before.ready_to_send_count(),
        after.ready_to_send_count() == 0,
        after.proposal_count() == before.proposal_count() - taken.len(),
{
}

/// Sending the oldest ready proposal and then learning that it was not
/// confirmed undoes the send: `mark_oldest_in_flight` followed by
/// `mark_not_confirmed_proposal_to_resubmit` gives back the queue as it was,
/// the same proposal first in line.
pub proof fn law_resubmission_restores_the_queue(
    before: Seq<Proposal>,
    in_flight: Proposal,
    queue_while_in_flight: Seq<Proposal>,
    after: Seq<Proposal>,
)
    requires
        before.len() > 0,
        in_flight == before[0],
        queue_while_in_flight == before.drop_first(),
        after == seq![in_flight] + queue_while_in_flight,
    ensures
        after == before,
{
    assert(after =~= before);
}

/// Whenever an L2 WebSocket URL is picked, it is one the URL parser accepts
/// with the `ws` or `wss` scheme.
pub proof fn law_l2_ws_url_is_websocket(l2_rpc_url: Seq<char>, configured: Option<Seq<char>>)
    requires
        l2_ws_rpc_url_spec(l2_rpc_url, configured) is Ok,
    ensures
        ({
            let u = l2_ws_rpc_url_spec(l2_rpc_url, configured)->Ok_0;
            url_parse(u) is Ok && is_ws_scheme(url_parse(u)->Ok_0.0)
        }),
{
}

/// A configuration read successfully respects the node's checks: positive
/// slot duration, epoch length and heartbeat, an anchor offset of at least 1,
/// a priority fee of at least 1 gwei, a batch size that is a whole number of
/// blobs, and a beacon URL that ends with `/`.
pub proof fn law_config_respects_checks(c: Config, env: Entries)
    requires
        config_error(env) is None,
        c.read_from(env),
    ensures
        c.l1_slot_duration_sec > 0,
        c.l1_slots_per_epoch > 0,
        c.preconf_heartbeat_ms > 0,
        c.min_anchor_offset >= 1,
        c.min_priority_fee_per_gas_wei >= 1000000000,
        c.max_bytes_size_of_batch % BLOB_MAX_DATA_SIZE == 0,
        c.l1_beacon_url@.len() > 0 && c.l1_beacon_url@.last() == '/',
{
    let b = u64_setting(env, "BLOBS_PER_BATCH"@, 5)->Ok_0;
    assert(batch_size_setting(env) is Ok);
    assert(c.max_bytes_size_of_batch == BLOB_MAX_DATA_SIZE * b);
    assert((BLOB_MAX_DATA_SIZE * b) % (BLOB_MAX_DATA_SIZE as int) == 0) by (nonlinear_arith);
}

/// A renamed variable set under its new name wins over its deprecated name;
/// set only under its deprecated name, that value is used.
pub proof fn law_new_name_wins(env: Entries, new_key: Seq<char>, deprecated_key: Seq<char>, default: Seq<char>)
    ensures
        env_lookup(env, new_key) matches Some(v) ==> deprecated_string_setting(env, new_key, deprecated_key, default) == v,
        (env_lookup(env, new_key) is None && env_lookup(env, deprecated_key) is Some)
            ==> deprecated_string_setting(env, new_key, deprecated_key, default) == env_lookup(env, deprecated_key)->Some_0,
        (env_lookup(env, new_key) is None && env_lookup(env, deprecated_key) is None)
            ==> deprecated_string_setting(env, new_key, deprecated_key, default) == default,
{
}

/// Every error entry taken from a trace dump starts with `error: Some(` and
/// ends with `)`.
pub proof fn law_trace_entries_are_delimited(s: Seq<char>, pos: int)
    ensures
        forall|k: int| 0 <= k < error_entries(s, pos).len() ==> {
            let e = #[trigger] error_entries(s, pos)[k];
            &&& e.len() > error_marker().len()
            &&& e.subrange(0, error_marker().len() as int) == error_marker()
            &&& e.last() == ')'
        },
    decreases s.len() + 1 - pos,
{
    if pos < 0 || pos > s.len() {
    } else {
        lemma_find_from_bounds(s, error_marker(), pos);
        match find_from(s, error_marker(), pos) {
            None => {},
            Some(a) => {
                lemma_find_char_from_bounds(s, ')', a);
                match find_char_from(s, ')', a) {
                    None => {},
                    Some(c) => {
                        law_trace_entries_are_delimited(s, c + 1);
                        let first = s.subrange(a, c + 1);
                        let rest = error_entries(s, c + 1);
                        assert(error_entries(s, pos) == seq![first] + rest);
                        // The marker holds no ')', so the ')' comes after it.
                        assert(c >= a + error_marker().len()) by {
                            if c < a + error_marker().len() {
                                assert(s.subrange(a, a + error_marker().len())[c - a] == error_marker()[c - a]);
                            }
                        }
                        assert(first.subrange(0, error_marker().len() as int) =~= s.subrange(a, a + error_marker().len()));
                        assert forall|k: int| 0 <= k < error_entries(s, pos).len() implies {
                            let e = #[trigger] error_entries(s, pos)[k];
                            &&& e.len() > error_marker().len()
                            &&& e.subrange(0, error_marker().len() as int) == error_marker()
                            &&& e.last() == ')'
                        } by {
                            if k > 0 {
                                assert(error_entries(s, pos)[k] == rest[k - 1]);
                            }
                        }
                    },
                }
            },
        }
    }
}

/// The text returned for a dump with error entries starts with the prefix.
pub proof fn law_trace_errors_start_with_prefix(s: Seq<char>)
    ensures
        trace_errors_spec(s) matches Some(m) ==> m.subrange(0, trace_errors_prefix().len() as int) == trace_errors_prefix(),
{
    match trace_errors_spec(s) {
        Some(m) => {
            assert(m.subrange(0, trace_errors_prefix().len() as int) =~= trace_errors_prefix());
        },
        None => {},
    }
}

/// The offset limits of a protocol config never change: a config made with
/// given offsets, every clone of it, and every clone of a clone report those
/// offsets. Storing a new basefee sharing percentage takes the config by
/// shared reference and leaves them as they are.
pub proof fn law_protocol_offsets_are_fixed(
    origin: ProtocolConfig,
    copies: Seq<ProtocolConfig>,
    max_anchor_offset: u64,
    timestamp_max_offset: u64,
)
    requires
        origin.max_anchor_offset_spec() == max_anchor_offset,
        origin.timestamp_max_offset_spec() == timestamp_max_offset,
        forall|i: int| 0 <= i < copies.len() ==> {
            ||| (#[trigger] copies[i]).same_offsets(&origin)
            ||| exists|j: int| 0 <= j < i && copies[i].same_offsets(&#[trigger] copies[j])
        },
    ensures
        forall|i: int| 0 <= i < copies.len() ==> {
            &&& (#[trigger] copies[i]).max_anchor_offset_spec() == max_anchor_offset
            &&& copies[i].timestamp_max_offset_spec() == timestamp_max_offset
        },
{
    assert forall|i: int| 0 <= i < copies.len() implies {
        &&& (#[trigger] copies[i]).max_anchor_offset_spec() == max_anchor_offset
        &&& copies[i].timestamp_max_offset_spec() == timestamp_max_offset
    } by {
        lemma_copy_has_origin_offsets(origin, copies, i);
    }
}

proof fn lemma_copy_has_origin_offsets(origin: ProtocolConfig, copies: Seq<ProtocolConfig>, k: int)
    requires
        0 <= k < copies.len(),
        forall|i: int| 0 <= i < copies.len() ==> {
            ||| (#[trigger] copies[i]).same_offsets(&origin)
            ||| exists|j: int| 0 <= j < i && copies[i].same_offsets(&#[trigger] copies[j])
        },
    ensures
        copies[k].same_offsets(&origin),
    decreases k,
{
    if !copies[k].same_offsets(&origin) {
        let j = choose|j: int| 0 <= j < k && copies[k].same_offsets(&#[trigger] copies[j]);
        lemma_copy_has_origin_offsets(origin, copies, j);
    }
}

/// A reanchor walk stays within its bounds at every step: it never looks past
/// the last block and never reanchors more blocks than the maximum. `new`
/// starts within them and `next`, `decide` and `record_reanchored` keep it
/// there.
pub proof fn law_reanchor_walk_within_limits(w: ReanchorWalk)
    requires
        w.wf(),
    ensures
        w.processed_spec() <= w.max_blocks_spec(),
        w.position_spec() <= w.block_count_spec(),
{
}

/// A dedicated L2 WebSocket URL that is set, parses and uses `ws` or `wss`
/// is the one used, whatever the scheme of the L2 RPC URL (as long as that
/// one is valid).
pub proof fn law_configured_ws_url_wins(
    l2_rpc_url: Seq<char>,
    l2_parsed: Result<(Seq<char>, Seq<char>), Seq<char>>,
    configured: Seq<char>,
    configured_parsed: Result<(Seq<char>, Seq<char>), Seq<char>>,
)
    requires
        l2_parsed is Ok,
        is_http_scheme(l2_parsed->Ok_0.0) || is_ws_scheme(l2_parsed->Ok_0.0),
        configured_parsed is Ok,
        is_ws_scheme(configured_parsed->Ok_0.0),
    ensures
        l2_ws_from_parsed(l2_rpc_url, l2_parsed, Some((configured, configured_parsed)))
            == Ok::<Seq<char>, Seq<char>>(configured),
{
}

/// The L2 WebSocket URL picked for the node's settings: a non-blank dedicated
/// setting that parses with `ws` or `wss` is used as it is (with a valid L2
/// RPC URL); whenever a non-blank setting is given, the only URL that can come
/// out is that setting; and without one, the L2 RPC URL comes out exactly when
/// it is itself a valid WebSocket URL.
pub proof fn law_l2_ws_url_choice(l2_rpc_url: Seq<char>, configured: Option<Seq<char>>)
    ensures
        (configured matches Some(c) && !is_blank(c) && url_parse(c) is Ok && is_ws_scheme(url_parse(c)->Ok_0.0)
            && url_parse(l2_rpc_url) is Ok
            && (is_http_scheme(url_parse(l2_rpc_url)->Ok_0.0) || is_ws_scheme(url_parse(l2_rpc_url)->Ok_0.0)))
            ==> l2_ws_rpc_url_spec(l2_rpc_url, configured) == Ok::<Seq<char>, Seq<char>>(configured->Some_0),
        (configured matches Some(c) && !is_blank(c) && l2_ws_rpc_url_spec(l2_rpc_url, configured) is Ok)
            ==> l2_ws_rpc_url_spec(l2_rpc_url, configured)->Ok_0 == configured->Some_0,
        (configured is None || is_blank(configured->Some_0)) ==> (
            l2_ws_rpc_url_spec(l2_rpc_url, configured) is Ok
                <==> (url_parse(l2_rpc_url) is Ok && is_ws_scheme(url_parse(l2_rpc_url)->Ok_0.0))),
        (configured is None || is_blank(configured->Some_0)) && l2_ws_rpc_url_spec(l2_rpc_url, configured) is Ok
            ==> l2_ws_rpc_url_spec(l2_rpc_url, configured)->Ok_0 == l2_rpc_url,
{
}

/// Forced inclusions are counted over the whole proposal: the count of two
/// runs of blocks put together is the sum of their counts, wherever the
/// forced-inclusion blocks sit.
pub proof fn law_forced_inclusion_count_adds_up(front: Seq<ProposalBlock>, back: Seq<ProposalBlock>)
    ensures
        forced_inclusion_count(front + back) == forced_inclusion_count(front) + forced_inclusion_count(back),
    decreases back.len(),
{
    if back.len() == 0 {
        assert(front + back =~= front);
    } else {
        law_forced_inclusion_count_adds_up(front, back.drop_last());
        assert((front + back).drop_last() =~= front + back.drop_last());
        assert((front + back).last() == back.last());
    }
}

/// A single block counts one forced inclusion exactly when it is one; so
/// adding a regular block to a proposal leaves its count, and whether a
/// forced inclusion may still go in, as they were.
pub proof fn law_one_block_forced_inclusion_count(blocks: Seq<ProposalBlock>, b: ProposalBlock)
    ensures
        forced_inclusion_count(seq![b]) == (if b.is_forced_inclusion { 1nat } else { 0nat }),
        forced_inclusion_count(blocks.push(b))
            == forced_inclusion_count(blocks) + (if b.is_forced_inclusion { 1nat } else { 0nat }),
{
    assert(seq![b].drop_last() =~= Seq::<ProposalBlock>::empty());
    assert(forced_inclusion_count(Seq::<ProposalBlock>::empty()) == 0);
    assert(seq![b].last() == b);
    assert(blocks.push(b).drop_last() =~= blocks);
}

/// The earliest timestamp a recovered block may carry is after its parent
/// and no earlier than `timestamp_max_offset` seconds before the time of the
/// check, and it is the later of the two.
pub proof fn law_timestamp_lower_bound(parent_timestamp: u64, now: u64, timestamp_max_offset: u64)
    ensures
        timestamp_lower_bound(parent_timestamp, now, timestamp_max_offset) >= parent_timestamp + 1,
        timestamp_lower_bound(parent_timestamp, now, timestamp_max_offset) >= now - timestamp_max_offset,
        timestamp_lower_bound(parent_timestamp, now, timestamp_max_offset) == parent_timestamp + 1
            || timestamp_lower_bound(parent_timestamp, now, timestamp_max_offset) == now - timestamp_max_offset
            || (now < timestamp_max_offset && timestamp_lower_bound(parent_timestamp, now, timestamp_max_offset) == 0),
{
}

/// A configuration read successfully has a complete signer setup: either a
/// private key and none of the web3signer settings, or no private key and all
/// of WEB3SIGNER_L1_URL, WEB3SIGNER_L2_URL and PRECONFER_ADDRESS.
pub proof fn law_signer_setup_is_complete(c: Config, env: Entries)
    requires
        config_error(env) is None,
        c.read_from(env),
    ensures
        c.catalyst_node_ecdsa_private_key is None ==> {
            &&& c.web3signer_l1_url is Some
            &&& c.web3signer_l2_url is Some
            &&& c.preconfer_address is Some
        },
        c.catalyst_node_ecdsa_private_key is Some ==> {
            &&& c.web3signer_l1_url is None
            &&& c.web3signer_l2_url is None
            &&& c.preconfer_address is None
        },
{
    assert(signer_error(env) is None);
}

/// The proposal limits take every setting from the node configuration as it
/// is; only the blocks per batch and the anchor height offset are derived.
pub proof fn law_batch_builder_copies_the_config(
    config: Config,
    max_anchor_height_offset: u64,
    default_coinbase: Seq<u8>,
    max_blocks_per_batch: u16,
    r: BatchBuilderConfig,
)
    requires
        batch_builder_config_spec(config, max_anchor_height_offset, default_coinbase, max_blocks_per_batch, r),
    ensures
        r.max_bytes_size_of_batch == config.max_bytes_size_of_batch,
        r.l1_slot_duration_sec == config.l1_slot_duration_sec,
        r.max_time_shift_between_blocks_sec == config.max_time_shift_between_blocks_sec,
        r.preconf_min_txs == config.preconf_min_txs,
        r.preconf_max_skipped_l2_slots == config.preconf_max_skipped_l2_slots,
        r.proposal_max_time_sec == config.proposal_max_time_sec,
        r.max_forced_inclusions == config.max_forced_inclusions_per_proposal,
        r.default_coinbase@ == default_coinbase,
        r.max_blocks_per_batch == max_blocks_per_batch,
        r.max_anchor_height_offset == max_anchor_height_offset - config.max_anchor_height_offset_reduction,
{
}

} // verus!
