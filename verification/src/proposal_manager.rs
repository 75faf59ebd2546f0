//! Bookkeeping of the proposals a node builds from the L2 blocks it
//! preconfirms, and the checks it applies to blocks and offsets.
use vstd::prelude::*;
use crate::protocol_config::ProtocolConfig;
use crate::text::{decimal, append_decimal};

verus! {

/// An error of the proposal manager: the message the node reports.
#[derive(Debug)]
pub struct ProposalError {
    pub message: String,
}

impl ProposalError {
    /// The error's text.
    pub fn message(&self) -> (r: String)
        ensures
            r@ == self.message@,
    {
        self.message.clone()
    }
}

/// The proposal id and timestamp of an L2 block recovered from the chain.
#[derive(Debug, Clone, Copy, PartialEq, Eq)]
pub struct RecoveredBlockInfo {
    pub proposal_id: u64,
    pub timestamp: u64,
}

/// An L2 block of a proposal: its timestamp, its gas limit without the
/// anchor transaction's share, its transactions without the anchor (each in
/// its encoded form), whether it is a forced inclusion, and the coinbase it
/// was built with where that is known (a block recovered from the chain); a
/// block without one is built with the proposal's default coinbase.
#[derive(Debug, Clone, PartialEq, Eq)]
pub struct ProposalBlock {
    pub timestamp_sec: u64,
    pub gas_limit_without_anchor: u64,
    pub transactions: Vec<Vec<u8>>,
    pub is_forced_inclusion: bool,
    pub coinbase: Option<[u8; 20]>,
}

/// A proposal: its id, the L1 block it anchors to, the timestamp of the L2
/// slot it was started in, and its L2 blocks in order.
#[derive(Debug)]
pub struct Proposal {
    pub id: u64,
    pub anchor_block_id: u64,
    pub l2_slot_timestamp: u64,
    pub blocks: Vec<ProposalBlock>,
}

/// Proposals in the order they are to be sent, oldest first.
pub type Proposals = Vec<Proposal>;

/// The limits a proposal is built within.
#[derive(Debug, Clone, Copy, PartialEq, Eq)]
pub struct BatchBuilderConfig {
    pub max_bytes_size_of_batch: u64,
    pub max_blocks_per_batch: u16,
    pub l1_slot_duration_sec: u64,
    pub max_time_shift_between_blocks_sec: u64,
    pub max_anchor_height_offset: u64,
    pub default_coinbase: [u8; 20],
    pub preconf_min_txs: u64,
    pub preconf_max_skipped_l2_slots: u64,
    pub proposal_max_time_sec: u64,
    pub max_forced_inclusions: u16,
}

/// Whether a proposal holds a forced-inclusion block.
pub open spec fn holds_forced_inclusion(p: Proposal) -> bool {
    exists|i: int| 0 <= i < p.blocks@.len() && (#[trigger] p.blocks@[i]).is_forced_inclusion
}

/// Keeps the proposals a node builds: the one being filled (the current
/// proposal), the finished ones ready to be sent, oldest first, and the one in
/// flight.
///
/// The in-flight slot follows the node's submission cycle, one proposal on L1
/// at a time: submitting the oldest ready proposal (`mark_oldest_in_flight`)
/// moves it out of the ready ones; once it is confirmed on L1,
/// `remove_confirmed_proposal` drops it; when it is not,
/// `mark_not_confirmed_proposal_to_resubmit` puts it back first in line. The
/// counts follow the same split: `get_number_of_proposals_ready_to_send`
/// counts the ready ones, which `take_proposals_to_send` hands out, and
/// `get_number_of_proposals` counts the one in flight too.
pub struct ProposalManager {
    config: BatchBuilderConfig,
    current: Option<Proposal>,
    to_send: Vec<Proposal>,
    in_flight: Option<Proposal>,
    protocol_config: ProtocolConfig,
    l1_height_lag: u64,
    min_anchor_offset: u64,
    max_blocks_to_reanchor: u64,
    propose_forced_inclusion: bool,
    fi_head: u64,
}

impl ProposalManager {
    /// The finished proposals ready to be sent, oldest first.
    pub closed spec fn queue(&self) -> Seq<Proposal> {
        self.to_send@
    }

    /// The proposal being filled, if any.
    pub closed spec fn current_proposal(&self) -> Option<Proposal> {
        self.current
    }

    /// The proposal that has been sent and awaits confirmation, if any.
    pub closed spec fn in_flight(&self) -> Option<Proposal> {
        self.in_flight
    }

    /// The index of the next forced inclusion to consume.
    pub closed spec fn fi_head_spec(&self) -> u64 {
        self.fi_head
    }

    pub closed spec fn builder_config(&self) -> BatchBuilderConfig {
        self.config
    }

    pub closed spec fn l1_height_lag_spec(&self) -> u64 {
        self.l1_height_lag
    }

    pub closed spec fn min_anchor_offset_spec(&self) -> u64 {
        self.min_anchor_offset
    }

    pub closed spec fn max_blocks_to_reanchor_spec(&self) -> u64 {
        self.max_blocks_to_reanchor
    }

    pub closed spec fn propose_forced_inclusion_spec(&self) -> bool {
        self.propose_forced_inclusion
    }

    pub closed spec fn max_anchor_offset(&self) -> u64 {
        self.protocol_config.max_anchor_offset_spec()
    }

    pub closed spec fn timestamp_max_offset(&self) -> u64 {
        self.protocol_config.timestamp_max_offset_spec()
    }

    /// The settings a manager keeps across its proposals.
    pub open spec fn same_settings(&self, other: &ProposalManager) -> bool {
        &&& self.builder_config() == other.builder_config()
        &&& self.l1_height_lag_spec() == other.l1_height_lag_spec()
        &&& self.min_anchor_offset_spec() == other.min_anchor_offset_spec()
        &&& self.max_blocks_to_reanchor_spec() == other.max_blocks_to_reanchor_spec()
        &&& self.propose_forced_inclusion_spec() == other.propose_forced_inclusion_spec()
        &&& self.max_anchor_offset() == other.max_anchor_offset()
        &&& self.timestamp_max_offset() == other.timestamp_max_offset()
    }

    /// A manager with no proposals.
    pub fn new(
        config: BatchBuilderConfig,
        protocol_config: ProtocolConfig,
        l1_height_lag: u64,
        min_anchor_offset: u64,
        max_blocks_to_reanchor: u64,
        propose_forced_inclusion: bool,
        fi_head: u64,
    ) -> (r: Self)
        ensures
            r.queue().len() == 0,
            r.current_proposal() is None,
            r.in_flight() is None,
            r.fi_head_spec() == fi_head,
            r.builder_config() == config,
            r.l1_height_lag_spec() == l1_height_lag,
            r.min_anchor_offset_spec() == min_anchor_offset,
            r.max_blocks_to_reanchor_spec() == max_blocks_to_reanchor,
            r.propose_forced_inclusion_spec() == propose_forced_inclusion,
            r.max_anchor_offset() == protocol_config.max_anchor_offset_spec(),
            r.timestamp_max_offset() == protocol_config.timestamp_max_offset_spec(),
    {
        ProposalManager {
            config,
            current: None,
            to_send: Vec::new(),
            in_flight: None,
            protocol_config,
            l1_height_lag,
            min_anchor_offset,
            max_blocks_to_reanchor,
            propose_forced_inclusion,
            fi_head,
        }
    }

    /// The number of finished proposals not yet sent.
    pub open spec fn ready_to_send_count(&self) -> nat {
        self.queue().len()
    }

    /// The number of proposals: ready, in flight and being filled.
    pub open spec fn proposal_count(&self) -> nat {
        self.queue().len() + (if self.in_flight() is Some { 1nat } else { 0nat })
            + (if self.current_proposal() is Some { 1nat } else { 0nat })
    }

    pub fn get_number_of_proposals_ready_to_send(&self) -> (r: u64)
        ensures
            r == self.ready_to_send_count(),
    {
        self.to_send.len() as u64
    }

    pub fn get_number_of_proposals(&self) -> (r: u64)
        requires
            self.queue().len() < u64::MAX - 1,
        ensures
            r == self.proposal_count(),
    {
        let n = self.to_send.len() as u64;
        let n = if self.in_flight.is_some() { n + 1 } else { n };
        if self.current.is_some() { n + 1 } else { n }
    }

    /// Whether any proposal exists: ready, in flight or being filled.
    pub fn has_proposals(&self) -> (r: bool)
        ensures
            r == (self.queue().len() > 0 || self.in_flight() is Some || self.current_proposal() is Some),
    {
        self.to_send.len() > 0 || self.in_flight.is_some() || self.current.is_some()
    }

    /// Whether the proposal being filled holds a forced-inclusion block.
    pub fn has_current_forced_inclusion(&self) -> (r: bool)
        ensures
            r == (self.current_proposal() matches Some(p) && holds_forced_inclusion(p)),
    {
        match &self.current {
            None => false,
            Some(p) => {
                let mut i: usize = 0;
                while i < p.blocks.len()
                    invariant
                        i <= p.blocks@.len(),
                        self.current == Some(*p),
                        forall|j: int| 0 <= j < i ==> !(#[trigger] p.blocks@[j]).is_forced_inclusion,
                    decreases p.blocks@.len() - i,
                {
                    if p.blocks[i].is_forced_inclusion {
                        assert((p.blocks@[i as int]).is_forced_inclusion);
                        return true;
                    }
                    i = i + 1;
                }
                false
            },
        }
    }

    /// Records that the oldest ready proposal has been sent: it leaves the
    /// ready ones and is in flight. Nothing changes while a proposal is
    /// already in flight or none is ready.
    pub fn mark_oldest_in_flight(&mut self)
        ensures
            (old(self).in_flight() is None && old(self).queue().len() > 0) ==> {
                &&& final(self).in_flight() == Some(old(self).queue()[0])
                &&& final(self).queue() == old(self).queue().drop_first()
            },
            !(old(self).in_flight() is None && old(self).queue().len() > 0) ==> {
                &&& final(self).in_flight() == old(self).in_flight()
                &&& final(self).queue() == old(self).queue()
            },
            final(self).current_proposal() == old(self).current_proposal(),
            final(self).fi_head_spec() == old(self).fi_head_spec(),
            final(self).same_settings(old(self)),
    {
        if self.in_flight.is_none() && self.to_send.len() > 0 {
            let oldest = self.to_send.remove(0);
            self.in_flight = Some(oldest);
            assert(self.to_send@ =~= old(self).to_send@.drop_first());
        }
    }

    /// Drops the proposal in flight, now confirmed on L1.
    pub fn remove_confirmed_proposal(&mut self)
        ensures
            final(self).in_flight() is None,
            final(self).queue() == old(self).queue(),
            final(self).current_proposal() == old(self).current_proposal(),
            final(self).fi_head_spec() == old(self).fi_head_spec(),
            final(self).same_settings(old(self)),
    {
        self.in_flight = None;
    }

    /// The proposal in flight was not confirmed: it goes back first in line,
    /// to be sent again.
    pub fn mark_not_confirmed_proposal_to_resubmit(&mut self)
        ensures
            final(self).in_flight() is None,
            final(self).queue() == match old(self).in_flight() {
                Some(p) => seq![p] + old(self).queue(),
                None => old(self).queue(),
            },
            final(self).current_proposal() == old(self).current_proposal(),
            final(self).fi_head_spec() == old(self).fi_head_spec(),
            final(self).same_settings(old(self)),
    {
        match self.in_flight.take() {
            Some(p) => {
                self.to_send.insert(0, p);
                assert(self.to_send@ =~= seq![p] + old(self).to_send@);
            },
            None => {},
        }
    }

    /// The finished proposals once the current one is closed: it joins them
    /// when it holds blocks, and is dropped when it holds none.
    pub open spec fn queue_after_finalize(&self) -> Seq<Proposal> {
        match self.current_proposal() {
            Some(p) => if p.blocks@.len() > 0 { self.queue().push(p) } else { self.queue() },
            None => self.queue(),
        }
    }

    /// Closes the proposal being filled.
    pub fn try_finalize_current_proposal(&mut self)
        ensures
            final(self).queue() == old(self).queue_after_finalize(),
            final(self).current_proposal() is None,
            final(self).in_flight() == old(self).in_flight(),
            final(self).fi_head_spec() == old(self).fi_head_spec(),
            final(self).same_settings(old(self)),
    {
        let current = self.current.take();
        match current {
            Some(p) => {
                if p.blocks.len() > 0 {
                    self.to_send.push(p);
                }
            },
            None => {},
        }
    }

    /// Starts a new proposal in the L2 slot with timestamp
    /// `l2_slot_timestamp`, closing the current one first.
    pub fn create_new_proposal(&mut self, proposal_id: u64, anchor_block_id: u64, l2_slot_timestamp: u64)
        ensures
            final(self).queue() == old(self).queue_after_finalize(),
            final(self).current_proposal() matches Some(p)
                && p.id == proposal_id && p.anchor_block_id == anchor_block_id
                && p.l2_slot_timestamp == l2_slot_timestamp && p.blocks@.len() == 0,
            final(self).in_flight() == old(self).in_flight(),
            final(self).fi_head_spec() == old(self).fi_head_spec(),
            final(self).same_settings(old(self)),
    {
        self.try_finalize_current_proposal();
        self.current = Some(Proposal { id: proposal_id, anchor_block_id, l2_slot_timestamp, blocks: Vec::new() });
    }

    /// Adds an L2 block to the proposal being filled; `false` when there is none.
    pub fn add_l2_block(&mut self, block: ProposalBlock) -> (r: bool)
        ensures
            r == old(self).current_proposal() is Some,
            match old(self).current_proposal() {
                Some(p) => final(self).current_proposal() matches Some(q)
                    && q.id == p.id && q.anchor_block_id == p.anchor_block_id
                    && q.l2_slot_timestamp == p.l2_slot_timestamp && q.blocks@ == p.blocks@.push(block),
                None => final(self).current_proposal() is None,
            },
            final(self).queue() == old(self).queue(),
            final(self).in_flight() == old(self).in_flight(),
            final(self).fi_head_spec() == old(self).fi_head_spec(),
            final(self).same_settings(old(self)),
    {
        match self.current.take() {
            Some(mut p) => {
                p.blocks.push(block);
                self.current = Some(p);
                true
            },
            None => false,
        }
    }

    /// Drops the last L2 block of the proposal being filled, if any.
    pub fn remove_last_l2_block(&mut self)
        ensures
            match old(self).current_proposal() {
                Some(p) => final(self).current_proposal() matches Some(q)
                    && q.id == p.id && q.anchor_block_id == p.anchor_block_id
                    && q.l2_slot_timestamp == p.l2_slot_timestamp
                    && q.blocks@ == if p.blocks@.len() > 0 { p.blocks@.drop_last() } else { p.blocks@ },
                None => final(self).current_proposal() is None,
            },
            final(self).queue() == old(self).queue(),
            final(self).in_flight() == old(self).in_flight(),
            final(self).fi_head_spec() == old(self).fi_head_spec(),
            final(self).same_settings(old(self)),
    {
        match self.current.take() {
            Some(mut p) => {
                if p.blocks.len() > 0 {
                    let _ = p.blocks.pop();
                }
                self.current = Some(p);
            },
            None => {},
        }
    }

    /// Hands out the proposals ready to be sent, oldest first, and forgets
    /// them; the one in flight stays.
    pub fn take_proposals_to_send(&mut self) -> (r: Proposals)
        ensures
            r@ == old(self).queue(),
            final(self).queue().len() == 0,
            final(self).in_flight() == old(self).in_flight(),
            final(self).current_proposal() == old(self).current_proposal(),
            final(self).fi_head_spec() == old(self).fi_head_spec(),
            final(self).same_settings(old(self)),
    {
        let mut taken: Vec<Proposal> = Vec::new();
        std::mem::swap(&mut taken, &mut self.to_send);
        taken
    }

    /// Puts `proposals` before the proposals ready to be sent, in their order.
    pub fn prepend_proposals(&mut self, proposals: Proposals)
        ensures
            final(self).queue() == proposals@ + old(self).queue(),
            final(self).in_flight() == old(self).in_flight(),
            final(self).current_proposal() == old(self).current_proposal(),
            final(self).fi_head_spec() == old(self).fi_head_spec(),
            final(self).same_settings(old(self)),
    {
        let mut proposals = proposals;
        let mut rest: Vec<Proposal> = Vec::new();
        std::mem::swap(&mut rest, &mut self.to_send);
        let ghost front = proposals@;
        let ghost back = rest@;
        proposals.append(&mut rest);
        self.to_send = proposals;
        assert(self.to_send@ =~= front + back);
    }

    /// Sets the index of the next forced inclusion to consume.
    pub fn set_fi_head(&mut self, fi_head: u64)
        ensures
            final(self).fi_head_spec() == fi_head,
            final(self).queue() == old(self).queue(),
            final(self).current_proposal() == old(self).current_proposal(),
            final(self).in_flight() == old(self).in_flight(),
            final(self).same_settings(old(self)),
    {
        self.fi_head = fi_head;
    }

    /// A manager with the same settings and protocol parameters, no
    /// proposals, and `fi_head` as its forced inclusion index.
    pub fn clone_without_proposals(&self, fi_head: u64) -> (r: Self)
        ensures
            r.same_settings(self),
            r.queue().len() == 0,
            r.current_proposal() is None,
            r.in_flight() is None,
            r.fi_head_spec() == fi_head,
    {
        ProposalManager {
            config: self.config,
            current: None,
            to_send: Vec::new(),
            in_flight: None,
            protocol_config: self.protocol_config.clone(),
            l1_height_lag: self.l1_height_lag,
            min_anchor_offset: self.min_anchor_offset,
            max_blocks_to_reanchor: self.max_blocks_to_reanchor,
            propose_forced_inclusion: self.propose_forced_inclusion,
            fi_head,
        }
    }

    /// Whether an anchor block offset is within the protocol's limit.
    pub fn is_anchor_block_offset_valid(&self, anchor_block_offset: u64) -> (r: bool)
        ensures
            r == (anchor_block_offset <= self.max_anchor_offset()),
    {
        anchor_block_offset <= self.protocol_config.get_max_anchor_height_offset()
    }

    /// Whether a timestamp offset is within the protocol's limit.
    pub fn is_timestamp_offset_valid(&self, timestamp_offset: u64) -> (r: bool)
        ensures
            r == (timestamp_offset <= self.timestamp_max_offset()),
    {
        timestamp_offset <= self.protocol_config.get_timestamp_max_offset()
    }

    /// Whether both offsets are within the protocol's limits.
    pub fn is_offsets_valid(&self, anchor_block_offset: u64, timestamp_offset: u64) -> (r: bool)
        ensures
            r == (anchor_block_offset <= self.max_anchor_offset() && timestamp_offset <= self.timestamp_max_offset()),
    {
        self.is_anchor_block_offset_valid(anchor_block_offset) && self.is_timestamp_offset_valid(timestamp_offset)
    }

    /// The timestamp of the last block of the proposal being filled, if any.
    pub open spec fn last_block_timestamp(&self) -> Option<u64> {
        match self.current_proposal() {
            Some(p) => if p.blocks@.len() > 0 { Some(p.blocks@.last().timestamp_sec) } else { None },
            None => None,
        }
    }

    pub fn get_current_proposal_last_block_timestamp(&self) -> (r: Option<u64>)
        ensures
            r == self.last_block_timestamp(),
    {
        match &self.current {
            Some(p) => if p.blocks.len() > 0 {
                Some(p.blocks[p.blocks.len() - 1].timestamp_sec)
            } else {
                None
            },
            None => None,
        }
    }

    /// The last block of the proposal being filled, if any.
    pub fn current_last_block(&self) -> (r: Option<&ProposalBlock>)
        ensures
            match self.current_proposal() {
                Some(p) => if p.blocks@.len() > 0 { r == Some(&p.blocks@.last()) } else { r is None },
                None => r is None,
            },
    {
        match &self.current {
            Some(p) => if p.blocks.len() > 0 {
                Some(&p.blocks[p.blocks.len() - 1])
            } else {
                None
            },
            None => None,
        }
    }

    /// Undoes a draft block whose head advance failed: the block leaves the
    /// proposal being filled again, and the error names the cause.
    pub fn rollback_draft_block(&mut self, error: &str) -> (r: ProposalError)
        ensures
            r.message@ == "Failed to advance head to new L2 block: "@ + error@,
            match old(self).current_proposal() {
                Some(p) => final(self).current_proposal() matches Some(q)
                    && q.id == p.id && q.anchor_block_id == p.anchor_block_id
                    && q.l2_slot_timestamp == p.l2_slot_timestamp
                    && q.blocks@ == if p.blocks@.len() > 0 { p.blocks@.drop_last() } else { p.blocks@ },
                None => final(self).current_proposal() is None,
            },
            final(self).queue() == old(self).queue(),
            final(self).in_flight() == old(self).in_flight(),
            final(self).fi_head_spec() == old(self).fi_head_spec(),
            final(self).same_settings(old(self)),
    {
        self.remove_last_l2_block();
        let mut m = String::from_str("Failed to advance head to new L2 block: ");
        m.append(error);
        ProposalError { message: m }
    }

    /// Refuses a new L2 block whose timestamp equals the last block's.
    pub fn check_new_block_timestamp(&self, timestamp: u64) -> (r: Result<(), ProposalError>)
        ensures
            r is Ok <==> self.last_block_timestamp() != Some(timestamp),
            r matches Err(e) ==> e.message@ ==
                "Cannot add another block with the same timestamp as the last block, timestamp: "@
                + decimal(timestamp as nat) + ", last block timestamp: "@ + decimal(timestamp as nat),
    {
        match self.get_current_proposal_last_block_timestamp() {
            Some(last) => if last == timestamp {
                let mut m = String::from_str("Cannot add another block with the same timestamp as the last block, timestamp: ");
                append_decimal(&mut m, timestamp);
                m.append(", last block timestamp: ");
                append_decimal(&mut m, last);
                Err(ProposalError { message: m })
            } else {
                Ok(())
            },
            None => Ok(()),
        }
    }

    /// Whether a new L2 block may be preceded by a forced inclusion: the node
    /// proposes forced inclusions, the caller allows it, and sequencing is not
    /// ending.
    pub fn forced_inclusion_allowed(&self, allow_forced_inclusion: bool, end_of_sequencing: bool) -> (r: bool)
        ensures
            r == (self.propose_forced_inclusion_spec() && allow_forced_inclusion && !end_of_sequencing),
    {
        self.propose_forced_inclusion && allow_forced_inclusion && !end_of_sequencing
    }

    /// A block's proposal id must equal its parent's or follow it by one.
    pub fn validate_block_proposal_id(&self, block_height: u64, proposal_id: u64, parent_proposal_id: u64) -> (r: Result<(), ProposalError>)
        ensures
            r is Ok <==> (parent_proposal_id <= proposal_id && proposal_id - parent_proposal_id <= 1),
            r matches Err(e) ==> e.message@ == proposal_id_error_message(block_height, proposal_id, parent_proposal_id),
    {
        match proposal_id.checked_sub(parent_proposal_id) {
            Some(diff) => if diff <= 1 {
                return Ok(());
            },
            None => {},
        }
        let mut m = String::from_str("Proposal ID validation failed at block ");
        append_decimal(&mut m, block_height);
        m.append(": proposal_id=");
        append_decimal(&mut m, proposal_id);
        m.append(" parent_proposal_id=");
        append_decimal(&mut m, parent_proposal_id);
        Err(ProposalError { message: m })
    }

    /// Drops every proposal and starts afresh with the same settings.
    pub fn reset_builder(&mut self)
        ensures
            final(self).queue().len() == 0,
            final(self).current_proposal() is None,
            final(self).in_flight() is None,
            final(self).fi_head_spec() == old(self).fi_head_spec(),
            final(self).same_settings(old(self)),
    {
        self.current = None;
        self.to_send = Vec::new();
        self.in_flight = None;
    }

    /// The id following the current proposal's, if there is a current proposal.
    pub fn next_proposal_id_from_current(&self) -> (r: Option<u64>)
        requires
            self.current_proposal() matches Some(p) ==> p.id < u64::MAX,
        ensures
            match self.current_proposal() {
                Some(p) => r == Some((p.id + 1) as u64),
                None => r is None,
            },
    {
        match &self.current {
            Some(p) => Some(p.id + 1),
            None => None,
        }
    }
}

/// The next proposal id when no proposal is being filled: one past the id the
/// L2 execution layer reports, or, when it reports none, 1 if the inbox is
/// still waiting for its first proposal.
pub fn next_proposal_id_from_chain(geth_last_proposal_id: Option<u64>, inbox_next_proposal_id: u64) -> (r: Result<u64, ProposalError>)
    requires
        geth_last_proposal_id matches Some(id) ==> id < u64::MAX,
    ensures
        match geth_last_proposal_id {
            Some(id) => r matches Ok(v) && v == id + 1,
            None => if inbox_next_proposal_id == 1 {
                r matches Ok(v) && v == 1
            } else {
                r matches Err(e) && e.message@ ==
                    "Failed to get last synced proposal id from Taiko Geth, next_proposal_id = "@
                    + decimal(inbox_next_proposal_id as nat)
            },
        },
{
    match geth_last_proposal_id {
        Some(id) => Ok(id + 1),
        None => if inbox_next_proposal_id == 1 {
            Ok(1)
        } else {
            let mut m = String::from_str("Failed to get last synced proposal id from Taiko Geth, next_proposal_id = ");
            append_decimal(&mut m, inbox_next_proposal_id);
            Err(ProposalError { message: m })
        },
    }
}

/// The message of a failed proposal id check.
pub open spec fn proposal_id_error_message(block_height: u64, proposal_id: u64, parent_proposal_id: u64) -> Seq<char> {
    "Proposal ID validation failed at block "@ + decimal(block_height as nat) + ": proposal_id="@
        + decimal(proposal_id as nat) + " parent_proposal_id="@ + decimal(parent_proposal_id as nat)
}

/// The earliest timestamp a block may carry: after its parent, and no
/// further back than the protocol's timestamp offset from now.
pub open spec fn timestamp_lower_bound(parent_timestamp: u64, now: u64, timestamp_max_offset: u64) -> int {
    let a = parent_timestamp + 1;
    let b = if now >= timestamp_max_offset { now - timestamp_max_offset } else { 0 };
    if a >= b { a } else { b }
}

/// The message of a block timestamp outside the derivation bounds at `now`.
pub open spec fn timestamp_error_message(
    block_height: u64,
    block_timestamp: u64,
    parent_timestamp: u64,
    now: u64,
    timestamp_max_offset: u64,
) -> Seq<char> {
    "Derivation timestamp validation failed at block "@ + decimal(block_height as nat)
        + ": timestamp="@ + decimal(block_timestamp as nat)
        + ", lower_bound="@ + decimal(timestamp_lower_bound(parent_timestamp, now, timestamp_max_offset) as nat)
        + ", upper_bound(now)="@ + decimal(now as nat)
        + ", parent_timestamp="@ + decimal(parent_timestamp as nat)
}

/// The message when the system clock cannot be read, with the clock's error text.
pub open spec fn clock_error_message(block_height: u64, detail: Seq<char>) -> Seq<char> {
    "System time error while validating block timestamp at block "@ + decimal(block_height as nat) + ": "@ + detail
}

/// Checks a recovered block's timestamp against the derivation rules at time
/// `now` (seconds since the Unix epoch): it must lie between the lower bound
/// and `now`.
pub fn check_block_timestamp(
    block_height: u64,
    block_timestamp: u64,
    parent_timestamp: u64,
    now: u64,
    timestamp_max_offset: u64,
) -> (r: Result<(), ProposalError>)
    requires
        parent_timestamp < u64::MAX,
    ensures
        r is Ok <==> (timestamp_lower_bound(parent_timestamp, now, timestamp_max_offset) <= block_timestamp <= now),
        r matches Err(e) ==> e.message@
            == timestamp_error_message(block_height, block_timestamp, parent_timestamp, now, timestamp_max_offset),
{
    let a = parent_timestamp + 1;
    let b = now.saturating_sub(timestamp_max_offset);
    let lower_bound = if a >= b { a } else { b };
    if block_timestamp < lower_bound || block_timestamp > now {
        let mut m = String::from_str("Derivation timestamp validation failed at block ");
        append_decimal(&mut m, block_height);
        m.append(": timestamp=");
        append_decimal(&mut m, block_timestamp);
        m.append(", lower_bound=");
        append_decimal(&mut m, lower_bound);
        m.append(", upper_bound(now)=");
        append_decimal(&mut m, now);
        m.append(", parent_timestamp=");
        append_decimal(&mut m, parent_timestamp);
        return Err(ProposalError { message: m });
    }
    Ok(())
}

/// The current Unix time in seconds, from `UNIX_EPOCH.elapsed()` (the system
/// clock), or the text of the error when the clock is before the epoch. The
/// time depends on the machine's clock, so nothing is claimed about it.
#[verifier::external_body]
fn unix_time_now() -> Result<u64, String> {
    match std::time::UNIX_EPOCH.elapsed() {
        Ok(d) => Ok(d.as_secs()),
        Err(e) => Err(e.to_string()),
    }
}

impl ProposalManager {
    /// Checks a recovered block's timestamp against the derivation rules,
    /// using the current time as the upper bound. The clock decides the
    /// outcome: the result is that of `check_block_timestamp` at the time read,
    /// with this manager's timestamp offset limit, or the clock's error when
    /// it cannot be read. Whatever the clock reads, an accepted block lies
    /// after its parent.
    pub fn validate_block_timestamp(&self, block_height: u64, block_timestamp: u64, parent_timestamp: u64) -> (r: Result<(), ProposalError>)
        requires
            parent_timestamp < u64::MAX,
        ensures
            r is Ok ==> parent_timestamp < block_timestamp,
            r is Ok ==> exists|now: u64|
                #[trigger] timestamp_lower_bound(parent_timestamp, now, self.timestamp_max_offset()) <= block_timestamp
                && block_timestamp <= now,
            r matches Err(e) ==> {
                ||| exists|now: u64| {
                    &&& !(#[trigger] timestamp_lower_bound(parent_timestamp, now, self.timestamp_max_offset()) <= block_timestamp
                        && block_timestamp <= now)
                    &&& e.message@ == timestamp_error_message(block_height, block_timestamp, parent_timestamp, now,
                        self.timestamp_max_offset())
                }
                ||| exists|detail: Seq<char>| e.message@ == #[trigger] clock_error_message(block_height, detail)
            },
    {
        let now = match unix_time_now() {
            Ok(now) => now,
            Err(detail) => {
                let mut m = String::from_str("System time error while validating block timestamp at block ");
                append_decimal(&mut m, block_height);
                m.append(": ");
                m.append(detail.as_str());
                assert(m@ == clock_error_message(block_height, detail@));
                return Err(ProposalError { message: m });
            },
        };
        let timestamp_max_offset = self.protocol_config.get_timestamp_max_offset();
        let r = check_block_timestamp(block_height, block_timestamp, parent_timestamp, now, timestamp_max_offset);
        assert(timestamp_lower_bound(parent_timestamp, now, self.timestamp_max_offset()) ==
            timestamp_lower_bound(parent_timestamp, now, timestamp_max_offset));
        r
    }
}

/// Checks the first recovered block against its parent: a parent must exist
/// (the genesis block has none), and the block's proposal must follow the
/// parent's by one.
pub fn check_first_recovered_block(block_height: u64, proposal_id: u64, parent_proposal_id: u64) -> (r: Result<(), ProposalError>)
    ensures
        r is Ok <==> (block_height != 0 && proposal_id == parent_proposal_id + 1),
        block_height == 0 ==> (r matches Err(e) && e.message@ ==
            "recover_from_l2_block: parent_info must be provided for genesis (block_height == 0)"@),
        (block_height != 0 && proposal_id != parent_proposal_id + 1) ==> (r matches Err(e) && e.message@ ==
            "recover_from_l2_block: proposal ID validation failed at the first recovered block "@
            + decimal(block_height as nat) + ": proposal_id="@ + decimal(proposal_id as nat)
            + " parent_proposal_id="@ + decimal(parent_proposal_id as nat)),
{
    if block_height == 0 {
        return Err(ProposalError {
            message: String::from_str("recover_from_l2_block: parent_info must be provided for genesis (block_height == 0)"),
        });
    }
    if parent_proposal_id == u64::MAX || proposal_id != parent_proposal_id + 1 {
        let mut m = String::from_str("recover_from_l2_block: proposal ID validation failed at the first recovered block ");
        append_decimal(&mut m, block_height);
        m.append(": proposal_id=");
        append_decimal(&mut m, proposal_id);
        m.append(" parent_proposal_id=");
        append_decimal(&mut m, parent_proposal_id);
        return Err(ProposalError { message: m });
    }
    Ok(())
}

/// The hash of a block's anchor transaction, its first one, from the block's
/// transaction hashes (`None` when the block came without them).
pub fn anchor_transaction_hash<T>(transaction_hashes: Option<Vec<T>>) -> (r: Result<T, ProposalError>)
    ensures
        match transaction_hashes {
            Some(v) if v@.len() > 0 => r matches Ok(h) && h == v@[0],
            _ => r matches Err(e) && e.message@ == "get_anchor_block_offset: No transactions in block"@,
        },
{
    match transaction_hashes {
        Some(v) => if v.len() > 0 {
            let mut v = v;
            return Ok(v.remove(0));
        },
        None => {},
    }
    Err(ProposalError { message: String::from_str("get_anchor_block_offset: No transactions in block") })
}

/// The gas limit of a block without the anchor transaction's share.
pub fn gas_limit_without_anchor(gas_limit: u64, anchor_gas_limit: u64) -> (r: Result<u64, ProposalError>)
    ensures
        r is Ok <==> anchor_gas_limit <= gas_limit,
        r matches Ok(v) ==> v == gas_limit - anchor_gas_limit,
        r matches Err(e) ==> e.message@ == "block header gas limit "@ + decimal(gas_limit as nat)
            + " is less than ANCHOR_V3_V4_GAS_LIMIT "@ + decimal(anchor_gas_limit as nat),
{
    match gas_limit.checked_sub(anchor_gas_limit) {
        Some(v) => Ok(v),
        None => {
            let mut m = String::from_str("block header gas limit ");
            append_decimal(&mut m, gas_limit);
            m.append(" is less than ANCHOR_V3_V4_GAS_LIMIT ");
            append_decimal(&mut m, anchor_gas_limit);
            Err(ProposalError { message: m })
        },
    }
}

/// The transactions of a block without its leading anchor transaction;
/// `None` when the block has no transaction at all.
pub fn drop_anchor_transaction<T>(txs: Vec<T>) -> (r: Option<Vec<T>>)
    ensures
        txs@.len() == 0 ==> r is None,
        txs@.len() > 0 ==> (r matches Some(v) && v@ == txs@.drop_first()),
{
    if txs.len() == 0 {
        return None;
    }
    let mut txs = txs;
    let _ = txs.remove(0);
    Some(txs)
}

// ---------------------------------------------------------------------------
// Forced inclusion blocks

/// The number of forced-inclusion blocks among `blocks`.
pub open spec fn forced_inclusion_count(blocks: Seq<ProposalBlock>) -> nat
    decreases blocks.len(),
{
    if blocks.len() == 0 {
        0
    } else {
        forced_inclusion_count(blocks.drop_last()) + if blocks.last().is_forced_inclusion { 1nat } else { 0nat }
    }
}

/// What the caller reports while a forced inclusion is being added.
pub enum ForcedInclusionEvent {
    /// A new L2 block is about to be added.
    Start,
    /// The forced-inclusion queue was asked for its next entry and gave
    /// `forced_inclusion`, its transactions, or nothing when it was empty.
    /// `parent_timestamp` and `parent_gas_limit_without_anchor` are those of
    /// the parent of the new block.
    Consumed { forced_inclusion: Option<Vec<Vec<u8>>>, parent_timestamp: u64, parent_gas_limit_without_anchor: u64 },
    /// The chain head advanced to the forced-inclusion block.
    HeadAdvanced,
    /// Advancing the chain head failed, with this error text.
    AdvanceFailed { error: String },
}

/// What the caller is to do next.
pub enum ForcedInclusionAction {
    /// No forced inclusion goes in: carry on with the regular block.
    Skip,
    /// Take the next entry of the forced-inclusion queue, and read the block
    /// parameters of the parent of the new block.
    Consume,
    /// Advance the chain head to the forced-inclusion block, now the last
    /// block of the proposal being filled.
    AdvanceHead,
    /// The forced-inclusion block was preconfirmed.
    Done,
    /// Give the consumed entry back to the queue and report this error.
    ReleaseAndFail(ProposalError),
}

impl ProposalManager {
    /// Whether a forced inclusion may go into the proposal being filled: there
    /// is one, and it holds fewer forced-inclusion blocks than the limit per
    /// proposal.
    pub open spec fn can_add_forced_inclusion_spec(&self) -> bool {
        self.current_proposal() matches Some(p)
            && forced_inclusion_count(p.blocks@) < self.builder_config().max_forced_inclusions
    }

    pub fn can_add_forced_inclusion(&self) -> (r: bool)
        ensures
            r == self.can_add_forced_inclusion_spec(),
    {
        match &self.current {
            None => false,
            Some(p) => {
                let mut count: u64 = 0;
                let mut i: usize = 0;
                while i < p.blocks.len()
                    invariant
                        i <= p.blocks@.len(),
                        count == forced_inclusion_count(p.blocks@.take(i as int)),
                        count <= i,
                    decreases p.blocks@.len() - i,
                {
                    let ghost pre = p.blocks@.take(i as int);
                    assert(p.blocks@.take(i + 1).drop_last() =~= pre);
                    if p.blocks[i].is_forced_inclusion {
                        count = count + 1;
                    }
                    i = i + 1;
                }
                assert(p.blocks@.take(p.blocks@.len() as int) =~= p.blocks@);
                count < self.config.max_forced_inclusions as u64
            },
        }
    }

    /// One step of adding a forced-inclusion block before a new L2 block:
    /// - `Start`: take a forced inclusion when one may go in, else skip;
    /// - `Consumed`: with no entry available, skip; otherwise the
    ///   forced-inclusion block, one second after the parent and with the
    ///   parent's gas limit without the anchor, joins the proposal being
    ///   filled and the head is to advance to it;
    /// - `HeadAdvanced`: done;
    /// - `AdvanceFailed`: the block leaves the proposal again, the entry goes
    ///   back to the queue, and the error is reported.
    pub fn forced_inclusion_step(&mut self, event: ForcedInclusionEvent) -> (r: ForcedInclusionAction)
        requires
            old(self).current_proposal() matches Some(p) ==> p.blocks@.len() < usize::MAX,
            event matches ForcedInclusionEvent::Consumed { parent_timestamp, .. } ==> parent_timestamp < u64::MAX,
        ensures
            final(self).queue() == old(self).queue(),
            final(self).in_flight() == old(self).in_flight(),
            final(self).fi_head_spec() == old(self).fi_head_spec(),
            final(self).same_settings(old(self)),
            match event {
                ForcedInclusionEvent::Start => {
                    &&& final(self).current_proposal() == old(self).current_proposal()
                    &&& if old(self).can_add_forced_inclusion_spec() {
                        r is Consume
                    } else {
                        r is Skip
                    }
                },
                ForcedInclusionEvent::Consumed { forced_inclusion, parent_timestamp, parent_gas_limit_without_anchor } => {
                    if forced_inclusion is Some && old(self).current_proposal() is Some {
                        let p = old(self).current_proposal()->Some_0;
                        let block = (ProposalBlock {
                            timestamp_sec: (parent_timestamp + 1) as u64,
                            gas_limit_without_anchor: parent_gas_limit_without_anchor,
                            transactions: forced_inclusion->Some_0,
                            is_forced_inclusion: true,
                            coinbase: None,
                        });
                        &&& r is AdvanceHead
                        &&& final(self).current_proposal() matches Some(q)
                            && q.id == p.id && q.anchor_block_id == p.anchor_block_id
                            && q.l2_slot_timestamp == p.l2_slot_timestamp && q.blocks@ == p.blocks@.push(block)
                    } else {
                        &&& r is Skip
                        &&& final(self).current_proposal() == old(self).current_proposal()
                    }
                },
                ForcedInclusionEvent::HeadAdvanced => {
                    &&& r is Done
                    &&& final(self).current_proposal() == old(self).current_proposal()
                },
                ForcedInclusionEvent::AdvanceFailed { error } => {
                    &&& r matches ForcedInclusionAction::ReleaseAndFail(e)
                        && e.message@ == "Failed to advance head to new forced inclusion L2 block: "@ + error@
                    &&& match old(self).current_proposal() {
                        Some(p) => final(self).current_proposal() matches Some(q)
                            && q.id == p.id && q.anchor_block_id == p.anchor_block_id
                            && q.l2_slot_timestamp == p.l2_slot_timestamp
                            && q.blocks@ == if p.blocks@.len() > 0 { p.blocks@.drop_last() } else { p.blocks@ },
                        None => final(self).current_proposal() is None,
                    }
                },
            },
    {
        match event {
            ForcedInclusionEvent::Start => {
                if self.can_add_forced_inclusion() {
                    ForcedInclusionAction::Consume
                } else {
                    ForcedInclusionAction::Skip
                }
            },
            ForcedInclusionEvent::Consumed { forced_inclusion, parent_timestamp, parent_gas_limit_without_anchor } => {
                if self.current.is_none() {
                    return ForcedInclusionAction::Skip;
                }
                match forced_inclusion {
                    None => ForcedInclusionAction::Skip,
                    Some(transactions) => {
                        let block = ProposalBlock {
                            timestamp_sec: parent_timestamp + 1,
                            gas_limit_without_anchor: parent_gas_limit_without_anchor,
                            transactions,
                            is_forced_inclusion: true,
                            coinbase: None,
                        };
                        let _ = self.add_l2_block(block);
                        ForcedInclusionAction::AdvanceHead
                    },
                }
            },
            ForcedInclusionEvent::HeadAdvanced => ForcedInclusionAction::Done,
            ForcedInclusionEvent::AdvanceFailed { error } => {
                self.remove_last_l2_block();
                let mut m = String::from_str("Failed to advance head to new forced inclusion L2 block: ");
                m.append(error.as_str());
                ForcedInclusionAction::ReleaseAndFail(ProposalError { message: m })
            },
        }
    }
}

// ---------------------------------------------------------------------------
// Recovery from the chain

/// Where the parent of a block to recover comes from.
#[derive(Debug, Clone, Copy, PartialEq, Eq)]
pub enum RecoveryParent {
    /// It was given.
    Known(RecoveredBlockInfo),
    /// It is to be fetched: the block at this height.
    Fetch(u64),
}

/// The parent of the block to recover at `block_height`: the given one, else
/// the block before it; the genesis block has none to fetch.
pub fn recovery_parent(block_height: u64, parent_info: Option<RecoveredBlockInfo>) -> (r: Result<RecoveryParent, ProposalError>)
    ensures
        match parent_info {
            Some(info) => r == Ok::<RecoveryParent, ProposalError>(RecoveryParent::Known(info)),
            None => if block_height == 0 {
                r matches Err(e) && e.message@
                    == "recover_from_l2_block: parent_info must be provided for genesis (block_height == 0)"@
            } else {
                r == Ok::<RecoveryParent, ProposalError>(RecoveryParent::Fetch((block_height - 1) as u64))
            },
        },
{
    match parent_info {
        Some(info) => Ok(RecoveryParent::Known(info)),
        None => if block_height == 0 {
            Err(ProposalError {
                message: String::from_str("recover_from_l2_block: parent_info must be provided for genesis (block_height == 0)"),
            })
        } else {
            Ok(RecoveryParent::Fetch(block_height - 1))
        },
    }
}

/// A fetched parent becomes the recovery's parent once the first recovered
/// block is checked against it (see `check_first_recovered_block`).
pub fn parent_from_fetched(block_height: u64, proposal_id: u64, fetched_parent: RecoveredBlockInfo) -> (r: Result<RecoveredBlockInfo, ProposalError>)
    ensures
        r is Ok <==> (block_height != 0 && proposal_id == fetched_parent.proposal_id + 1),
        r matches Ok(info) ==> info == fetched_parent,
        (block_height != 0 && proposal_id != fetched_parent.proposal_id + 1) ==> (r matches Err(e) && e.message@ ==
            "recover_from_l2_block: proposal ID validation failed at the first recovered block "@
            + decimal(block_height as nat) + ": proposal_id="@ + decimal(proposal_id as nat)
            + " parent_proposal_id="@ + decimal(fetched_parent.proposal_id as nat)),
{
    check_first_recovered_block(block_height, proposal_id, fetched_parent.proposal_id)?;
    Ok(fetched_parent)
}

/// A block recovered from the chain, as the proposal bookkeeping takes it:
/// its proposal id and timestamp, its gas limit without the anchor
/// transaction's share, its coinbase, and its transactions after the anchor.
#[derive(Debug, Clone, PartialEq, Eq)]
pub struct RecoveredBlock {
    pub info: RecoveredBlockInfo,
    pub gas_limit_without_anchor: u64,
    pub coinbase: [u8; 20],
    pub transactions: Vec<Vec<u8>>,
}

/// The number of transactions a block came with, `None` when it came without
/// its transaction list.
pub open spec fn transaction_count(transactions: Option<Vec<Vec<u8>>>) -> Option<nat> {
    match transactions {
        Some(v) => Some(v@.len()),
        None => None,
    }
}

/// The first check a block to recover fails, in order: timestamp, proposal id,
/// transactions, anchor transaction, gas limit.
pub open spec fn recovered_block_error(
    block_height: u64,
    proposal_id: u64,
    block_timestamp: u64,
    parent: RecoveredBlockInfo,
    transaction_count: Option<nat>,
    gas_limit: u64,
    anchor_gas_limit: u64,
    now: u64,
    timestamp_max_offset: u64,
) -> Option<Seq<char>> {
    if !(timestamp_lower_bound(parent.timestamp, now, timestamp_max_offset) <= block_timestamp && block_timestamp <= now) {
        Some(timestamp_error_message(block_height, block_timestamp, parent.timestamp, now, timestamp_max_offset))
    } else if !(parent.proposal_id <= proposal_id && proposal_id - parent.proposal_id <= 1) {
        Some(proposal_id_error_message(block_height, proposal_id, parent.proposal_id))
    } else if transaction_count is None {
        Some("recover_from_l2_block: No transactions in block"@)
    } else if transaction_count == Some(0nat) {
        Some("recover_from_l2_block: Cannot get anchor transaction from block"@)
    } else if gas_limit < anchor_gas_limit {
        Some("block header gas limit "@ + decimal(gas_limit as nat)
            + " is less than ANCHOR_V3_V4_GAS_LIMIT "@ + decimal(anchor_gas_limit as nat))
    } else {
        None
    }
}

/// The block of a proposal that a checked recovered block becomes.
pub open spec fn recovered_proposal_block(b: RecoveredBlock, is_forced_inclusion: bool) -> ProposalBlock {
    ProposalBlock {
        timestamp_sec: b.info.timestamp,
        gas_limit_without_anchor: b.gas_limit_without_anchor,
        transactions: b.transactions,
        is_forced_inclusion,
        coinbase: Some(b.coinbase),
    }
}

impl ProposalManager {
    /// Checks a block fetched for recovery against its parent, with `now` the
    /// time read from the clock: its timestamp, its proposal id, that it has
    /// an anchor transaction (`transactions` is `None` when the block came
    /// without its transaction list), and its gas limit. Returns what the
    /// proposal bookkeeping keeps of it, the anchor transaction dropped, or
    /// the first check's error.
    pub fn check_recovered_block(
        &self,
        block_height: u64,
        proposal_id: u64,
        block_timestamp: u64,
        parent: RecoveredBlockInfo,
        transactions: Option<Vec<Vec<u8>>>,
        gas_limit: u64,
        anchor_gas_limit: u64,
        coinbase: [u8; 20],
        now: u64,
    ) -> (r: Result<RecoveredBlock, ProposalError>)
        requires
            parent.timestamp < u64::MAX,
        ensures
            match r {
                Ok(b) => {
                    &&& recovered_block_error(block_height, proposal_id, block_timestamp, parent,
                        transaction_count(transactions), gas_limit, anchor_gas_limit, now, self.timestamp_max_offset()) is None
                    &&& b.info == (RecoveredBlockInfo { proposal_id, timestamp: block_timestamp })
                    &&& b.gas_limit_without_anchor == gas_limit - anchor_gas_limit
                    &&& b.coinbase == coinbase
                    &&& transactions matches Some(v) && b.transactions@ == v@.drop_first()
                },
                Err(e) => recovered_block_error(block_height, proposal_id, block_timestamp, parent,
                    transaction_count(transactions), gas_limit, anchor_gas_limit, now, self.timestamp_max_offset())
                    == Some(e.message@),
            },
    {
        let timestamp_max_offset = self.protocol_config.get_timestamp_max_offset();
        check_block_timestamp(block_height, block_timestamp, parent.timestamp, now, timestamp_max_offset)?;
        self.validate_block_proposal_id(block_height, proposal_id, parent.proposal_id)?;
        let mut txs = match transactions {
            None => return Err(ProposalError { message: String::from_str("recover_from_l2_block: No transactions in block") }),
            Some(v) => v,
        };
        if txs.len() == 0 {
            return Err(ProposalError {
                message: String::from_str("recover_from_l2_block: Cannot get anchor transaction from block"),
            });
        }
        let gas = gas_limit_without_anchor(gas_limit, anchor_gas_limit)?;
        let ghost all = txs@;
        let _ = txs.remove(0);
        assert(txs@ =~= all.drop_first());
        Ok(RecoveredBlock {
            info: RecoveredBlockInfo { proposal_id, timestamp: block_timestamp },
            gas_limit_without_anchor: gas,
            coinbase,
            transactions: txs,
        })
    }

    /// Checks a block fetched for recovery as `check_recovered_block` does,
    /// with the time read from the system clock as `now`. The clock decides
    /// the outcome: whatever it reads, an accepted block passes every check at
    /// some time, and a refused one fails a check at some time or reports the
    /// clock's error.
    pub fn check_recovered_block_now(
        &self,
        block_height: u64,
        proposal_id: u64,
        block_timestamp: u64,
        parent: RecoveredBlockInfo,
        transactions: Option<Vec<Vec<u8>>>,
        gas_limit: u64,
        anchor_gas_limit: u64,
        coinbase: [u8; 20],
    ) -> (r: Result<RecoveredBlock, ProposalError>)
        requires
            parent.timestamp < u64::MAX,
        ensures
            match r {
                Ok(b) => {
                    &&& exists|now: u64| #[trigger] recovered_block_error(block_height, proposal_id, block_timestamp,
                        parent, transaction_count(transactions), gas_limit, anchor_gas_limit, now,
                        self.timestamp_max_offset()) is None
                    &&& b.info == (RecoveredBlockInfo { proposal_id, timestamp: block_timestamp })
                    &&& b.gas_limit_without_anchor == gas_limit - anchor_gas_limit
                    &&& b.coinbase == coinbase
                    &&& transactions matches Some(v) && b.transactions@ == v@.drop_first()
                },
                Err(e) => {
                    ||| exists|now: u64| #[trigger] recovered_block_error(block_height, proposal_id, block_timestamp,
                        parent, transaction_count(transactions), gas_limit, anchor_gas_limit, now,
                        self.timestamp_max_offset()) == Some(e.message@)
                    ||| exists|detail: Seq<char>| e.message@ == #[trigger] clock_error_message(block_height, detail)
                },
            },
    {
        let now = match unix_time_now() {
            Ok(now) => now,
            Err(detail) => {
                let mut m = String::from_str("System time error while validating block timestamp at block ");
                append_decimal(&mut m, block_height);
                m.append(": ");
                m.append(detail.as_str());
                assert(m@ == clock_error_message(block_height, detail@));
                return Err(ProposalError { message: m });
            },
        };
        self.check_recovered_block(block_height, proposal_id, block_timestamp, parent, transactions, gas_limit,
            anchor_gas_limit, coinbase, now)
    }

    /// Adds a checked recovered block to the proposals, with the id of the L1
    /// block its anchor transaction names and whether it is a forced
    /// inclusion. Recovered blocks come in chain order: a block of the
    /// proposal being filled joins it; a block of another proposal closes the
    /// current one and starts its own, anchored at `anchor_block_id`, in the
    /// slot of the block's timestamp. Returns the block's proposal id and
    /// timestamp, the parent of the next block to recover.
    pub fn add_recovered_block(&mut self, block: RecoveredBlock, anchor_block_id: u64, is_forced_inclusion: bool)
        -> (r: RecoveredBlockInfo)
        ensures
            r == block.info,
            final(self).in_flight() == old(self).in_flight(),
            final(self).fi_head_spec() == old(self).fi_head_spec(),
            final(self).same_settings(old(self)),
            match old(self).current_proposal() {
                Some(p) if p.id == block.info.proposal_id => {
                    &&& final(self).queue() == old(self).queue()
                    &&& final(self).current_proposal() matches Some(q)
                        && q.id == p.id && q.anchor_block_id == p.anchor_block_id
                        && q.l2_slot_timestamp == p.l2_slot_timestamp
                        && q.blocks@ == p.blocks@.push(recovered_proposal_block(block, is_forced_inclusion))
                },
                _ => {
                    &&& final(self).queue() == old(self).queue_after_finalize()
                    &&& final(self).current_proposal() matches Some(q)
                        && q.id == block.info.proposal_id && q.anchor_block_id == anchor_block_id
                        && q.l2_slot_timestamp == block.info.timestamp
                        && q.blocks@ == seq![recovered_proposal_block(block, is_forced_inclusion)]
                },
            },
    {
        let info = block.info;
        let same_proposal = match &self.current {
            Some(p) => p.id == info.proposal_id,
            None => false,
        };
        if !same_proposal {
            self.create_new_proposal(info.proposal_id, anchor_block_id, info.timestamp);
        }
        let proposal_block = ProposalBlock {
            timestamp_sec: info.timestamp,
            gas_limit_without_anchor: block.gas_limit_without_anchor,
            transactions: block.transactions,
            is_forced_inclusion,
            coinbase: Some(block.coinbase),
        };
        let _ = self.add_l2_block(proposal_block);
        assert(seq![recovered_proposal_block(block, is_forced_inclusion)] =~= Seq::<ProposalBlock>::empty().push(
            recovered_proposal_block(block, is_forced_inclusion)));
        info
    }
}

} // verus!
