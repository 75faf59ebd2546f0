//! Reanchoring: re-proposing the blocks of a proposal against a newer L1
//! anchor. The decisions of the walk over the blocks live here; fetching and
//! advancing the chain is left to the caller, who feeds each outcome back.
use vstd::prelude::*;
use crate::proposal_manager::ProposalError;
use crate::text::{decimal, append_decimal};

verus! {

/// How many blocks are reanchored and the timestamp of the first one, given
/// the configured maximum and the L2 slot's and its parent's timestamps: at
/// most one block per second between the parent and the slot, the last one at
/// the slot's timestamp.
pub open spec fn reanchor_block_count(max_blocks_to_reanchor: u64, slot_timestamp: u64, parent_timestamp: u64) -> u64 {
    let gap = (slot_timestamp - parent_timestamp) as u64;
    if max_blocks_to_reanchor <= gap { max_blocks_to_reanchor } else { gap }
}

/// Computes `(first_block_timestamp, max_blocks_to_reanchor)` for a reanchor
/// starting at a slot whose parent has the timestamp `parent_timestamp`.
pub fn reanchor_window(max_blocks_to_reanchor: u64, slot_timestamp: u64, parent_timestamp: u64) -> (r: (u64, u64))
    requires
        parent_timestamp <= slot_timestamp,
        reanchor_block_count(max_blocks_to_reanchor, slot_timestamp, parent_timestamp) == 0 ==> slot_timestamp < u64::MAX,
    ensures
        r.1 == reanchor_block_count(max_blocks_to_reanchor, slot_timestamp, parent_timestamp),
        r.0 == slot_timestamp - r.1 + 1,
{
    let gap = slot_timestamp - parent_timestamp;
    let count = if max_blocks_to_reanchor <= gap { max_blocks_to_reanchor } else { gap };
    let first = slot_timestamp - count + 1;
    (first, count)
}

/// The reanchored blocks fit between the parent and the slot: the first comes
/// after the parent, the last at the slot's timestamp, and there are no more
/// than the configured maximum.
pub proof fn lemma_reanchor_window_fits(max_blocks_to_reanchor: u64, slot_timestamp: u64, parent_timestamp: u64)
    requires
        parent_timestamp <= slot_timestamp,
    ensures
        ({
            let count = reanchor_block_count(max_blocks_to_reanchor, slot_timestamp, parent_timestamp);
            let first = slot_timestamp - count + 1;
            &&& count <= max_blocks_to_reanchor
            &&& parent_timestamp < first
            &&& count > 0 ==> first + count - 1 == slot_timestamp
        }),
{
}

/// What the walk asks the caller to do next.
#[derive(Debug, Clone, Copy, PartialEq, Eq)]
pub enum ReanchorStep {
    /// The walk is over; finalize the current proposal.
    Done,
    /// Extract the transactions of the block at this position and report
    /// whether it has any besides the anchor.
    Inspect(usize),
}

/// A block to reanchor.
#[derive(Debug, Clone, Copy, PartialEq, Eq)]
pub struct ReanchorJob {
    /// Position of the block in the list.
    pub position: usize,
    /// The first reanchored block uses the prepared slot info; later ones use
    /// the latest slot info with the timestamp one past its parent's.
    pub use_first_slot_info: bool,
    /// Whether a forced inclusion may be added before this block: not for the
    /// last block that will be reanchored.
    pub allow_forced_inclusion: bool,
}

/// Why a reanchor walk ended early: the error to report, and whether the
/// node is to cancel on a critical error first.
#[derive(Debug)]
pub struct ReanchorFailure {
    pub error: ProposalError,
    pub cancel_on_critical_error: bool,
}

/// The transactions of a block to reanchor, without its leading anchor
/// transaction. A block that came without its transaction list, or with an
/// empty one, ends the walk with an error naming it; the node does not cancel
/// for it.
pub fn extract_block_transactions<T>(block_number: u64, transactions: Option<Vec<T>>) -> (r: Result<Vec<T>, ReanchorFailure>)
    ensures
        match transactions {
            Some(v) if v@.len() > 0 => r matches Ok(txs) && txs@ == v@.drop_first(),
            _ => r matches Err(f) && !f.cancel_on_critical_error
                && f.error.message@ == "Cannot extract transactions from block "@ + decimal(block_number as nat),
        },
{
    match transactions {
        Some(v) => if v.len() > 0 {
            let mut txs = v;
            let ghost all = txs@;
            let _ = txs.remove(0);
            assert(txs@ =~= all.drop_first());
            return Ok(txs);
        },
        None => {},
    }
    let mut m = String::from_str("Cannot extract transactions from block ");
    append_decimal(&mut m, block_number);
    Err(ReanchorFailure { error: ProposalError { message: m }, cancel_on_critical_error: false })
}

/// The state of the walk over the blocks to reanchor.
pub struct ReanchorWalk {
    position: usize,
    processed: u64,
    common_block_processed: bool,
    block_count: usize,
    max_blocks: u64,
}

impl ReanchorWalk {
    pub closed spec fn position_spec(&self) -> usize {
        self.position
    }

    pub closed spec fn processed_spec(&self) -> u64 {
        self.processed
    }

    pub closed spec fn common_block_processed_spec(&self) -> bool {
        self.common_block_processed
    }

    pub closed spec fn block_count_spec(&self) -> usize {
        self.block_count
    }

    pub closed spec fn max_blocks_spec(&self) -> u64 {
        self.max_blocks
    }

    /// The walk never goes past the blocks, and never reanchors more blocks
    /// than the maximum.
    pub open spec fn wf(&self) -> bool {
        &&& self.position_spec() <= self.block_count_spec()
        &&& self.processed_spec() <= self.max_blocks_spec()
    }

    /// How much work is left: it shrinks with every block skipped or reanchored.
    pub open spec fn remaining(&self) -> nat {
        ((self.block_count_spec() - self.position_spec()) + (self.max_blocks_spec() - self.processed_spec())) as nat
    }

    /// A walk over `block_count` blocks reanchoring at most `max_blocks`.
    pub fn new(block_count: usize, max_blocks: u64) -> (r: Self)
        ensures
            r.wf(),
            r.position_spec() == 0,
            r.processed_spec() == 0,
            !r.common_block_processed_spec(),
            r.block_count_spec() == block_count,
            r.max_blocks_spec() == max_blocks,
    {
        ReanchorWalk { position: 0, processed: 0, common_block_processed: false, block_count, max_blocks }
    }

    /// The number of blocks reanchored so far.
    pub fn processed(&self) -> (r: u64)
        ensures
            r == self.processed_spec(),
    {
        self.processed
    }

    /// Skips the blocks flagged as forced inclusions and tells the caller
    /// which block to look at next, or that the walk is over (all blocks seen,
    /// or the maximum reached).
    pub fn next(&mut self, forced_inclusion_flags: &[bool]) -> (r: ReanchorStep)
        requires
            old(self).wf(),
            forced_inclusion_flags@.len() >= old(self).block_count_spec(),
        ensures
            final(self).wf(),
            final(self).processed_spec() == old(self).processed_spec(),
            final(self).common_block_processed_spec() == old(self).common_block_processed_spec(),
            final(self).block_count_spec() == old(self).block_count_spec(),
            final(self).max_blocks_spec() == old(self).max_blocks_spec(),
            old(self).position_spec() <= final(self).position_spec(),
            forall|i: int| old(self).position_spec() <= i < final(self).position_spec()
                ==> forced_inclusion_flags@[i],
            match r {
                ReanchorStep::Done => final(self).position_spec() == final(self).block_count_spec()
                    || final(self).processed_spec() >= final(self).max_blocks_spec(),
                ReanchorStep::Inspect(p) => p == final(self).position_spec()
                    && p < final(self).block_count_spec()
                    && final(self).processed_spec() < final(self).max_blocks_spec()
                    && !forced_inclusion_flags@[p as int],
            },
    {
        while self.position < self.block_count && self.processed < self.max_blocks
            invariant
                self.wf(),
                forced_inclusion_flags@.len() >= self.block_count,
                self.processed == old(self).processed_spec(),
                self.common_block_processed == old(self).common_block_processed_spec(),
                self.block_count == old(self).block_count_spec(),
                self.max_blocks == old(self).max_blocks_spec(),
                old(self).position_spec() <= self.position,
                forall|i: int| old(self).position_spec() <= i < self.position ==> forced_inclusion_flags@[i],
            decreases self.block_count - self.position,
        {
            if forced_inclusion_flags[self.position] {
                self.position = self.position + 1;
            } else {
                return ReanchorStep::Inspect(self.position);
            }
        }
        ReanchorStep::Done
    }

    /// Decides on the inspected block: a block with no transactions besides
    /// its anchor is skipped once a regular block has been reanchored; any
    /// other block is to be reanchored.
    pub fn decide(&mut self, has_transactions: bool) -> (r: Option<ReanchorJob>)
        requires
            old(self).wf(),
            old(self).position_spec() < old(self).block_count_spec(),
            old(self).processed_spec() < old(self).max_blocks_spec(),
        ensures
            final(self).wf(),
            final(self).processed_spec() == old(self).processed_spec(),
            final(self).common_block_processed_spec() == old(self).common_block_processed_spec(),
            final(self).block_count_spec() == old(self).block_count_spec(),
            final(self).max_blocks_spec() == old(self).max_blocks_spec(),
            (!has_transactions && old(self).common_block_processed_spec()) ==> {
                &&& r is None
                &&& final(self).position_spec() == old(self).position_spec() + 1
            },
            !(!has_transactions && old(self).common_block_processed_spec()) ==> {
                &&& r matches Some(job)
                &&& job.position == old(self).position_spec()
                &&& job.use_first_slot_info == (old(self).processed_spec() == 0)
                &&& job.allow_forced_inclusion == !(old(self).position_spec() + 1 == old(self).block_count_spec()
                    || old(self).processed_spec() + 1 == old(self).max_blocks_spec())
                &&& final(self).position_spec() == old(self).position_spec()
            },
    {
        if !has_transactions && self.common_block_processed {
            self.position = self.position + 1;
            return None;
        }
        let is_last = self.position + 1 == self.block_count || self.processed + 1 == self.max_blocks;
        Some(ReanchorJob {
            position: self.position,
            use_first_slot_info: self.processed == 0,
            allow_forced_inclusion: !is_last,
        })
    }

    /// Records a reanchored block. When a forced inclusion went in first, the
    /// same block is still to be reanchored; otherwise the walk moves past it.
    pub fn record_reanchored(&mut self, was_forced_inclusion: bool)
        requires
            old(self).wf(),
            old(self).position_spec() < old(self).block_count_spec(),
            old(self).processed_spec() < old(self).max_blocks_spec(),
        ensures
            final(self).wf(),
            final(self).processed_spec() == old(self).processed_spec() + 1,
            final(self).block_count_spec() == old(self).block_count_spec(),
            final(self).max_blocks_spec() == old(self).max_blocks_spec(),
            was_forced_inclusion ==> final(self).position_spec() == old(self).position_spec()
                && final(self).common_block_processed_spec() == old(self).common_block_processed_spec(),
            !was_forced_inclusion ==> final(self).position_spec() == old(self).position_spec() + 1
                && final(self).common_block_processed_spec(),
            final(self).remaining() < old(self).remaining(),
    {
        self.processed = self.processed + 1;
        if !was_forced_inclusion {
            self.common_block_processed = true;
            self.position = self.position + 1;
        }
    }

    /// Ends the walk on a block that could not be reanchored: the node
    /// cancels on a critical error and reports an error naming the block's
    /// number and the cause. No block is reanchored after it, and the current
    /// proposal is not finalized.
    pub fn record_failure(self, block_number: u64, error: &str) -> (r: ReanchorFailure)
        requires
            self.wf(),
            self.position_spec() < self.block_count_spec(),
            self.processed_spec() < self.max_blocks_spec(),
        ensures
            r.cancel_on_critical_error,
            r.error.message@ == "Failed to reanchor block "@ + decimal(block_number as nat) + ": "@ + error@,
    {
        let mut m = String::from_str("Failed to reanchor block ");
        append_decimal(&mut m, block_number);
        m.append(": ");
        m.append(error);
        ReanchorFailure { error: ProposalError { message: m }, cancel_on_critical_error: true }
    }
}

} // verus!
