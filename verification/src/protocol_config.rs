//! Protocol parameters the node needs while building and proposing blocks.
use vstd::prelude::*;
use std::sync::Arc;
use std::sync::atomic::AtomicU8;
use crate::text::append_decimal_u8;

verus! {

/// Protocol parameters the node needs while building and proposing blocks.
///
/// `basefee_sharing_pctg` is an immutable of the inbox implementation, so it
/// changes whenever the inbox proxy is upgraded. It lives behind an `Arc` so
/// that every clone of this config sees the value written by
/// [`Self::set_basefee_sharing_pctg`].
#[derive(Default)]
pub struct ProtocolConfig {
    basefee_sharing_pctg: Arc<AtomicU8>,
    max_anchor_offset: u64,
    timestamp_max_offset: u64,
}

impl ProtocolConfig {
    /// The largest anchor block offset the protocol accepts.
    pub closed spec fn max_anchor_offset_spec(&self) -> u64 {
        self.max_anchor_offset
    }

    /// The largest timestamp offset the protocol accepts.
    pub closed spec fn timestamp_max_offset_spec(&self) -> u64 {
        self.timestamp_max_offset
    }

    /// Whether `self` has the offset limits of `other`, as every clone of
    /// `other` has.
    pub open spec fn same_offsets(&self, other: &ProtocolConfig) -> bool {
        &&& self.max_anchor_offset_spec() == other.max_anchor_offset_spec()
        &&& self.timestamp_max_offset_spec() == other.timestamp_max_offset_spec()
    }

    /// A config with the given percentage and the chain's offset limits.
    pub fn new(basefee_sharing_pctg: u8, max_anchor_offset: u64, timestamp_max_offset: u64) -> (r: Self)
        ensures
            r.max_anchor_offset_spec() == max_anchor_offset,
            r.timestamp_max_offset_spec() == timestamp_max_offset,
    {
        ProtocolConfig {
            basefee_sharing_pctg: Arc::new(AtomicU8::new(basefee_sharing_pctg)),
            max_anchor_offset,
            timestamp_max_offset,
        }
    }

    /// The percentage last stored by any clone of this config. The value is
    /// shared with the other clones through an atomic, so nothing is claimed
    /// about it here.
    pub fn get_basefee_sharing_pctg(&self) -> u8 {
        self.basefee_sharing_pctg.load(std::sync::atomic::Ordering::Relaxed)
    }

    /// Stores a freshly read percentage, visible to every clone, and returns
    /// the previous one. Both live in the shared atomic, so nothing is claimed
    /// about them here.
    pub fn set_basefee_sharing_pctg(&self, basefee_sharing_pctg: u8) -> u8 {
        self.basefee_sharing_pctg.swap(basefee_sharing_pctg, std::sync::atomic::Ordering::Relaxed)
    }

    pub fn get_max_anchor_height_offset(&self) -> (r: u64)
        ensures
            r == self.max_anchor_offset_spec(),
    {
        self.max_anchor_offset
    }

    pub fn get_timestamp_max_offset(&self) -> (r: u64)
        ensures
            r == self.timestamp_max_offset_spec(),
    {
        self.timestamp_max_offset
    }

    /// One tick of the periodic refresh: a successfully read percentage is
    /// stored, a failed read keeps the stored one. The outcome says which, and
    /// whether the value changed.
    pub fn apply_refresh(&self, fetched: Result<u8, String>) -> (r: RefreshOutcome)
        ensures
            match fetched {
                Ok(v) => match r {
                    RefreshOutcome::Changed { previous, current } => current == v && previous != v,
                    RefreshOutcome::Unchanged { value } => value == v,
                    RefreshOutcome::Kept { .. } => false,
                },
                Err(e) => match r {
                    RefreshOutcome::Kept { error, .. } => error@ == e@,
                    _ => false,
                },
            },
    {
        match fetched {
            Ok(v) => {
                let previous = self.set_basefee_sharing_pctg(v);
                if previous != v {
                    RefreshOutcome::Changed { previous, current: v }
                } else {
                    RefreshOutcome::Unchanged { value: v }
                }
            },
            Err(error) => RefreshOutcome::Kept { value: self.get_basefee_sharing_pctg(), error },
        }
    }
}

impl Clone for ProtocolConfig {
    /// A copy that shares the percentage with `self` and has its offset limits.
    fn clone(&self) -> (r: Self)
        ensures
            r.max_anchor_offset_spec() == self.max_anchor_offset_spec(),
            r.timestamp_max_offset_spec() == self.timestamp_max_offset_spec(),
    {
        ProtocolConfig {
            basefee_sharing_pctg: self.basefee_sharing_pctg.clone(),
            max_anchor_offset: self.max_anchor_offset,
            timestamp_max_offset: self.timestamp_max_offset,
        }
    }
}

/// What one refresh tick did to the stored percentage.
#[derive(Debug)]
pub enum RefreshOutcome {
    /// The inbox reported a new percentage, now stored.
    Changed { previous: u8, current: u8 },
    /// The inbox reported the stored percentage.
    Unchanged { value: u8 },
    /// Reading the inbox failed; `value` stays stored.
    Kept { value: u8, error: String },
}

impl RefreshOutcome {
    /// The line logged for this outcome, if any.
    pub fn log_message(&self) -> (r: Option<String>)
        ensures
            match self {
                RefreshOutcome::Unchanged { .. } => r is None,
                RefreshOutcome::Changed { previous, current } => r is Some && r->Some_0@ ==
                    "Inbox basefee sharing percentage changed from "@ + crate::text::decimal(*previous as nat)
                    + " to "@ + crate::text::decimal(*current as nat)
                    + "; blocks built from now on carry the new value"@,
                RefreshOutcome::Kept { value, error } => r is Some && r->Some_0@ ==
                    "Failed to refresh the basefee sharing percentage from the inbox, keeping "@
                    + crate::text::decimal(*value as nat) + ": "@ + error@,
            },
    {
        match self {
            RefreshOutcome::Unchanged { .. } => None,
            RefreshOutcome::Changed { previous, current } => {
                let mut m = String::from_str("Inbox basefee sharing percentage changed from ");
                append_decimal_u8(&mut m, *previous);
                m.append(" to ");
                append_decimal_u8(&mut m, *current);
                m.append("; blocks built from now on carry the new value");
                Some(m)
            },
            RefreshOutcome::Kept { value, error } => {
                let mut m = String::from_str("Failed to refresh the basefee sharing percentage from the inbox, keeping ");
                append_decimal_u8(&mut m, *value);
                m.append(": ");
                m.append(error.as_str());
                Some(m)
            },
        }
    }
}

} // verus!
