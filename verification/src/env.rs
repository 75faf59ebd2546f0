//! A snapshot of environment variables, handed to the configuration logic as
//! plain values.
use vstd::prelude::*;
use crate::parse::str_equal;

verus! {

/// The variables of an environment, in the order they were recorded; a later
/// entry for a name overrides an earlier one.
pub struct EnvVars {
    pub entries: Vec<(String, String)>,
}

/// The value recorded last for `key`.
pub open spec fn env_lookup(entries: Seq<(String, String)>, key: Seq<char>) -> Option<Seq<char>>
    decreases entries.len(),
{
    if entries.len() == 0 {
        None
    } else if entries.last().0@ == key {
        Some(entries.last().1@)
    } else {
        env_lookup(entries.drop_last(), key)
    }
}

impl EnvVars {
    /// The value of `key` in this snapshot.
    pub open spec fn lookup(&self, key: Seq<char>) -> Option<Seq<char>> {
        env_lookup(self.entries@, key)
    }

    /// An empty environment.
    pub fn new() -> (r: EnvVars)
        ensures
            forall|k: Seq<char>| r.lookup(k) is None,
    {
        EnvVars { entries: Vec::new() }
    }

    /// Records `value` for `key`.
    pub fn set(&mut self, key: &str, value: &str)
        ensures
            final(self).lookup(key@) == Some(value@),
            forall|k: Seq<char>| k != key@ ==> final(self).lookup(k) == old(self).lookup(k),
    {
        let ghost before = self.entries@;
        self.entries.push((String::from_str(key), String::from_str(value)));
        assert(self.entries@.drop_last() =~= before);
    }

    /// The value recorded last for `key`, if any.
    pub fn get(&self, key: &str) -> (r: Option<String>)
        ensures
            match r {
                Some(v) => self.lookup(key@) == Some(v@),
                None => self.lookup(key@) is None,
            },
    {
        let mut i = self.entries.len();
        assert(self.entries@.take(i as int) =~= self.entries@);
        while i > 0
            invariant
                i <= self.entries@.len(),
                env_lookup(self.entries@, key@) == env_lookup(self.entries@.take(i as int), key@),
            decreases i,
        {
            let ghost pre = self.entries@.take(i as int);
            assert(pre.drop_last() =~= self.entries@.take(i - 1));
            assert(pre.last() == self.entries@[i - 1]);
            if str_equal(self.entries[i - 1].0.as_str(), key) {
                return Some(self.entries[i - 1].1.clone());
            }
            i = i - 1;
        }
        None
    }
}

} // verus!
