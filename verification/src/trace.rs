//! Extraction of error entries from the textual dump of a transaction's
//! debug trace, and the revert message built from it.
use vstd::prelude::*;
use crate::text::{chars_of, push_char};

verus! {

/// The text that opens an error entry in a debug trace dump.
pub open spec fn error_marker() -> Seq<char> {
    seq!['e', 'r', 'r', 'o', 'r', ':', ' ', 'S', 'o', 'm', 'e', '(']
}

/// The separator put between two extracted error entries.
pub open spec fn entry_separator() -> Seq<char> {
    seq![',', ' ']
}

/// The text put before the extracted error entries.
pub open spec fn trace_errors_prefix() -> Seq<char> {
    ", errors from debug trace: "@
}

/// `p` occurs in `s` starting at index `i`.
pub open spec fn occurs_at(s: Seq<char>, p: Seq<char>, i: int) -> bool {
    0 <= i && i + p.len() <= s.len() && s.subrange(i, i + p.len()) == p
}

/// The first index at or after `from` where `p` occurs in `s`.
pub open spec fn find_from(s: Seq<char>, p: Seq<char>, from: int) -> Option<int>
    decreases s.len() + 1 - from,
{
    if from < 0 || from + p.len() > s.len() {
        None
    } else if occurs_at(s, p, from) {
        Some(from)
    } else {
        find_from(s, p, from + 1)
    }
}

/// The first index at or after `from` where `s` holds the character `c`.
pub open spec fn find_char_from(s: Seq<char>, c: char, from: int) -> Option<int>
    decreases s.len() - from,
{
    if from < 0 || from >= s.len() {
        None
    } else if s[from] == c {
        Some(from)
    } else {
        find_char_from(s, c, from + 1)
    }
}

pub proof fn lemma_find_from_bounds(s: Seq<char>, p: Seq<char>, from: int)
    ensures
        find_from(s, p, from) matches Some(i) ==> from <= i && occurs_at(s, p, i)
            && forall|j: int| from <= j < i ==> !occurs_at(s, p, j),
        (find_from(s, p, from) is None && 0 <= from) ==> forall|j: int| from <= j ==> !occurs_at(s, p, j),
    decreases s.len() + 1 - from,
{
    if from < 0 || from + p.len() > s.len() {
    } else if occurs_at(s, p, from) {
    } else {
        lemma_find_from_bounds(s, p, from + 1);
    }
}

pub proof fn lemma_find_char_from_bounds(s: Seq<char>, c: char, from: int)
    ensures
        find_char_from(s, c, from) matches Some(i) ==> from <= i < s.len() && s[i] == c
            && forall|j: int| from <= j < i ==> s[j] != c,
        (find_char_from(s, c, from) is None && 0 <= from) ==> forall|j: int| from <= j < s.len() ==> s[j] != c,
    decreases s.len() - from,
{
    if from < 0 || from >= s.len() {
    } else if s[from] == c {
    } else {
        lemma_find_char_from_bounds(s, c, from + 1);
    }
}

/// The error entries of a trace dump read from index `pos` on: each one runs
/// from an occurrence of the marker to the first `)` after it, and the search
/// for the next one resumes after that `)`. The scan stops at the first marker
/// that has no `)` after it.
pub open spec fn error_entries(s: Seq<char>, pos: int) -> Seq<Seq<char>>
    decreases s.len() + 1 - pos,
    via error_entries_decreases
{
    if pos < 0 || pos > s.len() {
        seq![]
    } else {
        match find_from(s, error_marker(), pos) {
            None => seq![],
            Some(a) => match find_char_from(s, ')', a) {
                None => seq![],
                Some(c) => seq![s.subrange(a, c + 1)] + error_entries(s, c + 1),
            },
        }
    }
}

#[via_fn]
proof fn error_entries_decreases(s: Seq<char>, pos: int) {
    if 0 <= pos <= s.len() {
        lemma_find_from_bounds(s, error_marker(), pos);
        match find_from(s, error_marker(), pos) {
            None => {},
            Some(a) => {
                lemma_find_char_from_bounds(s, ')', a);
            },
        }
    }
}

/// The entries joined by `sep`.
pub open spec fn join(parts: Seq<Seq<char>>, sep: Seq<char>) -> Seq<char>
    decreases parts.len(),
{
    if parts.len() == 0 {
        seq![]
    } else if parts.len() == 1 {
        parts[0]
    } else {
        join(parts.drop_last(), sep) + sep + parts.last()
    }
}

/// What `find_errors_from_trace` returns for the dump `s`.
pub open spec fn trace_errors_spec(s: Seq<char>) -> Option<Seq<char>> {
    let joined = join(error_entries(s, 0), entry_separator());
    if joined.len() == 0 {
        None
    } else {
        Some(trace_errors_prefix() + joined)
    }
}

fn marker_at(cs: &Vec<char>, i: usize) -> (r: bool)
    requires
        i <= cs@.len(),
    ensures
        r == occurs_at(cs@, error_marker(), i as int),
{
    if cs.len() - i < 12 {
        return false;
    }
    let r = cs[i] == 'e' && cs[i + 1] == 'r' && cs[i + 2] == 'r' && cs[i + 3] == 'o'
        && cs[i + 4] == 'r' && cs[i + 5] == ':' && cs[i + 6] == ' ' && cs[i + 7] == 'S'
        && cs[i + 8] == 'o' && cs[i + 9] == 'm' && cs[i + 10] == 'e' && cs[i + 11] == '(';
    proof {
        let sub = cs@.subrange(i as int, i + 12);
        if r {
            assert(sub =~= error_marker());
        } else {
            if sub == error_marker() {
                assert(sub[0] == cs@[i as int]);
                assert(sub[1] == cs@[i + 1]);
                assert(sub[2] == cs@[i + 2]);
                assert(sub[3] == cs@[i + 3]);
                assert(sub[4] == cs@[i + 4]);
                assert(sub[5] == cs@[i + 5]);
                assert(sub[6] == cs@[i + 6]);
                assert(sub[7] == cs@[i + 7]);
                assert(sub[8] == cs@[i + 8]);
                assert(sub[9] == cs@[i + 9]);
                assert(sub[10] == cs@[i + 10]);
                assert(sub[11] == cs@[i + 11]);
            }
        }
    }
    r
}

fn find_marker(cs: &Vec<char>, from: usize) -> (r: Option<usize>)
    requires
        from <= cs@.len(),
    ensures
        match r {
            None => find_from(cs@, error_marker(), from as int) is None,
            Some(i) => find_from(cs@, error_marker(), from as int) == Some(i as int),
        },
{
    let mut i = from;
    while i < cs.len()
        invariant
            from <= i <= cs@.len(),
            find_from(cs@, error_marker(), from as int) == find_from(cs@, error_marker(), i as int),
        decreases cs@.len() - i,
    {
        if marker_at(cs, i) {
            return Some(i);
        }
        i = i + 1;
    }
    None
}

fn find_close_paren(cs: &Vec<char>, from: usize) -> (r: Option<usize>)
    requires
        from <= cs@.len(),
    ensures
        match r {
            None => find_char_from(cs@, ')', from as int) is None,
            Some(i) => find_char_from(cs@, ')', from as int) == Some(i as int),
        },
{
    let mut i = from;
    while i < cs.len()
        invariant
            from <= i <= cs@.len(),
            find_char_from(cs@, ')', from as int) == find_char_from(cs@, ')', i as int),
        decreases cs@.len() - i,
    {
        if cs[i] == ')' {
            return Some(i);
        }
        i = i + 1;
    }
    None
}

/// Collects the `error: Some(...)` entries of a debug trace dump, joined by
/// `", "` behind the prefix `", errors from debug trace: "`; `None` when the
/// dump holds no complete entry.
pub fn find_errors_from_trace(trace_str: &str) -> (r: Option<String>)
    ensures
        match r {
            None => trace_errors_spec(trace_str@) is None,
            Some(m) => trace_errors_spec(trace_str@) == Some(m@),
        },
{
    let cs = chars_of(trace_str);
    let ghost s = cs@;
    let mut start_pos: usize = 0;
    let mut error_message = String::new();
    let ghost mut done: Seq<Seq<char>> = seq![];
    loop
        invariant
            s == cs@,
            start_pos <= s.len(),
            done + error_entries(s, start_pos as int) == error_entries(s, 0),
            error_message@ == join(done, entry_separator()),
            error_message@.len() == 0 <==> done.len() == 0,
        ensures
            done == error_entries(s, 0),
            error_message@ == join(done, entry_separator()),
            error_message@.len() == 0 <==> done.len() == 0,
        decreases s.len() - start_pos,
    {
        let ghost old_pos = start_pos;
        match find_marker(&cs, start_pos) {
            None => {
                assert(error_entries(s, start_pos as int) == Seq::<Seq<char>>::empty());
                assert(done + error_entries(s, start_pos as int) =~= done);
                break;
            },
            Some(a) => {
                proof { lemma_find_from_bounds(s, error_marker(), start_pos as int); }
                match find_close_paren(&cs, a) {
                    None => {
                        assert(error_entries(s, start_pos as int) == Seq::<Seq<char>>::empty());
                        assert(done + error_entries(s, start_pos as int) == done);
                        break;
                    },
                    Some(c) => {
                        proof { lemma_find_char_from_bounds(s, ')', a as int); }
                        let ghost entry = s.subrange(a as int, c + 1);
                        assert(error_entries(s, start_pos as int)
                            == seq![entry] + error_entries(s, c + 1));
                        let ghost old_msg = error_message@;
                        if !error_message.as_str().is_empty() {
                            error_message.append(", ");
                            proof { reveal_strlit(", "); }
                        }
                        let ghost before = error_message@;
                        let mut k = a;
                        while k <= c
                            invariant
                                a <= k <= c + 1,
                                c < cs.len(),
                                s == cs@,
                                error_message@ == before + s.subrange(a as int, k as int),
                            decreases c + 1 - k,
                        {
                            push_char(&mut error_message, cs[k]);
                            assert(s.subrange(a as int, k + 1) == s.subrange(a as int, k as int).push(s[k as int]));
                            k = k + 1;
                        }
                        proof {
                            let new_done = done.push(entry);
                            if done.len() == 0 {
                                assert(new_done =~= seq![entry]);
                                assert(error_message@ =~= join(new_done, entry_separator()));
                            } else {
                                assert(new_done.drop_last() =~= done);
                                assert(error_message@ =~= join(new_done, entry_separator()));
                            }
                            assert(new_done + error_entries(s, c + 1)
                                =~= done + (seq![entry] + error_entries(s, c + 1)));
                            done = new_done;
                        }
                        start_pos = c + 1;
                    },
                }
            },
        }
    }
    assert(done =~= error_entries(s, 0));
    if !error_message.as_str().is_empty() {
        let mut out = String::from_str(", errors from debug trace: ");
        out.append(error_message.as_str());
        Some(out)
    } else {
        None
    }
}

/// How the replayed call of a failed transaction ended.
pub enum CallOutcome {
    /// The call failed; the text of the error.
    Failed(String),
    /// The call returned; the text of the returned data.
    Returned(String),
}

/// The revert reason shown for a replayed call.
pub open spec fn revert_reason_spec(call: CallOutcome) -> Seq<char> {
    match call {
        CallOutcome::Failed(e) => e@,
        CallOutcome::Returned(o) => "Unknown revert reason: "@ + o@,
    }
}

/// The message reported for a failed transaction.
pub open spec fn revert_message_spec(tx_hash: Seq<char>, trace_dump: Option<Seq<char>>, call: Option<CallOutcome>) -> Seq<char> {
    match call {
        None => "Transaction "@ + tx_hash + " failed"@,
        Some(outcome) => {
            let base = "Transaction "@ + tx_hash + " failed: "@ + revert_reason_spec(outcome);
            match trace_dump {
                Some(d) => match trace_errors_spec(d) {
                    Some(e) => base + e,
                    None => base,
                },
                None => base,
            }
        },
    }
}

/// Builds the message for a failed transaction from what was learnt about
/// it: `tx_hash` as text, the dump of its debug trace when tracing worked,
/// and the outcome of replaying it as a call, `None` when the transaction
/// itself could not be fetched.
pub fn compose_revert_message(tx_hash: &str, trace_dump: Option<&str>, call: Option<CallOutcome>) -> (r: String)
    ensures
        r@ == revert_message_spec(tx_hash@, match trace_dump { Some(d) => Some(d@), None => None }, call),
{
    let trace_errors = match trace_dump {
        Some(d) => find_errors_from_trace(d),
        None => None,
    };
    match call {
        None => {
            let mut m = String::from_str("Transaction ");
            m.append(tx_hash);
            m.append(" failed");
            proof {
                reveal_strlit("Transaction ");
                reveal_strlit(" failed");
            }
            m
        },
        Some(outcome) => {
            let mut m = String::from_str("Transaction ");
            m.append(tx_hash);
            m.append(" failed: ");
            proof {
                reveal_strlit("Transaction ");
                reveal_strlit(" failed: ");
            }
            match outcome {
                CallOutcome::Failed(e) => {
                    m.append(e.as_str());
                },
                CallOutcome::Returned(o) => {
                    m.append("Unknown revert reason: ");
                    m.append(o.as_str());
                    proof { reveal_strlit("Unknown revert reason: "); }
                },
            }
            match trace_errors {
                Some(e) => {
                    m.append(e.as_str());
                },
                None => {},
            }
            m
        },
    }
}

} // verus!
