//! Verified-profile ledger: the single source of truth for "is this account
//! currently verified". A persistent mapping from account identifier to the
//! millisecond timestamp of its last successful verification, stored as a
//! sequence of bindings with pairwise-distinct keys and abstracted as a
//! `Map<Seq<char>, u64>`.
//!
//! Each mutation reports the storage delta it caused, measured against the
//! ledger's footprint model: a record occupies its key's length plus eight
//! bytes for the timestamp.

use vstd::prelude::*;
use vstd::map::*;

verus! {

/// Storage footprint of one ledger record: the key plus an 8-byte timestamp.
pub open spec fn record_footprint(account_id: Seq<char>) -> nat {
    account_id.len() + 8
}

/// The mapping described by a sequence of bindings; a later binding for the
/// same key overwrites an earlier one.
pub open spec fn entries_map(s: Seq<(String, u64)>) -> Map<Seq<char>, u64>
    decreases s.len(),
{
    if s.len() == 0 {
        Map::empty()
    } else {
        entries_map(s.drop_last()).insert(s.last().0@, s.last().1)
    }
}

/// No two bindings share a key.
pub open spec fn unique_keys(s: Seq<(String, u64)>) -> bool {
    forall|i: int, j: int| 0 <= i < j < s.len() ==> s[i].0@ != s[j].0@
}

proof fn lemma_entries_map_contains(s: Seq<(String, u64)>, key: Seq<char>)
    ensures
        entries_map(s).contains_key(key) <==> exists|i: int|
            0 <= i < s.len() && s[i].0@ == key,
    decreases s.len(),
{
    if s.len() > 0 {
        let t = s.drop_last();
        lemma_entries_map_contains(t, key);
        if s.last().0@ == key {
            assert(s[s.len() - 1].0@ == key);
        } else {
            if entries_map(s).contains_key(key) {
                let i = choose|i: int| 0 <= i < t.len() && t[i].0@ == key;
                assert(s[i].0@ == key);
            }
            if exists|i: int| 0 <= i < s.len() && s[i].0@ == key {
                let i = choose|i: int| 0 <= i < s.len() && s[i].0@ == key;
                assert(i != s.len() - 1);
                assert(t[i].0@ == key);
            }
        }
    }
}

proof fn lemma_entries_map_index(s: Seq<(String, u64)>, i: int)
    requires
        unique_keys(s),
        0 <= i < s.len(),
    ensures
        entries_map(s).contains_key(s[i].0@),
        entries_map(s)[s[i].0@] == s[i].1,
    decreases s.len(),
{
    let t = s.drop_last();
    if i == s.len() - 1 {
    } else {
        assert(unique_keys(t));
        lemma_entries_map_index(t, i);
        assert(t[i] == s[i]);
        assert(s[i].0@ != s.last().0@);
    }
}

proof fn lemma_entries_map_push(s: Seq<(String, u64)>, p: (String, u64))
    ensures
        entries_map(s.push(p)) == entries_map(s).insert(p.0@, p.1),
{
    assert(s.push(p).drop_last() =~= s);
    assert(s.push(p).last() == p);
}

proof fn lemma_remove_keeps_unique(s: Seq<(String, u64)>, i: int)
    requires
        unique_keys(s),
        0 <= i < s.len(),
    ensures
        unique_keys(s.remove(i)),
        forall|j: int| 0 <= j < s.remove(i).len() ==> #[trigger] s.remove(i)[j].0@ != s[i].0@,
{
    s.remove_ensures(i);
    let t = s.remove(i);
    assert forall|j: int| 0 <= j < t.len() implies #[trigger] t[j].0@ != s[i].0@ by {
        if j < i {
            assert(t[j] == s[j]);
        } else {
            assert(t[j] == s[j + 1]);
        }
    }
    assert forall|a: int, b: int| 0 <= a < b < t.len() implies t[a].0@ != t[b].0@ by {
        if b < i {
            assert(t[a] == s[a] && t[b] == s[b]);
        } else if a >= i {
            assert(t[a] == s[a + 1] && t[b] == s[b + 1]);
        } else {
            assert(t[a] == s[a] && t[b] == s[b + 1]);
        }
    }
}

proof fn lemma_entries_map_remove_at(s: Seq<(String, u64)>, i: int)
    requires
        unique_keys(s),
        0 <= i < s.len(),
    ensures
        entries_map(s.remove(i)) == entries_map(s).remove(s[i].0@),
{
    s.remove_ensures(i);
    lemma_remove_keeps_unique(s, i);
    let t = s.remove(i);
    let key0 = s[i].0@;
    assert forall|k: Seq<char>|
        entries_map(t).contains_key(k) == entries_map(s).remove(key0).contains_key(k) by {
        lemma_entries_map_contains(t, k);
        lemma_entries_map_contains(s, k);
        if entries_map(t).contains_key(k) {
            let j = choose|j: int| 0 <= j < t.len() && t[j].0@ == k;
            assert(t[j].0@ != key0);
            if j < i {
                assert(s[j].0@ == k);
            } else {
                assert(s[j + 1].0@ == k);
            }
        }
        if entries_map(s).remove(key0).contains_key(k) {
            let j = choose|j: int| 0 <= j < s.len() && s[j].0@ == k;
            assert(j != i);
            if j < i {
                assert(t[j].0@ == k);
            } else {
                assert(t[j - 1] == s[j]);
                assert(t[j - 1].0@ == k);
            }
        }
    }
    assert forall|k: Seq<char>| entries_map(t).contains_key(k) implies entries_map(t)[k]
        == entries_map(s).remove(key0)[k] by {
        lemma_entries_map_contains(t, k);
        let j = choose|j: int| 0 <= j < t.len() && t[j].0@ == k;
        lemma_entries_map_index(t, j);
        if j < i {
            assert(t[j] == s[j]);
            lemma_entries_map_index(s, j);
        } else {
            assert(t[j] == s[j + 1]);
            lemma_entries_map_index(s, j + 1);
        }
        assert(t[j].0@ != key0);
    }
    assert(entries_map(t) =~= entries_map(s).remove(key0));
}

/// Law: re-verifying an account overwrites its record rather than adding a
/// second one. Upserting twice for the same account leaves exactly the
/// ledger of the single later upsert: the account stays verified, reads back
/// the latest timestamp, and no account gained or lost a record compared to
/// the first upsert alone.
pub proof fn lemma_upsert_overwrites(
    ledger: Map<Seq<char>, u64>,
    account_id: Seq<char>,
    first: u64,
    second: u64,
)
    ensures
        ledger.insert(account_id, first).insert(account_id, second) == ledger.insert(
            account_id,
            second,
        ),
        ledger.insert(account_id, first).insert(account_id, second).contains_key(account_id),
        ledger.insert(account_id, first).insert(account_id, second)[account_id] == second,
        ledger.insert(account_id, first).insert(account_id, second).dom() == ledger.insert(
            account_id,
            first,
        ).dom(),
{
    assert(ledger.insert(account_id, first).insert(account_id, second) =~= ledger.insert(
        account_id,
        second,
    ));
    assert(ledger.insert(account_id, first).insert(account_id, second).dom() =~= ledger.insert(
        account_id,
        first,
    ).dom());
}

/// Law: removing a record directly after inserting it restores the ledger,
/// so the account is no longer verified; and the storage the insertion grew
/// equals the storage the removal frees, so at any byte-cost rate the
/// refunded cost equals the cost that was charged.
pub proof fn lemma_remove_after_upsert_round_trip(
    ledger: Map<Seq<char>, u64>,
    account_id: Seq<char>,
    verified_at: u64,
    storage_byte_cost: u128,
)
    requires
        !ledger.contains_key(account_id),
    ensures
        ledger.insert(account_id, verified_at).remove(account_id) == ledger,
        !ledger.insert(account_id, verified_at).remove(account_id).contains_key(account_id),
        ({
            let grown = if ledger.contains_key(account_id) {
                0int
            } else {
                record_footprint(account_id) as int
            };
            let freed = if ledger.insert(account_id, verified_at).contains_key(account_id) {
                record_footprint(account_id) as int
            } else {
                0int
            };
            grown * storage_byte_cost == freed * storage_byte_cost
        }),
{
    assert(ledger.insert(account_id, verified_at).remove(account_id) =~= ledger);
}

/// The ledger itself. Its abstract value (`@`) is the mapping from account
/// identifier to verification timestamp.
pub struct ProfileLedger {
    entries: Vec<(String, u64)>,
}

impl View for ProfileLedger {
    type V = Map<Seq<char>, u64>;

    closed spec fn view(&self) -> Map<Seq<char>, u64> {
        entries_map(self.entries@)
    }
}

impl ProfileLedger {
    /// The ledger's representation keeps one binding per account.
    pub closed spec fn wf(self) -> bool {
        unique_keys(self.entries@)
    }

    /// An empty ledger.
    pub fn new() -> (r: ProfileLedger)
        ensures
            r.wf(),
            r@ == Map::<Seq<char>, u64>::empty(),
    {
        ProfileLedger { entries: Vec::new() }
    }

    fn find_index(&self, account_id: &str) -> (r: Option<usize>)
        ensures
            match r {
                Some(i) => i < self.entries@.len() && self.entries@[i as int].0@ == account_id@,
                None => forall|j: int|
                    0 <= j < self.entries@.len() ==> self.entries@[j].0@ != account_id@,
            },
    {
        let key_owned = String::from_str(account_id);
        let n = self.entries.len();
        for i in 0..n
            invariant
                n == self.entries@.len(),
                key_owned@ == account_id@,
                forall|j: int| 0 <= j < i ==> self.entries@[j].0@ != account_id@,
        {
            if self.entries[i].0 == key_owned {
                return Some(i);
            }
        }
        None
    }

    /// Whether `account_id` currently holds a verification record.
    pub fn has(&self, account_id: &str) -> (r: bool)
        ensures
            r == self@.contains_key(account_id@),
    {
        proof {
            lemma_entries_map_contains(self.entries@, account_id@);
        }
        match self.find_index(account_id) {
            Some(_) => true,
            None => false,
        }
    }

    /// The stored verification timestamp of `account_id`, when present.
    pub fn timestamp_of(&self, account_id: &str) -> (r: Option<u64>)
        requires
            self.wf(),
        ensures
            match r {
                Some(ts) => self@.contains_key(account_id@) && ts == self@[account_id@],
                None => !self@.contains_key(account_id@),
            },
    {
        proof {
            lemma_entries_map_contains(self.entries@, account_id@);
        }
        match self.find_index(account_id) {
            Some(i) => {
                proof {
                    lemma_entries_map_index(self.entries@, i as int);
                }
                Some(self.entries[i].1)
            },
            None => None,
        }
    }

    /// Inserts or overwrites the record for `account_id`, and reports the
    /// storage grown by the mutation: a record's footprint for a new account,
    /// nothing for an overwrite.
    pub fn upsert(&mut self, account_id: String, verified_at: u64) -> (grown: u128)
        requires
            old(self).wf(),
        ensures
            final(self).wf(),
            final(self)@ == old(self)@.insert(account_id@, verified_at),
            grown == if old(self)@.contains_key(account_id@) {
                0int
            } else {
                record_footprint(account_id@) as int
            },
    {
        proof {
            lemma_entries_map_contains(self.entries@, account_id@);
        }
        let ghost s0 = self.entries@;
        let key_len = account_id.as_str().unicode_len();
        match self.find_index(account_id.as_str()) {
            Some(i) => {
                // overwrite: drop the old binding, then append the new one
                let _replaced = self.entries.remove(i);
                proof {
                    lemma_entries_map_remove_at(s0, i as int);
                    lemma_remove_keeps_unique(s0, i as int);
                    lemma_entries_map_push(s0.remove(i as int), (account_id, verified_at));
                }
                self.entries.push((account_id, verified_at));
                proof {
                    assert(entries_map(self.entries@) =~= entries_map(s0).insert(
                        account_id@,
                        verified_at,
                    ));
                }
                0
            },
            None => {
                proof {
                    lemma_entries_map_push(s0, (account_id, verified_at));
                }
                self.entries.push((account_id, verified_at));
                (key_len as u128) + 8
            },
        }
    }

    /// Removes the record for `account_id`, and reports the storage freed:
    /// the record's footprint when one was present, nothing otherwise.
    pub fn remove(&mut self, account_id: &str) -> (freed: u128)
        requires
            old(self).wf(),
        ensures
            final(self).wf(),
            final(self)@ == old(self)@.remove(account_id@),
            freed == if old(self)@.contains_key(account_id@) {
                record_footprint(account_id@) as int
            } else {
                0int
            },
    {
        proof {
            lemma_entries_map_contains(self.entries@, account_id@);
        }
        let ghost s0 = self.entries@;
        match self.find_index(account_id) {
            Some(i) => {
                self.entries.remove(i);
                proof {
                    lemma_entries_map_remove_at(s0, i as int);
                    lemma_remove_keeps_unique(s0, i as int);
                }
                let key_len = account_id.unicode_len();
                (key_len as u128) + 8
            },
            None => {
                proof {
                    assert(entries_map(s0) =~= entries_map(s0).remove(account_id@));
                }
                0
            },
        }
    }
}

} // verus!
