//! A dynamically-typed, tree-shaped document as fetched from the remote
//! profile registry, modelled as a tagged variant so that every field access
//! is a pattern match with an explicit "wrong shape" arm.
//!
//! A mapping is kept as its sequence of bindings in document order; lookup
//! returns the first binding of a key.

use vstd::prelude::*;

verus! {

/// One node of a registry document.
pub enum Json {
    Null,
    Bool(bool),
    /// The decimal text of a number; the completeness policy never reads it.
    Number(String),
    Text(String),
    Array(Vec<Json>),
    Object(Vec<(String, Json)>),
}

/// The value bound to `key` in a mapping's bindings: the first binding wins,
/// `None` when the key is absent.
pub open spec fn entries_lookup(entries: Seq<(String, Json)>, key: Seq<char>) -> Option<Json>
    decreases entries.len(),
{
    if entries.len() == 0 {
        None
    } else if entries[0].0@ == key {
        Some(entries[0].1)
    } else {
        entries_lookup(entries.drop_first(), key)
    }
}

proof fn lemma_entries_lookup_skip_step(entries: Seq<(String, Json)>, key: Seq<char>, i: int)
    requires
        0 <= i < entries.len(),
        entries[i].0@ != key,
    ensures
        entries_lookup(entries.skip(i), key) == entries_lookup(entries.skip(i + 1), key),
{
    assert(entries.skip(i)[0] == entries[i]);
    assert(entries.skip(i).drop_first() =~= entries.skip(i + 1));
}

/// Looks `key` up in a mapping's bindings.
pub fn obj_get<'a>(entries: &'a Vec<(String, Json)>, key: &str) -> (r: Option<&'a Json>)
    ensures
        match r {
            Some(v) => entries_lookup(entries@, key@) == Some(*v),
            None => entries_lookup(entries@, key@) is None,
        },
{
    let key_owned = String::from_str(key);
    let n = entries.len();
    assert(entries@.skip(0) =~= entries@);
    for i in 0..n
        invariant
            n == entries@.len(),
            key_owned@ == key@,
            entries_lookup(entries@, key@) == entries_lookup(entries@.skip(i as int), key@),
    {
        let pair = &entries[i];
        if pair.0 == key_owned {
            proof {
                assert(entries@.skip(i as int)[0] == entries@[i as int]);
            }
            return Some(&pair.1);
        }
        proof {
            lemma_entries_lookup_skip_step(entries@, key@, i as int);
        }
    }
    proof {
        assert(entries@.skip(n as int).len() == 0);
    }
    None
}

} // verus!
