//! Key-value pairs attached to a resource.

use vstd::prelude::*;
use crate::text::{same_text, IntoText};

verus! {

/// A set of key-value pairs attached to a resource, for storing additional
/// information about it. Every key has one value: inserting under a key that
/// is already there replaces its value.
///
/// Two values compare equal with `==` when they hold the same pairs in the
/// same order of first insertion.
#[derive(Debug, PartialEq, Eq)]
pub struct Metadata {
    entries: Vec<(String, String)>,
}

/// The map that a list of pairs stands for: a later pair with the same key
/// overrides an earlier one.
pub open spec fn pairs_map(pairs: Seq<(String, String)>) -> Map<Seq<char>, Seq<char>>
    decreases pairs.len(),
{
    if pairs.len() == 0 {
        Map::empty()
    } else {
        pairs_map(pairs.drop_last()).insert(pairs.last().0@, pairs.last().1@)
    }
}

/// A key that no pair of the list has is not in the map.
proof fn lemma_absent_key(pairs: Seq<(String, String)>, key: Seq<char>)
    requires
        forall|j: int| 0 <= j < pairs.len() ==> (#[trigger] pairs[j]).0@ != key,
    ensures
        !pairs_map(pairs).contains_key(key),
    decreases pairs.len(),
{
    if pairs.len() > 0 {
        lemma_absent_key(pairs.drop_last(), key);
    }
}

/// The value of a key is that of the last pair with the key.
proof fn lemma_last_occurrence(pairs: Seq<(String, String)>, key: Seq<char>, i: int)
    requires
        0 <= i < pairs.len(),
        pairs[i].0@ == key,
        forall|j: int| i < j < pairs.len() ==> (#[trigger] pairs[j]).0@ != key,
    ensures
        pairs_map(pairs).contains_key(key),
        pairs_map(pairs)[key] == pairs[i].1@,
    decreases pairs.len(),
{
    if i < pairs.len() - 1 {
        lemma_last_occurrence(pairs.drop_last(), key, i);
    }
}

/// Replacing the value of the last pair with a key is inserting under the key.
proof fn lemma_replace_last_occurrence(
    pairs: Seq<(String, String)>,
    i: int,
    entry: (String, String),
)
    requires
        0 <= i < pairs.len(),
        pairs[i].0@ == entry.0@,
        forall|j: int| i < j < pairs.len() ==> (#[trigger] pairs[j]).0@ != entry.0@,
    ensures
        pairs_map(pairs.update(i, entry)) == pairs_map(pairs).insert(entry.0@, entry.1@),
    decreases pairs.len(),
{
    let updated = pairs.update(i, entry);
    if i == pairs.len() - 1 {
        assert(updated.drop_last() =~= pairs.drop_last());
        assert(pairs_map(updated) =~= pairs_map(pairs).insert(entry.0@, entry.1@));
    } else {
        lemma_replace_last_occurrence(pairs.drop_last(), i, entry);
        assert(updated.drop_last() =~= pairs.drop_last().update(i, entry));
        assert(updated.last() == pairs.last());
        assert(pairs_map(updated) =~= pairs_map(pairs).insert(entry.0@, entry.1@));
    }
}

impl View for Metadata {
    type V = Map<Seq<char>, Seq<char>>;

    closed spec fn view(&self) -> Map<Seq<char>, Seq<char>> {
        pairs_map(self.entries@)
    }
}

impl Clone for Metadata {
    fn clone(&self) -> (r: Self)
        ensures
            r@ == self@,
    {
        let mut entries: Vec<(String, String)> = Vec::new();
        let mut i: usize = 0;
        while i < self.entries.len()
            invariant
                i <= self.entries.len(),
                entries.len() == i,
                pairs_map(entries@) == pairs_map(self.entries@.take(i as int)),
            decreases self.entries.len() - i,
        {
            let key = self.entries[i].0.clone();
            let value = self.entries[i].1.clone();
            proof {
                assert(self.entries@.take(i + 1).drop_last() =~= self.entries@.take(i as int));
                assert(entries@.push((key, value)).drop_last() =~= entries@);
            }
            entries.push((key, value));
            i += 1;
        }
        assert(self.entries@.take(self.entries.len() as int) =~= self.entries@);
        Metadata { entries }
    }
}

impl Default for Metadata {
    /// No pairs.
    fn default() -> (r: Self)
        ensures
            r@ == Map::<Seq<char>, Seq<char>>::empty(),
    {
        Metadata { entries: Vec::new() }
    }
}

impl Metadata {
    /// No pairs.
    pub fn new() -> (r: Self)
        ensures
            r@ == Map::<Seq<char>, Seq<char>>::empty(),
    {
        Metadata { entries: Vec::new() }
    }

    /// The position of the last pair with the key, if there is one.
    fn position(&self, key: &str) -> (r: Option<usize>)
        ensures
            match r {
                Some(i) => i < self.entries.len() && self.entries[i as int].0@ == key@ && forall|
                    j: int,
                | i < j < self.entries.len() ==> (#[trigger] self.entries[j]).0@ != key@,
                None => forall|j: int|
                    0 <= j < self.entries.len() ==> (#[trigger] self.entries[j]).0@ != key@,
            },
    {
        let mut i: usize = self.entries.len();
        while i > 0
            invariant
                i <= self.entries.len(),
                forall|j: int| i <= j < self.entries.len() ==> (#[trigger] self.entries[j]).0@ != key@,
            decreases i,
        {
            i -= 1;
            if same_text(self.entries[i].0.as_str(), key) {
                return Some(i);
            }
        }
        None
    }

    /// Puts `value` under `key`, in place of the value that the key had.
    pub fn insert(&mut self, key: impl IntoText, value: impl IntoText)
        ensures
            final(self)@ == old(self)@.insert(key.text(), value.text()),
    {
        let key = key.into_text();
        let value = value.into_text();
        match self.position(key.as_str()) {
            Some(i) => {
                proof {
                    lemma_replace_last_occurrence(self.entries@, i as int, (key, value));
                }
                self.entries.set(i, (key, value));
            },
            None => {
                proof {
                    assert(self.entries@.push((key, value)).drop_last() =~= self.entries@);
                }
                self.entries.push((key, value));
            },
        }
    }

    /// The value under `key`, if the key is there.
    pub fn get(&self, key: &str) -> (r: Option<&str>)
        ensures
            match r {
                Some(value) => self@.contains_key(key@) && self@[key@] == value@,
                None => !self@.contains_key(key@),
            },
    {
        match self.position(key) {
            Some(i) => {
                proof {
                    lemma_last_occurrence(self.entries@, key@, i as int);
                }
                Some(self.entries[i].1.as_str())
            },
            None => {
                proof {
                    lemma_absent_key(self.entries@, key@);
                }
                None
            },
        }
    }

    /// Whether there is no pair.
    pub fn is_empty(&self) -> (r: bool)
        ensures
            r == (self@ == Map::<Seq<char>, Seq<char>>::empty()),
    {
        proof {
            if self.entries.len() > 0 {
                let last = self.entries@.last();
                assert(self@.contains_key(last.0@));
                assert(!Map::<Seq<char>, Seq<char>>::empty().contains_key(last.0@));
            }
        }
        self.entries.len() == 0
    }

    /// The pairs that the value holds: a list that stands for the same map.
    pub fn pairs(&self) -> (out: Vec<(String, String)>)
        ensures
            pairs_map(out@) == self@,
    {
        self.clone().entries
    }
}

} // verus!
