//! The completion cache: candidate strings by key.

use vstd::prelude::*;
use crate::key::{CacheKey, KeyView};

verus! {

#[derive(Debug)]
struct Entry {
    key: CacheKey,
    candidates: Vec<String>,
}

/// A mapping from completion keys to ordered lists of candidate strings.
///
/// An entry is written whole: what a key held before is gone once the key is
/// set again.
#[derive(Debug)]
pub struct CompletionCache {
    entries: Vec<Entry>,
}

spec fn holds(entries: Seq<Entry>, key: KeyView) -> bool {
    exists|i: int| 0 <= i < entries.len() && (#[trigger] entries[i]).key@ == key
}

spec fn position(entries: Seq<Entry>, key: KeyView) -> int {
    choose|i: int| 0 <= i < entries.len() && (#[trigger] entries[i]).key@ == key
}

spec fn distinct(entries: Seq<Entry>) -> bool {
    forall|i: int, j: int|
        0 <= i < j < entries.len() ==> (#[trigger] entries[i]).key@ != (#[trigger] entries[j]).key@
}

/// Where the keys are distinct, a key is found at one place only.
proof fn lemma_position(entries: Seq<Entry>, key: KeyView, i: int)
    requires
        distinct(entries),
        0 <= i < entries.len(),
        entries[i].key@ == key,
    ensures
        holds(entries, key),
        position(entries, key) == i,
{
}

/// The map that `entries` stand for.
spec fn lookup(entries: Seq<Entry>) -> Map<KeyView, Seq<Seq<char>>> {
    Map::new(
        |key: KeyView| holds(entries, key),
        |key: KeyView| entries[position(entries, key)].candidates.deep_view(),
    )
}

/// Replacing the candidates at the place of a key stores them under it.
proof fn lemma_replace(before: Seq<Entry>, after: Seq<Entry>, i: int)
    requires
        distinct(before),
        0 <= i < before.len(),
        after.len() == before.len(),
        forall|j: int| 0 <= j < before.len() ==> (#[trigger] after[j]).key@ == before[j].key@,
        forall|j: int| 0 <= j < before.len() && j != i ==> #[trigger] after[j] == before[j],
    ensures
        distinct(after),
        lookup(after) == lookup(before).insert(
            before[i].key@,
            after[i].candidates.deep_view(),
        ),
{
    let key = before[i].key@;
    let target = lookup(before).insert(key, after[i].candidates.deep_view());
    assert forall|k: KeyView| #[trigger] lookup(after).contains_key(k) implies target.contains_key(
        k,
    ) && lookup(after)[k] == target[k] by {
        let j = position(after, k);
        lemma_position(before, k, j);
        if j != i {
            assert(after[j] == before[j]);
        }
    }
    assert forall|k: KeyView| #[trigger] target.contains_key(k) implies lookup(after).contains_key(
        k,
    ) by {
        if k == key {
            assert(after[i].key@ == k);
        } else {
            let j = position(before, k);
            assert(after[j].key@ == k);
        }
    }
    assert(lookup(after) =~= target);
}

/// Appending an entry under a key that is not held stores it under that key.
proof fn lemma_append(before: Seq<Entry>, entry: Entry)
    requires
        distinct(before),
        !holds(before, entry.key@),
    ensures
        distinct(before.push(entry)),
        lookup(before.push(entry)) == lookup(before).insert(
            entry.key@,
            entry.candidates.deep_view(),
        ),
{
    let after = before.push(entry);
    let last = before.len() as int;
    let target = lookup(before).insert(entry.key@, entry.candidates.deep_view());
    assert forall|a: int, b: int| 0 <= a < b < after.len() implies (#[trigger] after[a]).key@ != (
    #[trigger] after[b]).key@ by {
        if b == last {
            assert(before[a].key@ == after[a].key@);
        }
    }
    assert forall|k: KeyView| #[trigger] lookup(after).contains_key(k) implies target.contains_key(
        k,
    ) && lookup(after)[k] == target[k] by {
        let j = position(after, k);
        if j != last {
            lemma_position(before, k, j);
        }
    }
    assert forall|k: KeyView| #[trigger] target.contains_key(k) implies lookup(after).contains_key(
        k,
    ) by {
        if k == entry.key@ {
            assert(after[last].key@ == k);
        } else {
            let j = position(before, k);
            assert(after[j].key@ == k);
        }
    }
    assert(lookup(after) =~= target);
}

impl View for CompletionCache {
    type V = Map<KeyView, Seq<Seq<char>>>;

    closed spec fn view(&self) -> Map<KeyView, Seq<Seq<char>>> {
        lookup(self.entries@)
    }
}

impl CompletionCache {
    #[verifier::type_invariant]
    spec fn keys_distinct(self) -> bool {
        distinct(self.entries@)
    }

    /// A cache with no entry.
    pub fn new() -> (cache: CompletionCache)
        ensures
            cache@ == Map::<KeyView, Seq<Seq<char>>>::empty(),
    {
        let cache = CompletionCache { entries: Vec::new() };
        assert(cache@ =~= Map::<KeyView, Seq<Seq<char>>>::empty());
        cache
    }

    /// Whether no key holds anything.
    pub fn is_empty(&self) -> (empty: bool)
        ensures
            empty == (self@ == Map::<KeyView, Seq<Seq<char>>>::empty()),
    {
        let empty = self.entries.len() == 0;
        proof {
            if empty {
                assert(self@ =~= Map::<KeyView, Seq<Seq<char>>>::empty());
            } else {
                assert(holds(self.entries@, self.entries@[0].key@));
                assert(self@.contains_key(self.entries@[0].key@));
            }
        }
        empty
    }

    fn find(&self, key: &CacheKey) -> (found: Option<usize>)
        ensures
            match found {
                Some(i) => i < self.entries.len() && self.entries[i as int].key@ == key@,
                None => !holds(self.entries@, key@),
            },
    {
        let mut i: usize = 0;
        while i < self.entries.len()
            invariant
                i <= self.entries.len(),
                forall|j: int| 0 <= j < i ==> (#[trigger] self.entries[j]).key@ != key@,
            decreases self.entries.len() - i,
        {
            if self.entries[i].key == *key {
                return Some(i);
            }
            i += 1;
        }
        None
    }

    /// The candidates stored under `key`, if any were.
    pub fn get(&self, key: &CacheKey) -> (found: Option<&Vec<String>>)
        ensures
            match found {
                Some(candidates) => self@.contains_key(key@) && candidates.deep_view()
                    == self@[key@],
                None => !self@.contains_key(key@),
            },
    {
        proof {
            use_type_invariant(self);
        }
        match self.find(key) {
            Some(i) => {
                proof {
                    lemma_position(self.entries@, key@, i as int);
                }
                Some(&self.entries[i].candidates)
            },
            None => None,
        }
    }

    /// Stores `candidates` under `key`, in place of whatever the key held.
    pub fn set(&mut self, key: CacheKey, candidates: Vec<String>)
        ensures
            final(self)@ == old(self)@.insert(key@, candidates.deep_view()),
    {
        proof {
            use_type_invariant(&*self);
        }
        let ghost before = self.entries@;
        let found = self.find(&key);
        // The entries leave the cache while they change, so that the cache
        // holds distinct keys whenever it can be seen.
        let mut entries: Vec<Entry> = Vec::new();
        core::mem::swap(&mut self.entries, &mut entries);
        match found {
            Some(i) => {
                entries[i].candidates = candidates;
                proof {
                    lemma_replace(before, entries@, i as int);
                }
            },
            None => {
                let entry = Entry { key, candidates };
                proof {
                    lemma_append(before, entry);
                }
                entries.push(entry);
            },
        }
        self.entries = entries;
    }
}

} // verus!
