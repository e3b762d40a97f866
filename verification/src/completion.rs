//! Feeding the completion cache from the results of commands.

use vstd::prelude::*;
use crate::cache::CompletionCache;
use crate::command::{copy_of, CommandResult, ObjectRef, ObjectRefView, ResultView};
use crate::key::{flag_key, subject_key, CacheKey, KeyView};

verus! {

/// How the attempt to lock the cache for writing ended.
#[derive(Clone, Copy, Debug, PartialEq, Eq, Structural)]
pub enum LockAttempt {
    Acquired,
    Failed,
}

impl ResultView {
    /// The keys that a result of this kind fills, in the order in which they
    /// are written.
    pub open spec fn keys(self) -> Seq<KeyView> {
        match self {
            ResultView::Addresses(_) => seq![flag_key("--address"@), flag_key("--to"@)],
            ResultView::Objects(_) => seq![
                subject_key("object"@, "--id"@),
                flag_key("--gas"@),
                flag_key("--object-id"@),
            ],
            ResultView::Other => seq![],
        }
    }

    /// The display strings of what the result lists, in the result's order.
    pub open spec fn candidates(self) -> Seq<Seq<char>> {
        match self {
            ResultView::Addresses(addresses) => addresses,
            ResultView::Objects(objects) => objects.map_values(|object: ObjectRefView| object.id),
            ResultView::Other => seq![],
        }
    }
}

/// The cache in which each of `keys` holds `candidates` and every other key
/// holds what it held in `cache`.
pub open spec fn stored_under(
    cache: Map<KeyView, Seq<Seq<char>>>,
    keys: Seq<KeyView>,
    candidates: Seq<Seq<char>>,
) -> Map<KeyView, Seq<Seq<char>>> {
    Map::new(
        |key: KeyView| keys.contains(key) || cache.contains_key(key),
        |key: KeyView|
            if keys.contains(key) {
                candidates
            } else {
                cache[key]
            },
    )
}

/// The cache after the update that follows a successful command: refreshed
/// from `result` where the lock was acquired, as it was where it was not.
pub open spec fn refreshed(
    cache: Map<KeyView, Seq<Seq<char>>>,
    attempt: LockAttempt,
    result: ResultView,
) -> Map<KeyView, Seq<Seq<char>>> {
    match attempt {
        LockAttempt::Acquired => stored_under(cache, result.keys(), result.candidates()),
        LockAttempt::Failed => cache,
    }
}

/// A result of a kind for which no key is registered leaves the cache as it
/// is, whether the lock was acquired or not.
pub proof fn unregistered_kind_leaves_cache(
    cache: Map<KeyView, Seq<Seq<char>>>,
    attempt: LockAttempt,
    result: ResultView,
)
    requires
        result.keys().len() == 0,
    ensures
        refreshed(cache, attempt, result) == cache,
{
    assert(refreshed(cache, attempt, result) =~= cache);
}

/// Storing under one more key is one more insertion.
proof fn lemma_stored_under_next(
    cache: Map<KeyView, Seq<Seq<char>>>,
    keys: Seq<KeyView>,
    candidates: Seq<Seq<char>>,
    n: int,
)
    requires
        0 <= n < keys.len(),
    ensures
        stored_under(cache, keys.take(n + 1), candidates) == stored_under(
            cache,
            keys.take(n),
            candidates,
        ).insert(keys[n], candidates),
{
    let shorter = keys.take(n);
    let longer = keys.take(n + 1);
    assert(longer[n] == keys[n]);
    assert forall|key: KeyView| longer.contains(key) <==> shorter.contains(key) || key
        == keys[n] by {
        if shorter.contains(key) {
            let i = choose|i: int| 0 <= i < shorter.len() && shorter[i] == key;
            assert(longer[i] == key);
        }
        if longer.contains(key) {
            let i = choose|i: int| 0 <= i < longer.len() && longer[i] == key;
            if i < n {
                assert(shorter[i] == key);
            }
        }
    }
    assert(stored_under(cache, longer, candidates) =~= stored_under(
        cache,
        shorter,
        candidates,
    ).insert(keys[n], candidates));
}

/// The keys that the kind of `result` fills.
pub fn registered_keys(result: &CommandResult) -> (keys: Vec<CacheKey>)
    ensures
        keys.deep_view() == result@.keys(),
{
    let mut keys: Vec<CacheKey> = Vec::new();
    match result {
        CommandResult::Addresses(_) => {
            keys.push(CacheKey::flag("--address"));
            keys.push(CacheKey::flag("--to"));
        },
        CommandResult::Objects(_) => {
            keys.push(CacheKey::new("object", "--id"));
            keys.push(CacheKey::flag("--gas"));
            keys.push(CacheKey::flag("--object-id"));
        },
        CommandResult::Other => {},
    }
    assert(keys.deep_view() =~= result@.keys());
    keys
}

fn identifiers(objects: &Vec<ObjectRef>) -> (ids: Vec<String>)
    ensures
        ids.deep_view() == objects.deep_view().map_values(|object: ObjectRefView| object.id),
{
    let mut ids: Vec<String> = Vec::new();
    let mut i: usize = 0;
    while i < objects.len()
        invariant
            i <= objects.len(),
            ids.len() == i,
            forall|j: int| 0 <= j < i ==> ids[j]@ == objects[j].id@,
        decreases objects.len() - i,
    {
        ids.push(objects[i].id.clone());
        i += 1;
    }
    assert(ids.deep_view() =~= objects.deep_view().map_values(|object: ObjectRefView| object.id));
    ids
}

/// The display strings of what `result` lists, in the result's order.
pub fn display_strings(result: &CommandResult) -> (strings: Vec<String>)
    ensures
        strings.deep_view() == result@.candidates(),
{
    match result {
        CommandResult::Addresses(addresses) => copy_of(addresses),
        CommandResult::Objects(objects) => identifiers(objects),
        CommandResult::Other => {
            let strings: Vec<String> = Vec::new();
            assert(strings.deep_view() =~= result@.candidates());
            strings
        },
    }
}

/// Brings the cache up to date with `result`, if the lock that guards the
/// cache was acquired: every key registered for the result's kind then holds
/// the result's display strings, in place of whatever it held. After a failed
/// attempt the cache is left as it is, and nothing is reported.
pub fn update_completion_cache(
    cache: &mut CompletionCache,
    attempt: LockAttempt,
    result: &CommandResult,
)
    ensures
        final(cache)@ == refreshed(old(cache)@, attempt, result@),
{
    match attempt {
        LockAttempt::Failed => {},
        LockAttempt::Acquired => {
            let keys = registered_keys(result);
            let candidates = display_strings(result);
            let mut i: usize = 0;
            assert(cache@ =~= stored_under(
                old(cache)@,
                keys.deep_view().take(0),
                candidates.deep_view(),
            ));
            while i < keys.len()
                invariant
                    i <= keys.len(),
                    cache@ == stored_under(
                        old(cache)@,
                        keys.deep_view().take(i as int),
                        candidates.deep_view(),
                    ),
                decreases keys.len() - i,
            {
                proof {
                    lemma_stored_under_next(
                        old(cache)@,
                        keys.deep_view(),
                        candidates.deep_view(),
                        i as int,
                    );
                }
                cache.set(keys[i].clone(), copy_of(&candidates));
                i += 1;
            }
            assert(keys.deep_view().take(keys.len() as int) =~= keys.deep_view());
        },
    }
}

} // verus!
