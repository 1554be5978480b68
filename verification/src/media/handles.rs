//! The volatile tier: display handles of the days looked at last.
//!
//! The cache itself is `lru::LruCache`. What it holds is named as a list of
//! days and handles, the one used last first; its calls are trusted to do
//! to that list what the crate documents.

use crate::date::ApodDate;
use lru::LruCache;
use std::num::NonZeroUsize;
use vstd::prelude::*;

verus! {

/// `lru::LruCache`: a bounded cache that lets go of what was used longest
/// ago.
#[verifier::external_type_specification]
#[verifier::external_body]
#[verifier::reject_recursive_types(K)]
#[verifier::reject_recursive_types(V)]
#[verifier::reject_recursive_types(S)]
pub struct ExLruCache<K, V, S>(LruCache<K, V, S>);

/// `lru::DefaultHasher`: the hasher of a cache made by `lru::LruCache::new`.
#[verifier::external_type_specification]
#[verifier::external_body]
pub struct ExLruHasher(lru::DefaultHasher);

/// The keys and values that a cache holds, the pair used last first.
pub uninterp spec fn lru_entries(cache: LruCache<i32, u64>) -> Seq<(i32, u64)>;

/// How many pairs a cache holds at most.
pub uninterp spec fn lru_capacity(cache: LruCache<i32, u64>) -> nat;

/// The place of a key in a list of pairs.
pub open spec fn index_of_key(entries: Seq<(i32, u64)>, key: i32) -> Option<int>
    decreases entries.len(),
{
    if entries.len() == 0 {
        None
    } else if entries[0].0 == key {
        Some(0)
    } else {
        match index_of_key(entries.drop_first(), key) {
            Some(i) => Some(i + 1),
            None => None,
        }
    }
}

/// A list of pairs after the pair at `i` has been used: that pair first,
/// the others as they were.
pub open spec fn promoted(entries: Seq<(i32, u64)>, i: int) -> Seq<(i32, u64)> {
    seq![entries[i]] + entries.remove(i)
}

/// A list of pairs after `value` has been put under `key` into a cache of
/// `capacity` pairs: the new pair first; behind it the others as they
/// were, without the old pair of `key` or, where there was none and the
/// cache was full, without the last.
pub open spec fn after_put(entries: Seq<(i32, u64)>, capacity: nat, key: i32, value: u64) -> Seq<
    (i32, u64),
> {
    match index_of_key(entries, key) {
        Some(i) => seq![(key, value)] + entries.remove(i),
        None => if entries.len() >= capacity && entries.len() > 0 {
            seq![(key, value)] + entries.drop_last()
        } else {
            seq![(key, value)] + entries
        },
    }
}

/// The pair that leaves a cache when `value` is put under `key`: the old
/// pair of `key` or, where there was none and the cache was full, the pair
/// used longest ago.
pub open spec fn displaced(entries: Seq<(i32, u64)>, capacity: nat, key: i32) -> Option<(i32, u64)> {
    match index_of_key(entries, key) {
        Some(i) => Some(entries[i]),
        None => if entries.len() >= capacity && entries.len() > 0 {
            Some(entries.last())
        } else {
            None
        },
    }
}

/// `lru::LruCache::new`: an empty cache of the given capacity.
#[verifier::external_body]
fn lru_new(capacity: usize) -> (cache: LruCache<i32, u64>)
    requires
        capacity > 0,
    ensures
        lru_entries(cache) == Seq::<(i32, u64)>::empty(),
        lru_capacity(cache) == capacity,
{
    LruCache::new(NonZeroUsize::new(capacity).unwrap())
}

/// `lru::LruCache::get`: the value under `key`, and that pair moved to the
/// front.
#[verifier::external_body]
fn lru_get(cache: &mut LruCache<i32, u64>, key: i32) -> (r: Option<u64>)
    ensures
        lru_capacity(*final(cache)) == lru_capacity(*old(cache)),
        match index_of_key(lru_entries(*old(cache)), key) {
            Some(i) => r == Some(lru_entries(*old(cache))[i].1) && lru_entries(*final(cache))
                == promoted(lru_entries(*old(cache)), i),
            None => r is None && lru_entries(*final(cache)) == lru_entries(*old(cache)),
        },
    no_unwind
{
    cache.get(&key).copied()
}

/// `lru::LruCache::push`: puts `value` under `key` at the front and hands
/// out the pair that left the cache for it.
#[verifier::external_body]
fn lru_push(cache: &mut LruCache<i32, u64>, key: i32, value: u64) -> (r: Option<(i32, u64)>)
    ensures
        lru_capacity(*final(cache)) == lru_capacity(*old(cache)),
        lru_entries(*final(cache)) == after_put(
            lru_entries(*old(cache)),
            lru_capacity(*old(cache)),
            key,
            value,
        ),
        r == displaced(lru_entries(*old(cache)), lru_capacity(*old(cache)), key),
    no_unwind
{
    cache.push(key, value)
}

/// `lru::LruCache::len`.
#[verifier::external_body]
fn lru_len(cache: &LruCache<i32, u64>) -> (r: usize)
    ensures
        r == lru_entries(*cache).len(),
{
    cache.len()
}

/// `lru::LruCache::contains`, which moves nothing.
#[verifier::external_body]
fn lru_contains(cache: &LruCache<i32, u64>, key: i32) -> (r: bool)
    ensures
        r == index_of_key(lru_entries(*cache), key) is Some,
{
    cache.contains(&key)
}

/// Whether no key stands twice in a list of pairs.
pub open spec fn distinct_keys(entries: Seq<(i32, u64)>) -> bool {
    forall|i: int, j: int|
        0 <= i < j < entries.len() ==> (#[trigger] entries[i]).0 != (#[trigger] entries[j]).0
}

/// What `index_of_key` finds is the first place of the key.
pub proof fn lemma_index_of_key(entries: Seq<(i32, u64)>, key: i32)
    ensures
        match index_of_key(entries, key) {
            Some(i) => 0 <= i < entries.len() && entries[i].0 == key && forall|j: int|
                0 <= j < i ==> (#[trigger] entries[j]).0 != key,
            None => forall|j: int| 0 <= j < entries.len() ==> (#[trigger] entries[j]).0 != key,
        },
    decreases entries.len(),
{
    if entries.len() > 0 && entries[0].0 != key {
        let rest = entries.drop_first();
        lemma_index_of_key(rest, key);
        match index_of_key(rest, key) {
            Some(i) => {
                assert forall|j: int| 0 <= j < i + 1 implies (#[trigger] entries[j]).0 != key by {
                    if j > 0 {
                        assert(rest[j - 1] == entries[j]);
                    }
                }
            },
            None => {
                assert forall|j: int| 0 <= j < entries.len() implies (#[trigger] entries[j]).0
                    != key by {
                    if j > 0 {
                        assert(rest[j - 1] == entries[j]);
                    }
                }
            },
        }
    }
}

/// The display handles of the days looked at last, as values: the pairs of
/// day and handle, the one used last first, and how many there may be.
pub struct HandleCacheView {
    pub entries: Seq<(i32, u64)>,
    pub capacity: nat,
}

/// The display handles of the days looked at last. It holds at most as
/// many as its capacity, one for a day, and lets go of the one used
/// longest ago.
pub struct HandleCache {
    cache: LruCache<i32, u64>,
}

impl View for HandleCache {
    type V = HandleCacheView;

    closed spec fn view(&self) -> HandleCacheView {
        HandleCacheView { entries: lru_entries(self.cache), capacity: lru_capacity(self.cache) }
    }
}

/// The handles kept in the volatile tier unless told otherwise.
pub const DEFAULT_HANDLE_CAPACITY: usize = 100;

impl HandleCache {
    /// No day has two handles, and there are no more than the capacity.
    #[verifier::type_invariant]
    spec fn bounded(self) -> bool {
        &&& distinct_keys(lru_entries(self.cache))
        &&& lru_entries(self.cache).len() <= lru_capacity(self.cache)
        &&& lru_capacity(self.cache) > 0
    }

    /// An empty cache for `capacity` handles.
    pub fn new(capacity: usize) -> (r: Self)
        requires
            capacity > 0,
        ensures
            r@ == (HandleCacheView { entries: Seq::empty(), capacity: capacity as nat }),
    {
        HandleCache { cache: lru_new(capacity) }
    }

    /// How many handles are held: never more than the capacity, and never
    /// two for one day.
    pub fn len(&self) -> (r: usize)
        ensures
            r == self@.entries.len(),
            r <= self@.capacity,
            distinct_keys(self@.entries),
    {
        proof {
            use_type_invariant(self);
        }
        lru_len(&self.cache)
    }

    /// Whether a handle is held for `date`. Looking does not count as use.
    pub fn contains(&self, date: ApodDate) -> (r: bool)
        ensures
            r == index_of_key(self@.entries, date.0) is Some,
    {
        lru_contains(&self.cache, date.0)
    }

    /// The handle held for `date`. Getting it counts as use: the pair moves
    /// to the front.
    pub fn get(&mut self, date: ApodDate) -> (r: Option<u64>)
        ensures
            final(self)@.capacity == old(self)@.capacity,
            final(self)@.entries.len() <= final(self)@.capacity,
            distinct_keys(final(self)@.entries),
            match index_of_key(old(self)@.entries, date.0) {
                Some(i) => r == Some(old(self)@.entries[i].1) && final(self)@.entries == promoted(
                    old(self)@.entries,
                    i,
                ),
                None => r is None && final(self)@ == old(self)@,
            },
    {
        proof {
            use_type_invariant(&*self);
            lemma_index_of_key(lru_entries(self.cache), date.0);
        }
        let ghost before = lru_entries(self.cache);
        let r = lru_get(&mut self.cache, date.0);
        proof {
            match index_of_key(before, date.0) {
                Some(i) => {
                    lemma_promoted_distinct(before, i);
                },
                None => {},
            }
        }
        r
    }

    /// Holds `handle` for `date`, at the front, and hands out the pair that
    /// left the cache for it: the handle held for `date` before or, where
    /// there was none and the cache was full, the pair used longest ago.
    pub fn put(&mut self, date: ApodDate, handle: u64) -> (r: Option<(ApodDate, u64)>)
        ensures
            final(self)@.capacity == old(self)@.capacity,
            final(self)@.entries == after_put(
                old(self)@.entries,
                old(self)@.capacity,
                date.0,
                handle,
            ),
            index_of_key(final(self)@.entries, date.0) == Some(0int),
            final(self)@.entries[0] == (date.0, handle),
            final(self)@.entries.len() <= final(self)@.capacity,
            distinct_keys(final(self)@.entries),
            match r {
                Some((d, h)) => displaced(old(self)@.entries, old(self)@.capacity, date.0) == Some(
                    (d.0, h),
                ),
                None => displaced(old(self)@.entries, old(self)@.capacity, date.0) is None,
            },
    {
        proof {
            use_type_invariant(&*self);
            lemma_index_of_key(lru_entries(self.cache), date.0);
        }
        let ghost before = lru_entries(self.cache);
        let ghost capacity = lru_capacity(self.cache);
        let r = lru_push(&mut self.cache, date.0, handle);
        proof {
            lemma_after_put_distinct(before, capacity, date.0, handle);
        }
        match r {
            Some((key, value)) => Some((ApodDate(key), value)),
            None => None,
        }
    }
}

/// Using a pair keeps the days distinct and the number of pairs.
pub proof fn lemma_promoted_distinct(entries: Seq<(i32, u64)>, i: int)
    requires
        distinct_keys(entries),
        0 <= i < entries.len(),
    ensures
        distinct_keys(promoted(entries, i)),
        promoted(entries, i).len() == entries.len(),
{
    let p = promoted(entries, i);
    assert forall|a: int, b: int| 0 <= a < b < p.len() implies (#[trigger] p[a]).0 != (
    #[trigger] p[b]).0 by {
        let src = |k: int| -> int
            {
                if k == 0 {
                    i
                } else if k - 1 < i {
                    k - 1
                } else {
                    k
                }
            };
        assert(p[a] == entries[src(a)]);
        assert(p[b] == entries[src(b)]);
        assert(src(a) != src(b));
    }
}

/// Putting a pair keeps the days distinct and the number of pairs within
/// the capacity.
pub proof fn lemma_after_put_distinct(
    entries: Seq<(i32, u64)>,
    capacity: nat,
    key: i32,
    value: u64,
)
    requires
        distinct_keys(entries),
        entries.len() <= capacity,
        capacity > 0,
    ensures
        distinct_keys(after_put(entries, capacity, key, value)),
        after_put(entries, capacity, key, value).len() <= capacity,
        after_put(entries, capacity, key, value).len() > 0,
        after_put(entries, capacity, key, value)[0] == (key, value),
        index_of_key(after_put(entries, capacity, key, value), key) == Some(0int),
{
    lemma_index_of_key(entries, key);
    let p = after_put(entries, capacity, key, value);
    let rest = p.drop_first();
    assert forall|a: int, b: int| 0 <= a < b < p.len() implies (#[trigger] p[a]).0 != (
    #[trigger] p[b]).0 by {
        match index_of_key(entries, key) {
            Some(i) => {
                let src = |k: int| -> int
                    {
                        if k - 1 < i {
                            k - 1
                        } else {
                            k
                        }
                    };
                assert(p[b] == entries[src(b)]);
                if a > 0 {
                    assert(p[a] == entries[src(a)]);
                }
            },
            None => {
                assert(p[b] == entries[b - 1]);
                if a > 0 {
                    assert(p[a] == entries[a - 1]);
                }
            },
        }
    }
}

} // verus!
