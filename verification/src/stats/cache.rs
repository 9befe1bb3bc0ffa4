//! A fixed-capacity cache of pseudonyms that evicts in insertion order.

use std::collections::VecDeque;
use vstd::prelude::*;

verus! {

/// One remembered pseudonym: the digest of a value and the word that
/// stands for the value.
#[derive(PartialEq, Debug, Clone)]
pub struct CacheEntry {
    pub key: u64,
    pub value: String,
}

impl View for CacheEntry {
    type V = (u64, Seq<char>);

    open spec fn view(&self) -> (u64, Seq<char>) {
        (self.key, self.value@)
    }
}

impl CacheEntry {
    pub fn new(key: u64, value: String) -> (entry: Self)
        ensures
            entry.key == key,
            entry.value == value,
    {
        Self { key, value }
    }
}

/// Contents of a cache after `entry` is added to `entries`: when `capacity`
/// entries or more are present the oldest one leaves first.
pub open spec fn fifo_push<E>(entries: Seq<E>, capacity: nat, entry: E) -> Seq<E> {
    if entries.len() >= capacity && entries.len() > 0 {
        entries.drop_first().push(entry)
    } else {
        entries.push(entry)
    }
}

/// Largest number of entries that a cache made with `capacity` ever holds.
/// A cache made with capacity zero still keeps the entry added last.
pub open spec fn cache_bound(capacity: nat) -> nat {
    if capacity == 0 {
        1
    } else {
        capacity
    }
}

/// Bounded size. A cache that holds no more entries than its bound holds no
/// more after an entry is added: at most as many entries as its capacity
/// live at once.
pub proof fn lemma_fifo_push_bound<E>(entries: Seq<E>, capacity: nat, entry: E)
    requires
        entries.len() <= cache_bound(capacity),
    ensures
        fifo_push(entries, capacity, entry).len() <= cache_bound(capacity),
        capacity >= 1 && entries.len() <= capacity ==> fifo_push(entries, capacity, entry).len()
            <= capacity,
{
}

/// Position of the entry that a lookup of `key` finds: the one added last
/// among those that carry the key.
pub open spec fn is_latest_match(entries: Seq<(u64, Seq<char>)>, key: u64, i: int) -> bool {
    &&& 0 <= i < entries.len()
    &&& entries[i].0 == key
    &&& forall|j: int| i < j < entries.len() ==> entries[j].0 != key
}

/// Whether no entry of `entries` carries `key`.
pub open spec fn is_miss(entries: Seq<(u64, Seq<char>)>, key: u64) -> bool {
    forall|j: int| 0 <= j < entries.len() ==> entries[j].0 != key
}

/// The word that a lookup of `key` finds in `entries`, if any.
pub open spec fn cached_value(entries: Seq<(u64, Seq<char>)>, key: u64) -> Option<Seq<char>> {
    if exists|i: int| is_latest_match(entries, key, i) {
        Some(entries[choose|i: int| is_latest_match(entries, key, i)].1)
    } else {
        None
    }
}

/// The entry added last among those that carry a key is the only one that a
/// lookup can find.
pub proof fn lemma_latest_match_unique(entries: Seq<(u64, Seq<char>)>, key: u64, i: int, j: int)
    requires
        is_latest_match(entries, key, i),
        is_latest_match(entries, key, j),
    ensures
        i == j,
{
}

/// Fixed-capacity cache that evicts strictly in insertion order. A lookup
/// never reorders the entries.
pub struct Cache {
    cache: VecDeque<CacheEntry>,
    capacity: usize,
}

impl View for Cache {
    type V = Seq<(u64, Seq<char>)>;

    closed spec fn view(&self) -> Seq<(u64, Seq<char>)> {
        self.cache@.map_values(|e: CacheEntry| e@)
    }
}

impl Cache {
    #[verifier::type_invariant]
    spec fn bounded(self) -> bool {
        self.cache@.len() <= cache_bound(self.capacity as nat)
    }

    /// The capacity that the cache was made with.
    pub closed spec fn spec_capacity(&self) -> nat {
        self.capacity as nat
    }

    pub fn new(capacity: usize) -> (cache: Self)
        ensures
            cache@ == Seq::<(u64, Seq<char>)>::empty(),
            cache.spec_capacity() == capacity,
    {
        let cache = Self { capacity, cache: VecDeque::with_capacity(capacity) };
        assert(cache@ =~= Seq::<(u64, Seq<char>)>::empty());
        cache
    }

    /// Number of entries held, never more than `cache_bound` of the capacity.
    pub fn len(&self) -> (n: usize)
        ensures
            n == self@.len(),
            n <= cache_bound(self.spec_capacity()),
    {
        proof {
            use_type_invariant(self);
        }
        self.cache.len()
    }

    pub fn add(&mut self, entry: CacheEntry)
        ensures
            final(self)@ == fifo_push(old(self)@, old(self).spec_capacity(), entry@),
            final(self).spec_capacity() == old(self).spec_capacity(),
    {
        proof {
            use_type_invariant(&*self);
        }
        let mut entries = VecDeque::new();
        std::mem::swap(&mut entries, &mut self.cache);
        let ghost before = entries@;
        if entries.len() >= self.capacity {
            entries.pop_front();
        }
        entries.push_back(entry);
        assert(entries@.map_values(|e: CacheEntry| e@) =~= fifo_push(
            before.map_values(|e: CacheEntry| e@),
            self.capacity as nat,
            entry@,
        ));
        self.cache = entries;
    }

    pub fn get(&self, hash: u64) -> (found: Option<&CacheEntry>)
        ensures
            match found {
                Some(entry) => exists|i: int|
                    is_latest_match(self@, hash, i) && self@[i] == entry@,
                None => is_miss(self@, hash),
            },
            cached_value(self@, hash) == match found {
                Some(entry) => Some(entry.value@),
                None => None,
            },
    {
        let mut i: usize = self.cache.len();
        while i > 0
            invariant
                i <= self.cache@.len(),
                forall|j: int| i <= j < self.cache@.len() ==> self.cache@[j].key != hash,
            decreases i,
        {
            i -= 1;
            let entry = &self.cache[i];
            if entry.key == hash {
                assert(is_latest_match(self@, hash, i as int) && self@[i as int] == entry@);
                proof {
                    let chosen = choose|k: int| is_latest_match(self@, hash, k);
                    lemma_latest_match_unique(self@, hash, i as int, chosen);
                }
                return Some(entry);
            }
        }
        None
    }
}

/// Contents of a cache after the entries of `added` are added in turn.
pub open spec fn fifo_fill<E>(entries: Seq<E>, capacity: nat, added: Seq<E>) -> Seq<E>
    decreases added.len(),
{
    if added.len() == 0 {
        entries
    } else {
        fifo_push(fifo_fill(entries, capacity, added.drop_last()), capacity, added.last())
    }
}

/// A cache of capacity one or more holds the entries added last: of what it
/// held and what was added, all but the oldest that exceed the capacity.
pub proof fn lemma_fifo_fill<E>(entries: Seq<E>, capacity: nat, added: Seq<E>)
    requires
        capacity >= 1,
        entries.len() <= capacity,
    ensures
        fifo_fill(entries, capacity, added) == (entries + added).skip(
            if entries.len() + added.len() > capacity {
                entries.len() + added.len() - capacity
            } else {
                0
            },
        ),
    decreases added.len(),
{
    if added.len() == 0 {
        assert((entries + added).skip(0) =~= entries);
    } else {
        let shorter = added.drop_last();
        lemma_fifo_fill(entries, capacity, shorter);
        let before = fifo_fill(entries, capacity, shorter);
        let dropped: int = if entries.len() + added.len() > capacity {
            entries.len() + added.len() - capacity
        } else {
            0
        };
        assert(fifo_push(before, capacity, added.last()) =~= (entries + added).skip(dropped));
    }
}

/// FIFO eviction. After one entry more than its capacity has been added to a
/// cache, under keys that differ from one another, the key added first is a
/// miss. Lookups never change what a cache holds, so it does not matter how
/// recently that key was found.
pub proof fn lemma_fifo_eviction(
    entries: Seq<(u64, Seq<char>)>,
    capacity: nat,
    added: Seq<(u64, Seq<char>)>,
)
    requires
        capacity >= 1,
        entries.len() <= capacity,
        added.len() == capacity + 1,
        forall|i: int, j: int| 0 <= i < j < added.len() ==> added[i].0 != added[j].0,
    ensures
        fifo_fill(entries, capacity, added) == added.skip(1),
        is_miss(fifo_fill(entries, capacity, added), added[0].0),
        cached_value(fifo_fill(entries, capacity, added), added[0].0) is None,
{
    lemma_fifo_fill(entries, capacity, added);
    assert((entries + added).skip(entries.len() + 1 as int) =~= added.skip(1));
}

} // verus!
