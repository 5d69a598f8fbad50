//! Cache of string display widths, with time-based and size-based cleanup.
//!
//! Entries not used for the time-to-live are dropped at cleanup; when
//! `MAX_ENTRIES` or more remain, the least used ones are dropped until three
//! quarters of that limit remain. The cache never holds more than
//! `MAX_ENTRIES` strings.

use std::time::{Duration, Instant};
use vstd::prelude::*;
use crate::assoc::{find_key, has_key, keys_distinct, lemma_value_at, value_of};
use crate::clock::{elapsed_beyond, now, whole_nanos};
use crate::width::{str_width, text_width};

verus! {

/// Default time-to-live of an entry, in seconds.
pub const DEFAULT_TTL_SECS: u64 = 30;

/// Most entries the cache holds; a cleanup runs when it is full.
pub const MAX_ENTRIES: usize = 1000;

/// Number of entries kept when a cleanup has to evict by use count.
pub const KEEP_ENTRIES: usize = 750;

/// One cached width.
#[derive(Clone, Copy, Debug)]
pub struct CacheEntry {
    pub width: usize,
    pub last_access: Instant,
    pub access_count: u32,
}

impl CacheEntry {
    fn new(width: usize) -> (r: Self)
        ensures
            r.width == width,
            r.access_count == 1,
    {
        Self { width, last_access: now(), access_count: 1 }
    }

    fn touch(&mut self)
        ensures
            final(self).width == old(self).width,
            final(self).access_count == if old(self).access_count == u32::MAX {
                u32::MAX
            } else {
                (old(self).access_count + 1) as u32
            },
    {
        self.last_access = now();
        self.access_count = self.access_count.saturating_add(1);
    }

    fn is_stale(&self, limit_nanos: u128) -> bool {
        elapsed_beyond(&self.last_access, limit_nanos)
    }
}

/// Every cached width is the width of its key.
pub open spec fn widths_exact(s: Seq<(String, CacheEntry)>) -> bool {
    forall|i: int| 0 <= i < s.len() ==> (#[trigger] s[i]).1.width == str_width(s[i].0@)
}

/// Every entry of `small` occurs in `big`.
pub open spec fn sub_entries(small: Seq<(String, CacheEntry)>, big: Seq<(String, CacheEntry)>) -> bool {
    forall|i: int| 0 <= i < small.len() ==> big.contains(#[trigger] small[i])
}

/// The keys of entries.
pub open spec fn entry_keys(e: Seq<(String, CacheEntry)>) -> Seq<Seq<char>> {
    e.map_values(|x: (String, CacheEntry)| x.0@)
}

/// With distinct keys, the set of keys has one member per entry, and a key
/// is in it exactly when an entry has it.
proof fn lemma_key_set(e: Seq<(String, CacheEntry)>)
    requires
        keys_distinct(e),
    ensures
        entry_keys(e).to_set().finite(),
        entry_keys(e).to_set().len() == e.len(),
        forall|k: Seq<char>| #[trigger] has_key(e, k) <==> entry_keys(e).to_set().contains(k),
{
    let ks = entry_keys(e);
    assert(ks.no_duplicates()) by {
        assert forall|i: int, j: int| 0 <= i < ks.len() && 0 <= j < ks.len() && i != j implies ks[i] != ks[j] by {
            assert(ks[i] == e[i].0@ && ks[j] == e[j].0@);
        }
    }
    ks.unique_seq_to_set();
    ks.lemma_cardinality_of_set();
    assert forall|k: Seq<char>| #[trigger] has_key(e, k) <==> ks.to_set().contains(k) by {
        if has_key(e, k) {
            let i = choose|i: int| 0 <= i < e.len() && (#[trigger] e[i]).0@ == k;
            assert(ks[i] == k);
        }
        if ks.to_set().contains(k) {
            let i = choose|i: int| 0 <= i < ks.len() && ks[i] == k;
            assert(e[i].0@ == k);
        }
    }
}

/// Cache of string display widths.
#[derive(Debug)]
pub struct WidthCache {
    entries: Vec<(String, CacheEntry)>,
    ttl: Option<Duration>,
    last_cleanup: Instant,
    hits: u64,
    misses: u64,
}

impl WidthCache {
    #[verifier::type_invariant]
    spec fn inv(self) -> bool {
        &&& keys_distinct(self.entries@)
        &&& widths_exact(self.entries@)
        &&& self.entries@.len() <= MAX_ENTRIES
    }

    /// Whether a string's width is cached.
    pub closed spec fn has(&self, s: Seq<char>) -> bool {
        has_key(self.entries@, s)
    }

    /// Number of cached strings.
    pub closed spec fn size(&self) -> nat {
        self.entries@.len()
    }

    /// Lookups answered from the cache.
    pub closed spec fn hit_count(&self) -> u64 {
        self.hits
    }

    /// Lookups that had to compute the width.
    pub closed spec fn miss_count(&self) -> u64 {
        self.misses
    }

    /// How long an entry lives after its last use: `None` for the default
    /// of `DEFAULT_TTL_SECS` seconds, else the duration the cache was made with.
    pub closed spec fn ttl(&self) -> Option<Duration> {
        self.ttl
    }

    /// The cached strings.
    pub closed spec fn keys(&self) -> Set<Seq<char>> {
        entry_keys(self.entries@).to_set()
    }

    /// The time-to-live in nanoseconds; the default is exact.
    fn ttl_nanos(&self) -> (r: u128)
        ensures
            self.ttl() is None ==> r == DEFAULT_TTL_SECS as u128 * 1_000_000_000,
    {
        match &self.ttl {
            Some(d) => whole_nanos(d),
            None => DEFAULT_TTL_SECS as u128 * 1_000_000_000,
        }
    }

    /// Create an empty cache whose entries live for the default time.
    pub fn new() -> (r: Self)
        ensures
            r.ttl() is None,
            r.size() == 0,
            forall|k: Seq<char>| !#[trigger] r.has(k),
            r.hit_count() == 0,
            r.miss_count() == 0,
    {
        Self {
            entries: Vec::new(),
            ttl: None,
            last_cleanup: now(),
            hits: 0,
            misses: 0,
        }
    }

    /// Create an empty cache whose entries live for `ttl`.
    pub fn with_ttl(ttl: Duration) -> (r: Self)
        ensures
            r.size() == 0,
            forall|k: Seq<char>| !#[trigger] r.has(k),
            r.hit_count() == 0,
            r.miss_count() == 0,
            r.ttl() == Some(ttl),
    {
        Self { entries: Vec::new(), ttl: Some(ttl), last_cleanup: now(), hits: 0, misses: 0 }
    }

    /// The display width of `s`, answered from the cache when possible; a
    /// computed width is cached. A cleanup runs first when one is due (the
    /// cache is full, or the time-to-live has passed since the last one);
    /// which entries it drops depends on the clock, so a cached string may
    /// have to be computed again. What follows the cleanup is `lookup_width`.
    pub fn get_width(&mut self, s: &str) -> (r: usize)
        requires
            old(self).hit_count() < u64::MAX,
            old(self).miss_count() < u64::MAX,
        ensures
            r == str_width(s@),
            final(self).has(s@),
            final(self).size() <= MAX_ENTRIES,
            final(self).keys().finite(),
            final(self).keys().len() == final(self).size(),
            forall|k: Seq<char>| #[trigger] final(self).has(k) <==> final(self).keys().contains(k),
            final(self).ttl() == old(self).ttl(),
            forall|k: Seq<char>| #[trigger] final(self).has(k) ==> old(self).has(k) || k == s@,
            !old(self).has(s@) ==> final(self).miss_count() == old(self).miss_count() + 1
                && final(self).hit_count() == old(self).hit_count(),
            old(self).has(s@) ==> (final(self).hit_count() == old(self).hit_count() + 1
                && final(self).miss_count() == old(self).miss_count()) || (final(self).miss_count()
                == old(self).miss_count() + 1 && final(self).hit_count() == old(self).hit_count()),
    {
        self.maybe_cleanup();
        let r = self.lookup_width(s);
        proof {
            use_type_invariant(&*self);
            lemma_key_set(self.entries@);
        }
        r
    }

    /// The display width of `s` from a cache that has room for it: a cached
    /// string is a hit and keeps the cache as it is; any other is a miss and
    /// is added.
    pub fn lookup_width(&mut self, s: &str) -> (r: usize)
        requires
            old(self).hit_count() < u64::MAX,
            old(self).miss_count() < u64::MAX,
            old(self).has(s@) || old(self).size() < MAX_ENTRIES,
        ensures
            r == str_width(s@),
            final(self).ttl() == old(self).ttl(),
            forall|k: Seq<char>| #[trigger] final(self).has(k) <==> old(self).has(k) || k == s@,
            old(self).has(s@) ==> final(self).hit_count() == old(self).hit_count() + 1
                && final(self).miss_count() == old(self).miss_count()
                && final(self).size() == old(self).size(),
            !old(self).has(s@) ==> final(self).miss_count() == old(self).miss_count() + 1
                && final(self).hit_count() == old(self).hit_count()
                && final(self).size() == old(self).size() + 1,
    {
        proof {
            use_type_invariant(&*self);
        }
        let mut entries: Vec<(String, CacheEntry)> = Vec::new();
        std::mem::swap(&mut entries, &mut self.entries);
        let ghost e0 = entries@;
        match find_key(&entries, s) {
            Some(i) => {
                let (key, mut entry) = entries.remove(i);
                entry.touch();
                let w = entry.width;
                entries.insert(i, (key, entry));
                proof {
                    let e = entries@;
                    assert(e == e0.update(i as int, e[i as int]));
                    assert forall|a: int, b: int|
                        0 <= a < e.len() && 0 <= b < e.len() && a != b implies (
                    #[trigger] e[a]).0@ != (#[trigger] e[b]).0@ by {
                        assert(e[a].0@ == e0[a].0@);
                        assert(e[b].0@ == e0[b].0@);
                    }
                    assert forall|j: int| 0 <= j < e.len() implies (#[trigger] e[j]).1.width
                        == str_width(e[j].0@) by {
                        assert(e0[j].1.width == str_width(e0[j].0@));
                    }
                    assert forall|k: Seq<char>| #[trigger] has_key(e, k) == has_key(e0, k) by {
                        if has_key(e, k) {
                            let j = choose|j: int| 0 <= j < e.len() && (#[trigger] e[j]).0@ == k;
                            assert(e0[j].0@ == k);
                        }
                        if has_key(e0, k) {
                            let j = choose|j: int| 0 <= j < e0.len() && (#[trigger] e0[j]).0@ == k;
                            assert(e[j].0@ == k);
                        }
                    }
                    assert(e[i as int].0@ == s@);
                }
                std::mem::swap(&mut entries, &mut self.entries);
                self.hits = self.hits + 1;
                w
            },
            None => {
                let width = text_width(s);
                entries.push((s.to_owned(), CacheEntry::new(width)));
                proof {
                    let e = entries@;
                    assert forall|a: int, b: int|
                        0 <= a < e.len() && 0 <= b < e.len() && a != b implies (
                    #[trigger] e[a]).0@ != (#[trigger] e[b]).0@ by {
                        if a == e0.len() {
                            assert(e[b] == e0[b]);
                            assert(has_key(e0, e[b].0@));
                        } else if b == e0.len() {
                            assert(e[a] == e0[a]);
                            assert(has_key(e0, e[a].0@));
                        } else {
                            assert(e[a] == e0[a]);
                            assert(e[b] == e0[b]);
                        }
                    }
                    assert forall|j: int| 0 <= j < e.len() implies (#[trigger] e[j]).1.width
                        == str_width(e[j].0@) by {
                        if j < e0.len() {
                            assert(e[j] == e0[j]);
                        }
                    }
                    assert(e[e0.len() as int].0@ == s@);
                    assert forall|k: Seq<char>| #[trigger] has_key(e, k) <==> has_key(e0, k) || k
                        == s@ by {
                        if has_key(e, k) {
                            let j = choose|j: int| 0 <= j < e.len() && (#[trigger] e[j]).0@ == k;
                            if j < e0.len() {
                                assert(e[j] == e0[j]);
                            }
                        }
                        if has_key(e0, k) {
                            let j = choose|j: int| 0 <= j < e0.len() && (#[trigger] e0[j]).0@ == k;
                            assert(e[j] == e0[j]);
                        }
                    }
                }
                std::mem::swap(&mut entries, &mut self.entries);
                self.misses = self.misses + 1;
                width
            },
        }
    }

    /// The cached width of `s`, without counting or refreshing anything.
    pub fn peek_width(&self, s: &str) -> (r: Option<usize>)
        ensures
            self.has(s@) ==> r == Some(str_width(s@)),
            !self.has(s@) ==> r is None,
    {
        proof {
            use_type_invariant(self);
        }
        match find_key(&self.entries, s) {
            Some(i) => Some(self.entries[i].1.width),
            None => None,
        }
    }

    /// Whether a string's width is cached.
    pub fn contains(&self, s: &str) -> (r: bool)
        ensures
            r == self.has(s@),
    {
        find_key(&self.entries, s).is_some()
    }

    /// Whether the cache holds no entry.
    pub fn is_empty(&self) -> (r: bool)
        ensures
            r == (self.size() == 0),
    {
        self.entries.len() == 0
    }

    /// Number of lookups so far.
    pub fn total_accesses(&self) -> (r: u64)
        requires
            self.hit_count() + self.miss_count() <= u64::MAX,
        ensures
            r == self.hit_count() + self.miss_count(),
    {
        self.hits + self.misses
    }

    /// Number of lookups answered from the cache.
    pub fn hits(&self) -> (r: u64)
        ensures
            r == self.hit_count(),
    {
        self.hits
    }

    /// Number of lookups that computed the width.
    pub fn misses(&self) -> (r: u64)
        ensures
            r == self.miss_count(),
    {
        self.misses
    }

    /// Number of cached strings.
    pub fn len(&self) -> (r: usize)
        ensures
            r == self.size(),
            r <= MAX_ENTRIES,
            self.keys().finite(),
            self.keys().len() == r,
            forall|k: Seq<char>| #[trigger] self.has(k) <==> self.keys().contains(k),
    {
        proof {
            use_type_invariant(self);
            lemma_key_set(self.entries@);
        }
        self.entries.len()
    }

    /// Drop every entry and reset the counts.
    pub fn clear(&mut self)
        ensures
            final(self).size() == 0,
            forall|k: Seq<char>| !#[trigger] final(self).has(k),
            final(self).ttl() == old(self).ttl(),
            final(self).hit_count() == 0,
            final(self).miss_count() == 0,
    {
        let mut entries: Vec<(String, CacheEntry)> = Vec::new();
        std::mem::swap(&mut entries, &mut self.entries);
        self.hits = 0;
        self.misses = 0;
    }

    /// Run a cleanup when the cache is over its limit or the time-to-live has
    /// passed since the last one.
    fn maybe_cleanup(&mut self)
        ensures
            final(self).size() < MAX_ENTRIES,
            final(self).ttl == old(self).ttl,
            sub_entries(final(self).entries@, old(self).entries@),
            final(self).hits == old(self).hits,
            final(self).misses == old(self).misses,
    {
        proof {
            use_type_invariant(&*self);
        }
        if self.entries.len() >= MAX_ENTRIES || elapsed_beyond(&self.last_cleanup, self.ttl_nanos()) {
            self.cleanup();
        } else {
            assert(sub_entries(self.entries@, self.entries@)) by {
                assert forall|i: int| 0 <= i < self.entries@.len() implies self.entries@.contains(
                    #[trigger] self.entries@[i],
                ) by {}
            }
        }
    }

    /// Drop stale entries, then evict the least used ones while over the limit.
    fn cleanup(&mut self)
        ensures
            final(self).size() < MAX_ENTRIES,
            final(self).ttl == old(self).ttl,
            sub_entries(final(self).entries@, old(self).entries@),
            final(self).hits == old(self).hits,
            final(self).misses == old(self).misses,
    {
        proof {
            use_type_invariant(&*self);
        }
        let mut old_entries: Vec<(String, CacheEntry)> = Vec::new();
        std::mem::swap(&mut old_entries, &mut self.entries);
        let fresh = retain_fresh(&old_entries, self.ttl_nanos());
        let kept = if fresh.len() >= MAX_ENTRIES {
            evict_least_used(fresh, KEEP_ENTRIES)
        } else {
            fresh
        };
        let mut kept = kept;
        std::mem::swap(&mut kept, &mut self.entries);
        self.last_cleanup = now();
    }
}

impl Default for WidthCache {
    fn default() -> (r: Self) {
        Self::new()
    }
}

/// The entries that are not stale, in their order. Staleness depends on the
/// clock, so only the shape of the result is stated.
fn retain_fresh(entries: &Vec<(String, CacheEntry)>, limit_nanos: u128) -> (r: Vec<(String, CacheEntry)>)
    requires
        keys_distinct(entries@),
        widths_exact(entries@),
    ensures
        keys_distinct(r@),
        widths_exact(r@),
        sub_entries(r@, entries@),
        r@.len() <= entries@.len(),
{
    let mut r: Vec<(String, CacheEntry)> = Vec::new();
    let mut i: usize = 0;
    while i < entries.len()
        invariant
            i <= entries@.len(),
            keys_distinct(entries@),
            widths_exact(entries@),
            r@.len() <= i,
            widths_exact(r@),
            forall|a: int| 0 <= a < r@.len() ==> exists|j: int| 0 <= j < i && #[trigger] r@[a] == entries@[j],
            keys_distinct(r@),
        decreases entries@.len() - i,
    {
        let entry = &entries[i];
        if !entry.1.is_stale(limit_nanos) {
            let ghost r0 = r@;
            let key = entry.0.clone();
            let value = entry.1;
            r.push((key, value));
            proof {
                let rr = r@;
                assert(rr[r0.len() as int] == entries@[i as int]);
                assert forall|a: int| 0 <= a < rr.len() implies exists|j: int| 0 <= j < i + 1 && #[trigger] rr[a] == entries@[j] by {
                    if a < r0.len() {
                        assert(rr[a] == r0[a]);
                        let j = choose|j: int| 0 <= j < i && r0[a] == entries@[j];
                        assert(rr[a] == entries@[j]);
                    } else {
                        assert(rr[a] == entries@[i as int]);
                    }
                }
                assert forall|a: int, b: int|
                    0 <= a < rr.len() && 0 <= b < rr.len() && a != b implies (
                #[trigger] rr[a]).0@ != (#[trigger] rr[b]).0@ by {
                    if a < r0.len() && b < r0.len() {
                        assert(rr[a] == r0[a] && rr[b] == r0[b]);
                    } else if a == r0.len() {
                        assert(rr[b] == r0[b]);
                        let j = choose|j: int| 0 <= j < i && r0[b] == entries@[j];
                        assert(j != i);
                    } else {
                        assert(rr[a] == r0[a]);
                        let j = choose|j: int| 0 <= j < i && r0[a] == entries@[j];
                        assert(j != i);
                    }
                }
                assert forall|a: int| 0 <= a < rr.len() implies (#[trigger] rr[a]).1.width
                    == str_width(rr[a].0@) by {
                    if a < r0.len() {
                        assert(rr[a] == r0[a]);
                    }
                }
            }
        }
        i = i + 1;
    }
    proof {
        assert forall|a: int| 0 <= a < r@.len() implies entries@.contains(#[trigger] r@[a]) by {
            let j = choose|j: int| 0 <= j < entries@.len() && r@[a] == entries@[j];
        }
    }
    r
}

/// The index of an entry with the smallest use count.
fn least_used(entries: &Vec<(String, CacheEntry)>) -> (r: usize)
    requires
        entries@.len() > 0,
    ensures
        r < entries@.len(),
        forall|j: int| 0 <= j < entries@.len() ==> entries@[r as int].1.access_count <= (
        #[trigger] entries@[j]).1.access_count,
{
    let mut best: usize = 0;
    let mut i: usize = 1;
    while i < entries.len()
        invariant
            1 <= i <= entries@.len(),
            best < i,
            forall|j: int| 0 <= j < i ==> entries@[best as int].1.access_count <= (
            #[trigger] entries@[j]).1.access_count,
        decreases entries@.len() - i,
    {
        if entries[i].1.access_count < entries[best].1.access_count {
            best = i;
        }
        i = i + 1;
    }
    best
}

/// Remove least-used entries until `keep` remain. Every removed entry was
/// used no more often than any kept one.
pub fn evict_least_used(entries: Vec<(String, CacheEntry)>, keep: usize) -> (r: Vec<
    (String, CacheEntry),
>)
    requires
        keys_distinct(entries@),
        widths_exact(entries@),
    ensures
        keys_distinct(r@),
        widths_exact(r@),
        sub_entries(r@, entries@),
        r@.len() == if entries@.len() <= keep { entries@.len() } else { keep as nat },
        forall|i: int, j: int|
            0 <= i < entries@.len() && 0 <= j < r@.len() && !r@.contains(entries@[i])
                ==> #[trigger] entries@[i].1.access_count <= (#[trigger] r@[j]).1.access_count,
{
    let mut r = entries;
    let ghost start_entries = r@;
    let ghost mut gone: Seq<(String, CacheEntry)> = Seq::empty();
    while r.len() > keep
        invariant
            keys_distinct(r@),
            widths_exact(r@),
            sub_entries(r@, start_entries),
            start_entries.len() > keep ==> r@.len() >= keep,
            start_entries.len() <= keep ==> r@ == start_entries,
            start_entries.len() == r@.len() + gone.len(),
            forall|i: int| 0 <= i < start_entries.len() ==> (r@.contains(#[trigger] start_entries[i]) || gone.contains(start_entries[i])),
            forall|g: int, j: int| 0 <= g < gone.len() && 0 <= j < r@.len() ==> (#[trigger] gone[g]).1.access_count <= (#[trigger] r@[j]).1.access_count,
        decreases r@.len(),
    {
        let m = least_used(&r);
        let ghost r0 = r@;
        let removed = r.remove(m);
        proof {
            let rr = r@;
            assert(rr == r0.remove(m as int));
            assert forall|a: int, b: int|
                0 <= a < rr.len() && 0 <= b < rr.len() && a != b implies (#[trigger] rr[a]).0@
                != (#[trigger] rr[b]).0@ by {
                let a0 = if a < m { a } else { a + 1 };
                let b0 = if b < m { b } else { b + 1 };
                assert(rr[a] == r0[a0] && rr[b] == r0[b0]);
            }
            assert forall|a: int| 0 <= a < rr.len() implies (#[trigger] rr[a]).1.width == str_width(
                rr[a].0@,
            ) by {
                let a0 = if a < m { a } else { a + 1 };
                assert(rr[a] == r0[a0]);
            }
            assert forall|a: int| 0 <= a < rr.len() implies start_entries.contains(#[trigger] rr[a]) by {
                let a0 = if a < m { a } else { a + 1 };
                assert(rr[a] == r0[a0]);
                assert(start_entries.contains(r0[a0]));
            }
            let g1 = gone.push(removed);
            assert forall|i: int| 0 <= i < start_entries.len() implies (rr.contains(#[trigger] start_entries[i]) || g1.contains(start_entries[i])) by {
                if r0.contains(start_entries[i]) {
                    let a0 = choose|a0: int| 0 <= a0 < r0.len() && r0[a0] == start_entries[i];
                    if a0 == m {
                        assert(g1[gone.len() as int] == start_entries[i]);
                    } else {
                        let a = if a0 < m { a0 } else { a0 - 1 };
                        assert(rr[a] == start_entries[i]);
                    }
                } else {
                    let gi = choose|gi: int| 0 <= gi < gone.len() && gone[gi] == start_entries[i];
                    assert(g1[gi] == start_entries[i]);
                }
            }
            assert forall|g: int, j: int| 0 <= g < g1.len() && 0 <= j < rr.len() implies (#[trigger] g1[g]).1.access_count <= (#[trigger] rr[j]).1.access_count by {
                let j0 = if j < m { j } else { j + 1 };
                assert(rr[j] == r0[j0]);
                if g < gone.len() {
                    assert(g1[g] == gone[g]);
                } else {
                    assert(g1[g] == removed);
                }
            }
            gone = g1;
        }
    }
    proof {
        assert forall|i: int, j: int|
            0 <= i < start_entries.len() && 0 <= j < r@.len() && !r@.contains(start_entries[i])
                implies #[trigger] start_entries[i].1.access_count <= (#[trigger] r@[j]).1.access_count by {
            assert(gone.contains(start_entries[i]));
            let g = choose|g: int| 0 <= g < gone.len() && gone[g] == start_entries[i];
            assert(gone[g].1.access_count <= r@[j].1.access_count);
        }
    }
    r
}

} // verus!
