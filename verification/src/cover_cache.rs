//! Cover art cache with least-recently-used eviction and prefetch planning.

use vstd::prelude::*;
use crate::assoc::{find_key, has_key, keys_distinct, lemma_value_at, value_of};
use crate::song::SongInfo;
use crate::text::names;

verus! {

/// Maximum number of cached covers.
pub const MAX_CACHE_ENTRIES: usize = 20;

/// Number of queue items prefetched after the current one.
pub const PREFETCH_AHEAD: usize = 3;

/// Number of queue items prefetched before the current one.
pub const PREFETCH_BEHIND: usize = 1;

/// Cached cover art: the raw image bytes, or `None` when the song has no cover.
#[derive(Debug, Clone)]
pub struct CachedCover {
    pub data: Option<Vec<u8>>,
}

/// The bytes of a cached cover.
pub open spec fn cover_bytes(c: CachedCover) -> Option<Seq<u8>> {
    match c.data {
        Some(v) => Some(v@),
        None => None,
    }
}

/// The index of a name in an order (meaningful when present).
pub open spec fn position(order: Seq<Seq<char>>, k: Seq<char>) -> int {
    choose|i: int| 0 <= i < order.len() && order[i] == k
}

/// An order with `k` moved to the most recent end.
pub open spec fn touch(order: Seq<Seq<char>>, k: Seq<char>) -> Seq<Seq<char>> {
    order.remove(position(order, k)).push(k)
}

#[derive(Debug)]
struct CoverState {
    entries: Vec<(String, CachedCover)>,
    lru_order: Vec<String>,
    pending: Vec<String>,
    hits: u64,
    misses: u64,
}

/// Cover art cache keyed by file path, evicting the least recently used entry.
#[derive(Debug)]
pub struct CoverArtCache {
    state: CoverState,
}

fn find_name(v: &Vec<String>, k: &str) -> (r: Option<usize>)
    ensures
        match r {
            Some(i) => i < v@.len() && v@[i as int]@ == k@ && names(v@).contains(k@),
            None => !names(v@).contains(k@),
        },
{
    let key = k.to_owned();
    let mut i: usize = 0;
    while i < v.len()
        invariant
            i <= v@.len(),
            key@ == k@,
            forall|j: int| 0 <= j < i ==> (#[trigger] v@[j])@ != k@,
        decreases v@.len() - i,
    {
        if v[i] == key {
            proof {
                assert(names(v@)[i as int] == k@);
            }
            return Some(i);
        }
        i = i + 1;
    }
    proof {
        if names(v@).contains(k@) {
            let j = choose|j: int| 0 <= j < names(v@).len() && names(v@)[j] == k@;
            assert(v@[j]@ == k@);
        }
    }
    None
}

proof fn lemma_names_remove(v: Seq<String>, i: int)
    requires
        0 <= i < v.len(),
    ensures
        names(v.remove(i)) == names(v).remove(i),
{
    assert(names(v.remove(i)) =~= names(v).remove(i));
}

proof fn lemma_names_push(v: Seq<String>, s: String)
    ensures
        names(v.push(s)) == names(v).push(s@),
{
    assert(names(v.push(s)) =~= names(v).push(s@));
}

proof fn lemma_remove_distinct(o: Seq<Seq<char>>, i: int)
    requires
        o.no_duplicates(),
        0 <= i < o.len(),
    ensures
        o.remove(i).no_duplicates(),
        !o.remove(i).contains(o[i]),
        forall|x: Seq<char>| #[trigger] o.remove(i).contains(x) <==> (o.contains(x) && x != o[i]),
{
    let r = o.remove(i);
    assert forall|x: Seq<char>| #[trigger] r.contains(x) <==> (o.contains(x) && x != o[i]) by {
        if r.contains(x) {
            let j = choose|j: int| 0 <= j < r.len() && r[j] == x;
            if j < i {
                assert(o[j] == x);
            } else {
                assert(o[j + 1] == x);
            }
        }
        if o.contains(x) && x != o[i] {
            let j = choose|j: int| 0 <= j < o.len() && o[j] == x;
            if j < i {
                assert(r[j] == x);
            } else {
                assert(j != i);
                assert(r[j - 1] == x);
            }
        }
    }
}

proof fn lemma_push_distinct(o: Seq<Seq<char>>, k: Seq<char>)
    requires
        o.no_duplicates(),
        !o.contains(k),
    ensures
        o.push(k).no_duplicates(),
        forall|x: Seq<char>| #[trigger] o.push(k).contains(x) <==> (o.contains(x) || x == k),
{
    let p = o.push(k);
    assert forall|x: Seq<char>| #[trigger] p.contains(x) <==> (o.contains(x) || x == k) by {
        if p.contains(x) {
            let j = choose|j: int| 0 <= j < p.len() && p[j] == x;
            if j < o.len() {
                assert(o[j] == x);
            }
        }
        if o.contains(x) {
            let j = choose|j: int| 0 <= j < o.len() && o[j] == x;
            assert(p[j] == x);
        }
        if x == k {
            assert(p[o.len() as int] == x);
        }
    }
    assert forall|a: int, b: int| 0 <= a < p.len() && 0 <= b < p.len() && a != b implies p[a]
        != p[b] by {
        if a == o.len() {
            assert(o[b] == p[b]);
        } else if b == o.len() {
            assert(o[a] == p[a]);
        }
    }
}


impl CoverState {
    spec fn inv(&self) -> bool {
        &&& keys_distinct(self.entries@)
        &&& names(self.lru_order@).no_duplicates()
        &&& self.lru_order@.len() == self.entries@.len()
        &&& forall|k: Seq<char>| #[trigger]
            has_key(self.entries@, k) <==> names(self.lru_order@).contains(k)
        &&& self.entries@.len() <= MAX_CACHE_ENTRIES
        &&& names(self.pending@).no_duplicates()
    }

    spec fn order(&self) -> Seq<Seq<char>> {
        names(self.lru_order@)
    }

    spec fn has(&self, p: Seq<char>) -> bool {
        has_key(self.entries@, p)
    }

    spec fn cover(&self, p: Seq<char>) -> Option<Seq<u8>> {
        cover_bytes(value_of(self.entries@, p))
    }

    spec fn same_covers(&self, other: &Self) -> bool {
        &&& forall|p: Seq<char>| #[trigger] self.has(p) == other.has(p)
        &&& forall|p: Seq<char>| #[trigger] self.has(p) ==> self.cover(p) == other.cover(p)
    }

    fn empty() -> (r: Self)
        ensures
            r.inv(),
            r.order().len() == 0,
            names(r.pending@).len() == 0,
            r.hits == 0,
            r.misses == 0,
    {
        let r = Self {
            entries: Vec::new(),
            lru_order: Vec::new(),
            pending: Vec::new(),
            hits: 0,
            misses: 0,
        };
        assert(names(r.lru_order@) =~= Seq::empty());
        assert(names(r.pending@) =~= Seq::empty());
        r
    }

    /// Move a cached path to the most recent end of the order.
    fn refresh(&mut self, path: &str)
        requires
            old(self).inv(),
            old(self).has(path@),
        ensures
            final(self).inv(),
            final(self).order() == touch(old(self).order(), path@),
            final(self).entries == old(self).entries,
            final(self).pending == old(self).pending,
            final(self).hits == old(self).hits,
            final(self).misses == old(self).misses,
    {
        let ghost o = names(self.lru_order@);
        let i = match find_name(&self.lru_order, path) {
            Some(i) => i,
            None => {
                assert(false);
                0
            },
        };
        let ghost l0 = self.lru_order@;
        let p = self.lru_order.remove(i);
        proof {
            assert(o[i as int] == path@);
            assert(position(o, path@) == i as int) by {
                let j = position(o, path@);
                assert(0 <= j < o.len() && o[j] == path@);
            }
            lemma_names_remove(l0, i as int);
            lemma_remove_distinct(o, i as int);
            lemma_names_push(self.lru_order@, p);
            lemma_push_distinct(o.remove(i as int), path@);
        }
        self.lru_order.push(p);
    }

    fn unmark_pending(&mut self, path: &str)
        requires
            old(self).inv(),
        ensures
            final(self).inv(),
            !names(final(self).pending@).contains(path@),
            forall|p: Seq<char>|
                p != path@ ==> (#[trigger] names(final(self).pending@).contains(p) == names(
                    old(self).pending@,
                ).contains(p)),
            final(self).entries == old(self).entries,
            final(self).lru_order == old(self).lru_order,
            final(self).hits == old(self).hits,
            final(self).misses == old(self).misses,
    {
        if let Some(i) = find_name(&self.pending, path) {
            let ghost o = names(self.pending@);
            let ghost p0 = self.pending@;
            self.pending.remove(i);
            proof {
                lemma_names_remove(p0, i as int);
                lemma_remove_distinct(o, i as int);
            }
        }
    }

    fn mark_pending(&mut self, path: String)
        requires
            old(self).inv(),
        ensures
            final(self).inv(),
            names(final(self).pending@).contains(path@),
            forall|p: Seq<char>|
                p != path@ ==> (#[trigger] names(final(self).pending@).contains(p) == names(
                    old(self).pending@,
                ).contains(p)),
            final(self).entries == old(self).entries,
            final(self).lru_order == old(self).lru_order,
            final(self).hits == old(self).hits,
            final(self).misses == old(self).misses,
    {
        if find_name(&self.pending, path.as_str()).is_none() {
            let ghost o = names(self.pending@);
            let ghost p0 = self.pending@;
            let ghost k = path@;
            self.pending.push(path);
            proof {
                lemma_names_push(p0, self.pending@[p0.len() as int]);
                lemma_push_distinct(o, k);
            }
        }
    }

    /// Replace the cover of a cached path at entry index `i`.
    fn set_cover(&mut self, i: usize, path: String, data: Option<Vec<u8>>)
        requires
            old(self).inv(),
            i < old(self).entries@.len(),
            old(self).entries@[i as int].0@ == path@,
        ensures
            final(self).inv(),
            final(self).lru_order == old(self).lru_order,
            final(self).pending == old(self).pending,
            final(self).hits == old(self).hits,
            final(self).misses == old(self).misses,
            forall|p: Seq<char>| #[trigger] final(self).has(p) == old(self).has(p),
            final(self).cover(path@) == cover_bytes(CachedCover { data }),
            forall|p: Seq<char>|
                p != path@ && #[trigger] final(self).has(p) ==> final(self).cover(p) == old(
                    self,
                ).cover(p),
    {
        let ghost e0 = self.entries@;
        let ghost k = path@;
        self.entries.set(i, (path, CachedCover { data }));
        proof {
            let e = self.entries@;
            assert forall|a: int, b: int|
                0 <= a < e.len() && 0 <= b < e.len() && a != b implies (#[trigger] e[a]).0@ != (
            #[trigger] e[b]).0@ by {
                assert(e[a].0@ == e0[a].0@);
                assert(e[b].0@ == e0[b].0@);
            }
            assert forall|q: Seq<char>| #[trigger] has_key(e, q) == has_key(e0, q) by {
                if has_key(e0, q) {
                    let j = choose|j: int| 0 <= j < e0.len() && (#[trigger] e0[j]).0@ == q;
                    assert(e[j].0@ == q);
                }
                if has_key(e, q) {
                    let j = choose|j: int| 0 <= j < e.len() && (#[trigger] e[j]).0@ == q;
                    assert(e0[j].0@ == q);
                }
            }
            lemma_value_at(e, k, i as int);
            assert forall|q: Seq<char>| q != k && has_key(e, q) implies value_of(e, q) == value_of(
                e0,
                q,
            ) by {
                let j = choose|j: int| 0 <= j < e.len() && (#[trigger] e[j]).0@ == q;
                assert(j != i);
                lemma_value_at(e, q, j);
                lemma_value_at(e0, q, j);
            }
        }
    }

    /// Remove the least recently used entry of a full cache.
    fn evict_oldest(&mut self)
        requires
            old(self).inv(),
            old(self).order().len() >= MAX_CACHE_ENTRIES,
        ensures
            final(self).inv(),
            final(self).order() == old(self).order().remove(0),
            final(self).order().len() < MAX_CACHE_ENTRIES,
            forall|p: Seq<char>|
                #[trigger] final(self).has(p) ==> old(self).has(p) && final(self).cover(p) == old(
                    self,
                ).cover(p),
            final(self).pending == old(self).pending,
            final(self).hits == old(self).hits,
            final(self).misses == old(self).misses,
    {
        let ghost o = names(self.lru_order@);
        let ghost l0 = self.lru_order@;
        let oldest = self.lru_order.remove(0);
        proof {
            lemma_names_remove(l0, 0);
            lemma_remove_distinct(o, 0);
            assert(o[0] == oldest@);
            assert(o.contains(oldest@));
        }
        let ghost e0 = self.entries@;
        let j = match find_key(&self.entries, oldest.as_str()) {
            Some(j) => j,
            None => {
                assert(false);
                0
            },
        };
        self.entries.remove(j);
        proof {
            let e = self.entries@;
            assert(e == e0.remove(j as int));
            assert forall|a: int, b: int|
                0 <= a < e.len() && 0 <= b < e.len() && a != b implies (#[trigger] e[a]).0@ != (
            #[trigger] e[b]).0@ by {
                let a0 = if a < j {
                    a
                } else {
                    a + 1
                };
                let b0 = if b < j {
                    b
                } else {
                    b + 1
                };
                assert(e[a] == e0[a0]);
                assert(e[b] == e0[b0]);
            }
            assert forall|k: Seq<char>| #[trigger]
                has_key(e, k) <==> names(self.lru_order@).contains(k) by {
                if has_key(e, k) {
                    let a = choose|a: int| 0 <= a < e.len() && (#[trigger] e[a]).0@ == k;
                    let a0 = if a < j {
                        a
                    } else {
                        a + 1
                    };
                    assert(e[a] == e0[a0]);
                    assert(has_key(e0, k));
                    assert(a0 != j);
                    assert(k != oldest@);
                }
                if names(self.lru_order@).contains(k) {
                    assert(o.contains(k) && k != oldest@);
                    assert(has_key(e0, k));
                    let a0 = choose|a: int| 0 <= a < e0.len() && (#[trigger] e0[a]).0@ == k;
                    assert(a0 != j);
                    let a = if a0 < j {
                        a0
                    } else {
                        a0 - 1
                    };
                    assert(e[a] == e0[a0]);
                }
            }
            assert forall|k: Seq<char>| has_key(e, k) implies has_key(e0, k) && value_of(e, k)
                == value_of(e0, k) by {
                let a = choose|a: int| 0 <= a < e.len() && (#[trigger] e[a]).0@ == k;
                let a0 = if a < j {
                    a
                } else {
                    a + 1
                };
                assert(e[a] == e0[a0]);
                lemma_value_at(e, k, a);
                lemma_value_at(e0, k, a0);
            }
        }
    }

    /// Add a path that is not cached to a cache with room for it.
    fn add_new(&mut self, path: String, data: Option<Vec<u8>>)
        requires
            old(self).inv(),
            !old(self).has(path@),
            old(self).order().len() < MAX_CACHE_ENTRIES,
        ensures
            final(self).inv(),
            final(self).order() == old(self).order().push(path@),
            final(self).has(path@),
            final(self).cover(path@) == cover_bytes(CachedCover { data }),
            forall|p: Seq<char>|
                p != path@ && #[trigger] final(self).has(p) ==> old(self).has(p)
                    && final(self).cover(p) == old(self).cover(p),
            final(self).pending == old(self).pending,
            final(self).hits == old(self).hits,
            final(self).misses == old(self).misses,
    {
        let ghost o = names(self.lru_order@);
        let ghost e0 = self.entries@;
        let ghost l0 = self.lru_order@;
        let key = path.clone();
        let ghost k = path@;
        self.lru_order.push(path);
        self.entries.push((key, CachedCover { data }));
        proof {
            lemma_names_push(l0, self.lru_order@[l0.len() as int]);
            lemma_push_distinct(o, k);
            let e = self.entries@;
            assert forall|a: int, b: int|
                0 <= a < e.len() && 0 <= b < e.len() && a != b implies (#[trigger] e[a]).0@ != (
            #[trigger] e[b]).0@ by {
                if a == e0.len() {
                    assert(e[b] == e0[b]);
                    assert(has_key(e0, e[b].0@));
                } else if b == e0.len() {
                    assert(e[a] == e0[a]);
                    assert(has_key(e0, e[a].0@));
                } else {
                    assert(e[a] == e0[a]);
                    assert(e[b] == e0[b]);
                }
            }
            assert forall|q: Seq<char>| #[trigger] has_key(e, q) <==> (has_key(e0, q) || q == k) by {
                if has_key(e, q) {
                    let a = choose|a: int| 0 <= a < e.len() && (#[trigger] e[a]).0@ == q;
                    if a < e0.len() {
                        assert(e[a] == e0[a]);
                    }
                }
                if has_key(e0, q) {
                    let a = choose|a: int| 0 <= a < e0.len() && (#[trigger] e0[a]).0@ == q;
                    assert(e[a] == e0[a]);
                }
                if q == k {
                    assert(e[e0.len() as int].0@ == q);
                }
            }
            lemma_value_at(e, k, e0.len() as int);
            assert forall|q: Seq<char>| q != k && has_key(e, q) implies value_of(e, q) == value_of(
                e0,
                q,
            ) by {
                let a = choose|a: int| 0 <= a < e.len() && (#[trigger] e[a]).0@ == q;
                assert(a < e0.len());
                assert(e[a] == e0[a]);
                lemma_value_at(e, q, a);
                lemma_value_at(e0, q, a);
            }
        }
    }
}

impl CoverArtCache {
    #[verifier::type_invariant]
    spec fn inv(self) -> bool {
        self.state.inv()
    }

    /// Cached paths, least recently used first.
    pub closed spec fn order(&self) -> Seq<Seq<char>> {
        self.state.order()
    }

    /// Whether a path is cached.
    pub closed spec fn has(&self, p: Seq<char>) -> bool {
        self.state.has(p)
    }

    /// The cover cached for a path (meaningful when cached).
    pub closed spec fn cover(&self, p: Seq<char>) -> Option<Seq<u8>> {
        self.state.cover(p)
    }

    /// Paths currently being fetched.
    pub closed spec fn pending_paths(&self) -> Seq<Seq<char>> {
        names(self.state.pending@)
    }

    /// Lookups that found a cover.
    pub closed spec fn hit_count(&self) -> u64 {
        self.state.hits
    }

    /// Lookups that found nothing.
    pub closed spec fn miss_count(&self) -> u64 {
        self.state.misses
    }

    /// The cache is within capacity and its order holds exactly the cached paths, once each.
    /// Every cache is so: each method states it of the cache it is called on.
    pub open spec fn consistent(&self) -> bool {
        &&& self.order().no_duplicates()
        &&& self.order().len() <= MAX_CACHE_ENTRIES
        &&& forall|p: Seq<char>| #[trigger] self.has(p) <==> self.order().contains(p)
    }

    /// Same cached paths and covers.
    pub open spec fn same_covers(&self, other: &Self) -> bool {
        &&& forall|p: Seq<char>| #[trigger] self.has(p) == other.has(p)
        &&& forall|p: Seq<char>| #[trigger] self.has(p) ==> self.cover(p) == other.cover(p)
    }

    /// Create an empty cache.
    pub fn new() -> (r: Self)
        ensures
            r.consistent(),
            r.order().len() == 0,
            forall|p: Seq<char>| !#[trigger] r.has(p),
            r.pending_paths().len() == 0,
            r.hit_count() == 0,
            r.miss_count() == 0,
    {
        let r = Self { state: CoverState::empty() };
        proof {
            assert forall|p: Seq<char>| !#[trigger] r.has(p) by {
                assert(!r.state.order().contains(p));
            }
        }
        r
    }

    fn take_state(&mut self) -> (st: CoverState)
        ensures
            st == old(self).state,
            st.inv(),
    {
        proof {
            use_type_invariant(&*self);
        }
        let mut st = CoverState::empty();
        std::mem::swap(&mut st, &mut self.state);
        st
    }

    fn put_state(&mut self, st: CoverState)
        requires
            st.inv(),
        ensures
            final(self).state == st,
            final(self).consistent(),
    {
        let mut st = st;
        std::mem::swap(&mut st, &mut self.state);
    }

    /// Look up a path; a hit counts and makes the path the most recently used.
    pub fn get(&mut self, path: &str) -> (r: Option<&CachedCover>)
        requires
            old(self).hit_count() < u64::MAX,
            old(self).miss_count() < u64::MAX,
        ensures
            old(self).consistent(),
            final(self).consistent(),
            final(self).same_covers(old(self)),
            final(self).pending_paths() == old(self).pending_paths(),
            old(self).has(path@) ==> {
                &&& r matches Some(c) && cover_bytes(*c) == old(self).cover(path@)
                &&& final(self).order() == touch(old(self).order(), path@)
                &&& final(self).hit_count() == old(self).hit_count() + 1
                &&& final(self).miss_count() == old(self).miss_count()
            },
            !old(self).has(path@) ==> {
                &&& r is None
                &&& final(self).order() == old(self).order()
                &&& final(self).hit_count() == old(self).hit_count()
                &&& final(self).miss_count() == old(self).miss_count() + 1
            },
    {
        proof {
            use_type_invariant(&*self);
        }
        let mut st = self.take_state();
        match find_key(&st.entries, path) {
            Some(i) => {
                st.hits = st.hits + 1;
                st.refresh(path);
                proof {
                    lemma_value_at(st.entries@, path@, i as int);
                }
                self.put_state(st);
                Some(&self.state.entries[i].1)
            },
            None => {
                st.misses = st.misses + 1;
                self.put_state(st);
                None
            },
        }
    }

    /// Whether a path is cached (no effect on order or counts).
    pub fn contains(&self, path: &str) -> (r: bool)
        ensures
            self.consistent(),
            r == self.has(path@),
    {
        proof {
            use_type_invariant(self);
        }
        find_key(&self.state.entries, path).is_some()
    }

    /// Store a cover (or the absence of one) for a path.
    ///
    /// The path stops being pending and becomes the most recently used. A new
    /// path in a full cache evicts the least recently used one.
    pub fn insert(&mut self, path: String, data: Option<Vec<u8>>)
        ensures
            old(self).consistent(),
            final(self).consistent(),
            final(self).has(path@),
            final(self).cover(path@) == cover_bytes(CachedCover { data }),
            !final(self).pending_paths().contains(path@),
            forall|p: Seq<char>|
                p != path@ ==> (#[trigger] final(self).pending_paths().contains(p)
                    == old(self).pending_paths().contains(p)),
            final(self).hit_count() == old(self).hit_count(),
            final(self).miss_count() == old(self).miss_count(),
            old(self).has(path@) ==> final(self).order() == touch(old(self).order(), path@),
            !old(self).has(path@) && old(self).order().len() < MAX_CACHE_ENTRIES
                ==> final(self).order() == old(self).order().push(path@),
            !old(self).has(path@) && old(self).order().len() >= MAX_CACHE_ENTRIES
                ==> final(self).order() == old(self).order().remove(0).push(path@),
            forall|p: Seq<char>|
                p != path@ && #[trigger] final(self).has(p) ==> old(self).has(p)
                    && final(self).cover(p) == old(self).cover(p),
    {
        proof {
            use_type_invariant(&*self);
        }
        let mut st = self.take_state();
        st.unmark_pending(path.as_str());
        match find_key(&st.entries, path.as_str()) {
            Some(i) => {
                st.refresh(path.as_str());
                st.set_cover(i, path, data);
            },
            None => {
                if st.entries.len() >= MAX_CACHE_ENTRIES {
                    st.evict_oldest();
                }
                st.add_new(path, data);
            },
        }
        self.put_state(st);
    }

    /// Mark a path as being fetched.
    pub fn mark_pending(&mut self, path: String)
        ensures
            old(self).consistent(),
            final(self).pending_paths().contains(path@),
            forall|p: Seq<char>|
                p != path@ ==> (#[trigger] final(self).pending_paths().contains(p)
                    == old(self).pending_paths().contains(p)),
            final(self).order() == old(self).order(),
            final(self).same_covers(old(self)),
            final(self).hit_count() == old(self).hit_count(),
            final(self).miss_count() == old(self).miss_count(),
            final(self).consistent(),
    {
        proof {
            use_type_invariant(&*self);
        }
        let mut st = self.take_state();
        st.mark_pending(path);
        self.put_state(st);
    }

    /// Whether a path is being fetched.
    pub fn is_pending(&self, path: &str) -> (r: bool)
        ensures
            self.consistent(),
            r == self.pending_paths().contains(path@),
    {
        proof {
            use_type_invariant(self);
        }
        find_name(&self.state.pending, path).is_some()
    }

    /// Hits, misses and number of cached covers.
    pub fn stats(&self) -> (r: (u64, u64, usize))
        ensures
            self.consistent(),
            r.0 == self.hit_count(),
            r.1 == self.miss_count(),
            r.2 == self.order().len(),
    {
        proof {
            use_type_invariant(self);
        }
        (self.state.hits, self.state.misses, self.state.entries.len())
    }

    /// Drop every cover and pending mark; the counts stay.
    pub fn clear(&mut self)
        ensures
            old(self).consistent(),
            final(self).consistent(),
            final(self).order().len() == 0,
            forall|p: Seq<char>| !#[trigger] final(self).has(p),
            final(self).pending_paths().len() == 0,
            final(self).hit_count() == old(self).hit_count(),
            final(self).miss_count() == old(self).miss_count(),
    {
        proof {
            use_type_invariant(&*self);
        }
        let old_state = self.take_state();
        let mut st = CoverState::empty();
        st.hits = old_state.hits;
        st.misses = old_state.misses;
        proof {
            assert forall|p: Seq<char>| !#[trigger] st.has(p) by {
                assert(!st.order().contains(p));
            }
        }
        self.put_state(st);
    }
}

impl Default for CoverArtCache {
    fn default() -> (r: Self) {
        Self::new()
    }
}

/// What a request for the current song's cover should do.
#[derive(Debug, Clone)]
pub enum CoverLoad {
    /// The cover is cached: use it.
    Cached(Option<Vec<u8>>),
    /// Another request is already fetching it: do nothing.
    AlreadyPending,
    /// Fetch it from the server; the path is now marked pending.
    Fetch,
}

impl CoverArtCache {
    /// Decide how to obtain the cover of the current song: from the cache (a
    /// counted lookup), not at all when a fetch is under way, or by fetching it.
    pub fn begin_load(&mut self, path: &str) -> (r: CoverLoad)
        requires
            old(self).hit_count() < u64::MAX,
            old(self).miss_count() < u64::MAX,
        ensures
            old(self).consistent(),
            final(self).consistent(),
            final(self).same_covers(old(self)),
            old(self).has(path@) ==> (r matches CoverLoad::Cached(d) && cover_bytes(
                CachedCover { data: d },
            ) == old(self).cover(path@)) && final(self).pending_paths() == old(
                self,
            ).pending_paths(),
            !old(self).has(path@) && old(self).pending_paths().contains(path@) ==> r
                is AlreadyPending && final(self).pending_paths() == old(self).pending_paths(),
            !old(self).has(path@) && !old(self).pending_paths().contains(path@) ==> r is Fetch
                && final(self).pending_paths().contains(path@),
            forall|p: Seq<char>|
                p != path@ ==> (#[trigger] final(self).pending_paths().contains(p)
                    == old(self).pending_paths().contains(p)),
    {
        proof {
            use_type_invariant(&*self);
        }
        match self.get(path) {
            Some(c) => {
                let d = c.data.clone();
                proof {
                    assert(cover_bytes(CachedCover { data: d }) == cover_bytes(*c));
                }
                CoverLoad::Cached(d)
            },
            None => {
                if self.is_pending(path) {
                    CoverLoad::AlreadyPending
                } else {
                    self.mark_pending(path.to_owned());
                    CoverLoad::Fetch
                }
            },
        }
    }

    /// Decide whether to prefetch a cover: only when it is neither cached nor
    /// being fetched, in which case it is marked pending.
    pub fn begin_prefetch(&mut self, path: &str) -> (r: bool)
        ensures
            old(self).consistent(),
            final(self).consistent(),
            final(self).same_covers(old(self)),
            final(self).order() == old(self).order(),
            final(self).hit_count() == old(self).hit_count(),
            final(self).miss_count() == old(self).miss_count(),
            r == (!old(self).has(path@) && !old(self).pending_paths().contains(path@)),
            r ==> final(self).pending_paths().contains(path@),
            !r ==> final(self).pending_paths() == old(self).pending_paths(),
            forall|p: Seq<char>|
                p != path@ ==> (#[trigger] final(self).pending_paths().contains(p)
                    == old(self).pending_paths().contains(p)),
    {
        proof {
            use_type_invariant(&*self);
        }
        if self.contains(path) || self.is_pending(path) {
            false
        } else {
            self.mark_pending(path.to_owned());
            true
        }
    }
}

/// The file paths of a queue.
pub open spec fn queue_paths(queue: Seq<SongInfo>) -> Seq<Seq<char>> {
    queue.map_values(|s: SongInfo| s.file_path@)
}

/// The path at index `i` when `i` is within the queue, as a one-item sequence.
pub open spec fn path_if_within(paths: Seq<Seq<char>>, i: int) -> Seq<Seq<char>> {
    if 0 <= i < paths.len() {
        seq![paths[i]]
    } else {
        Seq::empty()
    }
}

/// The paths to prefetch: up to three after the current item, then one before it.
pub open spec fn prefetch_targets(paths: Seq<Seq<char>>, current: Option<usize>) -> Seq<Seq<char>> {
    match current {
        None => Seq::empty(),
        Some(c) => path_if_within(paths, c + 1) + path_if_within(paths, c + 2) + path_if_within(
            paths,
            c + 3,
        ) + path_if_within(paths, c - 1),
    }
}

/// The queue items whose covers should be prefetched around the current one.
pub fn get_prefetch_targets(queue: &[SongInfo], current_index: Option<usize>) -> (r: Vec<String>)
    requires
        current_index matches Some(c) ==> c == 0 || c - 1 < queue@.len(),
    ensures
        r@.map_values(|s: String| s@) == prefetch_targets(queue_paths(queue@), current_index),
{
    let mut targets: Vec<String> = Vec::new();
    let current_idx = match current_index {
        None => {
            assert(targets@.map_values(|s: String| s@) =~= Seq::empty());
            return targets;
        },
        Some(c) => c,
    };
    let ghost paths = queue_paths(queue@);
    let mut i: usize = 1;
    while i <= PREFETCH_AHEAD
        invariant
            1 <= i <= PREFETCH_AHEAD + 1,
            paths == queue_paths(queue@),
            targets@.map_values(|s: String| s@) == if i == 1 {
                Seq::empty()
            } else if i == 2 {
                path_if_within(paths, current_idx + 1)
            } else if i == 3 {
                path_if_within(paths, current_idx + 1) + path_if_within(paths, current_idx + 2)
            } else {
                path_if_within(paths, current_idx + 1) + path_if_within(paths, current_idx + 2)
                    + path_if_within(paths, current_idx + 3)
            },
        decreases PREFETCH_AHEAD + 1 - i,
    {
        let ghost before = targets@.map_values(|s: String| s@);
        let idx = current_idx.saturating_add(i);
        if idx < queue.len() {
            targets.push(queue[idx].file_path.clone());
            assert(targets@.map_values(|s: String| s@) =~= before + path_if_within(
                paths,
                current_idx + i,
            ));
        } else {
            assert(path_if_within(paths, current_idx + i) =~= Seq::empty());
            assert(targets@.map_values(|s: String| s@) =~= before + path_if_within(
                paths,
                current_idx + i,
            ));
        }
        i = i + 1;
    }
    let ghost before = targets@.map_values(|s: String| s@);
    if let Some(idx) = current_idx.checked_sub(PREFETCH_BEHIND) {
        targets.push(queue[idx].file_path.clone());
        assert(targets@.map_values(|s: String| s@) =~= before + path_if_within(
            paths,
            current_idx - 1,
        ));
    } else {
        assert(path_if_within(paths, current_idx - 1) =~= Seq::empty());
        assert(targets@.map_values(|s: String| s@) =~= before + path_if_within(
            paths,
            current_idx - 1,
        ));
    }
    targets
}

/// The index of the first queue item with the current song's file path.
pub fn find_current_index(queue: &[SongInfo], current_song: &Option<SongInfo>) -> (r: Option<
    usize,
>)
    ensures
        current_song is None ==> r is None,
        current_song matches Some(cur) ==> match r {
            Some(i) => i < queue@.len() && queue@[i as int].file_path@ == cur.file_path@
                && forall|j: int| 0 <= j < i ==> queue@[j].file_path@ != cur.file_path@,
            None => forall|j: int| 0 <= j < queue@.len() ==> queue@[j].file_path@ != cur.file_path@,
        },
{
    let current = match current_song {
        Some(c) => c,
        None => return None,
    };
    let mut i: usize = 0;
    while i < queue.len()
        invariant
            i <= queue@.len(),
            current_song == Some(*current),
            forall|j: int| 0 <= j < i ==> queue@[j].file_path@ != current.file_path@,
        decreases queue@.len() - i,
    {
        if queue[i].file_path == current.file_path {
            return Some(i);
        }
        i = i + 1;
    }
    None
}

} // verus!
