//! Short-lived memory of completed task identifiers, so that a task delivered
//! again shortly after its completion is dropped instead of proved twice.
//! Instants are milliseconds on the caller's clock.

use crate::cli_consts::queues::{CACHE_EXPIRATION_SECS, MAX_COMPLETED_TASKS};
use crate::interval::MILLIS_PER_SEC;
use vstd::prelude::*;

verus! {

broadcast use vstd::seq_lib::group_seq_properties;

/// Milliseconds for which a completed identifier is remembered.
pub const CACHE_EXPIRATION_MS: u64 = CACHE_EXPIRATION_SECS * MILLIS_PER_SEC;

/// A remembered identifier and the instant it was marked completed.
pub type CacheEntry = (Seq<char>, u64);

/// Whether an entry is still remembered at `now`: it is younger than the
/// expiration time.
pub open spec fn fresh_at(now: int) -> spec_fn(CacheEntry) -> bool {
    |e: CacheEntry| now - e.1 < CACHE_EXPIRATION_MS
}

/// Whether an entry is fresh at `now` and is for another identifier than `id`.
pub open spec fn fresh_other(now: int, id: Seq<char>) -> spec_fn(CacheEntry) -> bool {
    |e: CacheEntry| now - e.1 < CACHE_EXPIRATION_MS && e.0 != id
}

/// No identifier occurs twice.
pub open spec fn ids_distinct(s: Seq<CacheEntry>) -> bool {
    forall|i: int, j: int| 0 <= i < j < s.len() ==> #[trigger] s[i].0 != #[trigger] s[j].0
}

/// Whether `id` occurs in `s`.
pub open spec fn holds_id(s: Seq<CacheEntry>, id: Seq<char>) -> bool {
    exists|i: int| 0 <= i < s.len() && #[trigger] s[i].0 == id
}

/// The entries after marking `id` completed at `now`, given those before:
/// expired entries and an earlier entry for `id` go, then the oldest entry
/// goes if the cache is full, then `id` is appended.
pub open spec fn after_mark(s: Seq<CacheEntry>, id: Seq<char>, now: u64) -> Seq<CacheEntry> {
    let kept = s.filter(fresh_other(now as int, id));
    let room = if kept.len() >= MAX_COMPLETED_TASKS {
        kept.drop_first()
    } else {
        kept
    };
    room.push((id, now))
}

/// Filtering keeps identifiers distinct.
proof fn lemma_filter_keeps_distinct(s: Seq<CacheEntry>, p: spec_fn(CacheEntry) -> bool)
    requires
        ids_distinct(s),
    ensures
        ids_distinct(s.filter(p)),
    decreases s.len(),
{
    reveal(Seq::filter);
    if s.len() > 0 {
        let rest = s.drop_last();
        assert(ids_distinct(rest));
        lemma_filter_keeps_distinct(rest, p);
        let fr = rest.filter(p);
        if p(s.last()) {
            assert forall|i: int| 0 <= i < fr.len() implies #[trigger] fr[i].0 != s.last().0 by {
                assert(fr.contains(fr[i]));
                rest.lemma_filter_contains_rev(p, fr[i]);
                let k = choose|k: int| 0 <= k < rest.len() && rest[k] == fr[i];
                assert(s[k] == rest[k]);
            }
            let out = fr.push(s.last());
            assert forall|i: int, j: int| 0 <= i < j < out.len() implies #[trigger] out[i].0
                != #[trigger] out[j].0 by {
                if j == fr.len() {
                    assert(out[i] == fr[i]);
                }
            }
        }
    }
}

/// Filtering by a predicate that every element meets keeps the sequence.
proof fn lemma_filter_all(s: Seq<CacheEntry>, p: spec_fn(CacheEntry) -> bool)
    requires
        forall|i: int| 0 <= i < s.len() ==> p(#[trigger] s[i]),
    ensures
        s.filter(p) == s,
    decreases s.len(),
{
    reveal(Seq::filter);
    if s.len() > 0 {
        lemma_filter_all(s.drop_last(), p);
        assert(s.drop_last().push(s.last()) =~= s);
    }
}

/// The entries after a mark hold `id` once, as their last entry, and hold
/// distinct identifiers.
proof fn lemma_mark_shape(s: Seq<CacheEntry>, id: Seq<char>, now: u64)
    requires
        ids_distinct(s),
    ensures
        ({
            let m = after_mark(s, id, now);
            &&& m.last() == (id, now)
            &&& forall|k: int| 0 <= k < m.len() - 1 ==> #[trigger] m[k].0 != id
            &&& ids_distinct(m)
        }),
{
    let pred = fresh_other(now as int, id);
    let kept = s.filter(pred);
    let m = after_mark(s, id, now);
    assert forall|k: int| 0 <= k < m.len() - 1 implies #[trigger] m[k].0 != id by {
        if kept.len() >= MAX_COMPLETED_TASKS {
            assert(m[k] == kept[k + 1]);
            s.lemma_filter_pred(pred, k + 1);
        } else {
            s.lemma_filter_pred(pred, k);
        }
    }
    lemma_filter_keeps_distinct(s, pred);
    assert forall|i: int, j: int| 0 <= i < j < m.len() implies #[trigger] m[i].0
        != #[trigger] m[j].0 by {
        if j < m.len() - 1 {
            if kept.len() >= MAX_COMPLETED_TASKS {
                assert(m[i] == kept[i + 1] && m[j] == kept[j + 1]);
            } else {
                assert(m[i] == kept[i] && m[j] == kept[j]);
            }
        }
    }
}

/// A task marked completed at `now` is reported as a duplicate by a lookup
/// at any instant before its expiration, and no longer from the instant it
/// expires on.
pub proof fn lemma_marked_until_expired(s: Seq<CacheEntry>, id: Seq<char>, now: u64, later: int)
    requires
        ids_distinct(s),
        now <= later,
    ensures
        holds_id(after_mark(s, id, now).filter(fresh_at(later)), id) <==> later - now
            < CACHE_EXPIRATION_MS,
{
    let m = after_mark(s, id, now);
    let pred = fresh_at(later);
    let f = m.filter(pred);
    lemma_mark_shape(s, id, now);
    if later - now < CACHE_EXPIRATION_MS {
        m.lemma_filter_contains(pred, m.len() - 1);
        let k = choose|k: int| 0 <= k < f.len() && f[k] == m[m.len() - 1];
        assert(f[k].0 == id);
    } else {
        assert forall|k: int| 0 <= k < f.len() implies #[trigger] f[k].0 != id by {
            m.lemma_filter_pred(pred, k);
            assert(f.contains(f[k]));
            m.lemma_filter_contains_rev(pred, f[k]);
        }
    }
}

/// Marking a new identifier in a full cache whose entries are all fresh
/// keeps it full: the oldest entry goes and the new one is appended.
pub proof fn lemma_full_cache_evicts_oldest(s: Seq<CacheEntry>, id: Seq<char>, now: u64)
    requires
        ids_distinct(s),
        s.len() == MAX_COMPLETED_TASKS,
        forall|i: int| 0 <= i < s.len() ==> now - (#[trigger] s[i]).1 < CACHE_EXPIRATION_MS,
        !holds_id(s, id),
    ensures
        after_mark(s, id, now) == s.drop_first().push((id, now)),
        after_mark(s, id, now).len() == MAX_COMPLETED_TASKS,
        !holds_id(after_mark(s, id, now), s[0].0),
{
    let pred = fresh_other(now as int, id);
    assert forall|i: int| 0 <= i < s.len() implies pred(#[trigger] s[i]) by {
        assert(s[i].0 != id);
    }
    lemma_filter_all(s, pred);
    let m = after_mark(s, id, now);
    assert forall|k: int| 0 <= k < m.len() implies #[trigger] m[k].0 != s[0].0 by {
        if k < m.len() - 1 {
            assert(m[k] == s[k + 1]);
        } else {
            assert(s[0].0 != id);
        }
    }
}

struct Entry {
    id: String,
    inserted_at: u64,
}

/// Identifiers of recently completed tasks, oldest first, each with the
/// instant it was marked.
pub struct DuplicateCache {
    entries: Vec<Entry>,
}

impl DuplicateCache {
    /// The remembered entries, oldest first.
    pub closed spec fn contents(&self) -> Seq<CacheEntry> {
        self.entries@.map_values(|e: Entry| (e.id@, e.inserted_at))
    }

    /// At most `MAX_COMPLETED_TASKS` entries, no identifier twice.
    pub open spec fn wf(&self) -> bool {
        &&& self.contents().len() <= MAX_COMPLETED_TASKS
        &&& ids_distinct(self.contents())
    }

    /// An empty cache.
    pub fn new() -> (r: DuplicateCache)
        ensures
            r.wf(),
            r.contents() == Seq::<CacheEntry>::empty(),
    {
        let r = DuplicateCache { entries: Vec::new() };
        assert(r.contents() =~= Seq::<CacheEntry>::empty());
        r
    }

    /// Number of entries held, expired ones included until the next purge.
    pub fn len(&self) -> (r: usize)
        ensures
            r == self.contents().len(),
    {
        self.entries.len()
    }

    /// Keeps only the entries that are fresh at `now`, leaving out those for
    /// `other` as well, if given.
    fn retain_fresh(&mut self, now: u64, other: Option<&String>)
        requires
            old(self).wf(),
        ensures
            final(self).wf(),
            final(self).contents() == match other {
                Some(id) => old(self).contents().filter(fresh_other(now as int, id@)),
                None => old(self).contents().filter(fresh_at(now as int)),
            },
    {
        let ghost pred = match other {
            Some(id) => fresh_other(now as int, id@),
            None => fresh_at(now as int),
        };
        let ghost s = self.contents();
        let mut kept: Vec<Entry> = Vec::new();
        let mut old_entries: Vec<Entry> = Vec::new();
        std::mem::swap(&mut old_entries, &mut self.entries);
        let ghost olds = old_entries@;
        assert(olds.map_values(|e: Entry| (e.id@, e.inserted_at)) == s);
        let mut i: usize = 0;
        while i < old_entries.len()
            invariant
                0 <= i <= olds.len(),
                old_entries@ == olds,
                s == olds.map_values(|e: Entry| (e.id@, e.inserted_at)),
                kept@.map_values(|e: Entry| (e.id@, e.inserted_at)) == s.take(i as int).filter(
                    pred,
                ),
                pred == match other {
                    Some(id) => fresh_other(now as int, id@),
                    None => fresh_at(now as int),
                },
            decreases olds.len() - i,
        {
            let e: &Entry = &old_entries[i];
            let fresh: bool = now <= e.inserted_at || now - e.inserted_at < CACHE_EXPIRATION_MS;
            let keep: bool = match other {
                Some(id) => fresh && e.id != *id,
                None => fresh,
            };
            proof {
                assert(s.take(i as int + 1).drop_last() =~= s.take(i as int));
                assert(s.take(i as int + 1).last() == (e.id@, e.inserted_at));
                reveal(Seq::filter);
            }
            let ghost before = kept@;
            if keep {
                kept.push(Entry { id: e.id.clone(), inserted_at: e.inserted_at });
                assert(kept@.map_values(|e: Entry| (e.id@, e.inserted_at)) =~= before.map_values(
                    |e: Entry| (e.id@, e.inserted_at),
                ).push(s[i as int]));
            }
            i = i + 1;
        }
        assert(s.take(i as int) =~= s);
        self.entries = kept;
        proof {
            lemma_filter_keeps_distinct(s, pred);
        }
    }

    /// Forgets the entries that have expired by `now`, then tells whether
    /// `id` is still remembered.
    pub fn is_duplicate(&mut self, id: &str, now: u64) -> (r: bool)
        requires
            old(self).wf(),
        ensures
            final(self).wf(),
            final(self).contents() == old(self).contents().filter(fresh_at(now as int)),
            r == holds_id(final(self).contents(), id@),
    {
        self.retain_fresh(now, None);
        let key: String = id.to_owned();
        self.holds(&key)
    }

    /// Whether an entry for `key` is held.
    fn holds(&self, key: &String) -> (r: bool)
        ensures
            r == holds_id(self.contents(), key@),
    {
        let mut i: usize = 0;
        while i < self.entries.len()
            invariant
                0 <= i <= self.contents().len(),
                self.entries@.len() == self.contents().len(),
                forall|k: int| 0 <= k < i ==> #[trigger] self.contents()[k].0 != key@,
            decreases self.entries@.len() - i,
        {
            assert(self.contents()[i as int].0 == self.entries@[i as int].id@);
            if self.entries[i].id == *key {
                return true;
            }
            i = i + 1;
        }
        false
    }

    /// Remembers `id` as completed at `now`. Expired entries and an earlier
    /// entry for `id` are dropped first; if the cache is still full, its
    /// oldest entry is evicted, whatever its age.
    pub fn mark_completed(&mut self, id: &str, now: u64)
        requires
            old(self).wf(),
        ensures
            final(self).wf(),
            final(self).contents() == after_mark(old(self).contents(), id@, now),
    {
        let key: String = id.to_owned();
        self.retain_fresh(now, Some(&key));
        let ghost kept = self.contents();
        if self.entries.len() >= MAX_COMPLETED_TASKS {
            self.entries.remove(0);
            assert(self.contents() =~= kept.drop_first());
        }
        let ghost room = self.contents();
        proof {
            let pred = fresh_other(now as int, id@);
            assert forall|k: int| 0 <= k < room.len() implies #[trigger] room[k].0 != id@ by {
                let orig = old(self).contents();
                if kept.len() >= MAX_COMPLETED_TASKS {
                    assert(room[k] == kept[k + 1]);
                    assert(kept.contains(kept[k + 1]));
                    orig.lemma_filter_pred(pred, k + 1);
                } else {
                    orig.lemma_filter_pred(pred, k);
                }
            }
        }
        self.entries.push(Entry { id: key, inserted_at: now });
        assert(self.contents() =~= room.push((id@, now)));
    }
}

} // verus!
