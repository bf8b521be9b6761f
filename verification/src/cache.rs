//! A bounded key/value cache with per-entry time-to-live, backing every
//! entity kind the dispatch engine resolves. Entries expire individually,
//! a fixed capacity evicts the oldest entry, and a capacity of zero keeps
//! nothing at all (which downstream code reads as "caches disabled").
//!
//! Time is a plain argument: callers pass the current second, so every
//! statement here holds for whatever clock the shell uses.
use crate::error::{pview, ApplicationError, ApplicationKind, ErrView, PicaError};
use vstd::prelude::*;
use vstd::string::StrSliceExecFns;

verus! {

/// A value that can hand out a structurally identical copy of itself.
pub trait Duplicable: View + Sized {
    fn duplicate(&self) -> (r: Self)
        ensures
            r@ == self@,
    ;
}

/// Mathematical model of a cache: entries as (key, insertion time, value
/// model), capacity and time-to-live.
pub struct CacheModel<A> {
    pub entries: Seq<(Seq<char>, u64, A)>,
    pub capacity: u64,
    pub ttl_secs: u64,
}

/// An entry inserted at `t` is alive at `now` while less than the
/// time-to-live has passed.
pub open spec fn entry_fresh(t: u64, ttl_secs: u64, now: u64) -> bool {
    now < t + ttl_secs
}

/// First entry with the key, or -1.
pub open spec fn entry_index<A>(entries: Seq<(Seq<char>, u64, A)>, k: Seq<char>) -> int
    decreases entries.len(),
{
    if entries.len() == 0 {
        -1
    } else if entries[0].0 == k {
        0
    } else {
        let rest = entry_index(entries.drop_first(), k);
        if rest == -1 {
            -1
        } else {
            rest + 1
        }
    }
}

/// The value a lookup returns: the entry's value when the key is present
/// and still fresh, nothing otherwise.
pub open spec fn model_lookup<A>(m: CacheModel<A>, k: Seq<char>, now: u64) -> Option<A> {
    let i = entry_index(m.entries, k);
    if i >= 0 && entry_fresh(m.entries[i].1, m.ttl_secs, now) {
        Option::Some(m.entries[i].2)
    } else {
        Option::None
    }
}

/// The entries without any entry for the key.
pub open spec fn entries_remove<A>(entries: Seq<(Seq<char>, u64, A)>, k: Seq<char>) -> Seq<
    (Seq<char>, u64, A),
>
    decreases entries.len(),
{
    if entries.len() == 0 {
        Seq::empty()
    } else if entries[0].0 == k {
        entries_remove(entries.drop_first(), k)
    } else {
        seq![entries[0]] + entries_remove(entries.drop_first(), k)
    }
}

/// What an insert does: with zero capacity nothing; otherwise any entry
/// with the key goes, the oldest entry goes when the cache is full, and
/// the new entry comes last.
pub open spec fn model_insert<A>(m: CacheModel<A>, k: Seq<char>, a: A, now: u64) -> CacheModel<
    A,
> {
    if m.capacity == 0 {
        m
    } else {
        let without = entries_remove(m.entries, k);
        let trimmed = if without.len() >= m.capacity {
            without.drop_first()
        } else {
            without
        };
        CacheModel { entries: trimmed.push((k, now, a)), ..m }
    }
}

/// What a removal does.
pub open spec fn model_remove<A>(m: CacheModel<A>, k: Seq<char>) -> CacheModel<A> {
    CacheModel { entries: entries_remove(m.entries, k), ..m }
}

/// Key of the cache that indexes model definitions by their id, as
/// passthrough calls address them.
#[derive(Debug, Clone, Hash, PartialEq, Eq)]
pub struct ConnectionModelDefinitionCacheIdKeyInner {
    pub id: String,
}

/// A bounded cache with per-entry time-to-live.
pub struct TtlCache<V> {
    pub entries: Vec<(String, u64, V)>,
    pub max_capacity: u64,
    pub ttl_secs: u64,
}

pub open spec fn entries_view<V: View>(entries: Seq<(String, u64, V)>) -> Seq<
    (Seq<char>, u64, V::V),
> {
    entries.map_values(|e: (String, u64, V)| (e.0@, e.1, e.2@))
}

impl<V: View> TtlCache<V> {
    /// The cache's model.
    pub open spec fn model(&self) -> CacheModel<V::V> {
        CacheModel {
            entries: entries_view(self.entries@),
            capacity: self.max_capacity,
            ttl_secs: self.ttl_secs,
        }
    }
}

impl<V: Duplicable> TtlCache<V> {
    /// An empty cache with the given bound and time-to-live.
    pub fn new(max_capacity: u64, ttl_secs: u64) -> (r: Self)
        ensures
            r.model().entries == Seq::<(Seq<char>, u64, V::V)>::empty(),
            r.model().capacity == max_capacity,
            r.model().ttl_secs == ttl_secs,
    {
        let r = TtlCache { entries: Vec::new(), max_capacity, ttl_secs };
        proof {
            assert(entries_view(r.entries@) =~= Seq::<(Seq<char>, u64, V::V)>::empty());
        }
        r
    }

    pub fn max_capacity(&self) -> (r: u64)
        ensures
            r == self.model().capacity,
    {
        self.max_capacity
    }

    /// The fresh value under the key, if the cache holds one.
    pub fn get(&self, k: &str, now: u64) -> (r: Option<&V>)
        ensures
            match r {
                Option::Some(v) => model_lookup(self.model(), k@, now) == Option::Some(v@),
                Option::None => model_lookup(self.model(), k@, now) is None,
            },
    {
        let ghost ev = entries_view(self.entries@);
        let mut i: usize = 0;
        while i < self.entries.len()
            invariant
                i <= self.entries@.len(),
                ev == entries_view(self.entries@),
                entry_index(ev.take(i as int), k@) == -1,
            decreases self.entries@.len() - i,
        {
            proof {
                assert(ev[i as int] == (self.entries@[i as int].0@, self.entries@[i as int].1,
                self.entries@[i as int].2@));
                lemma_entry_index_take(ev, k@, i + 1);
            }
            let hit = {
                let e = &self.entries[i];
                let key_eq = {
                    let s: &str = e.0.as_str();
                    str_eq(s, k)
                };
                key_eq
            };
            if hit {
                proof {
                    lemma_entry_index_prefix(ev, k@, i + 1);
                }
                let e = &self.entries[i];
                let alive = match e.1.checked_add(self.ttl_secs) {
                    Option::Some(d) => now < d,
                    Option::None => true,
                };
                if alive {
                    return Option::Some(&e.2);
                } else {
                    return Option::None;
                }
            }
            i = i + 1;
        }
        proof {
            assert(ev.take(ev.len() as int) =~= ev);
        }
        Option::None
    }

    /// Binds the key to the value, as [`model_insert`] says.
    pub fn insert(&mut self, k: String, v: V, now: u64)
        ensures
            final(self).model() == model_insert(old(self).model(), k@, v@, now),
    {
        if self.max_capacity == 0 {
            return ;
        }
        let ghost ev = entries_view(self.entries@);
        let mut kept: Vec<(String, u64, V)> = Vec::new();
        let mut i: usize = 0;
        while i < self.entries.len()
            invariant
                i <= self.entries@.len(),
                self.entries@ == old(self).entries@,
                self.max_capacity == old(self).max_capacity,
                self.ttl_secs == old(self).ttl_secs,
                self.max_capacity > 0,
                ev == entries_view(self.entries@),
                entries_view(kept@) == entries_remove(ev.take(i as int), k@),
            decreases self.entries@.len() - i,
        {
            proof {
                assert(ev[i as int] == (self.entries@[i as int].0@, self.entries@[i as int].1,
                self.entries@[i as int].2@));
                lemma_entries_remove_take(ev, k@, i + 1);
            }
            let e = &self.entries[i];
            if !str_eq(e.0.as_str(), k.as_str()) {
                kept.push((e.0.clone(), e.1, e.2.duplicate()));
            }
            i = i + 1;
            proof {
                assert(entries_view(kept@) =~~= entries_remove(ev.take(i as int), k@));
            }
        }
        proof {
            assert(ev.take(ev.len() as int) =~= ev);
        }
        if kept.len() as u64 >= self.max_capacity {
            let _ = kept.remove(0);
            proof {
                assert(entries_view(kept@) =~~= entries_remove(ev, k@).drop_first());
            }
        }
        kept.push((k, now, v));
        self.entries = kept;
        proof {
            assert(entries_view(self.entries@) =~~= model_insert(
                old(self).model(),
                k@,
                v@,
                now,
            ).entries);
        }
    }

    /// Drops the key.
    pub fn remove(&mut self, k: &str)
        ensures
            final(self).model() == model_remove(old(self).model(), k@),
    {
        let ghost ev = entries_view(self.entries@);
        let mut kept: Vec<(String, u64, V)> = Vec::new();
        let mut i: usize = 0;
        while i < self.entries.len()
            invariant
                i <= self.entries@.len(),
                self.entries@ == old(self).entries@,
                self.max_capacity == old(self).max_capacity,
                self.ttl_secs == old(self).ttl_secs,
                ev == entries_view(self.entries@),
                entries_view(kept@) == entries_remove(ev.take(i as int), k@),
            decreases self.entries@.len() - i,
        {
            proof {
                assert(ev[i as int] == (self.entries@[i as int].0@, self.entries@[i as int].1,
                self.entries@[i as int].2@));
                lemma_entries_remove_take(ev, k@, i + 1);
            }
            let e = &self.entries[i];
            if !str_eq(e.0.as_str(), k) {
                kept.push((e.0.clone(), e.1, e.2.duplicate()));
            }
            i = i + 1;
            proof {
                assert(entries_view(kept@) =~~= entries_remove(ev.take(i as int), k@));
            }
        }
        proof {
            assert(ev.take(ev.len() as int) =~= ev);
        }
        self.entries = kept;
    }
}

/// Whether two strings hold the same characters.
pub fn str_eq(a: &str, b: &str) -> (r: bool)
    ensures
        r == (a@ == b@),
{
    let na = a.unicode_len();
    let nb = b.unicode_len();
    if na != nb {
        return false;
    }
    let mut i: usize = 0;
    while i < na
        invariant
            i <= na,
            na == a@.len(),
            na == b@.len(),
            forall|j: int| 0 <= j < i ==> a@[j] == b@[j],
        decreases na - i,
    {
        if a.get_char(i) != b.get_char(i) {
            return false;
        }
        i = i + 1;
    }
    proof {
        assert(a@ =~= b@);
    }
    true
}

proof fn lemma_entry_index_bounds<A>(entries: Seq<(Seq<char>, u64, A)>, k: Seq<char>)
    ensures
        entry_index(entries, k) >= -1,
    decreases entries.len(),
{
    if entries.len() > 0 {
        lemma_entry_index_bounds(entries.drop_first(), k);
    }
}

proof fn lemma_entry_index_take<A>(entries: Seq<(Seq<char>, u64, A)>, k: Seq<char>, i: int)
    requires
        0 < i <= entries.len(),
        entry_index(entries.take(i - 1), k) == -1,
    ensures
        entries[i - 1].0 == k ==> entry_index(entries.take(i), k) == i - 1,
        entries[i - 1].0 != k ==> entry_index(entries.take(i), k) == -1,
    decreases i,
{
    if i == 1 {
        assert(entries.take(1).drop_first() =~= Seq::<(Seq<char>, u64, A)>::empty());
        assert(entries.take(1)[0] == entries[0]);
        assert(entry_index(Seq::<(Seq<char>, u64, A)>::empty(), k) == -1);
    } else {
        assert(entries.take(i)[0] == entries[0]);
        assert(entries.take(i - 1)[0] == entries[0]);
        if entries[0].0 == k {
        } else {
            assert(entries.take(i).drop_first() =~= entries.drop_first().take(i - 1));
            assert(entries.take(i - 1).drop_first() =~= entries.drop_first().take(i - 2));
            assert(entries.drop_first()[i - 2] == entries[i - 1]);
            lemma_entry_index_bounds(entries.drop_first().take(i - 2), k);
            lemma_entry_index_take(entries.drop_first(), k, i - 1);
        }
    }
}

proof fn lemma_entry_index_prefix<A>(entries: Seq<(Seq<char>, u64, A)>, k: Seq<char>, i: int)
    requires
        0 < i <= entries.len(),
        entry_index(entries.take(i), k) == i - 1,
    ensures
        entry_index(entries, k) == i - 1,
        entries[i - 1].0 == k,
    decreases i,
{
    assert(entries.take(i)[0] == entries[0]);
    if i == 1 {
        assert(entries.take(1).drop_first() =~= Seq::<(Seq<char>, u64, A)>::empty());
        assert(entry_index(Seq::<(Seq<char>, u64, A)>::empty(), k) == -1);
    } else {
        if entries[0].0 == k {
        } else {
            assert(entries.take(i).drop_first() =~= entries.drop_first().take(i - 1));
            assert(entries.drop_first()[i - 2] == entries[i - 1]);
            lemma_entry_index_prefix(entries.drop_first(), k, i - 1);
        }
    }
    assert(entries.take(i)[i - 1] == entries[i - 1]);
}

proof fn lemma_entries_remove_take<A>(entries: Seq<(Seq<char>, u64, A)>, k: Seq<char>, i: int)
    requires
        0 < i <= entries.len(),
    ensures
        entries_remove(entries.take(i), k) == entries_remove(entries.take(i - 1), k) + (if entries[
            i - 1].0 == k {
            Seq::<(Seq<char>, u64, A)>::empty()
        } else {
            seq![entries[i - 1]]
        }),
    decreases i,
{
    if i == 1 {
        assert(entries.take(0) =~= Seq::<(Seq<char>, u64, A)>::empty());
        assert(entries.take(1).drop_first() =~= Seq::<(Seq<char>, u64, A)>::empty());
        assert(entries.take(1)[0] == entries[0]);
        assert(entries_remove(Seq::<(Seq<char>, u64, A)>::empty(), k) == Seq::<
            (Seq<char>, u64, A),
        >::empty());
        assert(entries_remove(entries.take(1), k) =~~= entries_remove(entries.take(0), k) + (
        if entries[0].0 == k {
            Seq::<(Seq<char>, u64, A)>::empty()
        } else {
            seq![entries[0]]
        }));
    } else {
        lemma_entries_remove_take(entries.drop_first(), k, i - 1);
        assert(entries.take(i).drop_first() =~= entries.drop_first().take(i - 1));
        assert(entries.take(i - 1).drop_first() =~= entries.drop_first().take(i - 2));
        assert(entries.take(i)[0] == entries[0]);
        assert(entries.take(i - 1)[0] == entries[0]);
        assert(entries.drop_first()[i - 2] == entries[i - 1]);
        assert(entries_remove(entries.take(i), k) =~~= entries_remove(entries.take(i - 1), k) + (
        if entries[i - 1].0 == k {
            Seq::<(Seq<char>, u64, A)>::empty()
        } else {
            seq![entries[i - 1]]
        }));
    }
}

impl<V: Duplicable> TtlCache<V> {
    /// Returns the cached value for the key, or runs the producer once,
    /// caches its result on success, and returns it.
    pub fn get_or_insert_with<F: FnOnce() -> Result<V, PicaError>>(
        &mut self,
        k: &str,
        now: u64,
        f: F,
    ) -> (r: Result<V, PicaError>)
        requires
            f.requires(()),
        ensures
            match model_lookup(old(self).model(), k@, now) {
                Option::Some(a) => final(self).model() == old(self).model() && (match r {
                    Result::Ok(v) => v@ == a,
                    Result::Err(_) => false,
                }),
                Option::None => match r {
                    Result::Ok(v) => f.ensures((), Result::Ok(v)) && final(self).model()
                        == model_insert(old(self).model(), k@, v@, now),
                    Result::Err(e) => f.ensures((), Result::Err(e)) && final(self).model() == old(self).model(),
                },
            },
    {
        let hit: Option<V> = match self.get(k, now) {
            Option::Some(v) => Option::Some(v.duplicate()),
            Option::None => Option::None,
        };
        match hit {
            Option::Some(v) => Result::Ok(v),
            Option::None => match f() {
                Result::Ok(v) => {
                    let copy = v.duplicate();
                    self.insert(k.to_owned(), copy, now);
                    Result::Ok(v)
                },
                Result::Err(e) => Result::Err(e),
            },
        }
    }

    /// Returns the cached value for the key, or consults the store once:
    /// a found record is cached and returned, a missing record is a
    /// not-found application error, and a store failure passes through.
    pub fn get_or_insert_with_filter<F: FnOnce() -> Result<Option<V>, PicaError>>(
        &mut self,
        k: &str,
        now: u64,
        f: F,
    ) -> (r: Result<V, PicaError>)
        requires
            f.requires(()),
        ensures
            match model_lookup(old(self).model(), k@, now) {
                Option::Some(a) => final(self).model() == old(self).model() && (match r {
                    Result::Ok(v) => v@ == a,
                    Result::Err(_) => false,
                }),
                Option::None => match r {
                    Result::Ok(v) => f.ensures((), Result::Ok(Option::Some(v))) && final(self).model() == model_insert(old(self).model(), k@, v@, now),
                    Result::Err(e) => final(self).model() == old(self).model() && (f.ensures(
                        (),
                        Result::Ok(Option::None),
                    ) && pview(e) == (ErrView::App {
                        kind: ApplicationKind::NotFound,
                        message: "Value not found"@,
                        subtype: Option::None,
                        meta: Option::None,
                    }) || f.ensures((), Result::Err(e))),
                },
            },
    {
        let hit: Option<V> = match self.get(k, now) {
            Option::Some(v) => Option::Some(v.duplicate()),
            Option::None => Option::None,
        };
        match hit {
            Option::Some(v) => Result::Ok(v),
            Option::None => match f() {
                Result::Ok(Option::Some(v)) => {
                    let copy = v.duplicate();
                    self.insert(k.to_owned(), copy, now);
                    Result::Ok(v)
                },
                Result::Ok(Option::None) => Result::Err(
                    ApplicationError::not_found("Value not found", Option::None),
                ),
                Result::Err(e) => Result::Err(e),
            },
        }
    }
}

proof fn lemma_entries_remove_lacks<A>(entries: Seq<(Seq<char>, u64, A)>, k: Seq<char>)
    ensures
        forall|i: int|
            0 <= i < entries_remove(entries, k).len() ==> (#[trigger] entries_remove(entries, k)[i]).0
                != k,
    decreases entries.len(),
{
    if entries.len() > 0 {
        lemma_entries_remove_lacks(entries.drop_first(), k);
        let r = entries_remove(entries, k);
        assert forall|i: int| 0 <= i < r.len() implies (#[trigger] r[i]).0 != k by {
            if entries[0].0 == k {
                assert(r[i] == entries_remove(entries.drop_first(), k)[i]);
            } else if i == 0 {
                assert(r[0] == entries[0]);
            } else {
                assert(r[i] == entries_remove(entries.drop_first(), k)[i - 1]);
            }
        }
    }
}

proof fn lemma_entry_index_push_lacking<A>(
    entries: Seq<(Seq<char>, u64, A)>,
    e: (Seq<char>, u64, A),
    k: Seq<char>,
)
    requires
        forall|i: int| 0 <= i < entries.len() ==> (#[trigger] entries[i]).0 != k,
        e.0 == k,
    ensures
        entry_index(entries.push(e), k) == entries.len(),
    decreases entries.len(),
{
    if entries.len() == 0 {
        assert(entries.push(e)[0] == e);
    } else {
        assert(entries.push(e)[0] == entries[0]);
        assert(entries.push(e).drop_first() =~= entries.drop_first().push(e));
        assert forall|i: int| 0 <= i < entries.drop_first().len() implies (
        #[trigger] entries.drop_first()[i]).0 != k by {
            assert(entries.drop_first()[i] == entries[i + 1]);
        }
        lemma_entry_index_push_lacking(entries.drop_first(), e, k);
    }
}

/// Caching lets each producer run at most once per time-to-live window:
/// once a missed lookup has inserted the produced value, every lookup of
/// the same key within the window returns exactly that value, so a second
/// get-or-insert finds it, leaves the cache unchanged, and never runs its
/// producer again before the window closes.
pub proof fn lemma_cache_single_flight<A>(
    m: CacheModel<A>,
    k: Seq<char>,
    a: A,
    now1: u64,
    now2: u64,
)
    requires
        m.capacity > 0,
        now1 <= now2,
        now2 < now1 + m.ttl_secs,
    ensures
        model_lookup(model_insert(m, k, a, now1), k, now2) == Option::Some(a),
{
    let without = entries_remove(m.entries, k);
    lemma_entries_remove_lacks(m.entries, k);
    let trimmed = if without.len() >= m.capacity {
        without.drop_first()
    } else {
        without
    };
    assert forall|i: int| 0 <= i < trimmed.len() implies (#[trigger] trimmed[i]).0 != k by {
        if without.len() >= m.capacity {
            assert(trimmed[i] == without[i + 1]);
        } else {
            assert(trimmed[i] == without[i]);
        }
    }
    lemma_entry_index_push_lacking(trimmed, (k, now1, a), k);
    let entries2 = trimmed.push((k, now1, a));
    assert(entries2[trimmed.len() as int] == (k, now1, a));
}

} // verus!
