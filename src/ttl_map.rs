//! A time-bounded key-value map: each entry carries an absolute expiry fixed at
//! insertion, and an expired entry reads as absent whether or not it was swept.

use vstd::prelude::*;

verus! {

/// A key that can be compared by its view.
pub trait CacheKey: View + Sized {
    fn same_key(&self, other: &Self) -> (r: bool)
        ensures
            r == (self@ == other@),
    ;
}

impl CacheKey for u64 {
    fn same_key(&self, other: &Self) -> (r: bool) {
        *self == *other
    }
}

impl CacheKey for String {
    fn same_key(&self, other: &Self) -> (r: bool) {
        *self == *other
    }
}

/// The instant at which an entry inserted at `now` expires.
pub open spec fn expiry(now: u64, ttl: u64) -> u64 {
    if now as int + ttl as int > u64::MAX as int {
        u64::MAX
    } else {
        (now + ttl) as u64
    }
}

pub struct TtlEntry<K, V> {
    key: K,
    value: V,
    expires_at: u64,
}

pub struct TtlMap<K: View, V> {
    entries: Vec<TtlEntry<K, V>>,
    ttl: u64,
    model: Ghost<Map<K::V, (V, u64)>>,
}

impl<K: CacheKey, V> View for TtlMap<K, V> {
    /// Each stored key with its value and expiry instant, live or not.
    type V = Map<K::V, (V, u64)>;

    closed spec fn view(&self) -> Map<K::V, (V, u64)> {
        self.model@
    }
}

impl<K: CacheKey, V> TtlMap<K, V> {
    /// The time-to-live applied to each insertion.
    pub closed spec fn ttl_spec(&self) -> u64 {
        self.ttl
    }

    /// Entries hold distinct keys and agree with the model.
    pub closed spec fn wf(&self) -> bool {
        &&& forall|i: int, j: int|
            0 <= i < j < self.entries@.len() ==> self.entries@[i].key@ != self.entries@[j].key@
        &&& forall|i: int|
            0 <= i < self.entries@.len() ==> {
                let e = #[trigger] self.entries@[i];
                self.model@.contains_key(e.key@) && self.model@[e.key@] == (e.value, e.expires_at)
            }
        &&& forall|k: K::V|
            #[trigger] self.model@.contains_key(k) ==> exists|i: int|
                0 <= i < self.entries@.len() && #[trigger] self.entries@[i].key@ == k
    }

    /// The value stored under `k` if its entry is still live at `now`.
    pub open spec fn live_value(&self, k: K::V, now: u64) -> Option<V> {
        if self@.contains_key(k) && now < self@[k].1 {
            Some(self@[k].0)
        } else {
            None
        }
    }

    /// An empty map whose entries live `ttl` time units.
    pub fn new(ttl: u64) -> (r: Self)
        ensures
            r.wf(),
            r@ == Map::<K::V, (V, u64)>::empty(),
            r.ttl_spec() == ttl,
    {
        TtlMap { entries: Vec::new(), ttl, model: Ghost(Map::empty()) }
    }

    /// The time-to-live applied to each insertion.
    pub fn ttl(&self) -> (r: u64)
        ensures
            r == self.ttl_spec(),
    {
        self.ttl
    }

    fn find(&self, key: &K) -> (r: Option<usize>)
        requires
            self.wf(),
        ensures
            match r {
                Some(i) => i < self.entries@.len() && self.entries@[i as int].key@ == key@,
                None => !self@.contains_key(key@),
            },
    {
        let mut i: usize = 0;
        while i < self.entries.len()
            invariant
                self.wf(),
                i <= self.entries@.len(),
                forall|j: int| 0 <= j < i ==> self.entries@[j].key@ != key@,
            decreases self.entries@.len() - i,
        {
            if self.entries[i].key.same_key(key) {
                return Some(i);
            }
            i = i + 1;
        }
        None
    }

    /// The value stored under `key`, if its entry has not expired at `now`.
    pub fn get(&self, key: &K, now: u64) -> (r: Option<&V>)
        requires
            self.wf(),
        ensures
            (match r {
                Some(v) => self.live_value(key@, now) == Some(*v),
                None => self.live_value(key@, now) is None,
            }),
    {
        match self.find(key) {
            Some(i) => {
                let e = &self.entries[i];
                if now < e.expires_at {
                    Some(&e.value)
                } else {
                    None
                }
            },
            None => None,
        }
    }

    /// Stores `value` under `key`, replacing any earlier entry, to expire `ttl` after `now`.
    pub fn insert(&mut self, key: K, value: V, now: u64)
        requires
            old(self).wf(),
        ensures
            final(self).wf(),
            final(self).ttl_spec() == old(self).ttl_spec(),
            final(self)@ == old(self)@.insert(key@, (value, expiry(now, old(self).ttl_spec()))),
    {
        let expires_at = now.saturating_add(self.ttl);
        let ghost k = key@;
        let ghost entry_model = (value, expires_at);
        let idx: usize = match self.find(&key) {
            Some(i) => {
                self.entries.set(i, TtlEntry { key, value, expires_at });
                i
            },
            None => {
                self.entries.push(TtlEntry { key, value, expires_at });
                self.entries.len() - 1
            },
        };
        self.model = Ghost(self.model@.insert(k, entry_model));
        proof {
            assert forall|k2: K::V| #[trigger] self.model@.contains_key(k2) implies exists|i: int|
                0 <= i < self.entries@.len() && #[trigger] self.entries@[i].key@ == k2 by {
                if k2 != k {
                    let i = choose|i: int|
                        0 <= i < old(self).entries@.len() && #[trigger] old(self).entries@[i].key@
                            == k2;
                    assert(self.entries@[i].key@ == k2);
                } else {
                    assert(self.entries@[idx as int].key@ == k);
                }
            }
        }
    }

    /// Drops the entry stored under `key`, if any.
    pub fn remove(&mut self, key: &K)
        requires
            old(self).wf(),
        ensures
            final(self).wf(),
            final(self).ttl_spec() == old(self).ttl_spec(),
            final(self)@ == old(self)@.remove(key@),
    {
        match self.find(key) {
            Some(i) => {
                let ghost before = self.entries@;
                self.entries.remove(i);
                self.model = Ghost(self.model@.remove(key@));
                proof {
                    assert forall|j: int|
                        0 <= j < self.entries@.len() implies #[trigger] self.entries@[j]
                        == (if j < i { before[j] } else { before[j + 1] }) by {}
                    assert forall|k2: K::V| #[trigger] self.model@.contains_key(k2) implies exists|
                        j: int,
                    |
                        0 <= j < self.entries@.len() && #[trigger] self.entries@[j].key@ == k2 by {
                        let j = choose|j: int|
                            0 <= j < before.len() && #[trigger] before[j].key@ == k2;
                        if j < i {
                            assert(self.entries@[j].key@ == k2);
                        } else {
                            assert(self.entries@[j - 1].key@ == k2);
                        }
                    }
                }
            },
            None => {
                assert(self.model@.remove(key@) =~= self.model@);
            },
        }
    }

    /// Drops every entry that has expired at `now`; live entries are kept as they are.
    pub fn purge_expired(&mut self, now: u64)
        requires
            old(self).wf(),
        ensures
            final(self).wf(),
            final(self).ttl_spec() == old(self).ttl_spec(),
            final(self)@ == old(self)@.restrict(
                old(self)@.dom().filter(|k: K::V| now < old(self)@[k].1),
            ),
    {
        let ghost target = old(self)@.restrict(old(self)@.dom().filter(|k: K::V| now < old(self)@[k].1));
        let ghost orig = old(self)@;
        let mut i: usize = 0;
        while i < self.entries.len()
            invariant
                self.wf(),
                self.ttl == old(self).ttl,
                i <= self.entries@.len(),
                forall|j: int| 0 <= j < i ==> now < #[trigger] self.entries@[j].expires_at,
                forall|k: K::V| #[trigger] self.model@.contains_key(k) ==> orig.contains_key(k) && orig[k] == self.model@[k],
                forall|k: K::V| #[trigger] orig.contains_key(k) && now < orig[k].1 ==> self.model@.contains_key(k),
            decreases self.entries@.len() - i,
        {
            if self.entries[i].expires_at <= now {
                let ghost before = self.entries@;
                let ghost key = before[i as int].key@;
                let ghost before_model = self.model@;
                self.entries.remove(i);
                self.model = Ghost(self.model@.remove(key));
                proof {
                    assert forall|j: int|
                        0 <= j < self.entries@.len() implies #[trigger] self.entries@[j]
                        == (if j < i { before[j] } else { before[j + 1] }) by {}
                    assert forall|k2: K::V| #[trigger] self.model@.contains_key(k2) implies exists|
                        j: int,
                    |
                        0 <= j < self.entries@.len() && #[trigger] self.entries@[j].key@ == k2 by {
                        let j = choose|j: int|
                            0 <= j < before.len() && #[trigger] before[j].key@ == k2;
                        if j < i {
                            assert(self.entries@[j].key@ == k2);
                        } else {
                            assert(j != i);
                            assert(self.entries@[j - 1].key@ == k2);
                        }
                    }
                    assert forall|k: K::V| #[trigger] orig.contains_key(k) && now < orig[k].1 implies self.model@.contains_key(k) by {
                        assert(before_model.contains_key(k));
                        if k == key {
                            assert(before_model[k].1 == before[i as int].expires_at);
                        }
                    }
                }
            } else {
                i = i + 1;
            }
        }
        proof {
            assert forall|k: K::V| #[trigger] self.model@.contains_key(k) implies now < orig[k].1 by {
                let j = choose|j: int|
                    0 <= j < self.entries@.len() && #[trigger] self.entries@[j].key@ == k;
                assert(self.model@[k].1 == self.entries@[j].expires_at);
            }
            assert(self.model@ =~= target);
        }
    }
}

} // verus!
