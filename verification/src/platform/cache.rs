//! A time-bounded cache keyed by id: each entry remembers when it was
//! fetched, is trusted while younger than the TTL, and stale entries are
//! dropped once the cache grows past a bound.
//!
//! Times are milliseconds on a monotonic clock, read at the edge and handed in.

use vstd::prelude::*;
use std::collections::HashMap;

verus! {

broadcast use vstd::std_specs::hash::group_hash_axioms;

/// Milliseconds from `fetched` to `now`, zero if the clock reads earlier
/// (as `Instant::elapsed` saturates).
pub open spec fn elapsed(fetched: u64, now: u64) -> int {
    if now >= fetched {
        now - fetched
    } else {
        0
    }
}

/// Whether an entry fetched at `fetched` is still trusted at `now`.
pub open spec fn is_fresh(fetched: u64, now: u64, ttl: u64) -> bool {
    elapsed(fetched, now) < ttl
}

/// The entries of `m` that are still fresh at `now`.
pub open spec fn pruned<V>(m: Map<u128, (u64, V)>, now: u64, ttl: u64) -> Map<u128, (u64, V)> {
    Map::new(|k: u128| m.contains_key(k) && is_fresh(m[k].0, now, ttl), |k: u128| m[k])
}

/// The map after storing `v` for `key` at `now`: stale entries are dropped
/// first when the cache holds more than `cap` entries.
pub open spec fn stored<V>(m: Map<u128, (u64, V)>, key: u128, v: V, now: u64, ttl: u64, cap: usize) -> Map<
    u128,
    (u64, V),
> {
    if m.dom().len() > cap {
        pruned(m, now, ttl).insert(key, (now, v))
    } else {
        m.insert(key, (now, v))
    }
}

/// Entries keyed by id, each with its fetch time.
pub struct TimedCache<V> {
    entries: HashMap<u128, (u64, V)>,
    /// The keys of `entries`, each once.
    keys: Vec<u128>,
}

impl<V> View for TimedCache<V> {
    type V = Map<u128, (u64, V)>;

    closed spec fn view(&self) -> Map<u128, (u64, V)> {
        self.entries@
    }
}

impl<V> TimedCache<V> {
    /// The key list holds each key of the map exactly once.
    pub closed spec fn wf(&self) -> bool {
        &&& self.keys@.no_duplicates()
        &&& forall|i: int| 0 <= i < self.keys@.len() ==> self.entries@.contains_key(#[trigger] self.keys@[i])
        &&& forall|k: u128| #[trigger] self.entries@.contains_key(k) ==> self.keys@.contains(k)
        &&& self.keys@.len() == self.entries@.dom().len()
    }

    /// An empty cache.
    pub fn new() -> (c: Self)
        ensures
            c.wf(),
            c@ == Map::<u128, (u64, V)>::empty(),
    {
        let c = TimedCache { entries: HashMap::new(), keys: Vec::new() };
        assert(c.entries@.dom() =~= Set::<u128>::empty());
        c
    }

    /// The number of entries.
    pub fn len(&self) -> (n: usize)
        requires
            self.wf(),
        ensures
            n == self@.dom().len(),
    {
        self.keys.len()
    }

    /// The value for `key` if it is still fresh at `now`.
    pub fn fresh(&self, key: u128, now: u64, ttl: u64) -> (r: Option<&V>)
        ensures
            match r {
                Some(v) => self@.contains_key(key) && is_fresh(self@[key].0, now, ttl) && *v
                    == self@[key].1,
                None => !(self@.contains_key(key) && is_fresh(self@[key].0, now, ttl)),
            },
    {
        match self.entries.get(&key) {
            Some(e) => {
                let age = if now >= e.0 {
                    now - e.0
                } else {
                    0
                };
                if age < ttl {
                    Some(&e.1)
                } else {
                    None
                }
            },
            None => None,
        }
    }

    /// Drops the entry for `key`.
    pub fn invalidate(&mut self, key: u128)
        requires
            old(self).wf(),
        ensures
            final(self).wf(),
            final(self)@ == old(self)@.remove(key),
    {
        let ghost k0 = self.keys@;
        let found = index_of(&self.keys, key);
        self.entries.remove(&key);
        match found {
            Some(i) => {
                self.keys.remove(i);
                proof {
                    let before = k0;
                    assert(self.keys@ =~= before.remove(i as int));
                    assert forall|j: int| 0 <= j < self.keys@.len() implies self.entries@.contains_key(
                        #[trigger] self.keys@[j],
                    ) by {
                        if j < i {
                            assert(self.keys@[j] == before[j]);
                            assert(before[j] != before[i as int]);
                        } else {
                            assert(self.keys@[j] == before[j + 1]);
                            assert(before[j + 1] != before[i as int]);
                        }
                    }
                    assert forall|k: u128| #[trigger] self.entries@.contains_key(k) implies self.keys@.contains(k) by {
                        assert(old(self).entries@.contains_key(k));
                        assert(before.contains(k));
                        let j = choose|j: int| 0 <= j < before.len() && before[j] == k;
                        if j < i {
                            assert(self.keys@[j] == k);
                        } else {
                            assert(j != i);
                            assert(self.keys@[j - 1] == k);
                        }
                    }
                    assert(self.entries@.dom() =~= old(self).entries@.dom().remove(key));
                    lemma_remove_no_dup(before, i as int);
                }
            },
            None => {
                proof {
                    assert(!old(self).entries@.contains_key(key)) by {
                        if old(self).entries@.contains_key(key) {
                            assert(k0.contains(key));
                        }
                    }
                    assert(self.entries@ =~= old(self).entries@.remove(key));
                }
            },
        }
    }

    /// Drops every entry that is no longer fresh at `now`.
    fn prune(&mut self, now: u64, ttl: u64)
        requires
            old(self).wf(),
        ensures
            final(self).wf(),
            final(self)@ == pruned(old(self)@, now, ttl),
    {
        let ghost m0 = self.entries@;
        let ghost k0 = self.keys@;
        let n = self.keys.len();
        let mut kept: Vec<u128> = Vec::new();
        let mut i: usize = 0;
        while i < n
            invariant
                n == self.keys.len(),
                self.keys@ == k0,
                k0.no_duplicates(),
                forall|j: int| 0 <= j < k0.len() ==> m0.contains_key(#[trigger] k0[j]),
                i <= n,
                kept@.no_duplicates(),
                forall|k: u128| #[trigger] self.entries@.contains_key(k) <==> (m0.contains_key(k) && (
                !k0.take(i as int).contains(k) || is_fresh(m0[k].0, now, ttl))),
                forall|k: u128| self.entries@.contains_key(k) ==> #[trigger] self.entries@[k] == m0[k],
                forall|k: u128| #[trigger] kept@.contains(k) <==> (k0.take(i as int).contains(k) && m0.contains_key(k) && is_fresh(m0[k].0, now, ttl)),
            decreases n - i,
        {
            let k = self.keys[i];
            proof {
                assert(k0.take(i + 1) =~= k0.take(i as int).push(k));
                assert(!k0.take(i as int).contains(k)) by {
                    if k0.take(i as int).contains(k) {
                        let j = choose|j: int| 0 <= j < i && k0.take(i as int)[j] == k;
                        assert(k0[j] == k0[i as int]);
                    }
                }
                assert(m0.contains_key(k));
                assert(self.entries@.contains_key(k));
            }
            let fresh = match self.entries.get(&k) {
                Some(e) => {
                    let age = if now >= e.0 {
                        now - e.0
                    } else {
                        0
                    };
                    age < ttl
                },
                None => false,
            };
            let ghost kb = kept@;
            let ghost eb = self.entries@;
            if fresh {
                kept.push(k);
                proof {
                    assert(kept@ =~= kb.push(k));
                    assert(!kb.contains(k));
                    assert forall|x: u128| #[trigger] kept@.contains(x) <==> (k0.take(i + 1).contains(x) && m0.contains_key(x) && is_fresh(m0[x].0, now, ttl)) by {
                        if x == k {
                            assert(kept@[kb.len() as int] == k);
                            assert(k0.take(i + 1)[i as int] == k);
                        } else {
                            if kept@.contains(x) {
                                let j = choose|j: int| 0 <= j < kept@.len() && kept@[j] == x;
                                assert(kb[j] == x);
                            }
                            if kb.contains(x) {
                                let j = choose|j: int| 0 <= j < kb.len() && kb[j] == x;
                                assert(kept@[j] == x);
                            }
                        }
                    }
                    assert forall|x: u128| #[trigger] self.entries@.contains_key(x) <==> (m0.contains_key(x) && (
                    !k0.take(i + 1).contains(x) || is_fresh(m0[x].0, now, ttl))) by {
                        if x == k {
                            assert(k0.take(i + 1)[i as int] == k);
                        }
                    }
                }
            } else {
                self.entries.remove(&k);
                proof {
                    assert forall|x: u128| #[trigger] kept@.contains(x) <==> (k0.take(i + 1).contains(x) && m0.contains_key(x) && is_fresh(m0[x].0, now, ttl)) by {
                        if x == k {
                            assert(k0.take(i + 1)[i as int] == k);
                        }
                    }
                    assert forall|x: u128| #[trigger] self.entries@.contains_key(x) <==> (m0.contains_key(x) && (
                    !k0.take(i + 1).contains(x) || is_fresh(m0[x].0, now, ttl))) by {
                        if x == k {
                            assert(k0.take(i + 1)[i as int] == k);
                        }
                    }
                }
            }
            i += 1;
        }
        proof {
            assert(k0.take(n as int) =~= k0);
            assert forall|k: u128| m0.contains_key(k) implies k0.contains(k) by {
                assert(old(self).entries@.contains_key(k));
            }
            assert(self.entries@ =~= pruned(m0, now, ttl));
            assert forall|j: int| 0 <= j < kept@.len() implies self.entries@.contains_key(
                #[trigger] kept@[j],
            ) by {
                assert(kept@.contains(kept@[j]));
            }
            assert forall|k: u128| #[trigger] self.entries@.contains_key(k) implies kept@.contains(k) by {}
            lemma_no_dup_len_eq_dom(kept@, self.entries@.dom());
        }
        self.keys = kept;
    }

    /// Stores `v` for `key`, fetched at `now`. When the cache holds more than
    /// `cap` entries, the stale ones are dropped first.
    pub fn store(&mut self, key: u128, v: V, now: u64, ttl: u64, cap: usize)
        requires
            old(self).wf(),
        ensures
            final(self).wf(),
            final(self)@ == stored(old(self)@, key, v, now, ttl, cap),
    {
        if self.keys.len() > cap {
            self.prune(now, ttl);
        }
        let had = self.entries.contains_key(&key);
        let ghost before = self.entries@;
        let ghost kb = self.keys@;
        self.entries.insert(key, (now, v));
        if !had {
            self.keys.push(key);
            proof {
                assert(self.keys@ =~= kb.push(key));
                assert(!kb.contains(key));
                assert(self.entries@.dom() =~= before.dom().insert(key));
                assert forall|j: int| 0 <= j < self.keys@.len() implies self.entries@.contains_key(
                    #[trigger] self.keys@[j],
                ) by {
                    if j < kb.len() {
                        assert(self.keys@[j] == kb[j]);
                    }
                }
                assert forall|k: u128| #[trigger] self.entries@.contains_key(k) implies self.keys@.contains(k) by {
                    if k != key {
                        let j = choose|j: int| 0 <= j < kb.len() && kb[j] == k;
                        assert(self.keys@[j] == k);
                    } else {
                        assert(self.keys@[kb.len() as int] == key);
                    }
                }
            }
        } else {
            proof {
                assert(self.entries@.dom() =~= before.dom());
            }
        }
    }
}

/// The position of `key` in `keys`, if present.
fn index_of(keys: &Vec<u128>, key: u128) -> (r: Option<usize>)
    ensures
        match r {
            Some(i) => i < keys@.len() && keys@[i as int] == key,
            None => !keys@.contains(key),
        },
{
    let mut i: usize = 0;
    while i < keys.len()
        invariant
            i <= keys.len(),
            forall|j: int| 0 <= j < i ==> keys@[j] != key,
        decreases keys.len() - i,
    {
        if keys[i] == key {
            return Some(i);
        }
        i += 1;
    }
    None
}

proof fn lemma_remove_no_dup(s: Seq<u128>, i: int)
    requires
        s.no_duplicates(),
        0 <= i < s.len(),
    ensures
        s.remove(i).no_duplicates(),
{
    let r = s.remove(i);
    assert forall|a: int, b: int| 0 <= a < r.len() && 0 <= b < r.len() && a != b implies r[a] != r[b] by {
        let a2 = if a < i { a } else { a + 1 };
        let b2 = if b < i { b } else { b + 1 };
        assert(r[a] == s[a2]);
        assert(r[b] == s[b2]);
    }
}

proof fn lemma_no_dup_len_eq_dom(s: Seq<u128>, d: Set<u128>)
    requires
        s.no_duplicates(),
        d.finite(),
        forall|k: u128| d.contains(k) <==> s.contains(k),
    ensures
        s.len() == d.len(),
{
    s.unique_seq_to_set();
    assert(s.to_set() =~= d);
}

/// An entry stored at `now` is served again until it is a TTL old; and
/// after an invalidation nothing is served for that key.
pub proof fn law_store_then_fresh<V>(m: Map<u128, (u64, V)>, key: u128, v: V, now: u64, later: u64, ttl: u64, cap: usize)
    requires
        now <= later,
        later - now < ttl,
    ensures
        stored(m, key, v, now, ttl, cap).contains_key(key),
        stored(m, key, v, now, ttl, cap)[key] == (now, v),
        is_fresh(stored(m, key, v, now, ttl, cap)[key].0, later, ttl),
        !m.remove(key).contains_key(key),
{
}

} // verus!
