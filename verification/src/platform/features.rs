//! Per-tenant feature-flag cache for the feature gate.
//!
//! A cached "enabled" answer is trusted for a short TTL. A cached "disabled"
//! answer is always re-read before refusing, so enabling a feature takes
//! effect on the next request and only revocation can lag, by at most the TTL.

use vstd::prelude::*;

use super::cache::{is_fresh, stored, TimedCache};
use crate::text::str_eq;

verus! {

/// How long a tenant's flags are trusted before being re-read (ms).
pub const FEATURE_CACHE_TTL_MS: u64 = 60_000;

/// Above this many cached tenants, stale entries are dropped on the next store.
pub const FEATURE_CACHE_MAX_ENTRIES: usize = 4096;

/// Whether no flag name appears twice (the flags are a map from name to
/// setting).
pub open spec fn flag_names_distinct(flags: Seq<(String, bool)>) -> bool {
    forall|i: int, j: int| 0 <= i < j < flags.len() ==> #[trigger] flags[i].0@ != #[trigger] flags[j].0@
}

/// A tenant's tier and feature flags, each flag name once.
pub struct FeatureEntry {
    pub tier: String,
    pub flags: Vec<(String, bool)>,
}

/// The value of flag `key`: that of its first entry, `false` when absent.
pub open spec fn flag_value(flags: Seq<(String, bool)>, key: Seq<char>) -> bool
    decreases flags.len(),
{
    if flags.len() == 0 {
        false
    } else if flags[0].0@ == key {
        flags[0].1
    } else {
        flag_value(flags.drop_first(), key)
    }
}

impl FeatureEntry {
    /// The entry is well formed: no flag name appears twice.
    pub open spec fn wf(&self) -> bool {
        flag_names_distinct(self.flags@)
    }

    /// Whether flag `key` is enabled.
    pub fn flag(&self, key: &str) -> (b: bool)
        ensures
            b == flag_value(self.flags@, key@),
    {
        let n = self.flags.len();
        let mut i: usize = 0;
        assert(self.flags@.subrange(0, n as int) =~= self.flags@);
        while i < n
            invariant
                i <= n == self.flags@.len(),
                flag_value(self.flags@, key@) == flag_value(self.flags@.subrange(i as int, n as int), key@),
            decreases n - i,
        {
            let ghost t = self.flags@.subrange(i as int, n as int);
            assert(t[0] == self.flags@[i as int]);
            if str_eq(self.flags[i].0.as_str(), key) {
                return self.flags[i].1;
            }
            assert(t.drop_first() =~= self.flags@.subrange(i + 1, n as int));
            i += 1;
        }
        false
    }

    /// The answer for `key`: whether it is enabled, and the tier.
    pub fn answer(&self, key: &str) -> (r: (bool, String))
        ensures
            r.0 == flag_value(self.flags@, key@),
            r.1@ == self.tier@,
    {
        (self.flag(key), self.tier.clone())
    }
}

/// Cached tier and feature flags per tenant.
pub struct FeatureCache {
    entries: TimedCache<FeatureEntry>,
}

impl FeatureCache {
    /// The cache is well formed, and every cached entry names each flag
    /// once.
    pub closed spec fn wf(&self) -> bool {
        &&& self.entries.wf()
        &&& forall|k: u128| #[trigger] self.entries@.contains_key(k) ==> self.entries@[k].1.wf()
    }

    /// What is cached, per tenant: fetch time and entry.
    pub closed spec fn contents(&self) -> Map<u128, (u64, FeatureEntry)> {
        self.entries@
    }

    /// An empty cache.
    pub fn new() -> (c: Self)
        ensures
            c.wf(),
            c.contents() == Map::<u128, (u64, FeatureEntry)>::empty(),
    {
        FeatureCache { entries: TimedCache::new() }
    }

    /// The tier, when the tenant's cached flags are fresh and enable `key`.
    /// A cached "disabled" answer is never returned: the caller re-reads.
    pub fn cached_enabled(&self, tenant_id: u128, key: &str, now: u64) -> (r: Option<String>)
        ensures
            match r {
                Some(tier) => self.contents().contains_key(tenant_id) && is_fresh(
                    self.contents()[tenant_id].0,
                    now,
                    FEATURE_CACHE_TTL_MS,
                ) && flag_value(self.contents()[tenant_id].1.flags@, key@) && tier@
                    == self.contents()[tenant_id].1.tier@,
                None => !(self.contents().contains_key(tenant_id) && is_fresh(
                    self.contents()[tenant_id].0,
                    now,
                    FEATURE_CACHE_TTL_MS,
                ) && flag_value(self.contents()[tenant_id].1.flags@, key@)),
            },
    {
        match self.entries.fresh(tenant_id, now, FEATURE_CACHE_TTL_MS) {
            Some(e) => {
                if e.flag(key) {
                    Some(e.tier.clone())
                } else {
                    None
                }
            },
            None => None,
        }
    }

    /// Caches freshly read flags for the tenant.
    pub fn store(&mut self, tenant_id: u128, entry: FeatureEntry, now: u64)
        requires
            old(self).wf(),
            entry.wf(),
        ensures
            final(self).wf(),
            final(self).contents() == stored(
                old(self).contents(),
                tenant_id,
                entry,
                now,
                FEATURE_CACHE_TTL_MS,
                FEATURE_CACHE_MAX_ENTRIES,
            ),
    {
        self.entries.store(tenant_id, entry, now, FEATURE_CACHE_TTL_MS, FEATURE_CACHE_MAX_ENTRIES);
    }

    /// Every cached entry names each of its flags once.
    pub proof fn law_cached_flags_are_distinct(&self)
        requires
            self.wf(),
        ensures
            forall|k: u128| #[trigger] self.contents().contains_key(k) ==> self.contents()[k].1.wf(),
    {
    }

    /// Drops a tenant's cached flags (after changing its tier or flags).
    pub fn invalidate(&mut self, tenant_id: u128)
        requires
            old(self).wf(),
        ensures
            final(self).wf(),
            final(self).contents() == old(self).contents().remove(tenant_id),
            !final(self).contents().contains_key(tenant_id),
    {
        self.entries.invalidate(tenant_id);
    }
}

} // verus!
