//! The request gate's decisions: the bearer token of an `Authorization`
//! header, the client address a rate limit is keyed on, and the
//! sliding-window rate limiter.
//!
//! The limiter keeps, per caller, the times of its recent admitted calls
//! (milliseconds on a monotonic clock, read at the edge and handed in). A
//! call is refused while the caller already has `limit` calls in the last
//! window; every `sweep_every` calls, callers with no recent call are
//! forgotten.

use vstd::prelude::*;
use super::errors::{plain_view, ApiError, ErrorKind};
use crate::text::{chars_of, split_chars, split_on, str_eq, string_of, sub_chars, trim, trim_chars};

verus! {

/// The refusal of a missing or malformed `Authorization` header.
pub open spec fn missing_bearer() -> super::errors::ApiErrorView {
    plain_view(ErrorKind::Unauthorized, "missing or malformed Authorization header"@)
}

/// The token of a `Bearer <token>` header value.
pub fn bearer_token(header: &str) -> (r: Result<String, ApiError>)
    ensures
        match r {
            Ok(t) => header@.len() >= 7 && header@.take(7) == "Bearer "@ && t@ == header@.skip(7),
            Err(e) => !(header@.len() >= 7 && header@.take(7) == "Bearer "@) && e@ == missing_bearer(),
        },
{
    let v = chars_of(header);
    let p = chars_of("Bearer ");
    if v.len() >= p.len() {
        let head = sub_chars(&v, 0, p.len());
        if crate::text::chars_eq(&head, &p) {
            proof {
                reveal_strlit("Bearer ");
                assert(head@ =~= header@.take(7));
            }
            let rest = sub_chars(&v, p.len(), v.len());
            assert(rest@ =~= header@.skip(7));
            return Ok(string_of(&rest));
        }
        proof {
            reveal_strlit("Bearer ");
            assert(head@ =~= header@.take(7));
        }
    } else {
        proof {
            reveal_strlit("Bearer ");
        }
    }
    Err(ApiError::unauthorized("missing or malformed Authorization header"))
}

/// The client address a rate limit is keyed on: behind a trusted proxy, the
/// last entry (trimmed) of `X-Forwarded-For`, the one the proxy appended;
/// otherwise the peer address, or `unknown`.
pub open spec fn client_ip_spec(trust_proxy_headers: bool, forwarded_for: Option<Seq<char>>, peer: Option<Seq<char>>) -> Seq<char> {
    if trust_proxy_headers && forwarded_for is Some {
        trim(split_on(forwarded_for->0, ',').last())
    } else {
        match peer {
            Some(p) => p,
            None => "unknown"@,
        }
    }
}

/// The rate-limit key for a request. `forwarded_for` is the
/// `X-Forwarded-For` header when it is present and readable text.
pub fn client_ip(trust_proxy_headers: bool, forwarded_for: Option<&str>, peer: Option<String>) -> (r: String)
    ensures
        r@ == client_ip_spec(
            trust_proxy_headers,
            match forwarded_for { Some(h) => Some(h@), None => None },
            match peer { Some(p) => Some(p@), None => None },
        ),
{
    if trust_proxy_headers {
        if let Some(h) = forwarded_for {
            let v = chars_of(h);
            let pieces = split_chars(&v, ',');
            proof {
                crate::text::lemma_split_nonempty(v@, ',');
            }
            let last = &pieces[pieces.len() - 1];
            let t = trim_chars(last);
            return string_of(&t);
        }
    }
    match peer {
        Some(p) => p,
        None => String::from_str("unknown"),
    }
}

/// Milliseconds from `t` to `now`, zero if the clock reads earlier.
pub open spec fn elapsed_ms(t: u64, now: u64) -> int {
    if now >= t {
        now - t
    } else {
        0
    }
}

/// The hits of a window that are still inside it at `now`, oldest first.
pub open spec fn recent(hits: Seq<u64>, now: u64, window: u64) -> Seq<u64>
    decreases hits.len(),
{
    if hits.len() == 0 {
        hits
    } else {
        let before = recent(hits.drop_last(), now, window);
        if elapsed_ms(hits.last(), now) < window {
            before.push(hits.last())
        } else {
            before
        }
    }
}

/// The callers after a sweep: each keeps its recent hits, and callers with
/// none are forgotten; the order is kept.
pub open spec fn swept(entries: Seq<(Seq<char>, Seq<u64>)>, now: u64, window: u64) -> Seq<(Seq<char>, Seq<u64>)>
    decreases entries.len(),
{
    if entries.len() == 0 {
        entries
    } else {
        let before = swept(entries.drop_last(), now, window);
        let e = entries.last();
        let r = recent(e.1, now, window);
        if r.len() > 0 {
            before.push((e.0, r))
        } else {
            before
        }
    }
}

/// The position of `key` among the callers, if it is there.
pub open spec fn position(entries: Seq<(Seq<char>, Seq<u64>)>, key: Seq<char>) -> Option<int>
    decreases entries.len(),
{
    if entries.len() == 0 {
        None
    } else if entries.last().0 == key {
        Some(entries.len() - 1)
    } else {
        position(entries.drop_last(), key)
    }
}

/// The hits on record for `key` (none if it is not there).
pub open spec fn hits_of(entries: Seq<(Seq<char>, Seq<u64>)>, key: Seq<char>) -> Seq<u64> {
    match position(entries, key) {
        Some(i) => entries[i].1,
        None => seq![],
    }
}

/// The callers with `key`'s hits replaced by `hits` (added last if new).
pub open spec fn with_hits(entries: Seq<(Seq<char>, Seq<u64>)>, key: Seq<char>, hits: Seq<u64>) -> Seq<(Seq<char>, Seq<u64>)> {
    match position(entries, key) {
        Some(i) => entries.update(i, (key, hits)),
        None => entries.push((key, hits)),
    }
}

/// The seconds a refused caller waits: until its oldest recent hit leaves
/// the window, in whole seconds, at least 1.
pub open spec fn retry_after(recent_hits: Seq<u64>, now: u64, window: u64) -> u64 {
    let oldest = if recent_hits.len() > 0 { recent_hits[0] } else { now };
    let left = if window >= elapsed_ms(oldest, now) { window - elapsed_ms(oldest, now) } else { 0 };
    if left / 1000 >= 1 { (left / 1000) as u64 } else { 1 }
}

/// The state of a limiter, as plain values.
pub struct RateLimiterView {
    pub limit: nat,
    pub window: u64,
    pub sweep_every: u64,
    pub ops: u64,
    pub entries: Seq<(Seq<char>, Seq<u64>)>,
}

/// What one call does: the operation count, the callers, and the answer.
pub open spec fn hit_outcome(s: RateLimiterView, key: Seq<char>, record: bool, now: u64) -> (u64, Seq<(Seq<char>, Seq<u64>)>, Result<(), u64>) {
    let ops = if s.ops == u64::MAX { 0u64 } else { (s.ops + 1) as u64 };
    let entries = if ops % s.sweep_every == 0 { swept(s.entries, now, s.window) } else { s.entries };
    let r = recent(hits_of(entries, key), now, s.window);
    if r.len() >= s.limit {
        (ops, with_hits(entries, key, r), Err(retry_after(r, now, s.window)))
    } else if record {
        (ops, with_hits(entries, key, r.push(now)), Ok(()))
    } else {
        (ops, with_hits(entries, key, r), Ok(()))
    }
}

/// Whether no caller appears twice.
pub open spec fn keys_distinct(entries: Seq<(Seq<char>, Seq<u64>)>) -> bool {
    forall|i: int, j: int| 0 <= i < j < entries.len() ==> entries[i].0 != entries[j].0
}

/// A sliding-window rate limiter keyed by caller.
pub struct RateLimiter {
    name: &'static str,
    limit: usize,
    window_ms: u64,
    sweep_every: u64,
    ops: u64,
    keys: Vec<String>,
    hits: Vec<Vec<u64>>,
}

/// The callers of parallel key and hit lists.
pub open spec fn zip_entries(keys: Seq<String>, hits: Seq<Vec<u64>>) -> Seq<(Seq<char>, Seq<u64>)> {
    Seq::new(keys.len(), |i: int| (keys[i]@, hits[i]@))
}

impl View for RateLimiter {
    type V = RateLimiterView;

    closed spec fn view(&self) -> RateLimiterView {
        RateLimiterView {
            limit: self.limit as nat,
            window: self.window_ms,
            sweep_every: self.sweep_every,
            ops: self.ops,
            entries: zip_entries(self.keys@, self.hits@),
        }
    }
}

proof fn lemma_recent_len(hits: Seq<u64>, now: u64, window: u64)
    ensures
        recent(hits, now, window).len() <= hits.len(),
    decreases hits.len(),
{
    if hits.len() > 0 {
        lemma_recent_len(hits.drop_last(), now, window);
    }
}

proof fn lemma_swept_keys(entries: Seq<(Seq<char>, Seq<u64>)>, now: u64, window: u64)
    ensures
        forall|i: int| 0 <= i < swept(entries, now, window).len() ==> exists|j: int|
            0 <= j < entries.len() && entries[j].0 == #[trigger] swept(entries, now, window)[i].0,
        keys_distinct(entries) ==> keys_distinct(swept(entries, now, window)),
        swept(entries, now, window).len() <= entries.len(),
    decreases entries.len(),
{
    if entries.len() > 0 {
        let p = entries.drop_last();
        lemma_swept_keys(p, now, window);
        let sp = swept(p, now, window);
        let s = swept(entries, now, window);
        assert forall|i: int| 0 <= i < s.len() implies exists|j: int|
            0 <= j < entries.len() && entries[j].0 == #[trigger] s[i].0 by {
            if i < sp.len() {
                assert(s[i] == sp[i]);
                let j = choose|j: int| 0 <= j < p.len() && p[j].0 == sp[i].0;
                assert(entries[j] == p[j]);
            } else {
                assert(entries[entries.len() - 1].0 == s[i].0);
            }
        }
        if keys_distinct(entries) {
            assert(keys_distinct(p)) by {
                assert forall|i: int, j: int| 0 <= i < j < p.len() implies p[i].0 != p[j].0 by {
                    assert(p[i] == entries[i] && p[j] == entries[j]);
                }
            }
            assert forall|i: int, j: int| 0 <= i < j < s.len() implies s[i].0 != s[j].0 by {
                if j < sp.len() {
                    assert(s[i] == sp[i] && s[j] == sp[j]);
                } else {
                    assert(s[i] == sp[i]);
                    let k = choose|k: int| 0 <= k < p.len() && p[k].0 == sp[i].0;
                    assert(entries[k] == p[k]);
                    assert(s[j].0 == entries.last().0);
                }
            }
        }
    }
}

proof fn lemma_position(entries: Seq<(Seq<char>, Seq<u64>)>, key: Seq<char>)
    requires
        keys_distinct(entries),
    ensures
        match position(entries, key) {
            Some(i) => 0 <= i < entries.len() && entries[i].0 == key,
            None => forall|j: int| 0 <= j < entries.len() ==> entries[j].0 != key,
        },
    decreases entries.len(),
{
    if entries.len() > 0 {
        let p = entries.drop_last();
        assert(keys_distinct(p)) by {
            assert forall|i: int, j: int| 0 <= i < j < p.len() implies p[i].0 != p[j].0 by {
                assert(p[i] == entries[i] && p[j] == entries[j]);
            }
        }
        lemma_position(p, key);
        if entries.last().0 != key && position(p, key) is None {
            assert forall|j: int| 0 <= j < entries.len() implies entries[j].0 != key by {
                if j < p.len() {
                    assert(entries[j] == p[j]);
                }
            }
        }
        if entries.last().0 != key && position(p, key) is Some {
            let i = position(p, key)->0;
            assert(entries[i] == p[i]);
        }
    }
}

/// The index of `key` in `keys`, if any.
fn find_key(keys: &Vec<String>, key: &str) -> (r: Option<usize>)
    ensures
        match r {
            Some(i) => i < keys@.len() && keys@[i as int]@ == key@ && forall|j: int|
                i < j < keys@.len() ==> keys@[j]@ != key@,
            None => forall|j: int| 0 <= j < keys@.len() ==> keys@[j]@ != key@,
        },
{
    let mut k: usize = keys.len();
    while k > 0
        invariant
            k <= keys@.len(),
            forall|j: int| k <= j < keys@.len() ==> keys@[j]@ != key@,
        decreases k,
    {
        if str_eq(keys[k - 1].as_str(), key) {
            return Some(k - 1);
        }
        k -= 1;
    }
    None
}

proof fn lemma_position_is_last_match(entries: Seq<(Seq<char>, Seq<u64>)>, key: Seq<char>, i: int)
    requires
        0 <= i < entries.len(),
        entries[i].0 == key,
        forall|j: int| i < j < entries.len() ==> entries[j].0 != key,
    ensures
        position(entries, key) == Some(i),
    decreases entries.len(),
{
    if i < entries.len() - 1 {
        let p = entries.drop_last();
        assert forall|j: int| i < j < p.len() implies p[j].0 != key by {
            assert(p[j] == entries[j]);
        }
        lemma_position_is_last_match(p, key, i);
    }
}

proof fn lemma_position_none(entries: Seq<(Seq<char>, Seq<u64>)>, key: Seq<char>)
    requires
        forall|j: int| 0 <= j < entries.len() ==> entries[j].0 != key,
    ensures
        position(entries, key) is None,
    decreases entries.len(),
{
    if entries.len() > 0 {
        let p = entries.drop_last();
        assert forall|j: int| 0 <= j < p.len() implies p[j].0 != key by {
            assert(p[j] == entries[j]);
        }
        lemma_position_none(p, key);
    }
}

/// The recent hits of one window, oldest first.
fn recent_hits(hits: &Vec<u64>, now: u64, window: u64) -> (r: Vec<u64>)
    ensures
        r@ == recent(hits@, now, window),
{
    let mut r: Vec<u64> = Vec::new();
    let mut k: usize = 0;
    assert(hits@.take(0) =~= Seq::<u64>::empty());
    while k < hits.len()
        invariant
            k <= hits@.len(),
            r@ == recent(hits@.take(k as int), now, window),
        decreases hits.len() - k,
    {
        let t = hits[k];
        assert(hits@.take(k + 1).drop_last() =~= hits@.take(k as int));
        let age = if now >= t { now - t } else { 0 };
        if age < window {
            r.push(t);
        }
        k += 1;
    }
    assert(hits@.take(hits@.len() as int) =~= hits@);
    r
}

impl RateLimiter {
    /// Keys and hit lists line up, and no caller appears twice.
    pub closed spec fn wf(&self) -> bool {
        &&& self.keys@.len() == self.hits@.len()
        &&& keys_distinct(self@.entries)
        &&& self.sweep_every > 0
    }

    /// The name the limiter was made with.
    pub closed spec fn label(&self) -> Seq<char> {
        self.name@
    }

    /// The name that separates limiters sharing one store: the one it was
    /// made with.
    pub fn name(&self) -> (n: &'static str)
        ensures
            n@ == self.label(),
    {
        self.name
    }

    /// The number of calls admitted per window.
    pub fn limit(&self) -> (n: usize)
        ensures
            n == self@.limit,
    {
        self.limit
    }

    /// The window's length in milliseconds.
    pub fn window_ms(&self) -> (w: u64)
        ensures
            w == self@.window,
    {
        self.window_ms
    }

    /// A limiter allowing `limit` calls (at least 1) per 60-second window,
    /// forgetting idle callers every 1024 calls.
    pub fn per_minute(name: &'static str, limit: u32) -> (l: Self)
        ensures
            l.wf(),
            l@.limit == (if limit < 1 { 1 } else { limit as nat }),
            l@.window == 60_000,
            l.label() == name@,
            l@.sweep_every == 1024,
            l@.ops == 0,
            l@.entries.len() == 0,
    {
        let limit: usize = if limit < 1 { 1 } else { limit as usize };
        let l = RateLimiter { name, limit, window_ms: 60_000, sweep_every: 1024, ops: 0, keys: Vec::new(), hits: Vec::new() };
        assert(l@.entries =~= Seq::<(Seq<char>, Seq<u64>)>::empty());
        l
    }

    /// A limiter with a custom limit and window, forgetting idle callers
    /// every 1024 calls.
    pub fn with_window(limit: usize, window_ms: u64) -> (l: Self)
        ensures
            l.wf(),
            l@.limit == limit,
            l@.window == window_ms,
            l.label() == "test"@,
            l@.sweep_every == 1024,
            l@.ops == 0,
            l@.entries.len() == 0,
    {
        let l = RateLimiter { name: "test", limit, window_ms, sweep_every: 1024, ops: 0, keys: Vec::new(), hits: Vec::new() };
        assert(l@.entries =~= Seq::<(Seq<char>, Seq<u64>)>::empty());
        l
    }

    /// The number of callers on record.
    pub fn len(&self) -> (n: usize)
        requires
            self.wf(),
        ensures
            n == self@.entries.len(),
    {
        self.keys.len()
    }

    /// Forgets the hits that left the window, and callers with none left.
    fn sweep(&mut self, now: u64)
        requires
            old(self).wf(),
        ensures
            final(self).wf(),
            final(self)@.entries == swept(old(self)@.entries, now, old(self)@.window),
            final(self)@.limit == old(self)@.limit,
            final(self)@.window == old(self)@.window,
            final(self)@.sweep_every == old(self)@.sweep_every,
            final(self)@.ops == old(self)@.ops,
            final(self).name == old(self).name,
    {
        let ghost e0 = self@.entries;
        let mut keys: Vec<String> = Vec::new();
        let mut hits: Vec<Vec<u64>> = Vec::new();
        let mut k: usize = 0;
        assert(e0.take(0) =~= Seq::<(Seq<char>, Seq<u64>)>::empty());
        assert(zip_entries(keys@, hits@) =~= Seq::<(Seq<char>, Seq<u64>)>::empty());
        while k < self.keys.len()
            invariant
                k <= self.keys@.len(),
                self.keys@.len() == self.hits@.len(),
                e0 == zip_entries(self.keys@, self.hits@),
                keys@.len() == hits@.len(),
                zip_entries(keys@, hits@) == swept(e0.take(k as int), now, self.window_ms),
            decreases self.keys.len() - k,
        {
            let r = recent_hits(&self.hits[k], now, self.window_ms);
            proof {
                assert(e0.take(k + 1).drop_last() =~= e0.take(k as int));
                assert(e0.take(k + 1).last() == (self.keys@[k as int]@, self.hits@[k as int]@));
            }
            if r.len() > 0 {
                let ghost before = zip_entries(keys@, hits@);
                keys.push(self.keys[k].clone());
                hits.push(r);
                assert(zip_entries(keys@, hits@) =~= before.push((self.keys@[k as int]@, r@)));
            }
            k += 1;
        }
        assert(e0.take(e0.len() as int) =~= e0);
        proof {
            lemma_swept_keys(e0, now, self.window_ms);
        }
        self.keys = keys;
        self.hits = hits;
    }

    /// Counts a call by `key` at `now` (or, with `record` false, only looks):
    /// `Err` with the seconds to wait when the caller already has `limit`
    /// recent calls.
    pub fn hit(&mut self, key: &str, record: bool, now: u64) -> (r: Result<(), u64>)
        requires
            old(self).wf(),
        ensures
            final(self).wf(),
            hit_outcome(old(self)@, key@, record, now) == (final(self)@.ops, final(self)@.entries, r),
            final(self)@.limit == old(self)@.limit,
            final(self)@.window == old(self)@.window,
            final(self)@.sweep_every == old(self)@.sweep_every,
            final(self).label() == old(self).label(),
    {
        self.ops = if self.ops == u64::MAX { 0 } else { self.ops + 1 };
        if self.ops % self.sweep_every == 0 {
            self.sweep(now);
        }
        let ghost entries = self@.entries;
        proof {
            lemma_position(entries, key@);
        }
        let idx = find_key(&self.keys, key);
        let ghost pos = position(entries, key@);
        let mut bucket: Vec<u64> = match idx {
            Some(i) => {
                proof {
                    lemma_position_is_last_match(entries, key@, i as int);
                }
                recent_hits(&self.hits[i], now, self.window_ms)
            },
            None => {
                proof {
                    lemma_position_none(entries, key@);
                }
                assert(Seq::<u64>::empty() == recent(Seq::<u64>::empty(), now, self.window_ms));
                Vec::new()
            },
        };
        assert(bucket@ == recent(hits_of(entries, key@), now, self.window_ms));
        let result = if bucket.len() >= self.limit {
            let oldest = if bucket.len() > 0 { bucket[0] } else { now };
            let age = if now >= oldest { now - oldest } else { 0 };
            let left = if self.window_ms >= age { self.window_ms - age } else { 0 };
            let secs = left / 1000;
            Err(if secs >= 1 { secs } else { 1 })
        } else {
            if record {
                bucket.push(now);
            }
            Ok(())
        };
        match idx {
            Some(i) => {
                self.hits.set(i, bucket);
                assert(zip_entries(self.keys@, self.hits@) =~= entries.update(i as int, (key@, self.hits@[i as int]@)));
            },
            None => {
                self.keys.push(String::from_str(key));
                self.hits.push(bucket);
                assert(zip_entries(self.keys@, self.hits@) =~= entries.push((key@, self.hits@.last()@)));
                assert forall|i: int, j: int| 0 <= i < j < self@.entries.len() implies self@.entries[i].0 != self@.entries[j].0 by {
                    if j == entries.len() {
                        assert(self@.entries[i] == entries[i]);
                    } else {
                        assert(self@.entries[i] == entries[i] && self@.entries[j] == entries[j]);
                    }
                }
            },
        }
        proof {
            if let Some(i) = idx {
                assert forall|a: int, b: int| 0 <= a < b < self@.entries.len() implies self@.entries[a].0 != self@.entries[b].0 by {
                    assert(self@.entries[a].0 == entries[a].0);
                    assert(self@.entries[b].0 == entries[b].0);
                }
            }
        }
        result
    }

    /// Records a call by `key` at `now`: `Err` with the seconds to wait when
    /// the caller is over the limit.
    pub fn check(&mut self, key: &str, now: u64) -> (r: Result<(), u64>)
        requires
            old(self).wf(),
        ensures
            final(self).wf(),
            hit_outcome(old(self)@, key@, true, now) == (final(self)@.ops, final(self)@.entries, r),
            final(self)@.limit == old(self)@.limit,
            final(self)@.window == old(self)@.window,
            final(self)@.sweep_every == old(self)@.sweep_every,
            final(self).label() == old(self).label(),
    {
        self.hit(key, true, now)
    }

    /// The seconds `key` must wait if it is already at the limit, without
    /// recording a call (used where only failures count).
    pub fn is_limited(&mut self, key: &str, now: u64) -> (r: Option<u64>)
        requires
            old(self).wf(),
        ensures
            final(self).wf(),
            ({
                let o = hit_outcome(old(self)@, key@, false, now);
                &&& o.0 == final(self)@.ops
                &&& o.1 == final(self)@.entries
                &&& (match o.2 { Ok(()) => r is None, Err(s) => r == Some(s) })
            }),
            final(self)@.limit == old(self)@.limit,
            final(self)@.window == old(self)@.window,
            final(self)@.sweep_every == old(self)@.sweep_every,
            final(self).label() == old(self).label(),
    {
        match self.hit(key, false, now) {
            Ok(()) => None,
            Err(s) => Some(s),
        }
    }
}

/// The answer of a limit shared between instances, when there is one:
/// a store that answered decides; otherwise the instance's own window does.
pub fn shared_decision(local: Result<(), u64>, shared: Option<Result<Option<u64>, ()>>) -> (r: Result<(), u64>)
    ensures
        r == (match shared {
            Some(Ok(None)) => Ok(()),
            Some(Ok(Some(retry))) => Err(retry),
            _ => local,
        }),
{
    match shared {
        Some(Ok(None)) => Ok(()),
        Some(Ok(Some(retry))) => Err(retry),
        _ => local,
    }
}

/// An admitted, recorded call leaves the caller with at most `limit` calls
/// in the window.
pub proof fn law_admitted_calls_stay_within_limit(s: RateLimiterView, key: Seq<char>, now: u64)
    requires
        keys_distinct(s.entries),
        hit_outcome(s, key, true, now).2 is Ok,
    ensures
        hits_of(hit_outcome(s, key, true, now).1, key).len() <= s.limit,
{
    let o = hit_outcome(s, key, true, now);
    let entries = if o.0 % s.sweep_every == 0 { swept(s.entries, now, s.window) } else { s.entries };
    let r = recent(hits_of(entries, key), now, s.window);
    lemma_swept_keys(s.entries, now, s.window);
    lemma_with_hits_reads_back(entries, key, r.push(now));
}

/// Looking without recording adds no call.
pub proof fn law_looking_records_nothing(s: RateLimiterView, key: Seq<char>, now: u64)
    requires
        keys_distinct(s.entries),
    ensures
        ({
            let o = hit_outcome(s, key, false, now);
            let entries = if o.0 % s.sweep_every == 0 { swept(s.entries, now, s.window) } else { s.entries };
            hits_of(o.1, key) == recent(hits_of(entries, key), now, s.window)
        }),
{
    let o = hit_outcome(s, key, false, now);
    let entries = if o.0 % s.sweep_every == 0 { swept(s.entries, now, s.window) } else { s.entries };
    let r = recent(hits_of(entries, key), now, s.window);
    lemma_swept_keys(s.entries, now, s.window);
    lemma_with_hits_reads_back(entries, key, r);
}

/// A call by one caller leaves every other caller's hits as they were (or
/// as a sweep left them).
pub proof fn law_callers_are_independent(s: RateLimiterView, key: Seq<char>, other: Seq<char>, record: bool, now: u64)
    requires
        keys_distinct(s.entries),
        key != other,
    ensures
        ({
            let o = hit_outcome(s, key, record, now);
            let entries = if o.0 % s.sweep_every == 0 { swept(s.entries, now, s.window) } else { s.entries };
            hits_of(o.1, other) == hits_of(entries, other)
        }),
{
    let o = hit_outcome(s, key, record, now);
    let entries = if o.0 % s.sweep_every == 0 { swept(s.entries, now, s.window) } else { s.entries };
    lemma_swept_keys(s.entries, now, s.window);
    let r = recent(hits_of(entries, key), now, s.window);
    let h = if r.len() >= s.limit { r } else if record { r.push(now) } else { r };
    lemma_with_hits_other(entries, key, other, h);
}

proof fn lemma_with_hits_reads_back(entries: Seq<(Seq<char>, Seq<u64>)>, key: Seq<char>, hits: Seq<u64>)
    requires
        keys_distinct(entries),
    ensures
        hits_of(with_hits(entries, key, hits), key) == hits,
{
    lemma_position(entries, key);
    let w = with_hits(entries, key, hits);
    match position(entries, key) {
        Some(i) => {
            assert forall|j: int| i < j < w.len() implies w[j].0 != key by {
                assert(w[j] == entries[j]);
            }
            lemma_position_is_last_match(w, key, i);
        },
        None => {
            lemma_position_is_last_match(w, key, entries.len() as int);
        },
    }
}

proof fn lemma_with_hits_other(entries: Seq<(Seq<char>, Seq<u64>)>, key: Seq<char>, other: Seq<char>, hits: Seq<u64>)
    requires
        keys_distinct(entries),
        key != other,
    ensures
        hits_of(with_hits(entries, key, hits), other) == hits_of(entries, other),
{
    lemma_position(entries, key);
    lemma_position(entries, other);
    let w = with_hits(entries, key, hits);
    match position(entries, other) {
        Some(i) => {
            assert(w[i] == entries[i]);
            assert forall|j: int| i < j < w.len() implies w[j].0 != other by {
                if j < entries.len() {
                    if w[j] != entries[j] {
                        assert(w[j].0 == key);
                    } else {
                        assert(entries[j].0 != other);
                    }
                }
            }
            lemma_position_is_last_match(w, other, i);
        },
        None => {
            assert forall|j: int| 0 <= j < w.len() implies w[j].0 != other by {
                if j < entries.len() && w[j] == entries[j] {
                } else {
                    assert(w[j].0 == key);
                }
            }
            lemma_position_none(w, other);
        },
    }
}

} // verus!
