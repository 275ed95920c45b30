//! Per-user membership checks and their cache.
//!
//! Every authenticated request needs the caller's role, whether the account
//! is still active, and whether its access token has been revoked (the user's
//! token version and any single tokens revoked at logout). All of it is cached
//! for a short TTL and invalidated whenever it changes, so a change applies on
//! the next request on this instance and within the TTL on any other.

use vstd::prelude::*;

use super::authz::{role_named, Role};
use super::cache::{is_fresh, stored, TimedCache};
use super::errors::{internal_view, ApiError, ApiErrorView};
use crate::text::{debug_quote, debug_text};

verus! {

/// How long a user's membership is trusted before being re-read (ms).
pub const ROLE_CACHE_TTL_MS: u64 = 30_000;

/// Above this many cached users, stale entries are dropped on the next store.
pub const ROLE_CACHE_MAX_ENTRIES: usize = 16_384;

/// The claims of an access token that decide whether it may still be used.
#[derive(Clone, Copy, Debug, PartialEq, Eq, Structural)]
pub struct TokenClaims {
    /// The user the token was issued to.
    pub subject: u128,
    pub tenant_id: u128,
    /// The token's own id.
    pub jti: u128,
    /// The user's token version when it was issued.
    pub version: i32,
}

/// A user's tenant, role, whether the account is active, and what revokes
/// their access tokens.
#[derive(Debug)]
pub struct Membership {
    pub tenant_id: u128,
    pub role: Role,
    pub active: bool,
    /// Access tokens issued at any other version are revoked.
    pub token_version: i32,
    /// Unexpired single tokens revoked at logout.
    pub revoked_jtis: Vec<u128>,
}

/// Whether a membership accepts a token with these claims.
pub open spec fn accepts_spec(m: Membership, c: TokenClaims) -> bool {
    m.active && m.tenant_id == c.tenant_id && m.token_version == c.version
        && !m.revoked_jtis@.contains(c.jti)
}

impl Membership {
    /// Whether an access token with these claims may still be used: the
    /// account is active in the token's tenant and the token has not been
    /// revoked (neither by version nor singly).
    pub fn accepts(&self, claims: &TokenClaims) -> (b: bool)
        ensures
            b == accepts_spec(*self, *claims),
    {
        if !(self.active && self.tenant_id == claims.tenant_id && self.token_version
            == claims.version) {
            return false;
        }
        let mut i: usize = 0;
        while i < self.revoked_jtis.len()
            invariant
                i <= self.revoked_jtis.len(),
                forall|j: int| 0 <= j < i ==> self.revoked_jtis@[j] != claims.jti,
            decreases self.revoked_jtis.len() - i,
        {
            if self.revoked_jtis[i] == claims.jti {
                return false;
            }
            i += 1;
        }
        true
    }

    /// A copy of the membership.
    pub fn duplicate(&self) -> (m: Membership)
        ensures
            m.tenant_id == self.tenant_id,
            m.role == self.role,
            m.active == self.active,
            m.token_version == self.token_version,
            m.revoked_jtis@ == self.revoked_jtis@,
    {
        let mut jtis: Vec<u128> = Vec::new();
        let mut i: usize = 0;
        while i < self.revoked_jtis.len()
            invariant
                i <= self.revoked_jtis.len(),
                jtis@ == self.revoked_jtis@.take(i as int),
            decreases self.revoked_jtis.len() - i,
        {
            jtis.push(self.revoked_jtis[i]);
            assert(self.revoked_jtis@.take(i + 1) =~= self.revoked_jtis@.take(i as int).push(
                self.revoked_jtis@[i as int],
            ));
            i += 1;
        }
        assert(self.revoked_jtis@.take(self.revoked_jtis.len() as int) =~= self.revoked_jtis@);
        Membership {
            tenant_id: self.tenant_id,
            role: self.role,
            active: self.active,
            token_version: self.token_version,
            revoked_jtis: jtis,
        }
    }
}

/// The membership a stored user row denotes. A role name the system does not
/// know is an internal error.
pub fn membership_from_row(
    tenant_id: u128,
    role: &str,
    active: bool,
    token_version: i32,
    revoked_jtis: Vec<u128>,
) -> (r: Result<Membership, ApiError>)
    ensures
        role_named(role@) is Some <==> r is Ok,
        r matches Ok(m) ==> m.tenant_id == tenant_id && Some(m.role) == role_named(role@)
            && m.active == active && m.token_version == token_version && m.revoked_jtis@
            == revoked_jtis@,
        r matches Err(e) ==> e@ == internal_view("unknown role "@ + debug_text(role@)),
{
    match Role::from_name(role) {
        Some(r) => Ok(Membership { tenant_id, role: r, active, token_version, revoked_jtis }),
        None => {
            let msg = String::from_str("unknown role ").concat(debug_quote(role).as_str());
            Err(ApiError::internal(msg.as_str()))
        },
    }
}

/// Cached [`Membership`] per user.
pub struct RoleCache {
    entries: TimedCache<Membership>,
}

impl RoleCache {
    /// The cache is well formed.
    pub closed spec fn wf(&self) -> bool {
        self.entries.wf()
    }

    /// What is cached, per user: fetch time and membership.
    pub closed spec fn contents(&self) -> Map<u128, (u64, Membership)> {
        self.entries@
    }

    /// An empty cache.
    pub fn new() -> (c: Self)
        ensures
            c.wf(),
            c.contents() == Map::<u128, (u64, Membership)>::empty(),
    {
        RoleCache { entries: TimedCache::new() }
    }

    /// The user's cached membership while it is younger than the TTL.
    pub fn fresh(&self, user_id: u128, now: u64) -> (r: Option<Membership>)
        ensures
            match r {
                Some(m) => self.contents().contains_key(user_id) && is_fresh(
                    self.contents()[user_id].0,
                    now,
                    ROLE_CACHE_TTL_MS,
                ) && m.tenant_id == self.contents()[user_id].1.tenant_id && m.role
                    == self.contents()[user_id].1.role && m.active
                    == self.contents()[user_id].1.active && m.token_version
                    == self.contents()[user_id].1.token_version && m.revoked_jtis@
                    == self.contents()[user_id].1.revoked_jtis@,
                None => !(self.contents().contains_key(user_id) && is_fresh(
                    self.contents()[user_id].0,
                    now,
                    ROLE_CACHE_TTL_MS,
                )),
            },
    {
        match self.entries.fresh(user_id, now, ROLE_CACHE_TTL_MS) {
            Some(m) => Some(m.duplicate()),
            None => None,
        }
    }

    /// Caches a freshly read membership for the user.
    pub fn store(&mut self, user_id: u128, membership: Membership, now: u64)
        requires
            old(self).wf(),
        ensures
            final(self).wf(),
            final(self).contents() == stored(
                old(self).contents(),
                user_id,
                membership,
                now,
                ROLE_CACHE_TTL_MS,
                ROLE_CACHE_MAX_ENTRIES,
            ),
    {
        self.entries.store(user_id, membership, now, ROLE_CACHE_TTL_MS, ROLE_CACHE_MAX_ENTRIES);
    }

    /// Drops a user's cached membership (after changing their role, active
    /// flag or token version, or revoking one of their tokens).
    pub fn invalidate(&mut self, user_id: u128)
        requires
            old(self).wf(),
        ensures
            final(self).wf(),
            final(self).contents() == old(self).contents().remove(user_id),
            !final(self).contents().contains_key(user_id),
    {
        self.entries.invalidate(user_id);
    }
}

/// A revoked token, a token of another version or another tenant, and any
/// token of an inactive account are all refused.
pub proof fn law_revocation_is_final(m: Membership, c: TokenClaims)
    ensures
        m.revoked_jtis@.contains(c.jti) ==> !accepts_spec(m, c),
        m.token_version != c.version ==> !accepts_spec(m, c),
        m.tenant_id != c.tenant_id ==> !accepts_spec(m, c),
        !m.active ==> !accepts_spec(m, c),
{
}

} // verus!
