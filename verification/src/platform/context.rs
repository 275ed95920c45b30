//! Request-scoped values: tenant id, user id, request id and acting user.
//!
//! They are populated by the authentication layer and read by handlers; an
//! absent context has no ids and a blank request id.

use vstd::prelude::*;

use super::errors::{plain_view, ApiError, ErrorKind};

verus! {

/// Values attached to every request as it flows through the middleware stack.
#[derive(Debug, Clone)]
pub struct RequestContext {
    pub tenant_id: Option<u128>,
    pub user_id: Option<u128>,
    pub request_id: String,
    /// Acting user for audit logging; usually equal to `user_id`.
    pub actor_id: Option<u128>,
}

impl RequestContext {
    /// An empty context: no ids and a blank request id.
    pub fn empty() -> (c: Self)
        ensures
            c.tenant_id is None,
            c.user_id is None,
            c.actor_id is None,
            c.request_id@ == Seq::<char>::empty(),
    {
        RequestContext { tenant_id: None, user_id: None, request_id: String::new(), actor_id: None }
    }

    /// The tenant id, or an `unauthorized` error when none is set.
    pub fn tenant_id(&self) -> (r: Result<u128, ApiError>)
        ensures
            match self.tenant_id {
                Some(id) => r == Ok::<u128, ApiError>(id),
                None => r matches Err(e) && e@ == plain_view(
                    ErrorKind::Unauthorized,
                    "missing tenant context"@,
                ),
            },
    {
        match self.tenant_id {
            Some(id) => Ok(id),
            None => Err(ApiError::unauthorized("missing tenant context")),
        }
    }

    /// The user id, or an `unauthorized` error when none is set.
    pub fn user_id(&self) -> (r: Result<u128, ApiError>)
        ensures
            match self.user_id {
                Some(id) => r == Ok::<u128, ApiError>(id),
                None => r matches Err(e) && e@ == plain_view(
                    ErrorKind::Unauthorized,
                    "missing user context"@,
                ),
            },
    {
        match self.user_id {
            Some(id) => Ok(id),
            None => Err(ApiError::unauthorized("missing user context")),
        }
    }
}

impl Default for RequestContext {
    fn default() -> (c: Self)
        ensures
            c.tenant_id is None,
            c.user_id is None,
            c.actor_id is None,
            c.request_id@ == Seq::<char>::empty(),
    {
        RequestContext::empty()
    }
}

} // verus!
