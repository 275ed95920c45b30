//! Member request payloads and the checks they pass before the service sees
//! them.

use vstd::prelude::*;
use crate::platform::authz::role_named;
use crate::platform::email::{email_accepted, is_email};
use crate::platform::errors::{validation_view, ApiError, ApiErrorView};
use crate::text::chars_of;
use super::service::validate_role;

verus! {

/// A change to a member: a new role, or (de)activation, or both.
pub struct PatchMemberRequest {
    pub role: Option<String>,
    pub is_active: Option<bool>,
}

/// An invitation of a new member by e-mail address.
pub struct CreateInvitationRequest {
    pub email: String,
    pub role: String,
}

/// What checking a member patch gives: a given role must be known.
pub open spec fn patch_member_check(r: PatchMemberRequest) -> Result<(), ApiErrorView> {
    match r.role {
        Some(role) => if role_named(role@) is Some {
            Ok(())
        } else {
            Err(validation_view("role"@, "role"@))
        },
        None => Ok(()),
    }
}

/// What checking an invitation gives: the e-mail address must be one and
/// at most 254 chars (its form is checked first), and the role known.
pub open spec fn invitation_check(r: CreateInvitationRequest) -> Result<(), ApiErrorView> {
    if !email_accepted(r.email@) {
        Err(validation_view("email"@, "email"@))
    } else if r.email@.len() > 254 {
        Err(validation_view("email"@, "length"@))
    } else if role_named(r.role@) is None {
        Err(validation_view("role"@, "role"@))
    } else {
        Ok(())
    }
}

impl PatchMemberRequest {
    /// Checks a given role name (`role` code when unknown).
    pub fn validate(&self) -> (r: Result<(), ApiError>)
        ensures
            match r {
                Ok(()) => patch_member_check(*self) is Ok,
                Err(e) => patch_member_check(*self) == Err::<(), ApiErrorView>(e@),
            },
    {
        if let Some(role) = &self.role {
            if let Err(code) = validate_role(role.as_str()) {
                return Err(ApiError::validation("role", code));
            }
        }
        Ok(())
    }
}

impl CreateInvitationRequest {
    /// Checks the e-mail address's form and length and the role name.
    pub fn validate(&self) -> (r: Result<(), ApiError>)
        ensures
            match r {
                Ok(()) => invitation_check(*self) is Ok,
                Err(e) => invitation_check(*self) == Err::<(), ApiErrorView>(e@),
            },
    {
        if !is_email(self.email.as_str()) {
            return Err(ApiError::validation("email", "email"));
        }
        if chars_of(self.email.as_str()).len() > 254 {
            return Err(ApiError::validation("email", "length"));
        }
        if let Err(code) = validate_role(self.role.as_str()) {
            return Err(ApiError::validation("role", code));
        }
        Ok(())
    }
}

} // verus!
