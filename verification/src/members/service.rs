//! Member rules. Managers may only manage Brewer, Sales and Viewer members,
//! and only to one of those roles; the tenant's last active Owner cannot be
//! demoted or deactivated; deactivation revokes the member's tokens.

use vstd::prelude::*;
use crate::platform::authz::{role_named, Role};
use crate::platform::errors::{business_rule_view, db_failure_view, from_db_failure, plain_view, DbFailure, validation_view, ApiError, ApiErrorView, ErrorKind};
use crate::text::{lowercase, to_lowercase, trim, trim_str};

verus! {

/// How long an invitation link stays valid, in days.
pub const INVITATION_TTL_DAYS: i64 = 7;

/// Brewer, Sales and Viewer: the members a Manager may manage.
pub open spec fn staff(role: Role) -> bool {
    role == Role::Brewer || role == Role::Sales || role == Role::Viewer
}

/// Brewer, Sales and Viewer: the members a Manager may manage.
pub fn is_staff(role: Role) -> (b: bool)
    ensures
        b == staff(role),
{
    match role {
        Role::Brewer | Role::Sales | Role::Viewer => true,
        _ => false,
    }
}

/// The refusal for an unknown role name.
pub open spec fn invalid_role_error() -> ApiErrorView {
    validation_view("role"@, "invalid"@)
}

/// The role a stored or requested name denotes, or a validation error.
pub fn parse_role(role: &str) -> (r: Result<Role, ApiError>)
    ensures
        match r {
            Ok(x) => role_named(role@) == Some(x),
            Err(e) => role_named(role@) is None && e@ == invalid_role_error(),
        },
{
    match Role::from_name(role) {
        Some(x) => Ok(x),
        None => Err(ApiError::validation("role", "invalid")),
    }
}

/// Checks a requested role name, else the `role` code.
pub fn validate_role(role: &str) -> (r: Result<(), &'static str>)
    ensures
        r is Ok <==> role_named(role@) is Some,
        r matches Err(code) ==> code@ == "role"@,
{
    match Role::from_name(role) {
        Some(_) => Ok(()),
        None => Err("role"),
    }
}

/// The refusal for any change that would leave a tenant without an active
/// Owner.
pub open spec fn last_owner_view() -> ApiErrorView {
    business_rule_view(
        "last_owner"@,
        "A tenant must keep an active Owner. Make another member an Owner first."@,
        seq![],
    )
}

/// Refusal for any change that would leave a tenant without an active Owner.
pub fn last_owner() -> (e: ApiError)
    ensures
        e@ == last_owner_view(),
{
    ApiError::business_rule(
        "last_owner",
        "A tenant must keep an active Owner. Make another member an Owner first.",
        Vec::new(),
    )
}

/// The refusal when a Manager reaches beyond staff members.
pub open spec fn manage_forbidden() -> ApiErrorView {
    plain_view(ErrorKind::Forbidden, "A Manager can only manage Brewer, Sales and Viewer members."@)
}

/// The refusal when a Manager invites beyond staff roles.
pub open spec fn invite_forbidden() -> ApiErrorView {
    plain_view(ErrorKind::Forbidden, "A Manager can only invite Brewer, Sales and Viewer members."@)
}

/// What a member patch body asks for, before the member is read: at least
/// one field, and a known role if one is given.
pub open spec fn body_outcome(role: Option<Seq<char>>, is_active: Option<bool>) -> Result<Option<Role>, ApiErrorView> {
    if role is None && is_active is None {
        Err(validation_view("body"@, "at least one field required"@))
    } else {
        match role {
            None => Ok(None),
            Some(name) => match role_named(name) {
                Some(x) => Ok(Some(x)),
                None => Err(invalid_role_error()),
            },
        }
    }
}

/// Checks a member patch body, returning the requested role, if any.
pub fn check_patch_body(role: &Option<String>, is_active: Option<bool>) -> (r: Result<Option<Role>, ApiError>)
    ensures
        match r {
            Ok(x) => body_outcome(crate::labels::models::opt_text(*role), is_active) == Ok::<Option<Role>, ApiErrorView>(x),
            Err(e) => body_outcome(crate::labels::models::opt_text(*role), is_active) == Err::<Option<Role>, ApiErrorView>(e@),
        },
{
    if role.is_none() && is_active.is_none() {
        return Err(ApiError::validation("body", "at least one field required"));
    }
    match role {
        None => Ok(None),
        Some(name) => match parse_role(name.as_str()) {
            Ok(x) => Ok(Some(x)),
            Err(e) => Err(e),
        },
    }
}

/// Whether a member with this role and flag is an active Owner.
pub open spec fn active_owner(role: Role, active: bool) -> bool {
    role == Role::Owner && active
}

/// A member change the caller may make: the new role and flag, and what
/// follows from them.
#[derive(Clone, Copy, Debug)]
pub struct MemberChange {
    pub role: Role,
    pub active: bool,
    /// The member is an active Owner and stops being one.
    pub loses_owner: bool,
    /// The member is deactivated: its refresh and access tokens go.
    pub revokes_tokens: bool,
    pub role_changed: bool,
    pub active_changed: bool,
}

/// The change a patch makes to a member, or why the caller may not make it.
pub open spec fn change_outcome(actor: Role, current: Role, current_active: bool, new_role: Option<Role>, new_active: Option<bool>) -> Result<(Role, bool), ApiErrorView> {
    let role = match new_role { Some(x) => x, None => current };
    let active = match new_active { Some(x) => x, None => current_active };
    if actor != Role::Owner && !(staff(current) && staff(role)) {
        Err(manage_forbidden())
    } else {
        Ok((role, active))
    }
}

/// Plans a member change: the stored role must be a known one; a Manager may
/// only move staff members between staff roles.
pub fn plan_member_patch(
    actor: Role,
    current_role: &str,
    current_active: bool,
    new_role: Option<Role>,
    new_active: Option<bool>,
) -> (r: Result<MemberChange, ApiError>)
    ensures
        role_named(current_role@) is None ==> (r matches Err(e) && e@ == invalid_role_error()),
        role_named(current_role@) matches Some(cur) ==> match r {
            Ok(c) => {
                &&& change_outcome(actor, cur, current_active, new_role, new_active) == Ok::<(Role, bool), ApiErrorView>((c.role, c.active))
                &&& c.loses_owner == (active_owner(cur, current_active) && !active_owner(c.role, c.active))
                &&& c.revokes_tokens == (current_active && !c.active)
                &&& c.role_changed == (c.role != cur)
                &&& c.active_changed == (c.active != current_active)
            },
            Err(e) => change_outcome(actor, cur, current_active, new_role, new_active) == Err::<(Role, bool), ApiErrorView>(e@),
        },
{
    let cur = parse_role(current_role)?;
    let role = match new_role {
        Some(x) => x,
        None => cur,
    };
    let active = match new_active {
        Some(x) => x,
        None => current_active,
    };
    if actor != Role::Owner && !(is_staff(cur) && is_staff(role)) {
        return Err(ApiError::forbidden("A Manager can only manage Brewer, Sales and Viewer members."));
    }
    let loses_owner = cur == Role::Owner && current_active && (role != Role::Owner || !active);
    Ok(MemberChange {
        role,
        active,
        loses_owner,
        revokes_tokens: current_active && !active,
        role_changed: role != cur,
        active_changed: active != current_active,
    })
}

/// Checks that a change keeps the tenant an active Owner, given how many
/// other active Owners it has.
pub fn check_owner_kept(change: &MemberChange, other_active_owners: i64) -> (r: Result<(), ApiError>)
    ensures
        r is Ok <==> !(change.loses_owner && other_active_owners == 0),
        r matches Err(e) ==> e@ == last_owner_view(),
{
    if change.loses_owner && other_active_owners == 0 {
        return Err(last_owner());
    }
    Ok(())
}

/// A change that passes both checks leaves the tenant an active Owner if it
/// had one: the member stays one, or another active Owner remains.
pub proof fn law_tenant_keeps_an_owner(
    actor: Role,
    current: Role,
    current_active: bool,
    new_role: Option<Role>,
    new_active: Option<bool>,
    other_active_owners: int,
)
    requires
        other_active_owners >= 0,
        other_active_owners > 0 || active_owner(current, current_active),
        change_outcome(actor, current, current_active, new_role, new_active) is Ok,
        !((active_owner(current, current_active) && !active_owner(
            change_outcome(actor, current, current_active, new_role, new_active)->Ok_0.0,
            change_outcome(actor, current, current_active, new_role, new_active)->Ok_0.1,
        )) && other_active_owners == 0),
    ensures
        other_active_owners > 0 || active_owner(
            change_outcome(actor, current, current_active, new_role, new_active)->Ok_0.0,
            change_outcome(actor, current, current_active, new_role, new_active)->Ok_0.1,
        ),
{
}

/// A Manager's accepted change starts and ends on a staff role.
pub proof fn law_manager_stays_within_staff(
    actor: Role,
    current: Role,
    current_active: bool,
    new_role: Option<Role>,
    new_active: Option<bool>,
)
    requires
        actor != Role::Owner,
        change_outcome(actor, current, current_active, new_role, new_active) is Ok,
    ensures
        staff(current),
        staff(change_outcome(actor, current, current_active, new_role, new_active)->Ok_0.0),
{
}

/// An invitation the caller may send: the normalised email and the role.
pub open spec fn invitation_outcome(actor: Role, email: Seq<char>, role: Seq<char>) -> Result<(Seq<char>, Role), ApiErrorView> {
    match role_named(role) {
        None => Err(invalid_role_error()),
        Some(r) => if actor != Role::Owner && !staff(r) {
            Err(invite_forbidden())
        } else {
            Ok((lowercase(trim(email)), r))
        },
    }
}

/// Plans an invitation: the role must be known, a Manager may only invite
/// staff, and the email is trimmed and lower-cased.
pub fn plan_invitation(actor: Role, email: &str, role: &str) -> (r: Result<(String, Role), ApiError>)
    ensures
        match r {
            Ok(p) => invitation_outcome(actor, email@, role@) == Ok::<(Seq<char>, Role), ApiErrorView>((p.0@, p.1)),
            Err(e) => invitation_outcome(actor, email@, role@) == Err::<(Seq<char>, Role), ApiErrorView>(e@),
        },
{
    let r = parse_role(role)?;
    if actor != Role::Owner && !is_staff(r) {
        return Err(ApiError::forbidden("A Manager can only invite Brewer, Sales and Viewer members."));
    }
    let trimmed = trim_str(email);
    Ok((to_lowercase(trimmed.as_str()), r))
}

/// What revoking an invitation for a stored role gives: an unknown role is
/// invalid, and a Manager may revoke only staff invitations.
pub open spec fn revoke_outcome(actor: Role, role: Seq<char>) -> Result<Role, ApiErrorView> {
    match role_named(role) {
        None => Err(invalid_role_error()),
        Some(x) => if actor != Role::Owner && !staff(x) {
            Err(manage_forbidden())
        } else {
            Ok(x)
        },
    }
}

/// Checks that the caller may revoke an invitation for this stored role: a
/// Manager only staff ones.
pub fn check_revoke(actor: Role, invitation_role: &str) -> (r: Result<Role, ApiError>)
    ensures
        match r {
            Ok(x) => revoke_outcome(actor, invitation_role@) == Ok::<Role, ApiErrorView>(x),
            Err(e) => revoke_outcome(actor, invitation_role@) == Err::<Role, ApiErrorView>(e@),
        },
        role_named(invitation_role@) is None ==> (r matches Err(e) && e@ == invalid_role_error()),
        role_named(invitation_role@) matches Some(x) ==> (if actor != Role::Owner && !staff(x) {
            r matches Err(e) && e@ == manage_forbidden()
        } else {
            r == Ok::<Role, ApiError>(x)
        }),
{
    let r = parse_role(invitation_role)?;
    if actor != Role::Owner && !is_staff(r) {
        return Err(ApiError::forbidden("A Manager can only manage Brewer, Sales and Viewer members."));
    }
    Ok(r)
}

/// Whether `user` with `role` is the tenant's only active Owner, given how
/// many other active Owners it has.
pub fn is_last_active_owner(role: Role, other_active_owners: i64) -> (b: bool)
    ensures
        b == (role == Role::Owner && other_active_owners == 0),
{
    role == Role::Owner && other_active_owners == 0
}

/// The refusal to invite an email that already has an account.
pub fn check_email_free(registered: bool) -> (r: Result<(), ApiError>)
    ensures
        r is Ok <==> !registered,
        r matches Err(e) ==> e@ == plain_view(ErrorKind::Conflict, "email"@ + ": "@ + "already has an account"@),
{
    if registered {
        return Err(ApiError::conflict("email", "already has an account"));
    }
    Ok(())
}

/// The error a failed invitation insert becomes, given whether the database reported
/// a unique violation and what the failure was: a violation is a conflict,
/// any other failure the database error.
pub fn invitation_failure(unique: bool, f: DbFailure) -> (r: ApiError)
    ensures
        unique ==> r@ == plain_view(ErrorKind::Conflict, "email"@ + ": "@ + "already has an open invitation"@),
        !unique ==> r@ == db_failure_view(f),
{
    if unique {
        ApiError::conflict("email", "already has an open invitation")
    } else {
        from_db_failure(f)
    }
}

/// The error a failed invitation insert becomes: a unique violation reported by the
/// database is a conflict, any other failure the database error.
pub fn invitation_insert_error(e: &sqlx::Error) -> (r: ApiError)
    ensures
        r@ == plain_view(ErrorKind::Conflict, "email"@ + ": "@ + "already has an open invitation"@)
            || r@ == plain_view(ErrorKind::NotFound, "resource"@ + " not found"@)
            || exists|t: Seq<char>| r@ == crate::platform::errors::internal_view(t),
{
    let unique = crate::platform::errors::is_unique_violation(e);
    invitation_failure(unique, crate::platform::errors::classify_db_error(e))
}


/// The roles a Manager may manage are exactly Brewer, Sales and Viewer: a
/// Manager may invite, revoke the invitation of, and move between roles a
/// member exactly when each role involved is one of these three, while an
/// Owner is never refused for the role.
pub proof fn law_managers_manage_brewers_sales_and_viewers(
    email: Seq<char>,
    role: Seq<char>,
    current: Role,
    current_active: bool,
    new_role: Option<Role>,
    new_active: Option<bool>,
)
    ensures
        role_named(role) matches Some(r) ==> (invitation_outcome(Role::Manager, email, role) is Ok <==> (r
            == Role::Brewer || r == Role::Sales || r == Role::Viewer)),
        role_named(role) matches Some(r) ==> (revoke_outcome(Role::Manager, role) is Ok <==> (r == Role::Brewer
            || r == Role::Sales || r == Role::Viewer)),
        role_named(role) is Some ==> invitation_outcome(Role::Owner, email, role) is Ok
            && revoke_outcome(Role::Owner, role) is Ok,
        ({
            let target = match new_role { Some(x) => x, None => current };
            change_outcome(Role::Manager, current, current_active, new_role, new_active) is Ok <==> ((
            current == Role::Brewer || current == Role::Sales || current == Role::Viewer) && (target
                == Role::Brewer || target == Role::Sales || target == Role::Viewer))
        }),
        change_outcome(Role::Owner, current, current_active, new_role, new_active) is Ok,
{
}

} // verus!
