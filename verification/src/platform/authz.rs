//! Role-based access control.
//!
//! Every authenticated request is authorised from its route template: the
//! first path segment after `/api/v1` names an [`Area`], and the method gives
//! the [`Access`] needed (reads for `GET` and `HEAD`, writes otherwise). Each
//! [`Role`] has a fixed access level per area. Routes outside the map are
//! refused.
//!
//! Rules that depend on the record rather than the route (approving a label
//! record, for example) are checked in their services with
//! [`Role::is_manager`].

use vstd::prelude::*;

use super::errors::{plain_view, ApiError, ApiErrorView, ErrorKind};
use crate::text::{
    chars_eq, chars_of, list_contains, split_chars, split_on, str_eq, str_views, string_of,
    sub_chars,
};

verus! {

/// A tenant member's role, stored in `users.role`.
#[derive(PartialEq, Eq, Structural, Clone, Copy, Debug)]
pub enum Role {
    Owner,
    Manager,
    Brewer,
    Sales,
    Viewer,
}

/// The stored name of a role.
pub open spec fn role_name(r: Role) -> Seq<char> {
    match r {
        Role::Owner => "owner"@,
        Role::Manager => "manager"@,
        Role::Brewer => "brewer"@,
        Role::Sales => "sales"@,
        Role::Viewer => "viewer"@,
    }
}

/// The role a stored name denotes, if any.
pub open spec fn role_named(s: Seq<char>) -> Option<Role> {
    if s == "owner"@ {
        Some(Role::Owner)
    } else if s == "manager"@ {
        Some(Role::Manager)
    } else if s == "brewer"@ {
        Some(Role::Brewer)
    } else if s == "sales"@ {
        Some(Role::Sales)
    } else if s == "viewer"@ {
        Some(Role::Viewer)
    } else {
        None
    }
}

impl Role {
    /// Every role, most privileged first.
    pub const ALL: [Role; 5] = [Role::Owner, Role::Manager, Role::Brewer, Role::Sales, Role::Viewer];

    /// The stored name of the role.
    pub fn as_str(self) -> (s: &'static str)
        ensures
            s@ == role_name(self),
    {
        match self {
            Role::Owner => "owner",
            Role::Manager => "manager",
            Role::Brewer => "brewer",
            Role::Sales => "sales",
            Role::Viewer => "viewer",
        }
    }

    /// Owner or Manager: compliance sign-off and corrections to finished records.
    pub fn is_manager(self) -> (b: bool)
        ensures
            b == (self == Role::Owner || self == Role::Manager),
    {
        match self {
            Role::Owner | Role::Manager => true,
            _ => false,
        }
    }

    /// The role with this stored name, if any.
    pub fn from_name(s: &str) -> (r: Option<Role>)
        ensures
            r == role_named(s@),
    {
        if str_eq(s, "owner") {
            Some(Role::Owner)
        } else if str_eq(s, "manager") {
            Some(Role::Manager)
        } else if str_eq(s, "brewer") {
            Some(Role::Brewer)
        } else if str_eq(s, "sales") {
            Some(Role::Sales)
        } else if str_eq(s, "viewer") {
            Some(Role::Viewer)
        } else {
            None
        }
    }
}

impl core::str::FromStr for Role {
    type Err = ();

    /// The role with this stored name; `Err(())` for any other text.
    fn from_str(s: &str) -> (r: Result<Role, ()>)
        ensures
            match role_named(s@) {
                Some(x) => r == Ok::<Role, ()>(x),
                None => r == Err::<Role, ()>(()),
            },
    {
        match Role::from_name(s) {
            Some(r) => Ok(r),
            None => Err(()),
        }
    }
}

/// A group of routes that share one row of the permission table.
#[derive(PartialEq, Eq, Structural, Clone, Copy, Debug)]
pub enum Area {
    /// The caller's own account (`/auth/me`, logout).
    Account,
    /// Tenant settings: everyone reads them; only the Owner changes them.
    Tenant,
    /// The dashboard summary.
    Dashboard,
    /// Recipes, library, water, yeast bank, inventory, suppliers, purchase
    /// orders, batches, fermentation, fermenters, equipment, calendar,
    /// packaging runs, label designs and records, and traceability.
    Production,
    /// Distribution movements and returnable containers.
    Distribution,
    /// Customers and sales orders.
    Sales,
    /// Cost rates, batch costs and cost reports.
    Costs,
    /// Duty returns and duty events.
    Duty,
    /// The compliance audit log.
    Audit,
    /// Tenant members: Owners and Managers manage them; nobody else sees the list.
    Members,
}

/// How much a role may do in an area. Ordered: `Write` includes `Read`.
#[derive(PartialEq, Eq, Structural, Clone, Copy, Debug, PartialOrd, Ord)]
pub enum Access {
    NoAccess,
    Read,
    Write,
}

/// The position of an access level in its order.
pub open spec fn rank(a: Access) -> int {
    match a {
        Access::NoAccess => 0,
        Access::Read => 1,
        Access::Write => 2,
    }
}

/// The permission table: the most `role` may do in `area`.
pub open spec fn grant(role: Role, area: Area) -> Access {
    match area {
        Area::Account => Access::Write,
        Area::Dashboard => Access::Read,
        Area::Tenant => if role == Role::Owner {
            Access::Write
        } else {
            Access::Read
        },
        Area::Production => match role {
            Role::Owner | Role::Manager | Role::Brewer => Access::Write,
            Role::Sales | Role::Viewer => Access::Read,
        },
        Area::Distribution => if role == Role::Viewer {
            Access::Read
        } else {
            Access::Write
        },
        Area::Sales => match role {
            Role::Owner | Role::Manager | Role::Sales => Access::Write,
            Role::Brewer | Role::Viewer => Access::Read,
        },
        Area::Costs => match role {
            Role::Owner | Role::Manager => Access::Write,
            Role::Brewer | Role::Viewer => Access::Read,
            Role::Sales => Access::NoAccess,
        },
        Area::Duty => match role {
            Role::Owner | Role::Manager => Access::Write,
            Role::Viewer => Access::Read,
            Role::Brewer | Role::Sales => Access::NoAccess,
        },
        Area::Audit => match role {
            Role::Owner | Role::Manager | Role::Viewer => Access::Read,
            Role::Brewer | Role::Sales => Access::NoAccess,
        },
        Area::Members => match role {
            Role::Owner | Role::Manager => Access::Write,
            Role::Brewer | Role::Sales | Role::Viewer => Access::NoAccess,
        },
    }
}

/// The most `role` may do in `area`.
pub fn granted(role: Role, area: Area) -> (a: Access)
    ensures
        a == grant(role, area),
{
    match area {
        Area::Account => Access::Write,
        Area::Dashboard => Access::Read,
        Area::Tenant => match role {
            Role::Owner => Access::Write,
            _ => Access::Read,
        },
        Area::Production => match role {
            Role::Owner | Role::Manager | Role::Brewer => Access::Write,
            Role::Sales | Role::Viewer => Access::Read,
        },
        Area::Distribution => match role {
            Role::Viewer => Access::Read,
            _ => Access::Write,
        },
        Area::Sales => match role {
            Role::Owner | Role::Manager | Role::Sales => Access::Write,
            Role::Brewer | Role::Viewer => Access::Read,
        },
        Area::Costs => match role {
            Role::Owner | Role::Manager => Access::Write,
            Role::Brewer | Role::Viewer => Access::Read,
            Role::Sales => Access::NoAccess,
        },
        Area::Duty => match role {
            Role::Owner | Role::Manager => Access::Write,
            Role::Viewer => Access::Read,
            Role::Brewer | Role::Sales => Access::NoAccess,
        },
        Area::Audit => match role {
            Role::Owner | Role::Manager | Role::Viewer => Access::Read,
            Role::Brewer | Role::Sales => Access::NoAccess,
        },
        Area::Members => match role {
            Role::Owner | Role::Manager => Access::Write,
            Role::Brewer | Role::Sales | Role::Viewer => Access::NoAccess,
        },
    }
}

/// The first path segments that belong to the production area.
pub open spec fn production_segments() -> Seq<Seq<char>> {
    seq![
        "library"@,
        "inventory"@,
        "stock-movements"@,
        "recipes"@,
        "batches"@,
        "calendar-events"@,
        "fermenters"@,
        "yeast-kinetics"@,
        "water-profiles"@,
        "water-adjustments"@,
        "yeast-bank"@,
        "equipment"@,
        "maintenance-due"@,
        "suppliers"@,
        "purchase-orders"@,
        "packaging-runs"@,
        "label-records"@,
        "label-designs"@,
        "brand-profiles"@,
        "brand-assets"@,
        "traceability"@,
    ]
}

/// The first path segments that belong to the distribution area.
pub open spec fn distribution_segments() -> Seq<Seq<char>> {
    seq!["distribution-movements"@, "container-assets"@, "container-logs"@, "qr-codes"@]
}

/// The area the first path segment after `/api/v1/` names.
pub open spec fn area_of_segment(seg: Seq<char>) -> Option<Area> {
    if seg == "auth"@ {
        Some(Area::Account)
    } else if seg == "tenants"@ {
        Some(Area::Tenant)
    } else if seg == "dashboard"@ {
        Some(Area::Dashboard)
    } else if production_segments().contains(seg) {
        Some(Area::Production)
    } else if distribution_segments().contains(seg) {
        Some(Area::Distribution)
    } else if seg == "customers"@ || seg == "orders"@ {
        Some(Area::Sales)
    } else if seg == "cost-rates"@ || seg == "batch-costs"@ || seg == "cost-reports"@ {
        Some(Area::Costs)
    } else if seg == "duty-returns"@ || seg == "duty-events"@ {
        Some(Area::Duty)
    } else if seg == "compliance-audit"@ {
        Some(Area::Audit)
    } else if seg == "members"@ {
        Some(Area::Members)
    } else {
        None
    }
}

/// The route prefix every mapped route starts with.
pub open spec fn api_prefix() -> Seq<char> {
    "/api/v1/"@
}

/// Whether a request is a read: `GET`, `HEAD`, or the water calculation
/// (which changes nothing).
pub open spec fn is_read(method: Seq<char>, path: Seq<char>) -> bool {
    method == "GET"@ || method == "HEAD"@ || path == "/api/v1/water-adjustments/calculate"@
}

/// The area and access a route needs, from its method name and matched path
/// template; `None` for routes outside the map.
pub open spec fn requirement_of(method: Seq<char>, path: Seq<char>) -> Option<(Area, Access)> {
    if !api_prefix().is_prefix_of(path) {
        None
    } else {
        let rest = path.skip(api_prefix().len() as int);
        let seg = split_on(rest, '/')[0];
        match area_of_segment(seg) {
            None => None,
            Some(a) => Some(
                (
                    a,
                    if is_read(method, path) {
                        Access::Read
                    } else {
                        Access::Write
                    },
                ),
            ),
        }
    }
}

/// The outcome of authorising `role` for a route.
pub open spec fn authorization_of(role: Role, method: Seq<char>, path: Seq<char>) -> Result<
    (),
    ApiErrorView,
> {
    match requirement_of(method, path) {
        None => Err(plain_view(ErrorKind::Forbidden, "This route has no permission rule."@)),
        Some((area, needed)) => if rank(grant(role, area)) >= rank(needed) {
            Ok(())
        } else {
            Err(
                plain_view(
                    ErrorKind::Forbidden,
                    "The "@ + role_name(role) + " role does not allow this action."@,
                ),
            )
        },
    }
}

fn production_segments_exec() -> (v: Vec<&'static str>)
    ensures
        str_views(v@) == production_segments(),
{
    let mut v: Vec<&'static str> = Vec::new();
    v.push("library");
    v.push("inventory");
    v.push("stock-movements");
    v.push("recipes");
    v.push("batches");
    v.push("calendar-events");
    v.push("fermenters");
    v.push("yeast-kinetics");
    v.push("water-profiles");
    v.push("water-adjustments");
    v.push("yeast-bank");
    v.push("equipment");
    v.push("maintenance-due");
    v.push("suppliers");
    v.push("purchase-orders");
    v.push("packaging-runs");
    v.push("label-records");
    v.push("label-designs");
    v.push("brand-profiles");
    v.push("brand-assets");
    v.push("traceability");
    assert(str_views(v@) =~= production_segments());
    v
}

fn distribution_segments_exec() -> (v: Vec<&'static str>)
    ensures
        str_views(v@) == distribution_segments(),
{
    let mut v: Vec<&'static str> = Vec::new();
    v.push("distribution-movements");
    v.push("container-assets");
    v.push("container-logs");
    v.push("qr-codes");
    assert(str_views(v@) =~= distribution_segments());
    v
}

/// The area a first path segment names.
fn area_for_segment(seg: &str) -> (a: Option<Area>)
    ensures
        a == area_of_segment(seg@),
{
    if str_eq(seg, "auth") {
        Some(Area::Account)
    } else if str_eq(seg, "tenants") {
        Some(Area::Tenant)
    } else if str_eq(seg, "dashboard") {
        Some(Area::Dashboard)
    } else if list_contains(&production_segments_exec(), seg) {
        Some(Area::Production)
    } else if list_contains(&distribution_segments_exec(), seg) {
        Some(Area::Distribution)
    } else if str_eq(seg, "customers") || str_eq(seg, "orders") {
        Some(Area::Sales)
    } else if str_eq(seg, "cost-rates") || str_eq(seg, "batch-costs") || str_eq(
        seg,
        "cost-reports",
    ) {
        Some(Area::Costs)
    } else if str_eq(seg, "duty-returns") || str_eq(seg, "duty-events") {
        Some(Area::Duty)
    } else if str_eq(seg, "compliance-audit") {
        Some(Area::Audit)
    } else if str_eq(seg, "members") {
        Some(Area::Members)
    } else {
        None
    }
}

/// Whether `prefix` is a prefix of `v`.
fn starts_with_chars(v: &Vec<char>, prefix: &Vec<char>) -> (r: bool)
    ensures
        r == prefix@.is_prefix_of(v@),
{
    if prefix.len() > v.len() {
        return false;
    }
    let head = sub_chars(v, 0, prefix.len());
    let r = chars_eq(&head, prefix);
    proof {
        if r {
            assert(prefix@ =~= v@.take(prefix@.len() as int));
        } else {
            assert(v@.take(prefix@.len() as int) =~= head@);
        }
    }
    r
}

/// The area and access a route needs, from its method name (`GET`, `POST`,
/// ...) and its matched path template (for example `/api/v1/batches/{id}`).
/// `None` for routes outside the map, which are refused.
pub fn requirement(method: &str, path: &str) -> (r: Option<(Area, Access)>)
    ensures
        r == requirement_of(method@, path@),
{
    let pv = chars_of(path);
    let prefix = chars_of("/api/v1/");
    if !starts_with_chars(&pv, &prefix) {
        return None;
    }
    let rest = sub_chars(&pv, prefix.len(), pv.len());
    assert(rest@ =~= path@.skip(api_prefix().len() as int));
    let segs = split_chars(&rest, '/');
    proof {
        crate::text::lemma_split_nonempty(rest@, '/');
    }
    let seg = string_of(&segs[0]);
    match area_for_segment(seg.as_str()) {
        None => None,
        Some(area) => {
            let read = str_eq(method, "GET") || str_eq(method, "HEAD") || str_eq(
                path,
                "/api/v1/water-adjustments/calculate",
            );
            Some(
                (
                    area,
                    if read {
                        Access::Read
                    } else {
                        Access::Write
                    },
                ),
            )
        },
    }
}

/// The numeric position of an access level.
fn access_rank(a: Access) -> (r: u8)
    ensures
        r == rank(a),
{
    match a {
        Access::NoAccess => 0,
        Access::Read => 1,
        Access::Write => 2,
    }
}

/// Refuses the request unless `role` may call the route: unmapped routes are
/// always refused, and a mapped one needs at least the access it requires.
pub fn authorize(role: Role, method: &str, path: &str) -> (r: Result<(), ApiError>)
    ensures
        match r {
            Ok(()) => authorization_of(role, method@, path@) == Ok::<(), ApiErrorView>(()),
            Err(e) => authorization_of(role, method@, path@) == Err::<(), ApiErrorView>(e@),
        },
{
    match requirement(method, path) {
        None => Err(ApiError::forbidden("This route has no permission rule.")),
        Some((area, needed)) => {
            if access_rank(granted(role, area)) >= access_rank(needed) {
                Ok(())
            } else {
                let msg = String::from_str("The ").concat(role.as_str()).concat(
                    " role does not allow this action.",
                );
                Err(ApiError::forbidden(msg.as_str()))
            }
        },
    }
}

/// Every stored role name parses back to its role, and a name parses to a
/// role only if it is that role's name.
pub proof fn law_role_names_round_trip(r: Role, s: Seq<char>)
    ensures
        role_named(role_name(r)) == Some(r),
        role_named(s) == Some(r) ==> s == role_name(r),
{
    reveal_strlit("owner");
    reveal_strlit("manager");
    reveal_strlit("brewer");
    reveal_strlit("sales");
    reveal_strlit("viewer");
    assert("owner"@[0] != "manager"@[0] && "owner"@[0] != "brewer"@[0] && "owner"@[0]
        != "sales"@[0] && "owner"@[0] != "viewer"@[0]);
    assert("manager"@[0] != "brewer"@[0] && "manager"@[0] != "sales"@[0] && "manager"@[0]
        != "viewer"@[0]);
    assert("brewer"@[0] != "sales"@[0] && "brewer"@[0] != "viewer"@[0]);
    assert("sales"@[0] != "viewer"@[0]);
}

/// The Owner may do at least as much as any other role in every area, and
/// every role may use its own account and read the dashboard.
pub proof fn law_owner_is_most_privileged(r: Role, area: Area)
    ensures
        rank(grant(Role::Owner, area)) >= rank(grant(r, area)),
        grant(r, Area::Account) == Access::Write,
        rank(grant(r, Area::Dashboard)) >= rank(Access::Read),
        grant(r, Area::Tenant) == Access::Write <==> r == Role::Owner,
{
}

/// Write includes Read: a role that may write in an area may also read
/// there, so whenever a write route is authorised, the reads of the same
/// area are too.
pub proof fn law_write_includes_read(role: Role, area: Area)
    ensures
        grant(role, area) == Access::Write ==> rank(grant(role, area)) >= rank(Access::Read),
{
}

/// A route outside `/api/v1/` is refused for every role.
pub proof fn law_unmapped_routes_refused(role: Role, method: Seq<char>, path: Seq<char>)
    requires
        !api_prefix().is_prefix_of(path),
    ensures
        authorization_of(role, method, path) is Err,
{
}


/// The area and access of a route under `/api/v1/` whose first segment is
/// `seg` (no `/` in it) followed by `tail` (empty, or starting at the next
/// `/`).
proof fn lemma_route_of_segment(method: Seq<char>, seg: Seq<char>, tail: Seq<char>)
    requires
        forall|j: int| 0 <= j < seg.len() ==> seg[j] != '/',
        tail.len() == 0 || tail[0] == '/',
    ensures
        requirement_of(method, "/api/v1/"@ + seg + tail) == match area_of_segment(seg) {
            None => None,
            Some(a) => Some(
                (
                    a,
                    if is_read(method, "/api/v1/"@ + seg + tail) {
                        Access::Read
                    } else {
                        Access::Write
                    },
                ),
            ),
        },
{
    reveal_strlit("/api/v1/");
    let path = "/api/v1/"@ + seg + tail;
    assert(api_prefix() == "/api/v1/"@);
    assert(path.take(8) =~= "/api/v1/"@);
    assert(api_prefix().is_prefix_of(path));
    let rest = path.skip(8);
    assert(rest =~= seg + tail);
    crate::text::lemma_split_first(rest, '/', seg.len() as int);
    assert(rest.take(seg.len() as int) =~= seg);
}

/// Customers and sales orders are the Sales area: on any route under
/// `/api/v1/customers` or `/api/v1/orders`, `GET` and `HEAD` need read access
/// there and every other method write access; so a Brewer may list and read
/// them but not create, change or delete them, while Sales staff may.
pub proof fn law_customers_and_orders_are_sales(method: Seq<char>, seg: Seq<char>, tail: Seq<char>)
    requires
        seg == "customers"@ || seg == "orders"@,
        tail.len() == 0 || tail[0] == '/',
    ensures
        requirement_of(method, "/api/v1/"@ + seg + tail) == Some(
            (
                Area::Sales,
                if method == "GET"@ || method == "HEAD"@ {
                    Access::Read
                } else {
                    Access::Write
                },
            ),
        ),
        authorization_of(Role::Brewer, method, "/api/v1/"@ + seg + tail) is Ok <==> (method == "GET"@
            || method == "HEAD"@),
        authorization_of(Role::Sales, method, "/api/v1/"@ + seg + tail) is Ok,
        authorization_of(Role::Viewer, method, "/api/v1/"@ + seg + tail) is Ok <==> (method == "GET"@
            || method == "HEAD"@),
{
    reveal_strlit("customers");
    reveal_strlit("orders");
    reveal_strlit("/api/v1/");
    reveal_strlit("/api/v1/water-adjustments/calculate");
    reveal_strlit("auth");
    reveal_strlit("tenants");
    reveal_strlit("dashboard");
    let path = "/api/v1/"@ + seg + tail;
    assert forall|j: int| 0 <= j < seg.len() implies seg[j] != '/' by {
        if seg == "customers"@ {
            assert(seg[j] != '/');
        } else {
            assert(seg[j] != '/');
        }
    }
    lemma_route_of_segment(method, seg, tail);
    assert(!production_segments().contains(seg)) by {
        if production_segments().contains(seg) {
            let i = choose|i: int| 0 <= i < production_segments().len() && production_segments()[i] == seg;
            lemma_production_segment_first(i);
        }
    }
    assert(!distribution_segments().contains(seg)) by {
        if distribution_segments().contains(seg) {
            let i = choose|i: int| 0 <= i < distribution_segments().len() && distribution_segments()[i] == seg;
            lemma_distribution_segment_first(i);
        }
    }
    assert(area_of_segment(seg) == Some(Area::Sales));
    assert(path[8] == seg[0]);
    assert("/api/v1/water-adjustments/calculate"@[8] == 'w');
    assert(path != "/api/v1/water-adjustments/calculate"@);
    assert(is_read(method, path) == (method == "GET"@ || method == "HEAD"@));
}

/// No production segment has the length and first char of `customers` or
/// of `orders`.
proof fn lemma_production_segment_first(i: int)
    requires
        0 <= i < production_segments().len(),
    ensures
        !(production_segments()[i].len() == 9 && production_segments()[i][0] == 'c'),
        !(production_segments()[i].len() == 6 && production_segments()[i][0] == 'o'),
{
    reveal_strlit("library");
    reveal_strlit("inventory");
    reveal_strlit("stock-movements");
    reveal_strlit("recipes");
    reveal_strlit("batches");
    reveal_strlit("calendar-events");
    reveal_strlit("fermenters");
    reveal_strlit("yeast-kinetics");
    reveal_strlit("water-profiles");
    reveal_strlit("water-adjustments");
    reveal_strlit("yeast-bank");
    reveal_strlit("equipment");
    reveal_strlit("maintenance-due");
    reveal_strlit("suppliers");
    reveal_strlit("purchase-orders");
    reveal_strlit("packaging-runs");
    reveal_strlit("label-records");
    reveal_strlit("label-designs");
    reveal_strlit("brand-profiles");
    reveal_strlit("brand-assets");
    reveal_strlit("traceability");
    let p = production_segments()[i];
    if i == 0 {
        assert(p == "library"@);
    }
    if i == 1 {
        assert(p == "inventory"@);
    }
    if i == 2 {
        assert(p == "stock-movements"@);
    }
    if i == 3 {
        assert(p == "recipes"@);
    }
    if i == 4 {
        assert(p == "batches"@);
    }
    if i == 5 {
        assert(p == "calendar-events"@);
    }
    if i == 6 {
        assert(p == "fermenters"@);
    }
    if i == 7 {
        assert(p == "yeast-kinetics"@);
    }
    if i == 8 {
        assert(p == "water-profiles"@);
    }
    if i == 9 {
        assert(p == "water-adjustments"@);
    }
    if i == 10 {
        assert(p == "yeast-bank"@);
    }
    if i == 11 {
        assert(p == "equipment"@);
    }
    if i == 12 {
        assert(p == "maintenance-due"@);
    }
    if i == 13 {
        assert(p == "suppliers"@);
    }
    if i == 14 {
        assert(p == "purchase-orders"@);
    }
    if i == 15 {
        assert(p == "packaging-runs"@);
    }
    if i == 16 {
        assert(p == "label-records"@);
    }
    if i == 17 {
        assert(p == "label-designs"@);
    }
    if i == 18 {
        assert(p == "brand-profiles"@);
    }
    if i == 19 {
        assert(p == "brand-assets"@);
    }
    if i == 20 {
        assert(p == "traceability"@);
    }
}

/// No distribution segment has the length and first char of `customers` or
/// of `orders`.
proof fn lemma_distribution_segment_first(i: int)
    requires
        0 <= i < distribution_segments().len(),
    ensures
        !(distribution_segments()[i].len() == 9 && distribution_segments()[i][0] == 'c'),
        !(distribution_segments()[i].len() == 6 && distribution_segments()[i][0] == 'o'),
{
    reveal_strlit("distribution-movements");
    reveal_strlit("container-assets");
    reveal_strlit("container-logs");
    reveal_strlit("qr-codes");
    let p = distribution_segments()[i];
    if i == 0 {
        assert(p == "distribution-movements"@);
    }
    if i == 1 {
        assert(p == "container-assets"@);
    }
    if i == 2 {
        assert(p == "container-logs"@);
    }
    if i == 3 {
        assert(p == "qr-codes"@);
    }
}

} // verus!
