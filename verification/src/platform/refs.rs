//! Tenant checks for ids a client supplies in a request body.
//!
//! A foreign key only proves the referenced row exists, not that the caller's
//! tenant owns it. Before writing, services check that the id is a row of the
//! table visible to the caller; a row owned by another tenant is rejected with
//! exactly the same 400 as an id that does not exist, so the response cannot
//! be used to probe for other tenants' ids.

use vstd::prelude::*;

use super::errors::{validation_view, ApiError, ApiErrorView};

verus! {

/// The reserved tenant id that owns the shared library rows (the nil UUID).
pub const SYSTEM_TENANT_ID: u128 = 0;

/// A table a request body may reference.
#[derive(PartialEq, Eq, Structural, Clone, Copy, Debug)]
pub enum Ref {
    Batch,
    Fermenter,
    Recipe,
    WaterProfile,
    /// Library style: the caller's own or a shared system-tenant row.
    Style,
    /// Library equipment profile: the caller's own or a shared system-tenant row.
    EquipmentProfile,
    /// Library mash profile: the caller's own or a shared system-tenant row.
    MashProfile,
    /// Library yeast: the caller's own or a shared system-tenant row.
    LibraryYeast,
}

/// The table each reference names.
pub open spec fn table_of(r: Ref) -> Seq<char> {
    match r {
        Ref::Batch => "batches"@,
        Ref::Fermenter => "fermenters"@,
        Ref::Recipe => "recipes"@,
        Ref::WaterProfile => "water_profiles"@,
        Ref::Style => "styles"@,
        Ref::EquipmentProfile => "equipment_profiles"@,
        Ref::MashProfile => "mash_profiles"@,
        Ref::LibraryYeast => "yeasts"@,
    }
}

/// Whether the table is a shared library table.
pub open spec fn is_shared(r: Ref) -> bool {
    r == Ref::Style || r == Ref::EquipmentProfile || r == Ref::MashProfile || r == Ref::LibraryYeast
}

/// The existence query for a reference; `$1` is the id and `$2`, `$3` the
/// tenants whose rows are visible.
pub open spec fn exists_query_of(r: Ref) -> Seq<char> {
    "SELECT EXISTS (SELECT 1 FROM "@ + table_of(r) + " WHERE id = $1 AND tenant_id IN ($2, $3))"@
}

/// The error an id that is not visible gets.
pub open spec fn missing_ref_view(field: Seq<char>) -> ApiErrorView {
    validation_view(field, "references a resource that does not exist"@)
}

impl Ref {
    /// The referenced table. Static strings only, so it is safe to format into SQL.
    pub fn table(self) -> (t: &'static str)
        ensures
            t@ == table_of(self),
    {
        match self {
            Ref::Batch => "batches",
            Ref::Fermenter => "fermenters",
            Ref::Recipe => "recipes",
            Ref::WaterProfile => "water_profiles",
            Ref::Style => "styles",
            Ref::EquipmentProfile => "equipment_profiles",
            Ref::MashProfile => "mash_profiles",
            Ref::LibraryYeast => "yeasts",
        }
    }

    /// Shared library tables also accept rows owned by the system tenant.
    pub fn shared(self) -> (b: bool)
        ensures
            b == is_shared(self),
    {
        match self {
            Ref::Style | Ref::EquipmentProfile | Ref::MashProfile | Ref::LibraryYeast => true,
            _ => false,
        }
    }
}

/// The two tenants whose rows a reference may point at: the caller's, and the
/// system tenant for shared library tables (the caller's again otherwise).
pub fn visible_tenants(r: Ref, tenant_id: u128) -> (t: (u128, u128))
    ensures
        t.0 == tenant_id,
        t.1 == (if is_shared(r) {
            SYSTEM_TENANT_ID
        } else {
            tenant_id
        }),
{
    let also = if r.shared() {
        SYSTEM_TENANT_ID
    } else {
        tenant_id
    };
    (tenant_id, also)
}

/// The existence query for a reference, built from its static table name.
pub fn exists_query(r: Ref) -> (q: String)
    ensures
        q@ == exists_query_of(r),
{
    String::from_str("SELECT EXISTS (SELECT 1 FROM ").concat(r.table()).concat(
        " WHERE id = $1 AND tenant_id IN ($2, $3))",
    )
}

/// The answer for a reference once its visibility is known: `Ok` when the row
/// is visible, otherwise the same 400 on `field` whether the row is missing or
/// another tenant's.
pub fn ref_outcome(visible: bool, field: &str) -> (r: Result<(), ApiError>)
    ensures
        visible <==> r is Ok,
        r matches Err(e) ==> e@ == missing_ref_view(field@),
{
    if visible {
        Ok(())
    } else {
        Err(ApiError::validation(field, "references a resource that does not exist"))
    }
}

/// Whether an optional reference needs a check at all: `None` always passes.
pub fn needs_check(id: Option<u128>) -> (b: bool)
    ensures
        b == id is Some,
{
    id.is_some()
}

/// Every referenced table name is a plain identifier (lower-case ASCII
/// letters and underscores), so formatting it into SQL is safe.
pub proof fn law_tables_are_plain_identifiers(r: Ref)
    ensures
        forall|i: int|
            0 <= i < table_of(r).len() ==> ('a' <= #[trigger] table_of(r)[i] <= 'z' || table_of(r)[i]
                == '_'),
{
    reveal_strlit("batches");
    reveal_strlit("fermenters");
    reveal_strlit("recipes");
    reveal_strlit("water_profiles");
    reveal_strlit("styles");
    reveal_strlit("equipment_profiles");
    reveal_strlit("mash_profiles");
    reveal_strlit("yeasts");
}

} // verus!
