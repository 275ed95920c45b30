//! Library list filters, mash-step payloads, payload checks and the page
//! envelope.

use vstd::prelude::*;
use crate::platform::errors::{validation_view, ApiError};
use crate::platform::pagination::{total_pages, total_pages_of};
use crate::text::{chars_of, str_eq};

verus! {

/// A generic paginated response envelope.
pub struct Page<T> {
    pub items: Vec<T>,
    pub total: i64,
    pub page: i32,
    pub page_size: i32,
    /// `ceil(total / page_size)` when both are positive, else 0, cut to `i32`.
    pub total_pages: i32,
}

impl<T> Page<T> {
    /// Builds a page envelope, computing the total page count.
    pub fn new(items: Vec<T>, total: i64, page: i32, page_size: i32) -> (p: Self)
        ensures
            p.items == items,
            p.total == total,
            p.page == page,
            p.page_size == page_size,
            p.total_pages == total_pages_of(total as int, page_size as int) as i32,
    {
        let t = total_pages(total, page_size as i64);
        Page { items, total, page, page_size, total_pages: t as i32 }
    }
}

/// List-query parameters for styles.
#[derive(Clone, Debug)]
pub struct StyleFilter {
    pub category: Option<String>,
    pub name: Option<String>,
    pub page: i32,
    pub page_size: i32,
    pub sort: String,
}

impl Default for StyleFilter {
    fn default() -> (f: Self)
        ensures
            f.category is None && f.name is None && f.page == 0 && f.page_size == 0 && f.sort@.len() == 0,
    {
        StyleFilter { category: None, name: None, page: 0, page_size: 0, sort: String::new() }
    }
}

/// List-query parameters for equipment profiles.
#[derive(Clone, Debug)]
pub struct EquipmentFilter {
    pub name: Option<String>,
    pub page: i32,
    pub page_size: i32,
    pub sort: String,
}

impl Default for EquipmentFilter {
    fn default() -> (f: Self)
        ensures
            f.name is None && f.page == 0 && f.page_size == 0 && f.sort@.len() == 0,
    {
        EquipmentFilter { name: None, page: 0, page_size: 0, sort: String::new() }
    }
}

/// List-query parameters for mash profiles.
#[derive(Clone, Debug)]
pub struct MashFilter {
    pub name: Option<String>,
    pub page: i32,
    pub page_size: i32,
    pub sort: String,
}

impl Default for MashFilter {
    fn default() -> (f: Self)
        ensures
            f.name is None && f.page == 0 && f.page_size == 0 && f.sort@.len() == 0,
    {
        MashFilter { name: None, page: 0, page_size: 0, sort: String::new() }
    }
}

/// List-query parameters for yeasts.
#[derive(Clone, Debug)]
pub struct YeastFilter<N> {
    pub manufacturer: Option<String>,
    pub name: Option<String>,
    pub attenuation_min: Option<N>,
    pub attenuation_max: Option<N>,
    pub page: i32,
    pub page_size: i32,
    pub sort: String,
}

/// List-query parameters for library fermentables.
#[derive(Clone, Debug)]
pub struct FermentableFilter {
    pub name: Option<String>,
    pub supplier: Option<String>,
    pub fermentable_type: Option<String>,
    pub page: i32,
    pub page_size: i32,
    pub sort: String,
}

impl Default for FermentableFilter {
    fn default() -> (f: Self)
        ensures
            f.name is None && f.supplier is None && f.fermentable_type is None && f.page == 0
                && f.page_size == 0 && f.sort@.len() == 0,
    {
        FermentableFilter {
            name: None,
            supplier: None,
            fermentable_type: None,
            page: 0,
            page_size: 0,
            sort: String::new(),
        }
    }
}

/// Payload for a single mash step.
#[derive(Clone, Debug)]
pub struct MashStepRequest<N> {
    pub step_order: i32,
    /// `infusion`, `temperature` or `decoction`.
    pub step_type: String,
    pub target_temp_c: N,
    pub hold_minutes: i32,
    pub infusion_volume_liters: Option<N>,
}

/// Whether a mash step type is one of the three known ones.
pub open spec fn step_type_valid(t: Seq<char>) -> bool {
    t == "infusion"@ || t == "temperature"@ || t == "decoction"@
}

/// Validates the `step_type` value, else the `step_type` code.
pub fn validate_step_type(value: &str) -> (r: Result<(), &'static str>)
    ensures
        r is Ok <==> step_type_valid(value@),
        r matches Err(code) ==> code@ == "step_type"@,
{
    if str_eq(value, "infusion") || str_eq(value, "temperature") || str_eq(value, "decoction") {
        Ok(())
    } else {
        Err("step_type")
    }
}

/// The first field of a mash step that fails its check, with the check's
/// code: an order and hold time of at least 1 (`range`), a known type.
pub open spec fn step_violation<N>(s: MashStepRequest<N>) -> Option<(Seq<char>, Seq<char>)> {
    if s.step_order < 1 {
        Some(("step_order"@, "range"@))
    } else if !step_type_valid(s.step_type@) {
        Some(("step_type"@, "step_type"@))
    } else if s.hold_minutes < 1 {
        Some(("hold_minutes"@, "range"@))
    } else {
        None
    }
}

/// Checks a mash step, reporting its first failing field with its code.
pub fn check_mash_step<N>(s: &MashStepRequest<N>) -> (r: Result<(), (&'static str, &'static str)>)
    ensures
        r is Ok <==> step_violation(*s) is None,
        r matches Err(v) ==> step_violation(*s) == Some((v.0@, v.1@)),
{
    if s.step_order < 1 {
        return Err(("step_order", "range"));
    }
    if let Err(code) = validate_step_type(s.step_type.as_str()) {
        return Err(("step_type", code));
    }
    if s.hold_minutes < 1 {
        return Err(("hold_minutes", "range"));
    }
    Ok(())
}

/// Whether a record name has an accepted length: 1 to 255 chars.
pub open spec fn name_length_ok(name: Seq<char>) -> bool {
    1 <= name.len() <= 255
}

/// Checks the `name` of a create or replace payload: 1 to 255 chars, else a
/// validation error with the `length` code.
pub fn validate_name(name: &str) -> (r: Result<(), ApiError>)
    ensures
        r is Ok <==> name_length_ok(name@),
        r matches Err(e) ==> e@ == validation_view("name"@, "length"@),
{
    let n = chars_of(name).len();
    if n < 1 || n > 255 {
        return Err(ApiError::validation("name", "length"));
    }
    Ok(())
}


/// The id that `uuid` reads from a text, when it reads one (hyphenated,
/// simple, braced or URN form).
pub uninterp spec fn uuid_text_value(s: Seq<char>) -> Option<u128>;

/// The id in `raw`, by `uuid::Uuid::parse_str`, as its 128-bit value. The
/// contract names that parser's result; the accepted forms are not restated.
#[verifier::external_body]
fn parse_uuid(raw: &str) -> (r: Option<u128>)
    ensures
        r == uuid_text_value(raw@),
{
    match uuid::Uuid::parse_str(raw) {
        Ok(u) => Some(u.as_u128()),
        Err(_) => None,
    }
}

/// A record id from a request path, or a validation error on `id`.
pub fn parse_id(raw: &str) -> (r: Result<u128, ApiError>)
    ensures
        match uuid_text_value(raw@) {
            Some(id) => r == Ok::<u128, ApiError>(id),
            None => r matches Err(e) && e@ == validation_view("id"@, "must be a valid UUID"@),
        },
{
    match parse_uuid(raw) {
        Some(id) => Ok(id),
        None => Err(ApiError::validation("id", "must be a valid UUID")),
    }
}

} // verus!
