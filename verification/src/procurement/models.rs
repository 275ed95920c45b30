//! Procurement values: suppliers, purchase-order lines, patch payloads, list
//! filters, and the vocabularies their payloads are checked against.
//!
//! Line quantities are decimals; the line types are generic over their
//! decimal type `N`, which the rules carry but never compute on.

use vstd::prelude::*;
use crate::platform::email::{email_accepted, is_email};
use crate::platform::errors::{validation_view, ApiError};
use crate::platform::pagination::{total_pages, total_pages_of};
use crate::text::{chars_of, list_contains, str_views};

verus! {

/// Generic paginated response envelope.
pub struct Page<T> {
    pub items: Vec<T>,
    pub total: i64,
    pub page: i64,
    pub page_size: i64,
    /// `ceil(total / page_size)`, 0 when either is not positive.
    pub total_pages: i64,
}

impl<T> Page<T> {
    /// Builds a page, computing `total_pages`.
    pub fn new(items: Vec<T>, total: i64, page: i64, page_size: i64) -> (p: Self)
        ensures
            p.items == items,
            p.total == total,
            p.page == page,
            p.page_size == page_size,
            p.total_pages == total_pages_of(total as int, page_size as int),
    {
        let total_pages = total_pages(total, page_size);
        Page { items, total, page, page_size, total_pages }
    }
}

/// A supplier's editable fields.
#[derive(Clone, Debug)]
pub struct SupplierFields {
    pub name: String,
    pub contact_name: Option<String>,
    pub email: Option<String>,
    pub phone: Option<String>,
    pub website: Option<String>,
    pub notes: Option<String>,
}

/// Payload to create a supplier.
#[derive(Clone, Debug)]
pub struct CreateSupplierRequest {
    pub name: String,
    pub contact_name: Option<String>,
    pub email: Option<String>,
    pub phone: Option<String>,
    pub website: Option<String>,
    pub notes: Option<String>,
}

/// Payload to change a supplier. An absent field is left alone; a present
/// `None` clears a nullable column.
#[derive(Clone, Debug)]
pub struct PatchSupplierRequest {
    pub name: Option<String>,
    pub contact_name: Option<Option<String>>,
    pub email: Option<Option<String>>,
    pub phone: Option<Option<String>>,
    pub website: Option<Option<String>>,
    pub notes: Option<Option<String>>,
}

impl Default for PatchSupplierRequest {
    fn default() -> (r: Self)
        ensures
            r.name is None && r.contact_name is None && r.email is None && r.phone is None
                && r.website is None && r.notes is None,
    {
        PatchSupplierRequest { name: None, contact_name: None, email: None, phone: None, website: None, notes: None }
    }
}

/// Payload to change a purchase order's status, expected delivery or notes.
#[derive(Clone, Debug)]
pub struct PatchPORequest {
    pub status: Option<String>,
    pub expected_delivery: Option<Option<String>>,
    pub notes: Option<Option<String>>,
}

impl Default for PatchPORequest {
    fn default() -> (r: Self)
        ensures
            r.status is None && r.expected_delivery is None && r.notes is None,
    {
        PatchPORequest { status: None, expected_delivery: None, notes: None }
    }
}

/// Filters for listing suppliers: a name prefix, the page and the sort.
#[derive(Clone, Debug)]
pub struct SupplierFilter {
    pub search: String,
    pub page: i64,
    pub page_size: i64,
    pub sort: String,
}

impl Default for SupplierFilter {
    fn default() -> (f: Self)
        ensures
            f.search@.len() == 0 && f.page == 0 && f.page_size == 0 && f.sort@.len() == 0,
    {
        SupplierFilter { search: String::new(), page: 0, page_size: 0, sort: String::new() }
    }
}

/// Filters for listing purchase orders.
#[derive(Clone, Debug)]
pub struct POFilter {
    pub supplier_id: Option<u128>,
    pub status: Option<String>,
    pub page: i64,
    pub page_size: i64,
    pub sort: String,
}

/// A purchase-order line's editable fields.
#[derive(Clone, Debug)]
pub struct LineFields<N> {
    pub ingredient_type: String,
    pub ingredient_name: String,
    pub quantity: N,
    pub unit: String,
    pub unit_cost_pence: i64,
    pub unit_cost_currency: String,
}

/// Payload to change a line; absent fields are left unchanged.
#[derive(Clone, Debug)]
pub struct PatchLineRequest<N> {
    pub ingredient_type: Option<String>,
    pub ingredient_name: Option<String>,
    pub quantity: Option<N>,
    pub unit: Option<String>,
    pub unit_cost_pence: Option<i64>,
    pub unit_cost_currency: Option<String>,
}

/// The ingredient types a line can be for.
pub open spec fn ingredient_types_spec() -> Seq<Seq<char>> {
    seq!["fermentable"@, "hop"@, "yeast"@, "adjunct"@, "other"@]
}

/// The statuses a patch may move an order to.
pub open spec fn patch_statuses_spec() -> Seq<Seq<char>> {
    seq!["sent"@, "cancelled"@, "received"@, "partially_received"@]
}

/// The accepted currencies.
pub open spec fn currencies_spec() -> Seq<Seq<char>> {
    seq![
        "AED"@, "AUD"@, "CAD"@, "CHF"@, "CNY"@, "EUR"@, "GBP"@, "HKD"@, "JPY"@, "NOK"@, "NZD"@,
        "SEK"@, "SGD"@, "USD"@,
    ]
}

/// The ingredient types.
pub fn ingredient_types() -> (v: Vec<&'static str>)
    ensures
        str_views(v@) == ingredient_types_spec(),
{
    let v = vec!["fermentable", "hop", "yeast", "adjunct", "other"];
    assert(str_views(v@) =~= ingredient_types_spec());
    v
}

/// The statuses a patch may name.
pub fn patch_statuses() -> (v: Vec<&'static str>)
    ensures
        str_views(v@) == patch_statuses_spec(),
{
    let v = vec!["sent", "cancelled", "received", "partially_received"];
    assert(str_views(v@) =~= patch_statuses_spec());
    v
}

/// The accepted currencies.
pub fn currencies() -> (v: Vec<&'static str>)
    ensures
        str_views(v@) == currencies_spec(),
{
    let v = vec!["AED", "AUD", "CAD", "CHF", "CNY", "EUR", "GBP", "HKD", "JPY", "NOK", "NZD", "SEK", "SGD", "USD"];
    assert(str_views(v@) =~= currencies_spec());
    v
}

/// Whether every char is an ASCII capital letter.
pub open spec fn all_ascii_upper(s: Seq<char>) -> bool {
    forall|i: int| 0 <= i < s.len() ==> 'A' <= #[trigger] s[i] && s[i] <= 'Z'
}

/// Whether a code is an accepted ISO currency: three ASCII capitals, on the
/// list.
pub open spec fn iso_currency(v: Seq<char>) -> bool {
    (vstd::utf8::encode_utf8(v).len() as usize) == 3 && all_ascii_upper(v) && currencies_spec().contains(v)
}

/// Whether `v` is one of the accepted ISO currency codes.
pub fn is_iso_currency(v: &str) -> (b: bool)
    ensures
        b == iso_currency(v@),
{
    if v.len() != 3 {
        return false;
    }
    let c = chars_of(v);
    let mut i: usize = 0;
    while i < c.len()
        invariant
            i <= c@.len(),
            c@ == v@,
            forall|k: int| 0 <= k < i ==> 'A' <= #[trigger] c@[k] && c@[k] <= 'Z',
        decreases c.len() - i,
    {
        if !('A' <= c[i] && c[i] <= 'Z') {
            assert(!all_ascii_upper(v@)) by {
                assert(v@[i as int] == c@[i as int]);
            }
            return false;
        }
        i += 1;
    }
    assert(all_ascii_upper(v@)) by {
        assert forall|k: int| 0 <= k < v@.len() implies 'A' <= #[trigger] v@[k] && v@[k] <= 'Z' by {
            assert(c@[k] == v@[k]);
        }
    }
    let all = currencies();
    list_contains(&all, v)
}

/// Validates an ingredient type, else the `invalid_ingredient_type` code.
pub fn validate_ingredient_type(v: &str) -> (r: Result<(), &'static str>)
    ensures
        r is Ok <==> ingredient_types_spec().contains(v@),
        r matches Err(code) ==> code@ == "invalid_ingredient_type"@,
{
    let all = ingredient_types();
    if list_contains(&all, v) {
        Ok(())
    } else {
        Err("invalid_ingredient_type")
    }
}

/// Validates a given ingredient type on a patch (same rule as on create).
pub fn validate_ingredient_type_opt(v: &str) -> (r: Result<(), &'static str>)
    ensures
        r is Ok <==> ingredient_types_spec().contains(v@),
        r matches Err(code) ==> code@ == "invalid_ingredient_type"@,
{
    validate_ingredient_type(v)
}

/// Validates a patch status, else the `invalid_status` code.
pub fn validate_patch_status(v: &str) -> (r: Result<(), &'static str>)
    ensures
        r is Ok <==> patch_statuses_spec().contains(v@),
        r matches Err(code) ==> code@ == "invalid_status"@,
{
    let all = patch_statuses();
    if list_contains(&all, v) {
        Ok(())
    } else {
        Err("invalid_status")
    }
}

/// Validates a currency that may be left empty, else `invalid_currency`.
pub fn validate_iso_currency_opt(v: &str) -> (r: Result<(), &'static str>)
    ensures
        r is Ok <==> (v@.len() == 0 || iso_currency(v@)),
        r matches Err(code) ==> code@ == "invalid_currency"@,
{
    if v.is_empty() || is_iso_currency(v) {
        Ok(())
    } else {
        Err("invalid_currency")
    }
}

/// Validates a currency given on a patch: empty passes, else it must be an
/// accepted ISO code (`invalid_currency`).
pub fn validate_iso_currency_present(v: &str) -> (r: Result<(), &'static str>)
    ensures
        r is Ok <==> (v@.len() == 0 || iso_currency(v@)),
        r matches Err(code) ==> code@ == "invalid_currency"@,
{
    validate_iso_currency_opt(v)
}

/// Whether a text is at most `max` chars long.
pub open spec fn at_most(s: Option<String>, max: int) -> bool {
    match s {
        Some(v) => v@.len() <= max,
        None => true,
    }
}

/// The first field of a new supplier that fails its check, with the
/// failing rule's code: `length` for a name outside 1 to 200 chars or an
/// optional text over its limit, and `email` for an e-mail address that is
/// not one (checked before its length).
pub open spec fn supplier_violation(r: CreateSupplierRequest) -> Option<(Seq<char>, Seq<char>)> {
    if !(1 <= r.name@.len() <= 200) {
        Some(("name"@, "length"@))
    } else if !at_most(r.contact_name, 200) {
        Some(("contact_name"@, "length"@))
    } else if r.email matches Some(e) && !email_accepted(e@) {
        Some(("email"@, "email"@))
    } else if !at_most(r.email, 320) {
        Some(("email"@, "length"@))
    } else if !at_most(r.phone, 50) {
        Some(("phone"@, "length"@))
    } else if !at_most(r.website, 500) {
        Some(("website"@, "length"@))
    } else if !at_most(r.notes, 2000) {
        Some(("notes"@, "length"@))
    } else {
        None
    }
}

fn longer_than(s: &Option<String>, max: usize) -> (b: bool)
    ensures
        b == !at_most(*s, max as int),
{
    match s {
        Some(v) => chars_of(v.as_str()).len() > max,
        None => false,
    }
}

impl CreateSupplierRequest {
    /// Checks the name (1 to 200 chars), the e-mail address's form and the
    /// optional texts' lengths, reporting the first failing field with its
    /// rule's code.
    pub fn validate(&self) -> (r: Result<(), ApiError>)
        ensures
            r is Ok <==> supplier_violation(*self) is None,
            r matches Err(e) ==> supplier_violation(*self) matches Some(v) && e@ == validation_view(v.0, v.1),
    {
        let n = chars_of(self.name.as_str()).len();
        if n < 1 || n > 200 {
            return Err(ApiError::validation("name", "length"));
        }
        if longer_than(&self.contact_name, 200) {
            return Err(ApiError::validation("contact_name", "length"));
        }
        if let Some(e) = &self.email {
            if !is_email(e.as_str()) {
                return Err(ApiError::validation("email", "email"));
            }
        }
        if longer_than(&self.email, 320) {
            return Err(ApiError::validation("email", "length"));
        }
        if longer_than(&self.phone, 50) {
            return Err(ApiError::validation("phone", "length"));
        }
        if longer_than(&self.website, 500) {
            return Err(ApiError::validation("website", "length"));
        }
        if longer_than(&self.notes, 2000) {
            return Err(ApiError::validation("notes", "length"));
        }
        Ok(())
    }
}

impl PatchSupplierRequest {
    /// Checks a given name: 1 to 200 chars, else the `length` code.
    pub fn validate(&self) -> (r: Result<(), ApiError>)
        ensures
            r is Ok <==> !(self.name matches Some(v) && !(1 <= v@.len() <= 200)),
            r matches Err(e) ==> e@ == validation_view("name"@, "length"@),
    {
        if let Some(v) = &self.name {
            let n = chars_of(v.as_str()).len();
            if n < 1 || n > 200 {
                return Err(ApiError::validation("name", "length"));
            }
        }
        Ok(())
    }
}

impl PatchPORequest {
    /// Checks a given status against the patch statuses.
    pub fn validate(&self) -> (r: Result<(), ApiError>)
        ensures
            r is Ok <==> !(self.status matches Some(s) && !patch_statuses_spec().contains(s@)),
            r matches Err(e) ==> e@ == validation_view("status"@, "invalid_status"@),
    {
        if let Some(s) = &self.status {
            if validate_patch_status(s.as_str()).is_err() {
                return Err(ApiError::validation("status", "invalid_status"));
            }
        }
        Ok(())
    }
}

/// The first field of a line patch that fails its check, with the check's
/// code (a quantity's lower bound is checked where the decimal is held).
pub open spec fn line_patch_violation<N>(p: PatchLineRequest<N>) -> Option<(Seq<char>, Seq<char>)> {
    if p.ingredient_type matches Some(t) && !ingredient_types_spec().contains(t@) {
        Some(("ingredient_type"@, "invalid_ingredient_type"@))
    } else if p.ingredient_name matches Some(n) && !(1 <= n@.len() <= 200) {
        Some(("ingredient_name"@, "length"@))
    } else if p.unit matches Some(u) && !(1 <= u@.len() <= 20) {
        Some(("unit"@, "length"@))
    } else if p.unit_cost_pence matches Some(c) && c < 0 {
        Some(("unit_cost_pence"@, "range"@))
    } else if p.unit_cost_currency matches Some(c) && !(c@.len() == 0 || iso_currency(c@)) {
        Some(("unit_cost_currency"@, "invalid_currency"@))
    } else {
        None
    }
}

impl<N> PatchLineRequest<N> {
    /// Checks the given fields, reporting the first failing one.
    pub fn validate(&self) -> (r: Result<(), ApiError>)
        ensures
            r is Ok <==> line_patch_violation(*self) is None,
            r matches Err(e) ==> line_patch_violation(*self) matches Some(v) && e@ == validation_view(v.0, v.1),
    {
        if let Some(t) = &self.ingredient_type {
            if validate_ingredient_type_opt(t.as_str()).is_err() {
                return Err(ApiError::validation("ingredient_type", "invalid_ingredient_type"));
            }
        }
        if let Some(n) = &self.ingredient_name {
            let k = chars_of(n.as_str()).len();
            if k < 1 || k > 200 {
                return Err(ApiError::validation("ingredient_name", "length"));
            }
        }
        if let Some(u) = &self.unit {
            let k = chars_of(u.as_str()).len();
            if k < 1 || k > 20 {
                return Err(ApiError::validation("unit", "length"));
            }
        }
        if let Some(c) = self.unit_cost_pence {
            if c < 0 {
                return Err(ApiError::validation("unit_cost_pence", "range"));
            }
        }
        if let Some(c) = &self.unit_cost_currency {
            if validate_iso_currency_present(c.as_str()).is_err() {
                return Err(ApiError::validation("unit_cost_currency", "invalid_currency"));
            }
        }
        Ok(())
    }
}

/// The first field of a new line that fails its check, with the check's
/// code (the quantity's lower bound is checked where the decimal is held).
pub open spec fn line_violation<N>(l: LineFields<N>) -> Option<(Seq<char>, Seq<char>)> {
    if !ingredient_types_spec().contains(l.ingredient_type@) {
        Some(("ingredient_type"@, "invalid_ingredient_type"@))
    } else if !(1 <= l.ingredient_name@.len() <= 200) {
        Some(("ingredient_name"@, "length"@))
    } else if !(1 <= l.unit@.len() <= 20) {
        Some(("unit"@, "length"@))
    } else if l.unit_cost_pence < 0 {
        Some(("unit_cost_pence"@, "range"@))
    } else if !(l.unit_cost_currency@.len() == 0 || iso_currency(l.unit_cost_currency@)) {
        Some(("unit_cost_currency"@, "invalid_currency"@))
    } else {
        None
    }
}

impl<N> LineFields<N> {
    /// Checks a new line's fields, reporting the first failing one.
    pub fn validate(&self) -> (r: Result<(), ApiError>)
        ensures
            r is Ok <==> line_violation(*self) is None,
            r matches Err(e) ==> line_violation(*self) matches Some(v) && e@ == validation_view(v.0, v.1),
    {
        if validate_ingredient_type(self.ingredient_type.as_str()).is_err() {
            return Err(ApiError::validation("ingredient_type", "invalid_ingredient_type"));
        }
        let k = chars_of(self.ingredient_name.as_str()).len();
        if k < 1 || k > 200 {
            return Err(ApiError::validation("ingredient_name", "length"));
        }
        let k = chars_of(self.unit.as_str()).len();
        if k < 1 || k > 20 {
            return Err(ApiError::validation("unit", "length"));
        }
        if self.unit_cost_pence < 0 {
            return Err(ApiError::validation("unit_cost_pence", "range"));
        }
        if validate_iso_currency_opt(self.unit_cost_currency.as_str()).is_err() {
            return Err(ApiError::validation("unit_cost_currency", "invalid_currency"));
        }
        Ok(())
    }
}

} // verus!
