//! Label-record values, patch requests and their validation.
//!
//! The label fields that are decimals (ABV, energy, units) are of a type `N`
//! that the rules carry but never compute on; of the ABV they read only
//! whether it is above zero, which travels with it.

use vstd::prelude::*;
use crate::platform::errors::{validation_view, ApiError, ApiErrorView};
use crate::platform::pagination::{total_pages, total_pages_of};
use crate::text::{chars_of, str_eq, string_views};

verus! {

/// Generic paginated response envelope.
pub struct Page<T> {
    pub items: Vec<T>,
    pub total: i64,
    pub page: i64,
    pub page_size: i64,
    /// `ceil(total / page_size)`, 0 when either is not positive.
    pub total_pages: i64,
}

impl<T> Page<T> {
    /// Builds a page, computing `total_pages`.
    pub fn new(items: Vec<T>, total: i64, page: i64, page_size: i64) -> (p: Self)
        ensures
            p.items == items,
            p.total == total,
            p.page == page,
            p.page_size == page_size,
            p.total_pages == total_pages_of(total as int, page_size as int),
    {
        let total_pages = total_pages(total, page_size);
        Page { items, total, page, page_size, total_pages }
    }
}

/// An alcohol strength: the decimal value, carried as given, and whether it
/// is above zero (the one thing the rules read of it).
#[derive(Clone, Copy, Debug)]
pub struct Abv<N> {
    pub value: N,
    pub above_zero: bool,
}

/// The fields of a label record that its rules read and write. `N` is the
/// decimal type of the ABV, energy and unit values, which the rules carry
/// but never compute on.
#[derive(Clone, Debug)]
pub struct LabelState<N> {
    /// `draft` or `approved`.
    pub status: String,
    pub product_name: String,
    pub abv: Abv<N>,
    pub allergens: Vec<String>,
    pub net_volume_ml: i32,
    pub responsible_party: String,
    pub country_of_origin: String,
    /// ISO date (`YYYY-MM-DD`), unset until given.
    pub best_before_date: Option<String>,
    pub lot_identifier: String,
    pub ingredient_list: Option<String>,
    pub energy_kj_per_100ml: Option<N>,
    pub energy_kcal_per_100ml: Option<N>,
    pub alcohol_units_per_serving: Option<N>,
    pub serving_volume_ml: Option<i32>,
}

/// The plain value of a [`LabelState`].
pub struct LabelStateView<N> {
    pub status: Seq<char>,
    pub product_name: Seq<char>,
    pub abv: Abv<N>,
    pub allergens: Seq<Seq<char>>,
    pub net_volume_ml: i32,
    pub responsible_party: Seq<char>,
    pub country_of_origin: Seq<char>,
    pub best_before_date: Option<Seq<char>>,
    pub lot_identifier: Seq<char>,
    pub ingredient_list: Option<Seq<char>>,
    pub energy_kj_per_100ml: Option<N>,
    pub energy_kcal_per_100ml: Option<N>,
    pub alcohol_units_per_serving: Option<N>,
    pub serving_volume_ml: Option<i32>,
}

/// A text's value, if it has one.
pub open spec fn opt_text(o: Option<String>) -> Option<Seq<char>> {
    match o {
        Some(s) => Some(s@),
        None => None,
    }
}

impl<N> View for LabelState<N> {
    type V = LabelStateView<N>;

    open spec fn view(&self) -> LabelStateView<N> {
        LabelStateView {
            status: self.status@,
            product_name: self.product_name@,
            abv: self.abv,
            allergens: string_views(self.allergens@),
            net_volume_ml: self.net_volume_ml,
            responsible_party: self.responsible_party@,
            country_of_origin: self.country_of_origin@,
            best_before_date: opt_text(self.best_before_date),
            lot_identifier: self.lot_identifier@,
            ingredient_list: opt_text(self.ingredient_list),
            energy_kj_per_100ml: self.energy_kj_per_100ml,
            energy_kcal_per_100ml: self.energy_kcal_per_100ml,
            alcohol_units_per_serving: self.alcohol_units_per_serving,
            serving_volume_ml: self.serving_volume_ml,
        }
    }
}

/// A partial update of a label record; absent fields are left unchanged.
#[derive(Clone, Debug)]
pub struct LabelPatch<N> {
    pub product_name: Option<String>,
    pub abv: Option<Abv<N>>,
    pub allergens: Option<Vec<String>>,
    pub net_volume_ml: Option<i32>,
    pub responsible_party: Option<String>,
    pub country_of_origin: Option<String>,
    pub best_before_date: Option<String>,
    pub lot_identifier: Option<String>,
    pub ingredient_list: Option<String>,
    pub energy_kj_per_100ml: Option<N>,
    pub energy_kcal_per_100ml: Option<N>,
    pub alcohol_units_per_serving: Option<N>,
    pub serving_volume_ml: Option<i32>,
    pub status: Option<String>,
}

/// The plain value of a [`LabelPatch`].
pub struct LabelPatchView<N> {
    pub product_name: Option<Seq<char>>,
    pub abv: Option<Abv<N>>,
    pub allergens: Option<Seq<Seq<char>>>,
    pub net_volume_ml: Option<i32>,
    pub responsible_party: Option<Seq<char>>,
    pub country_of_origin: Option<Seq<char>>,
    pub best_before_date: Option<Seq<char>>,
    pub lot_identifier: Option<Seq<char>>,
    pub ingredient_list: Option<Seq<char>>,
    pub energy_kj_per_100ml: Option<N>,
    pub energy_kcal_per_100ml: Option<N>,
    pub alcohol_units_per_serving: Option<N>,
    pub serving_volume_ml: Option<i32>,
    pub status: Option<Seq<char>>,
}

impl<N> View for LabelPatch<N> {
    type V = LabelPatchView<N>;

    open spec fn view(&self) -> LabelPatchView<N> {
        LabelPatchView {
            product_name: opt_text(self.product_name),
            abv: self.abv,
            allergens: match self.allergens {
                Some(v) => Some(string_views(v@)),
                None => None,
            },
            net_volume_ml: self.net_volume_ml,
            responsible_party: opt_text(self.responsible_party),
            country_of_origin: opt_text(self.country_of_origin),
            best_before_date: opt_text(self.best_before_date),
            lot_identifier: opt_text(self.lot_identifier),
            ingredient_list: opt_text(self.ingredient_list),
            energy_kj_per_100ml: self.energy_kj_per_100ml,
            energy_kcal_per_100ml: self.energy_kcal_per_100ml,
            alcohol_units_per_serving: self.alcohol_units_per_serving,
            serving_volume_ml: self.serving_volume_ml,
            status: opt_text(self.status),
        }
    }
}

/// Whether a status is one of the two a record can have.
pub open spec fn status_valid(status: Seq<char>) -> bool {
    status == "draft"@ || status == "approved"@
}

/// Validates the `status` value: `draft` or `approved`, else the `oneof` code.
pub fn validate_status(status: &str) -> (r: Result<(), &'static str>)
    ensures
        r is Ok <==> status_valid(status@),
        r matches Err(code) ==> code@ == "oneof"@,
{
    if str_eq(status, "draft") || str_eq(status, "approved") {
        Ok(())
    } else {
        Err("oneof")
    }
}

/// The first declared field of a patch that fails its declared check, with
/// the check's code: volumes at least 1 (`range`), a two-char country
/// (`length`), a known status (`oneof`).
pub open spec fn patch_violation<N>(p: LabelPatchView<N>) -> Option<(Seq<char>, Seq<char>)> {
    if p.net_volume_ml matches Some(v) && v < 1 {
        Some(("net_volume_ml"@, "range"@))
    } else if p.country_of_origin matches Some(c) && c.len() != 2 {
        Some(("country_of_origin"@, "length"@))
    } else if p.serving_volume_ml matches Some(v) && v < 1 {
        Some(("serving_volume_ml"@, "range"@))
    } else if p.status matches Some(s) && !status_valid(s) {
        Some(("status"@, "oneof"@))
    } else {
        None
    }
}

/// Checks a patch request's declared field rules (the ABV's lower bound is
/// checked where the decimal is held), reporting the first failing field.
pub fn validate_patch<N>(p: &LabelPatch<N>) -> (r: Result<(), ApiError>)
    ensures
        r is Ok <==> patch_violation(p@) is None,
        r matches Err(e) ==> patch_violation(p@) matches Some(v) && e@ == validation_view(v.0, v.1),
{
    if let Some(v) = p.net_volume_ml {
        if v < 1 {
            return Err(ApiError::validation("net_volume_ml", "range"));
        }
    }
    if let Some(c) = &p.country_of_origin {
        if chars_of(c.as_str()).len() != 2 {
            return Err(ApiError::validation("country_of_origin", "length"));
        }
    }
    if let Some(v) = p.serving_volume_ml {
        if v < 1 {
            return Err(ApiError::validation("serving_volume_ml", "range"));
        }
    }
    if let Some(s) = &p.status {
        if validate_status(s.as_str()).is_err() {
            return Err(ApiError::validation("status", "oneof"));
        }
    }
    Ok(())
}

/// Checks a create request's declared field rules: volumes at least 1.
pub fn validate_create(net_volume_ml: i32, serving_volume_ml: Option<i32>) -> (r: Result<(), ApiError>)
    ensures
        r is Ok <==> net_volume_ml >= 1 && !(serving_volume_ml matches Some(v) && v < 1),
        r matches Err(e) ==> (if net_volume_ml < 1 {
            e@ == validation_view("net_volume_ml"@, "range"@)
        } else {
            e@ == validation_view("serving_volume_ml"@, "range"@)
        }),
{
    if net_volume_ml < 1 {
        return Err(ApiError::validation("net_volume_ml", "range"));
    }
    if let Some(v) = serving_volume_ml {
        if v < 1 {
            return Err(ApiError::validation("serving_volume_ml", "range"));
        }
    }
    Ok(())
}

} // verus!
