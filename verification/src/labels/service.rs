//! Label-record rules: the draft a new record starts as, how a patch applies
//! (approved records are immutable; approving needs every mandatory field),
//! which fields a patch touched, and when a record may be deleted.

use vstd::prelude::*;
use crate::labels::models::{opt_text, Abv, LabelPatch, LabelPatchView, LabelState, LabelStateView};
use crate::pkg::allergen::{first_unknown, normalise, validate};
use crate::platform::errors::{
    business_rule_view, entries_view, validation_view, ApiError, ApiErrorView, Detail, DetailView,
};
use crate::text::{join, join_strings, lowercase, str_eq, str_views, string_views, trim, trim_str};

verus! {

/// Whether `NaiveDate::parse_from_str(s, "%Y-%m-%d")` accepts `s`.
pub uninterp spec fn iso_date_accepted(s: Seq<char>) -> bool;

/// Whether `s` parses as an ISO `YYYY-MM-DD` date, by
/// `chrono::NaiveDate::parse_from_str` with the format `%Y-%m-%d`. The
/// result is taken as a function of `s` alone; what chrono accepts is not
/// stated here.
#[verifier::external_body]
fn parses_as_iso_date(s: &str) -> (ok: bool)
    ensures
        ok == iso_date_accepted(s@),
{
    chrono::NaiveDate::parse_from_str(s, "%Y-%m-%d").is_ok()
}

/// Allergen tokens as a patch stores them: trimmed and lower-cased.
pub open spec fn normalised(tokens: Seq<Seq<char>>) -> Seq<Seq<char>> {
    tokens.map_values(|t: Seq<char>| lowercase(trim(t)))
}

/// `name` once when `cond` holds.
pub open spec fn name_if(cond: bool, name: Seq<char>) -> Seq<Seq<char>> {
    if cond {
        seq![name]
    } else {
        seq![]
    }
}

/// The mandatory fields a record lacks, in a fixed order: a blank product
/// name, an ABV not above zero, a volume not above zero, a blank responsible
/// party, a blank lot.
pub open spec fn missing_fields<N>(s: LabelStateView<N>) -> Seq<Seq<char>> {
    name_if(trim(s.product_name).len() == 0, "product_name"@)
        + name_if(!s.abv.above_zero, "abv_percent"@)
        + name_if(s.net_volume_ml <= 0, "net_volume_ml"@)
        + name_if(trim(s.responsible_party).len() == 0, "responsible_party"@)
        + name_if(trim(s.lot_identifier).len() == 0, "lot_identifier"@)
}

/// The refusal to approve a record that lacks `missing`.
pub open spec fn incomplete_error(missing: Seq<Seq<char>>) -> ApiErrorView {
    business_rule_view(
        "label_record_incomplete"@,
        "Cannot approve: missing required fields: "@ + join(missing, ", "@),
        seq![("missing_fields"@, DetailView::List(missing))],
    )
}

/// The refusal to modify an approved record.
pub open spec fn approved_modify_error() -> ApiErrorView {
    business_rule_view("label_record_approved"@, "Approved label records cannot be modified."@, seq![])
}

/// The refusal to delete an approved record.
pub open spec fn approved_delete_error() -> ApiErrorView {
    business_rule_view("label_record_approved"@, "Approved label records cannot be deleted."@, seq![])
}

/// The record with each given field of the patch applied (the status
/// aside); given allergens are normalised.
pub open spec fn patched<N>(r: LabelStateView<N>, p: LabelPatchView<N>) -> LabelStateView<N> {
    LabelStateView {
        status: r.status,
        product_name: match p.product_name { Some(v) => v, None => r.product_name },
        abv: match p.abv { Some(v) => v, None => r.abv },
        allergens: match p.allergens { Some(a) => normalised(a), None => r.allergens },
        net_volume_ml: match p.net_volume_ml { Some(v) => v, None => r.net_volume_ml },
        responsible_party: match p.responsible_party { Some(v) => v, None => r.responsible_party },
        country_of_origin: match p.country_of_origin { Some(v) => v, None => r.country_of_origin },
        best_before_date: match p.best_before_date { Some(v) => Some(v), None => r.best_before_date },
        lot_identifier: match p.lot_identifier { Some(v) => v, None => r.lot_identifier },
        ingredient_list: match p.ingredient_list { Some(v) => Some(v), None => r.ingredient_list },
        energy_kj_per_100ml: match p.energy_kj_per_100ml { Some(v) => Some(v), None => r.energy_kj_per_100ml },
        energy_kcal_per_100ml: match p.energy_kcal_per_100ml { Some(v) => Some(v), None => r.energy_kcal_per_100ml },
        alcohol_units_per_serving: match p.alcohol_units_per_serving {
            Some(v) => Some(v),
            None => r.alcohol_units_per_serving,
        },
        serving_volume_ml: match p.serving_volume_ml { Some(v) => Some(v), None => r.serving_volume_ml },
    }
}

/// The record with its status replaced.
pub open spec fn with_status<N>(s: LabelStateView<N>, status: Seq<char>) -> LabelStateView<N> {
    LabelStateView { status, ..s }
}

/// The message for given allergens outside the vocabulary, if any.
pub open spec fn allergen_problem<N>(p: LabelPatchView<N>) -> Option<Seq<char>> {
    match p.allergens {
        Some(a) => first_unknown(normalised(a)),
        None => None,
    }
}

/// What a patch does to a record, given whether its best-before date (if
/// any) parses: an approved record is refused; then unknown allergens; then
/// a bad date; then an approval of an incomplete record; else the record
/// with the patch applied.
pub open spec fn patch_outcome<N>(r: LabelStateView<N>, p: LabelPatchView<N>, date_ok: bool) -> Result<LabelStateView<N>, ApiErrorView> {
    if r.status == "approved"@ {
        Err(approved_modify_error())
    } else if allergen_problem(p) is Some {
        Err(validation_view("allergens"@, allergen_problem(p)->0))
    } else if p.best_before_date is Some && !date_ok {
        Err(validation_view("best_before_date"@, "must be ISO 8601 date (YYYY-MM-DD)"@))
    } else {
        let s = patched(r, p);
        match p.status {
            None => Ok(s),
            Some(st) => if st == "approved"@ && missing_fields(s).len() > 0 {
                Err(incomplete_error(missing_fields(s)))
            } else {
                Ok(with_status(s, st))
            },
        }
    }
}

/// Whether a patch's best-before date (if any) is one chrono accepts.
pub open spec fn patch_date_ok<N>(p: LabelPatchView<N>) -> bool {
    match p.best_before_date {
        Some(d) => iso_date_accepted(d),
        None => true,
    }
}

/// Appends `name` when `cond` holds.
fn push_name_if(v: &mut Vec<String>, cond: bool, name: &str)
    ensures
        string_views(final(v)@) == string_views(old(v)@) + name_if(cond, name@),
{
    if cond {
        v.push(String::from_str(name));
    }
    assert(string_views(v@) =~= string_views(old(v)@) + name_if(cond, name@));
}

/// Whether `s` is empty after trimming.
fn is_blank(s: &str) -> (r: bool)
    ensures
        r == (trim(s@).len() == 0),
{
    trim_str(s).as_str().is_empty()
}

/// Ensures all mandatory label fields are present before approval.
pub fn validate_for_approval<N>(s: &LabelState<N>) -> (r: Result<(), ApiError>)
    ensures
        r is Ok <==> missing_fields(s@).len() == 0,
        r matches Err(e) ==> e@ == incomplete_error(missing_fields(s@)),
{
    let mut missing: Vec<String> = Vec::new();
    push_name_if(&mut missing, is_blank(s.product_name.as_str()), "product_name");
    push_name_if(&mut missing, !s.abv.above_zero, "abv_percent");
    push_name_if(&mut missing, s.net_volume_ml <= 0, "net_volume_ml");
    push_name_if(&mut missing, is_blank(s.responsible_party.as_str()), "responsible_party");
    push_name_if(&mut missing, is_blank(s.lot_identifier.as_str()), "lot_identifier");
    assert(string_views(missing@) =~= missing_fields(s@));
    if missing.len() > 0 {
        let message = String::from_str("Cannot approve: missing required fields: ").concat(
            join_strings(&missing, ", ").as_str(),
        );
        let mut details: Vec<(String, Detail)> = Vec::new();
        let ghost names = string_views(missing@);
        details.push((String::from_str("missing_fields"), Detail::List(missing)));
        proof {
            let d = details@[0].1;
            assert(d matches Detail::List(v) && v.deep_view() =~= names);
            assert(entries_view(details@) =~= seq![("missing_fields"@, DetailView::List(names))]);
        }
        return Err(ApiError::business_rule("label_record_incomplete", message.as_str(), details));
    }
    Ok(())
}

/// The record with every field the patch gives replaced (the status aside),
/// the allergens by their normalised form `norm`.
fn merge_fields<N>(rec: LabelState<N>, req: LabelPatch<N>, norm: Option<Vec<String>>) -> (r: (LabelState<N>, Option<String>))
    requires
        match req.allergens {
            Some(a) => norm matches Some(n) && string_views(n@) == normalised(string_views(a@)),
            None => norm is None,
        },
    ensures
        r.0@ == patched(rec@, req@),
        opt_text(r.1) == req@.status,
{
    let LabelState {
        status: r_status,
        product_name: r_product_name,
        abv: r_abv,
        allergens: r_allergens,
        net_volume_ml: r_net_volume_ml,
        responsible_party: r_responsible_party,
        country_of_origin: r_country_of_origin,
        best_before_date: r_best_before_date,
        lot_identifier: r_lot_identifier,
        ingredient_list: r_ingredient_list,
        energy_kj_per_100ml: r_kj,
        energy_kcal_per_100ml: r_kcal,
        alcohol_units_per_serving: r_units,
        serving_volume_ml: r_serving,
    } = rec;
    let LabelPatch {
        product_name,
        abv,
        allergens: _,
        net_volume_ml,
        responsible_party,
        country_of_origin,
        best_before_date,
        lot_identifier,
        ingredient_list,
        energy_kj_per_100ml,
        energy_kcal_per_100ml,
        alcohol_units_per_serving,
        serving_volume_ml,
        status,
    } = req;
    let merged = LabelState {
        status: r_status,
        product_name: match product_name { Some(v) => v, None => r_product_name },
        abv: match abv { Some(v) => v, None => r_abv },
        allergens: match norm { Some(v) => v, None => r_allergens },
        net_volume_ml: match net_volume_ml { Some(v) => v, None => r_net_volume_ml },
        responsible_party: match responsible_party { Some(v) => v, None => r_responsible_party },
        country_of_origin: match country_of_origin { Some(v) => v, None => r_country_of_origin },
        best_before_date: match best_before_date { Some(v) => Some(v), None => r_best_before_date },
        lot_identifier: match lot_identifier { Some(v) => v, None => r_lot_identifier },
        ingredient_list: match ingredient_list { Some(v) => Some(v), None => r_ingredient_list },
        energy_kj_per_100ml: match energy_kj_per_100ml { Some(v) => Some(v), None => r_kj },
        energy_kcal_per_100ml: match energy_kcal_per_100ml { Some(v) => Some(v), None => r_kcal },
        alcohol_units_per_serving: match alcohol_units_per_serving { Some(v) => Some(v), None => r_units },
        serving_volume_ml: match serving_volume_ml { Some(v) => Some(v), None => r_serving },
    };
    (merged, status)
}

/// Applies a patch to a record, given whether its best-before date (if any)
/// parses as an ISO date.
pub fn apply_patch_checked<N>(rec: LabelState<N>, req: LabelPatch<N>, date_ok: bool) -> (r: Result<LabelState<N>, ApiError>)
    ensures
        match r {
            Ok(s) => patch_outcome(rec@, req@, date_ok) == Ok::<LabelStateView<N>, ApiErrorView>(s@),
            Err(e) => patch_outcome(rec@, req@, date_ok) == Err::<LabelStateView<N>, ApiErrorView>(e@),
        },
{
    if str_eq(rec.status.as_str(), "approved") {
        return Err(ApiError::business_rule(
            "label_record_approved",
            "Approved label records cannot be modified.",
            Vec::new(),
        ));
    }
    let norm: Option<Vec<String>> = match &req.allergens {
        Some(v) => {
            let n = normalise(v.as_slice());
            assert(string_views(n@) =~= normalised(string_views(v@)));
            match validate(n.as_slice()) {
                Err(m) => {
                    return Err(ApiError::validation("allergens", m.as_str()));
                },
                Ok(()) => {},
            }
            Some(n)
        },
        None => None,
    };
    if req.best_before_date.is_some() && !date_ok {
        return Err(ApiError::validation("best_before_date", "must be ISO 8601 date (YYYY-MM-DD)"));
    }
    let (merged, status) = merge_fields(rec, req, norm);
    let mut rec = merged;
    if let Some(st) = status {
        if str_eq(st.as_str(), "approved") {
            match validate_for_approval(&rec) {
                Err(e) => {
                    return Err(e);
                },
                Ok(()) => {},
            }
        }
        rec.status = st;
    }
    Ok(rec)
}

/// Applies a patch to a record: approved records cannot be modified, given
/// allergens are normalised and must be known, a best-before date must be an
/// ISO date, and approving needs every mandatory field.
pub fn apply_patch<N>(rec: LabelState<N>, req: LabelPatch<N>) -> (r: Result<LabelState<N>, ApiError>)
    ensures
        match r {
            Ok(s) => patch_outcome(rec@, req@, patch_date_ok(req@)) == Ok::<LabelStateView<N>, ApiErrorView>(s@),
            Err(e) => patch_outcome(rec@, req@, patch_date_ok(req@)) == Err::<LabelStateView<N>, ApiErrorView>(e@),
        },
{
    let date_ok = match &req.best_before_date {
        Some(d) => parses_as_iso_date(d.as_str()),
        None => true,
    };
    apply_patch_checked(rec, req, date_ok)
}

/// Every label field a patch sets, once each, for the audit log: product
/// name, ABV, allergens, volume and status first, then the other fields in
/// the order of the patch's fields.
pub open spec fn changed_fields_spec<N>(p: LabelPatchView<N>) -> Seq<Seq<char>> {
    name_if(p.product_name is Some, "product_name"@)
        + name_if(p.abv is Some, "abv_percent"@)
        + name_if(p.allergens is Some, "allergens"@)
        + name_if(p.net_volume_ml is Some, "net_volume_ml"@)
        + name_if(p.status is Some, "status"@)
        + name_if(p.responsible_party is Some, "responsible_party"@)
        + name_if(p.country_of_origin is Some, "country_of_origin"@)
        + name_if(p.best_before_date is Some, "best_before_date"@)
        + name_if(p.lot_identifier is Some, "lot_identifier"@)
        + name_if(p.ingredient_list is Some, "ingredient_list"@)
        + name_if(p.energy_kj_per_100ml is Some, "energy_kj_per_100ml"@)
        + name_if(p.energy_kcal_per_100ml is Some, "energy_kcal_per_100ml"@)
        + name_if(p.alcohol_units_per_serving is Some, "alcohol_units_per_serving"@)
        + name_if(p.serving_volume_ml is Some, "serving_volume_ml"@)
}

/// Appends `name` when `cond` holds.
fn push_field_if(v: &mut Vec<&'static str>, cond: bool, name: &'static str)
    ensures
        str_views(final(v)@) == str_views(old(v)@) + name_if(cond, name@),
{
    if cond {
        v.push(name);
    }
    assert(str_views(v@) =~= str_views(old(v)@) + name_if(cond, name@));
}

/// The list of label fields a patch request sets (for the audit log).
pub fn changed_fields<N>(req: &LabelPatch<N>) -> (r: Vec<&'static str>)
    ensures
        str_views(r@) == changed_fields_spec(req@),
{
    let mut fields: Vec<&'static str> = Vec::new();
    assert(str_views(fields@) =~= Seq::<Seq<char>>::empty());
    push_field_if(&mut fields, req.product_name.is_some(), "product_name");
    push_field_if(&mut fields, req.abv.is_some(), "abv_percent");
    push_field_if(&mut fields, req.allergens.is_some(), "allergens");
    push_field_if(&mut fields, req.net_volume_ml.is_some(), "net_volume_ml");
    push_field_if(&mut fields, req.status.is_some(), "status");
    push_field_if(&mut fields, req.responsible_party.is_some(), "responsible_party");
    push_field_if(&mut fields, req.country_of_origin.is_some(), "country_of_origin");
    push_field_if(&mut fields, req.best_before_date.is_some(), "best_before_date");
    push_field_if(&mut fields, req.lot_identifier.is_some(), "lot_identifier");
    push_field_if(&mut fields, req.ingredient_list.is_some(), "ingredient_list");
    push_field_if(&mut fields, req.energy_kj_per_100ml.is_some(), "energy_kj_per_100ml");
    push_field_if(&mut fields, req.energy_kcal_per_100ml.is_some(), "energy_kcal_per_100ml");
    push_field_if(&mut fields, req.alcohol_units_per_serving.is_some(), "alcohol_units_per_serving");
    push_field_if(&mut fields, req.serving_volume_ml.is_some(), "serving_volume_ml");
    assert(str_views(fields@) =~= changed_fields_spec(req@));
    fields
}

/// The responsible party printed on a label: the tenant's name, followed by
/// `", "` and its address when it has one.
pub open spec fn responsible_party_spec(name: Seq<char>, address: Seq<char>) -> Seq<char> {
    if address.len() > 0 {
        name + ", "@ + address
    } else {
        name
    }
}

/// The new draft record for a batch: the batch's product name, ABV and batch
/// number (as the lot), its allergens, the tenant as responsible party and
/// its country as origin, the requested volumes; energy per 100 ml (kJ,
/// kcal) and alcohol units per serving only when the ABV is above zero; no
/// best-before date and no ingredient list yet.
pub open spec fn draft_spec<N>(
    product_name: Seq<char>,
    abv: Abv<N>,
    nutrition: (N, N, N),
    lot_identifier: Seq<char>,
    allergens: Seq<Seq<char>>,
    tenant_name: Seq<char>,
    tenant_address: Seq<char>,
    tenant_country: Seq<char>,
    net_volume_ml: i32,
    serving_volume_ml: Option<i32>,
) -> LabelStateView<N> {
    LabelStateView {
        status: "draft"@,
        product_name,
        abv,
        allergens,
        net_volume_ml,
        responsible_party: responsible_party_spec(tenant_name, tenant_address),
        country_of_origin: tenant_country,
        best_before_date: None,
        lot_identifier,
        ingredient_list: None,
        energy_kj_per_100ml: if abv.above_zero { Some(nutrition.0) } else { None },
        energy_kcal_per_100ml: if abv.above_zero { Some(nutrition.1) } else { None },
        alcohol_units_per_serving: if abv.above_zero { Some(nutrition.2) } else { None },
        serving_volume_ml,
    }
}

/// Builds the draft a new label record starts as. `nutrition` is the energy
/// per 100 ml in kJ and kcal and the alcohol units per serving computed from
/// the ABV; they are kept only when the ABV is above zero.
pub fn draft_record<N>(
    product_name: String,
    abv: Abv<N>,
    nutrition: (N, N, N),
    lot_identifier: String,
    allergens: Vec<String>,
    tenant_name: &str,
    tenant_address: &str,
    tenant_country: String,
    net_volume_ml: i32,
    serving_volume_ml: Option<i32>,
) -> (s: LabelState<N>)
    ensures
        s@ == draft_spec(
            product_name@,
            abv,
            nutrition,
            lot_identifier@,
            string_views(allergens@),
            tenant_name@,
            tenant_address@,
            tenant_country@,
            net_volume_ml,
            serving_volume_ml,
        ),
{
    let responsible_party = if !tenant_address.is_empty() {
        String::from_str(tenant_name).concat(", ").concat(tenant_address)
    } else {
        String::from_str(tenant_name)
    };
    let (kj, kcal, units) = nutrition;
    let above_zero = abv.above_zero;
    let (energy_kj_per_100ml, energy_kcal_per_100ml, alcohol_units_per_serving) = if above_zero {
        (Some(kj), Some(kcal), Some(units))
    } else {
        (None, None, None)
    };
    LabelState {
        status: String::from_str("draft"),
        product_name,
        abv,
        allergens,
        net_volume_ml,
        responsible_party,
        country_of_origin: tenant_country,
        best_before_date: None,
        lot_identifier,
        ingredient_list: None,
        energy_kj_per_100ml,
        energy_kcal_per_100ml,
        alcohol_units_per_serving,
        serving_volume_ml,
    }
}

/// Checks that a record with this status may be deleted: approved ones may not.
pub fn check_deletable(status: &str) -> (r: Result<(), ApiError>)
    ensures
        r is Ok <==> status@ != "approved"@,
        r matches Err(e) ==> e@ == approved_delete_error(),
{
    if str_eq(status, "approved") {
        return Err(ApiError::business_rule(
            "label_record_approved",
            "Approved label records cannot be deleted.",
            Vec::new(),
        ));
    }
    Ok(())
}

/// An approved record cannot be changed by any patch.
pub proof fn law_approved_records_are_immutable<N>(r: LabelStateView<N>, p: LabelPatchView<N>, date_ok: bool)
    requires
        r.status == "approved"@,
    ensures
        patch_outcome(r, p, date_ok) == Err::<LabelStateView<N>, ApiErrorView>(approved_modify_error()),
{
}

/// A patch leaves a record approved only by approving it, and only when no
/// mandatory field is missing.
pub proof fn law_approval_requires_complete_record<N>(r: LabelStateView<N>, p: LabelPatchView<N>, date_ok: bool)
    requires
        patch_outcome(r, p, date_ok) matches Ok(s) && s.status == "approved"@,
    ensures
        p.status == Some("approved"@),
        missing_fields(patched(r, p)).len() == 0,
{
}

/// A patch that is accepted changes only the fields it gives (and the
/// status only to the one it gives).
pub proof fn law_patch_changes_only_given_fields<N>(r: LabelStateView<N>, p: LabelPatchView<N>, date_ok: bool)
    requires
        patch_outcome(r, p, date_ok) is Ok,
    ensures
        ({
            let s = patch_outcome(r, p, date_ok)->Ok_0;
            &&& p.product_name is None ==> s.product_name == r.product_name
            &&& p.abv is None ==> s.abv == r.abv
            &&& p.energy_kj_per_100ml is None ==> s.energy_kj_per_100ml == r.energy_kj_per_100ml
            &&& p.energy_kcal_per_100ml is None ==> s.energy_kcal_per_100ml == r.energy_kcal_per_100ml
            &&& p.alcohol_units_per_serving is None ==> s.alcohol_units_per_serving == r.alcohol_units_per_serving
            &&& p.allergens is None ==> s.allergens == r.allergens
            &&& p.net_volume_ml is None ==> s.net_volume_ml == r.net_volume_ml
            &&& p.responsible_party is None ==> s.responsible_party == r.responsible_party
            &&& p.country_of_origin is None ==> s.country_of_origin == r.country_of_origin
            &&& p.best_before_date is None ==> s.best_before_date == r.best_before_date
            &&& p.lot_identifier is None ==> s.lot_identifier == r.lot_identifier
            &&& p.ingredient_list is None ==> s.ingredient_list == r.ingredient_list
            &&& p.serving_volume_ml is None ==> s.serving_volume_ml == r.serving_volume_ml
            &&& (match p.status { Some(st) => s.status == st, None => s.status == r.status })
        }),
{
}

} // verus!
