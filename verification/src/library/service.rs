//! Library rules: partial updates of caller-owned records, mash profile
//! updates, and the answer to a delete that matched nothing.
//!
//! Reads return the union of the system tenant's and the caller's rows;
//! writes reach only the caller's, so a system row (or a missing one) is
//! reported as not found.

use vstd::prelude::*;
use crate::library::fields::{
    overlay, pick, StyleFields, PatchStyleRequest, style_patched, EquipmentFields, PatchEquipmentRequest, equipment_patched, YeastFields, PatchYeastRequest, yeast_patched, FermentableFields, PatchFermentableRequest, fermentable_patched,
};
use crate::library::models::MashStepRequest;
use crate::platform::errors::{plain_view, ApiError, ErrorKind};

verus! {

/// Applies a partial update to a caller-owned style record.
pub fn patch_style<N>(cur: StyleFields<N>, req: PatchStyleRequest<N>) -> (r: StyleFields<N>)
    ensures
        r == style_patched(cur, req),
{
    let StyleFields { name, category, og_min, og_max, fg_min, fg_max, abv_min, abv_max, ibu_min, ibu_max, color_ebc_min, color_ebc_max, description, } = cur;
    StyleFields {
        name: match req.name {
            Some(v) => v,
            None => name,
        },
        category: overlay(category, req.category),
        og_min: overlay(og_min, req.og_min),
        og_max: overlay(og_max, req.og_max),
        fg_min: overlay(fg_min, req.fg_min),
        fg_max: overlay(fg_max, req.fg_max),
        abv_min: overlay(abv_min, req.abv_min),
        abv_max: overlay(abv_max, req.abv_max),
        ibu_min: overlay(ibu_min, req.ibu_min),
        ibu_max: overlay(ibu_max, req.ibu_max),
        color_ebc_min: overlay(color_ebc_min, req.color_ebc_min),
        color_ebc_max: overlay(color_ebc_max, req.color_ebc_max),
        description: overlay(description, req.description),
    }
}

/// Applies a partial update to a caller-owned equipment record.
pub fn patch_equipment<N>(cur: EquipmentFields<N>, req: PatchEquipmentRequest<N>) -> (r: EquipmentFields<N>)
    ensures
        r == equipment_patched(cur, req),
{
    let EquipmentFields { name, batch_size_liters, batch_volume_target_liters, element_power_watts, boil_size_liters, pre_boil_volume_liters, boil_time_minutes, boil_off_rate_liters_per_hour, boil_temp_c, trub_loss_liters, mash_tun_deadspace_liters, mash_tun_loss_liters, hlt_deadspace_liters, fermenter_loss_liters, top_up_liters, mash_time_minutes, brewhouse_efficiency_pct, mash_efficiency_pct, hop_utilisation_pct, aroma_hop_utilisation_pct, hop_stand_temp_c, altitude_m, cooling_shrinkage_pct, grain_absorption_l_per_kg, water_to_grain_ratio, sparge_water_reminder_liters, notes, } = cur;
    EquipmentFields {
        name: match req.name {
            Some(v) => v,
            None => name,
        },
        batch_size_liters: overlay(batch_size_liters, req.batch_size_liters),
        batch_volume_target_liters: overlay(batch_volume_target_liters, req.batch_volume_target_liters),
        element_power_watts: overlay(element_power_watts, req.element_power_watts),
        boil_size_liters: overlay(boil_size_liters, req.boil_size_liters),
        pre_boil_volume_liters: overlay(pre_boil_volume_liters, req.pre_boil_volume_liters),
        boil_time_minutes: overlay(boil_time_minutes, req.boil_time_minutes),
        boil_off_rate_liters_per_hour: overlay(boil_off_rate_liters_per_hour, req.boil_off_rate_liters_per_hour),
        boil_temp_c: overlay(boil_temp_c, req.boil_temp_c),
        trub_loss_liters: overlay(trub_loss_liters, req.trub_loss_liters),
        mash_tun_deadspace_liters: overlay(mash_tun_deadspace_liters, req.mash_tun_deadspace_liters),
        mash_tun_loss_liters: overlay(mash_tun_loss_liters, req.mash_tun_loss_liters),
        hlt_deadspace_liters: overlay(hlt_deadspace_liters, req.hlt_deadspace_liters),
        fermenter_loss_liters: overlay(fermenter_loss_liters, req.fermenter_loss_liters),
        top_up_liters: overlay(top_up_liters, req.top_up_liters),
        mash_time_minutes: overlay(mash_time_minutes, req.mash_time_minutes),
        brewhouse_efficiency_pct: overlay(brewhouse_efficiency_pct, req.brewhouse_efficiency_pct),
        mash_efficiency_pct: overlay(mash_efficiency_pct, req.mash_efficiency_pct),
        hop_utilisation_pct: overlay(hop_utilisation_pct, req.hop_utilisation_pct),
        aroma_hop_utilisation_pct: overlay(aroma_hop_utilisation_pct, req.aroma_hop_utilisation_pct),
        hop_stand_temp_c: overlay(hop_stand_temp_c, req.hop_stand_temp_c),
        altitude_m: overlay(altitude_m, req.altitude_m),
        cooling_shrinkage_pct: overlay(cooling_shrinkage_pct, req.cooling_shrinkage_pct),
        grain_absorption_l_per_kg: overlay(grain_absorption_l_per_kg, req.grain_absorption_l_per_kg),
        water_to_grain_ratio: overlay(water_to_grain_ratio, req.water_to_grain_ratio),
        sparge_water_reminder_liters: overlay(sparge_water_reminder_liters, req.sparge_water_reminder_liters),
        notes: overlay(notes, req.notes),
    }
}

/// Applies a partial update to a caller-owned yeast record.
pub fn patch_yeast<N>(cur: YeastFields<N>, req: PatchYeastRequest<N>) -> (r: YeastFields<N>)
    ensures
        r == yeast_patched(cur, req),
{
    let YeastFields { name, manufacturer, product_code, yeast_type, form, attenuation_min_pct, attenuation_max_pct, temp_min_c, temp_max_c, flocculation, notes, } = cur;
    YeastFields {
        name: match req.name {
            Some(v) => v,
            None => name,
        },
        manufacturer: overlay(manufacturer, req.manufacturer),
        product_code: overlay(product_code, req.product_code),
        yeast_type: overlay(yeast_type, req.yeast_type),
        form: overlay(form, req.form),
        attenuation_min_pct: overlay(attenuation_min_pct, req.attenuation_min_pct),
        attenuation_max_pct: overlay(attenuation_max_pct, req.attenuation_max_pct),
        temp_min_c: overlay(temp_min_c, req.temp_min_c),
        temp_max_c: overlay(temp_max_c, req.temp_max_c),
        flocculation: overlay(flocculation, req.flocculation),
        notes: overlay(notes, req.notes),
    }
}

/// Applies a partial update to a caller-owned fermentable record.
pub fn patch_fermentable<N>(cur: FermentableFields<N>, req: PatchFermentableRequest<N>) -> (r: FermentableFields<N>)
    ensures
        r == fermentable_patched(cur, req),
{
    let FermentableFields { name, supplier, fermentable_type, colour_ebc_min, colour_ebc_max, extract_litres_per_kg, moisture_pct_max, tn_min, tn_max, snr_min, snr_max, attributes, notes, } = cur;
    FermentableFields {
        name: match req.name {
            Some(v) => v,
            None => name,
        },
        supplier: overlay(supplier, req.supplier),
        fermentable_type: overlay(fermentable_type, req.fermentable_type),
        colour_ebc_min: overlay(colour_ebc_min, req.colour_ebc_min),
        colour_ebc_max: overlay(colour_ebc_max, req.colour_ebc_max),
        extract_litres_per_kg: overlay(extract_litres_per_kg, req.extract_litres_per_kg),
        moisture_pct_max: overlay(moisture_pct_max, req.moisture_pct_max),
        tn_min: overlay(tn_min, req.tn_min),
        tn_max: overlay(tn_max, req.tn_max),
        snr_min: overlay(snr_min, req.snr_min),
        snr_max: overlay(snr_max, req.snr_max),
        attributes: overlay(attributes, req.attributes),
        notes: overlay(notes, req.notes),
    }
}

/// A mash profile's contents after a partial update: the given name or the
/// current one, the given notes or the current ones, and the given steps,
/// which replace the whole current set (`None`: keep the current steps).
pub struct MashUpdate<N> {
    pub name: String,
    pub notes: Option<String>,
    pub steps: Option<Vec<MashStepRequest<N>>>,
}

/// Applies a partial update to a caller-owned mash profile.
pub fn patch_mash_profile<N>(
    current_name: String,
    current_notes: Option<String>,
    name: Option<String>,
    notes: Option<String>,
    steps: Option<Vec<MashStepRequest<N>>>,
) -> (u: MashUpdate<N>)
    ensures
        u.name == (match name {
            Some(v) => v,
            None => current_name,
        }),
        u.notes == pick(notes, current_notes),
        u.steps == steps,
{
    MashUpdate {
        name: match name {
            Some(v) => v,
            None => current_name,
        },
        notes: overlay(current_notes, notes),
        steps,
    }
}

/// The update of a caller-owned style: not found when the caller owns no
/// such row (absent, a system row or another tenant's), else the stored row
/// with the patch applied.
pub fn style_update<N>(stored: Option<StyleFields<N>>, req: PatchStyleRequest<N>) -> (r: Result<StyleFields<N>, ApiError>)
    ensures
        match stored {
            None => r matches Err(e) && e@ == plain_view(ErrorKind::NotFound, "style"@ + " not found"@),
            Some(c) => r == Ok::<StyleFields<N>, ApiError>(style_patched(c, req)),
        },
{
    match stored {
        None => Err(ApiError::not_found("style")),
        Some(c) => Ok(patch_style(c, req)),
    }
}

/// The update of a caller-owned equipment profile: not found when the caller
/// owns no such row, else the stored row with the patch applied.
pub fn equipment_update<N>(stored: Option<EquipmentFields<N>>, req: PatchEquipmentRequest<N>) -> (r: Result<EquipmentFields<N>, ApiError>)
    ensures
        match stored {
            None => r matches Err(e) && e@ == plain_view(ErrorKind::NotFound, "equipment profile"@ + " not found"@),
            Some(c) => r == Ok::<EquipmentFields<N>, ApiError>(equipment_patched(c, req)),
        },
{
    match stored {
        None => Err(ApiError::not_found("equipment profile")),
        Some(c) => Ok(patch_equipment(c, req)),
    }
}

/// The update of a caller-owned yeast: not found when the caller owns no
/// such row, else the stored row with the patch applied.
pub fn yeast_update<N>(stored: Option<YeastFields<N>>, req: PatchYeastRequest<N>) -> (r: Result<YeastFields<N>, ApiError>)
    ensures
        match stored {
            None => r matches Err(e) && e@ == plain_view(ErrorKind::NotFound, "yeast"@ + " not found"@),
            Some(c) => r == Ok::<YeastFields<N>, ApiError>(yeast_patched(c, req)),
        },
{
    match stored {
        None => Err(ApiError::not_found("yeast")),
        Some(c) => Ok(patch_yeast(c, req)),
    }
}

/// The update of a caller-owned fermentable: not found when the caller owns
/// no such row, else the stored row with the patch applied.
pub fn fermentable_update<N>(stored: Option<FermentableFields<N>>, req: PatchFermentableRequest<N>) -> (r: Result<FermentableFields<N>, ApiError>)
    ensures
        match stored {
            None => r matches Err(e) && e@ == plain_view(ErrorKind::NotFound, "library fermentable"@ + " not found"@),
            Some(c) => r == Ok::<FermentableFields<N>, ApiError>(fermentable_patched(c, req)),
        },
{
    match stored {
        None => Err(ApiError::not_found("library fermentable")),
        Some(c) => Ok(patch_fermentable(c, req)),
    }
}

/// The update of a caller-owned mash profile, given its stored name and
/// notes when the caller owns it: not found otherwise.
pub fn mash_profile_update<N>(
    stored: Option<(String, Option<String>)>,
    name: Option<String>,
    notes: Option<String>,
    steps: Option<Vec<MashStepRequest<N>>>,
) -> (r: Result<MashUpdate<N>, ApiError>)
    ensures
        match stored {
            None => r matches Err(e) && e@ == plain_view(ErrorKind::NotFound, "mash profile"@ + " not found"@),
            Some(c) => r matches Ok(u) && u.name == (match name {
                Some(v) => v,
                None => c.0,
            }) && u.notes == pick(notes, c.1) && u.steps == steps,
        },
{
    match stored {
        None => Err(ApiError::not_found("mash profile")),
        Some((n, o)) => Ok(patch_mash_profile(n, o, name, notes, steps)),
    }
}

/// The answer to a delete of a caller-owned record: not found when no row
/// was deleted (absent, or owned by the system tenant or another tenant).
pub fn deleted_or_not_found(rows: u64, resource: &str) -> (r: Result<(), ApiError>)
    ensures
        r is Ok <==> rows > 0,
        r matches Err(e) ==> e@ == plain_view(ErrorKind::NotFound, resource@ + " not found"@),
{
    if rows == 0 {
        return Err(ApiError::not_found(resource));
    }
    Ok(())
}

} // verus!
