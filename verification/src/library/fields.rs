//! Library record contents and their partial-update payloads.
//!
//! The records are generic over their decimal type `N`: the measurements are
//! carried, never computed on, so every rule here holds whatever `N` is.

use vstd::prelude::*;

verus! {

/// The patch value when given, else the current one.
pub open spec fn pick<T>(given: Option<T>, current: Option<T>) -> Option<T> {
    match given {
        Some(v) => Some(v),
        None => current,
    }
}

/// The patch value when given, else the current one.
pub fn overlay<T>(current: Option<T>, given: Option<T>) -> (r: Option<T>)
    ensures
        r == pick(given, current),
{
    match given {
        Some(v) => Some(v),
        None => current,
    }
}

/// A beer style: the contents a caller edits.
#[derive(Clone, Debug)]
pub struct StyleFields<N> {
    pub name: String,
    pub category: Option<String>,
    pub og_min: Option<N>,
    pub og_max: Option<N>,
    pub fg_min: Option<N>,
    pub fg_max: Option<N>,
    pub abv_min: Option<N>,
    pub abv_max: Option<N>,
    pub ibu_min: Option<N>,
    pub ibu_max: Option<N>,
    pub color_ebc_min: Option<N>,
    pub color_ebc_max: Option<N>,
    pub description: Option<String>,
}

/// Partial-update payload; absent fields are left unchanged.
#[derive(Clone, Debug)]
pub struct PatchStyleRequest<N> {
    pub name: Option<String>,
    pub category: Option<String>,
    pub og_min: Option<N>,
    pub og_max: Option<N>,
    pub fg_min: Option<N>,
    pub fg_max: Option<N>,
    pub abv_min: Option<N>,
    pub abv_max: Option<N>,
    pub ibu_min: Option<N>,
    pub ibu_max: Option<N>,
    pub color_ebc_min: Option<N>,
    pub color_ebc_max: Option<N>,
    pub description: Option<String>,
}

/// The contents after a patch: each given field replaces the current one.
pub open spec fn style_patched<N>(cur: StyleFields<N>, p: PatchStyleRequest<N>) -> StyleFields<N> {
    StyleFields {
        name: match p.name {
            Some(v) => v,
            None => cur.name,
        },
        category: pick(p.category, cur.category),
        og_min: pick(p.og_min, cur.og_min),
        og_max: pick(p.og_max, cur.og_max),
        fg_min: pick(p.fg_min, cur.fg_min),
        fg_max: pick(p.fg_max, cur.fg_max),
        abv_min: pick(p.abv_min, cur.abv_min),
        abv_max: pick(p.abv_max, cur.abv_max),
        ibu_min: pick(p.ibu_min, cur.ibu_min),
        ibu_max: pick(p.ibu_max, cur.ibu_max),
        color_ebc_min: pick(p.color_ebc_min, cur.color_ebc_min),
        color_ebc_max: pick(p.color_ebc_max, cur.color_ebc_max),
        description: pick(p.description, cur.description),
    }
}

/// A brewing equipment configuration: the contents a caller edits.
#[derive(Clone, Debug)]
pub struct EquipmentFields<N> {
    pub name: String,
    pub batch_size_liters: Option<N>,
    pub batch_volume_target_liters: Option<N>,
    pub element_power_watts: Option<N>,
    pub boil_size_liters: Option<N>,
    pub pre_boil_volume_liters: Option<N>,
    pub boil_time_minutes: Option<i32>,
    pub boil_off_rate_liters_per_hour: Option<N>,
    pub boil_temp_c: Option<N>,
    pub trub_loss_liters: Option<N>,
    pub mash_tun_deadspace_liters: Option<N>,
    pub mash_tun_loss_liters: Option<N>,
    pub hlt_deadspace_liters: Option<N>,
    pub fermenter_loss_liters: Option<N>,
    pub top_up_liters: Option<N>,
    pub mash_time_minutes: Option<i32>,
    pub brewhouse_efficiency_pct: Option<N>,
    pub mash_efficiency_pct: Option<N>,
    pub hop_utilisation_pct: Option<N>,
    pub aroma_hop_utilisation_pct: Option<N>,
    pub hop_stand_temp_c: Option<N>,
    pub altitude_m: Option<N>,
    pub cooling_shrinkage_pct: Option<N>,
    pub grain_absorption_l_per_kg: Option<N>,
    pub water_to_grain_ratio: Option<N>,
    pub sparge_water_reminder_liters: Option<N>,
    pub notes: Option<String>,
}

/// Partial-update payload; absent fields are left unchanged.
#[derive(Clone, Debug)]
pub struct PatchEquipmentRequest<N> {
    pub name: Option<String>,
    pub batch_size_liters: Option<N>,
    pub batch_volume_target_liters: Option<N>,
    pub element_power_watts: Option<N>,
    pub boil_size_liters: Option<N>,
    pub pre_boil_volume_liters: Option<N>,
    pub boil_time_minutes: Option<i32>,
    pub boil_off_rate_liters_per_hour: Option<N>,
    pub boil_temp_c: Option<N>,
    pub trub_loss_liters: Option<N>,
    pub mash_tun_deadspace_liters: Option<N>,
    pub mash_tun_loss_liters: Option<N>,
    pub hlt_deadspace_liters: Option<N>,
    pub fermenter_loss_liters: Option<N>,
    pub top_up_liters: Option<N>,
    pub mash_time_minutes: Option<i32>,
    pub brewhouse_efficiency_pct: Option<N>,
    pub mash_efficiency_pct: Option<N>,
    pub hop_utilisation_pct: Option<N>,
    pub aroma_hop_utilisation_pct: Option<N>,
    pub hop_stand_temp_c: Option<N>,
    pub altitude_m: Option<N>,
    pub cooling_shrinkage_pct: Option<N>,
    pub grain_absorption_l_per_kg: Option<N>,
    pub water_to_grain_ratio: Option<N>,
    pub sparge_water_reminder_liters: Option<N>,
    pub notes: Option<String>,
}

/// The contents after a patch: each given field replaces the current one.
pub open spec fn equipment_patched<N>(cur: EquipmentFields<N>, p: PatchEquipmentRequest<N>) -> EquipmentFields<N> {
    EquipmentFields {
        name: match p.name {
            Some(v) => v,
            None => cur.name,
        },
        batch_size_liters: pick(p.batch_size_liters, cur.batch_size_liters),
        batch_volume_target_liters: pick(p.batch_volume_target_liters, cur.batch_volume_target_liters),
        element_power_watts: pick(p.element_power_watts, cur.element_power_watts),
        boil_size_liters: pick(p.boil_size_liters, cur.boil_size_liters),
        pre_boil_volume_liters: pick(p.pre_boil_volume_liters, cur.pre_boil_volume_liters),
        boil_time_minutes: pick(p.boil_time_minutes, cur.boil_time_minutes),
        boil_off_rate_liters_per_hour: pick(p.boil_off_rate_liters_per_hour, cur.boil_off_rate_liters_per_hour),
        boil_temp_c: pick(p.boil_temp_c, cur.boil_temp_c),
        trub_loss_liters: pick(p.trub_loss_liters, cur.trub_loss_liters),
        mash_tun_deadspace_liters: pick(p.mash_tun_deadspace_liters, cur.mash_tun_deadspace_liters),
        mash_tun_loss_liters: pick(p.mash_tun_loss_liters, cur.mash_tun_loss_liters),
        hlt_deadspace_liters: pick(p.hlt_deadspace_liters, cur.hlt_deadspace_liters),
        fermenter_loss_liters: pick(p.fermenter_loss_liters, cur.fermenter_loss_liters),
        top_up_liters: pick(p.top_up_liters, cur.top_up_liters),
        mash_time_minutes: pick(p.mash_time_minutes, cur.mash_time_minutes),
        brewhouse_efficiency_pct: pick(p.brewhouse_efficiency_pct, cur.brewhouse_efficiency_pct),
        mash_efficiency_pct: pick(p.mash_efficiency_pct, cur.mash_efficiency_pct),
        hop_utilisation_pct: pick(p.hop_utilisation_pct, cur.hop_utilisation_pct),
        aroma_hop_utilisation_pct: pick(p.aroma_hop_utilisation_pct, cur.aroma_hop_utilisation_pct),
        hop_stand_temp_c: pick(p.hop_stand_temp_c, cur.hop_stand_temp_c),
        altitude_m: pick(p.altitude_m, cur.altitude_m),
        cooling_shrinkage_pct: pick(p.cooling_shrinkage_pct, cur.cooling_shrinkage_pct),
        grain_absorption_l_per_kg: pick(p.grain_absorption_l_per_kg, cur.grain_absorption_l_per_kg),
        water_to_grain_ratio: pick(p.water_to_grain_ratio, cur.water_to_grain_ratio),
        sparge_water_reminder_liters: pick(p.sparge_water_reminder_liters, cur.sparge_water_reminder_liters),
        notes: pick(p.notes, cur.notes),
    }
}

/// A yeast strain: the contents a caller edits.
#[derive(Clone, Debug)]
pub struct YeastFields<N> {
    pub name: String,
    pub manufacturer: Option<String>,
    pub product_code: Option<String>,
    pub yeast_type: Option<String>,
    pub form: Option<String>,
    pub attenuation_min_pct: Option<N>,
    pub attenuation_max_pct: Option<N>,
    pub temp_min_c: Option<N>,
    pub temp_max_c: Option<N>,
    pub flocculation: Option<String>,
    pub notes: Option<String>,
}

/// Partial-update payload; absent fields are left unchanged.
#[derive(Clone, Debug)]
pub struct PatchYeastRequest<N> {
    pub name: Option<String>,
    pub manufacturer: Option<String>,
    pub product_code: Option<String>,
    pub yeast_type: Option<String>,
    pub form: Option<String>,
    pub attenuation_min_pct: Option<N>,
    pub attenuation_max_pct: Option<N>,
    pub temp_min_c: Option<N>,
    pub temp_max_c: Option<N>,
    pub flocculation: Option<String>,
    pub notes: Option<String>,
}

/// The contents after a patch: each given field replaces the current one.
pub open spec fn yeast_patched<N>(cur: YeastFields<N>, p: PatchYeastRequest<N>) -> YeastFields<N> {
    YeastFields {
        name: match p.name {
            Some(v) => v,
            None => cur.name,
        },
        manufacturer: pick(p.manufacturer, cur.manufacturer),
        product_code: pick(p.product_code, cur.product_code),
        yeast_type: pick(p.yeast_type, cur.yeast_type),
        form: pick(p.form, cur.form),
        attenuation_min_pct: pick(p.attenuation_min_pct, cur.attenuation_min_pct),
        attenuation_max_pct: pick(p.attenuation_max_pct, cur.attenuation_max_pct),
        temp_min_c: pick(p.temp_min_c, cur.temp_min_c),
        temp_max_c: pick(p.temp_max_c, cur.temp_max_c),
        flocculation: pick(p.flocculation, cur.flocculation),
        notes: pick(p.notes, cur.notes),
    }
}

/// A grain or adjunct reference record: the contents a caller edits.
#[derive(Clone, Debug)]
pub struct FermentableFields<N> {
    pub name: String,
    pub supplier: Option<String>,
    pub fermentable_type: Option<String>,
    pub colour_ebc_min: Option<N>,
    pub colour_ebc_max: Option<N>,
    pub extract_litres_per_kg: Option<N>,
    pub moisture_pct_max: Option<N>,
    pub tn_min: Option<N>,
    pub tn_max: Option<N>,
    pub snr_min: Option<N>,
    pub snr_max: Option<N>,
    pub attributes: Option<String>,
    pub notes: Option<String>,
}

/// Partial-update payload; absent fields are left unchanged.
#[derive(Clone, Debug)]
pub struct PatchFermentableRequest<N> {
    pub name: Option<String>,
    pub supplier: Option<String>,
    pub fermentable_type: Option<String>,
    pub colour_ebc_min: Option<N>,
    pub colour_ebc_max: Option<N>,
    pub extract_litres_per_kg: Option<N>,
    pub moisture_pct_max: Option<N>,
    pub tn_min: Option<N>,
    pub tn_max: Option<N>,
    pub snr_min: Option<N>,
    pub snr_max: Option<N>,
    pub attributes: Option<String>,
    pub notes: Option<String>,
}

/// The contents after a patch: each given field replaces the current one.
pub open spec fn fermentable_patched<N>(cur: FermentableFields<N>, p: PatchFermentableRequest<N>) -> FermentableFields<N> {
    FermentableFields {
        name: match p.name {
            Some(v) => v,
            None => cur.name,
        },
        supplier: pick(p.supplier, cur.supplier),
        fermentable_type: pick(p.fermentable_type, cur.fermentable_type),
        colour_ebc_min: pick(p.colour_ebc_min, cur.colour_ebc_min),
        colour_ebc_max: pick(p.colour_ebc_max, cur.colour_ebc_max),
        extract_litres_per_kg: pick(p.extract_litres_per_kg, cur.extract_litres_per_kg),
        moisture_pct_max: pick(p.moisture_pct_max, cur.moisture_pct_max),
        tn_min: pick(p.tn_min, cur.tn_min),
        tn_max: pick(p.tn_max, cur.tn_max),
        snr_min: pick(p.snr_min, cur.snr_min),
        snr_max: pick(p.snr_max, cur.snr_max),
        attributes: pick(p.attributes, cur.attributes),
        notes: pick(p.notes, cur.notes),
    }
}


/// Applying the same style patch twice gives what applying it once gives.
pub proof fn law_style_patch_idempotent<N>(cur: StyleFields<N>, p: PatchStyleRequest<N>)
    ensures
        style_patched(style_patched(cur, p), p) == style_patched(cur, p),
{
}

/// Applying the same equipment patch twice gives what applying it once gives.
pub proof fn law_equipment_patch_idempotent<N>(cur: EquipmentFields<N>, p: PatchEquipmentRequest<N>)
    ensures
        equipment_patched(equipment_patched(cur, p), p) == equipment_patched(cur, p),
{
}

/// Applying the same yeast patch twice gives what applying it once gives.
pub proof fn law_yeast_patch_idempotent<N>(cur: YeastFields<N>, p: PatchYeastRequest<N>)
    ensures
        yeast_patched(yeast_patched(cur, p), p) == yeast_patched(cur, p),
{
}

/// Applying the same fermentable patch twice gives what applying it once gives.
pub proof fn law_fermentable_patch_idempotent<N>(cur: FermentableFields<N>, p: PatchFermentableRequest<N>)
    ensures
        fermentable_patched(fermentable_patched(cur, p), p) == fermentable_patched(cur, p),
{
}

} // verus!
