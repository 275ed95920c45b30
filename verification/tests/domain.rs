use batchwise::packaging::service::decide_movement;
use batchwise::platform::errors::DbFailure;
use batchwise::library::models::parse_id;
use batchwise::members::models::{CreateInvitationRequest, PatchMemberRequest};
use batchwise::library::fields::{EquipmentFields, PatchEquipmentRequest, PatchStyleRequest, StyleFields};
use batchwise::library::models::{check_mash_step, validate_name, validate_step_type, MashStepRequest, Page as LibraryPage, StyleFilter, YeastFilter};
use batchwise::library::repository::{
    clamp_page as library_clamp, parse_sort, style_list_query, yeast_list_query, FilterValue,
};
use batchwise::library::service::{
    deleted_or_not_found, equipment_update, mash_profile_update, patch_mash_profile, patch_style, style_update,
};
use batchwise::members::service::{
    check_owner_kept, check_patch_body, check_revoke, is_staff, parse_role, plan_invitation, plan_member_patch,
};
use batchwise::packaging::models::{is_outbound, validate_format, validate_movement_type, VoidMovementRequest};
use batchwise::packaging::service::{
    build_movement_sort, build_run_sort, check_movement_request, check_run_deletable, check_stock,
    movement_origin, plan_run_patch, run_list_query, ListPackagingRunsFilter,
};
use batchwise::packaging::models::PatchPackagingRunRequest;
use batchwise::platform::authz::Role;
use batchwise::procurement::models::{
    is_iso_currency, validate_ingredient_type_opt, validate_iso_currency_opt, validate_iso_currency_present, PatchPORequest,
};
use batchwise::procurement::repository::{po_order_by, supplier_order_by};
use batchwise::procurement::service::{
    allowed_transitions, check_lines_editable, check_po_deletable, check_receivable, find_line,
    line_currency, plan_po_patch, po_number, receipt_status, validate_transition, LineChange, LineReceipt,
};

const COLS: &[(&str, &str)] = &[("name", "name"), ("created_at", "created_at")];

fn style(name: &str) -> StyleFields<f64> {
    StyleFields {
        name: name.into(),
        category: Some("Ale".into()),
        og_min: Some(1.040),
        og_max: None,
        fg_min: None,
        fg_max: None,
        abv_min: None,
        abv_max: None,
        ibu_min: None,
        ibu_max: None,
        color_ebc_min: None,
        color_ebc_max: None,
        description: None,
    }
}

#[test]
fn style_patch_overlays_given_fields() {
    let p = PatchStyleRequest {
        name: None,
        category: None,
        og_min: Some(1.050),
        og_max: Some(1.060),
        fg_min: None,
        fg_max: None,
        abv_min: None,
        abv_max: None,
        ibu_min: None,
        ibu_max: None,
        color_ebc_min: None,
        color_ebc_max: None,
        description: Some("hoppy".into()),
    };
    let s = patch_style(style("Pale"), p);
    assert_eq!(s.name, "Pale");
    assert_eq!(s.category.as_deref(), Some("Ale"));
    assert_eq!(s.og_min, Some(1.050));
    assert_eq!(s.og_max, Some(1.060));
    assert_eq!(s.description.as_deref(), Some("hoppy"));
}

#[test]
fn library_sort_strings() {
    assert_eq!(parse_sort("", COLS, "name").unwrap(), "name ASC");
    assert_eq!(parse_sort(" name , -created_at ", COLS, "name").unwrap(), "name ASC, created_at DESC");
    assert_eq!(parse_sort("name,", COLS, "name").unwrap_err().status(), 400);
    assert!(parse_sort("colour", COLS, "name").is_err());
}

#[test]
fn library_queries() {
    assert_eq!(library_clamp(-4, 1000), (1, 100));
    let q = style_list_query::<f64>(&StyleFilter {
        category: Some("Ale".into()),
        name: Some("IPA".into()),
        page: 2,
        page_size: 0,
        sort: "-og_min".into(),
    })
    .unwrap();
    assert_eq!((q.page, q.page_size, q.offset), (2, 20, 20));
    assert_eq!(q.order_by, "og_min DESC");
    assert_eq!(q.conditions.len(), 2);
    assert_eq!(q.conditions[0].sql, " AND category = ");
    assert!(matches!(&q.conditions[1].value, FilterValue::Text(t) if t == "%ipa%"));
    let y = yeast_list_query(&YeastFilter {
        manufacturer: None,
        name: None,
        attenuation_min: Some(70.0),
        attenuation_max: None,
        page: 1,
        page_size: 10,
        sort: String::new(),
    })
    .unwrap();
    assert_eq!(y.conditions[0].sql, " AND attenuation_min_pct >= ");
    assert!(matches!(y.conditions[0].value, FilterValue::Number(n) if n == 70.0));
    assert!(style_list_query::<f64>(&StyleFilter::default()).is_ok());
}

#[test]
fn library_payload_rules() {
    assert!(validate_step_type("decoction").is_ok());
    assert_eq!(validate_step_type("boil"), Err("step_type"));
    let step = MashStepRequest { step_order: 1, step_type: "infusion".into(), target_temp_c: 66.0, hold_minutes: 0, infusion_volume_liters: None };
    assert_eq!(check_mash_step(&step), Err(("hold_minutes", "range")));
    assert!(validate_name("").is_err());
    assert!(validate_name(&"x".repeat(255)).is_ok());
    assert!(validate_name(&"x".repeat(256)).is_err());
    let u = patch_mash_profile::<f64>("Single".into(), Some("n".into()), None, None, None);
    assert_eq!(u.name, "Single");
    assert_eq!(u.notes.as_deref(), Some("n"));
    assert!(u.steps.is_none());
    assert_eq!(deleted_or_not_found(0, "yeast").unwrap_err().message(), "yeast not found");
    assert!(deleted_or_not_found(1, "yeast").is_ok());
    assert_eq!(LibraryPage::<()>::new(vec![], 41, 1, 20).total_pages, 3);
}

#[test]
fn managers_manage_only_staff() {
    assert!(is_staff(Role::Sales));
    assert!(!is_staff(Role::Manager));
    let e = plan_member_patch(Role::Manager, "manager", true, Some(Role::Viewer), None).unwrap_err();
    assert_eq!(e.status(), 403);
    let c = plan_member_patch(Role::Manager, "brewer", true, Some(Role::Sales), Some(false)).unwrap();
    assert_eq!(c.role, Role::Sales);
    assert!(c.revokes_tokens && c.role_changed && c.active_changed && !c.loses_owner);
    assert_eq!(parse_role("wizard").unwrap_err().status(), 400);
    assert!(plan_member_patch(Role::Owner, "wizard", true, None, None).is_err());
}

#[test]
fn last_owner_cannot_be_demoted() {
    let c = plan_member_patch(Role::Owner, "owner", true, Some(Role::Manager), None).unwrap();
    assert!(c.loses_owner);
    let e = check_owner_kept(&c, 0).unwrap_err();
    assert_eq!(e.message(), "A tenant must keep an active Owner. Make another member an Owner first.");
    assert!(check_owner_kept(&c, 1).is_ok());
    let c = plan_member_patch(Role::Owner, "owner", false, None, Some(false)).unwrap();
    assert!(!c.loses_owner);
}

#[test]
fn member_patch_body_needs_a_field() {
    assert_eq!(check_patch_body(&None, None).unwrap_err().status(), 400);
    assert_eq!(check_patch_body(&Some("viewer".into()), None).unwrap(), Some(Role::Viewer));
    assert_eq!(check_patch_body(&None, Some(true)).unwrap(), None);
}

#[test]
fn invitations_normalise_email_and_limit_managers() {
    let (email, role) = plan_invitation(Role::Owner, "  Ann@Example.COM ", "manager").unwrap();
    assert_eq!(email, "ann@example.com");
    assert_eq!(role, Role::Manager);
    assert_eq!(plan_invitation(Role::Manager, "a@b.c", "owner").unwrap_err().status(), 403);
    assert_eq!(check_revoke(Role::Manager, "brewer").unwrap(), Role::Brewer);
    assert!(check_revoke(Role::Manager, "owner").is_err());
}

#[test]
fn packaging_vocabularies() {
    assert!(validate_format("bag_in_box").is_ok());
    assert_eq!(validate_format("jug"), Err("invalid_format"));
    assert_eq!(validate_movement_type("theft"), Err("invalid_movement_type"));
    assert!(is_outbound("sample"));
    assert!(!is_outbound("return"));
    assert!(VoidMovementRequest { reason: "typo".into() }.validate().is_ok());
    assert!(VoidMovementRequest { reason: String::new() }.validate().is_err());
}

#[test]
fn sales_need_orders_and_stock() {
    assert_eq!(check_movement_request("sale", false).unwrap_err().status(), 400);
    assert!(matches!(check_movement_request("sale", true), Ok(true)));
    assert!(matches!(check_movement_request("return", false), Ok(false)));
    let e = check_stock(11, Some(10)).unwrap_err();
    assert_eq!(e.message(), "Quantity exceeds available stock.");
    assert!(check_stock(10, Some(10)).is_ok());
    assert_eq!(check_stock(1, None).unwrap_err().status(), 404);
    assert_eq!(movement_origin(Some(String::new())), "brewery");
    assert_eq!(movement_origin(Some("taproom".into())), "taproom");
}

#[test]
fn packaging_runs_and_sorting() {
    assert_eq!(build_run_sort(""), "pr.packaged_at DESC, pr.created_at DESC");
    assert_eq!(build_run_sort("--quantity"), "pr.quantity DESC, pr.created_at DESC");
    assert_eq!(build_run_sort("colour"), "pr.packaged_at ASC, pr.created_at DESC");
    assert_eq!(build_movement_sort("to_location"), "dm.to_location ASC, dm.created_at DESC");
    assert!(check_run_deletable(true).is_err());
    assert!(plan_run_patch(None, None, PatchPackagingRunRequest::default()).is_err());
    let (bb, notes) = plan_run_patch(Some("2026-01-01".into()), Some("old".into()), PatchPackagingRunRequest { best_before_date: None, notes: Some("new".into()) }).unwrap();
    assert_eq!(bb.as_deref(), Some("2026-01-01"));
    assert_eq!(notes.as_deref(), Some("new"));
    let q = run_list_query(&ListPackagingRunsFilter { batch_id: Some(9), format: None, sort: String::new(), page: 0, page_size: 300 });
    assert_eq!((q.page, q.page_size, q.offset), (1, 100, 0));
    assert_eq!(q.conditions.len(), 1);
}

#[test]
fn purchase_order_status_machine() {
    assert_eq!(allowed_transitions("draft"), vec!["sent", "cancelled"]);
    assert!(allowed_transitions("received").is_empty());
    assert!(validate_transition("draft", true, "sent").is_ok());
    assert_eq!(validate_transition("draft", false, "sent").unwrap_err().message(), "cannot mark a purchase order as sent with no lines");
    let e = validate_transition("received", true, "draft").unwrap_err();
    assert_eq!(e.message(), "cannot transition purchase order from \"received\" to \"draft\"");
    let u = plan_po_patch("draft".into(), true, None, Some("n".into()), Some("sent".into()), Some(Some("2026-02-01".into())), Some(None)).unwrap();
    assert_eq!(u.status, "sent");
    assert_eq!(u.expected_delivery.as_deref(), Some("2026-02-01"));
    assert!(u.notes.is_none());
    assert!(PatchPORequest { status: Some("draft".into()), expected_delivery: None, notes: None }.validate().is_err());
}

#[test]
fn purchase_order_drafts_and_receipts() {
    assert!(check_po_deletable("sent").is_err());
    assert_eq!(check_lines_editable("sent", LineChange::Add).unwrap_err().message(), "lines can only be added to draft purchase orders");
    assert!(check_receivable("draft").is_err());
    assert_eq!(find_line(&[5, 6, 7], 6).unwrap(), 1);
    assert_eq!(find_line(&[5], 6).unwrap_err().status(), 404);
    let full = LineReceipt { any_received: true, fully_received: true };
    let part = LineReceipt { any_received: true, fully_received: false };
    let none = LineReceipt { any_received: false, fully_received: false };
    assert_eq!(receipt_status("sent", &[full, full]), "received");
    assert_eq!(receipt_status("sent", &[full, none]), "partially_received");
    assert_eq!(receipt_status("sent", &[part]), "partially_received");
    assert_eq!(receipt_status("sent", &[none]), "sent");
    assert_eq!(line_currency(""), "GBP");
    assert_eq!(line_currency("EUR"), "EUR");
}

#[test]
fn procurement_vocabularies() {
    assert!(is_iso_currency("GBP"));
    assert!(!is_iso_currency("gbp"));
    assert!(!is_iso_currency("XYZ"));
    assert!(validate_ingredient_type_opt("hop").is_ok());
    assert_eq!(validate_ingredient_type_opt("grain"), Err("invalid_ingredient_type"));
    assert_eq!(supplier_order_by("-name"), "name DESC");
    assert_eq!(supplier_order_by("x"), "name ASC");
    assert_eq!(po_order_by("order_date"), "po.order_date ASC");
    assert_eq!(po_order_by(""), "po.created_at DESC");
}

#[test]
fn order_numbers_are_zero_padded() {
    assert_eq!(po_number(42), "PO-00042");
    assert_eq!(po_number(123456), "PO-123456");
    assert_eq!(po_number(-1), "PO--0001");
    assert_eq!(po_number(0), "PO-00000");
}

#[test]
fn optional_currencies_may_be_empty() {
    assert_eq!(validate_iso_currency_opt(""), Ok(()));
    assert_eq!(validate_iso_currency_opt("EUR"), Ok(()));
    assert_eq!(validate_iso_currency_opt("eur"), Err("invalid_currency"));
    assert_eq!(validate_iso_currency_present(""), Ok(()));
    assert_eq!(validate_iso_currency_present("USD"), Ok(()));
    assert_eq!(validate_iso_currency_present("US"), Err("invalid_currency"));
}

fn field_and_reason(e: &batchwise::platform::errors::ApiError) -> (String, String) {
    let mut field = String::new();
    let mut reason = String::new();
    for (k, v) in e.details().unwrap() {
        if let batchwise::platform::errors::Detail::Text(t) = v {
            if k == "field" {
                field = t.clone();
            } else if k == "reason" {
                reason = t.clone();
            }
        }
    }
    (field, reason)
}

fn supplier(email: Option<&str>) -> batchwise::procurement::models::CreateSupplierRequest {
    batchwise::procurement::models::CreateSupplierRequest {
        name: "Crisp".to_string(),
        contact_name: None,
        email: email.map(|s| s.to_string()),
        phone: None,
        website: None,
        notes: None,
    }
}

#[test]
fn supplier_email_must_be_an_address() {
    assert!(supplier(None).validate().is_ok());
    assert!(supplier(Some("orders@crisp.co.uk")).validate().is_ok());
    let e = supplier(Some("not-an-address")).validate().unwrap_err();
    assert_eq!(e.code(), "validation_error");
    assert_eq!(field_and_reason(&e), ("email".to_string(), "email".to_string()));
    let long = format!("{}@example.com", "a".repeat(60)).repeat(1);
    assert!(supplier(Some(&long)).validate().is_ok());
    let mut empty_name = supplier(None);
    empty_name.name = String::new();
    assert_eq!(field_and_reason(&empty_name.validate().unwrap_err()), ("name".to_string(), "length".to_string()));
}

#[test]
fn member_requests_check_role_and_email() {
    assert!(PatchMemberRequest { role: None, is_active: Some(false) }.validate().is_ok());
    assert!(PatchMemberRequest { role: Some("brewer".to_string()), is_active: None }.validate().is_ok());
    let e = PatchMemberRequest { role: Some("wizard".to_string()), is_active: None }.validate().unwrap_err();
    assert_eq!(field_and_reason(&e), ("role".to_string(), "role".to_string()));

    let ok = CreateInvitationRequest { email: "new@brewery.test".to_string(), role: "sales".to_string() };
    assert!(ok.validate().is_ok());
    let bad_email = CreateInvitationRequest { email: "nobody".to_string(), role: "sales".to_string() };
    assert_eq!(field_and_reason(&bad_email.validate().unwrap_err()), ("email".to_string(), "email".to_string()));
    let bad_role = CreateInvitationRequest { email: "new@brewery.test".to_string(), role: "boss".to_string() };
    assert_eq!(field_and_reason(&bad_role.validate().unwrap_err()), ("role".to_string(), "role".to_string()));
}

#[test]
fn path_ids_must_be_uuids() {
    let id = uuid::Uuid::new_v4();
    assert_eq!(parse_id(&id.to_string()).unwrap(), id.as_u128());
    assert_eq!(parse_id("67e55044-10b1-426f-9247-bb680e5fe0c8").unwrap(), 0x67e5504410b1426f9247bb680e5fe0c8);
    let e = parse_id("not-a-uuid").unwrap_err();
    assert_eq!(field_and_reason(&e), ("id".to_string(), "must be a valid UUID".to_string()));
}

fn kettle() -> EquipmentFields<f64> {
    EquipmentFields::<f64> {
        name: "Kettle".into(),
        batch_size_liters: Some(23.0),
        batch_volume_target_liters: None,
        element_power_watts: None,
        boil_size_liters: None,
        pre_boil_volume_liters: None,
        boil_time_minutes: None,
        boil_off_rate_liters_per_hour: None,
        boil_temp_c: None,
        trub_loss_liters: None,
        mash_tun_deadspace_liters: None,
        mash_tun_loss_liters: None,
        hlt_deadspace_liters: None,
        fermenter_loss_liters: None,
        top_up_liters: None,
        mash_time_minutes: None,
        brewhouse_efficiency_pct: None,
        mash_efficiency_pct: None,
        hop_utilisation_pct: None,
        aroma_hop_utilisation_pct: None,
        hop_stand_temp_c: None,
        altitude_m: None,
        cooling_shrinkage_pct: None,
        grain_absorption_l_per_kg: None,
        water_to_grain_ratio: None,
        sparge_water_reminder_liters: None,
        notes: Some("old".into()),
    }
}

fn longer_boil() -> PatchEquipmentRequest<f64> {
    PatchEquipmentRequest::<f64> {
        name: None,
        batch_size_liters: None,
        batch_volume_target_liters: None,
        element_power_watts: None,
        boil_size_liters: None,
        pre_boil_volume_liters: None,
        boil_time_minutes: Some(75),
        boil_off_rate_liters_per_hour: None,
        boil_temp_c: None,
        trub_loss_liters: None,
        mash_tun_deadspace_liters: None,
        mash_tun_loss_liters: None,
        hlt_deadspace_liters: None,
        fermenter_loss_liters: None,
        top_up_liters: None,
        mash_time_minutes: None,
        brewhouse_efficiency_pct: None,
        mash_efficiency_pct: None,
        hop_utilisation_pct: None,
        aroma_hop_utilisation_pct: None,
        hop_stand_temp_c: None,
        altitude_m: None,
        cooling_shrinkage_pct: None,
        grain_absorption_l_per_kg: None,
        water_to_grain_ratio: None,
        sparge_water_reminder_liters: None,
        notes: None,
    }
}

#[test]
fn owned_library_rows_are_updated_or_not_found() {
    let e = equipment_update(Some(kettle()), longer_boil()).unwrap();
    assert_eq!(e.name, "Kettle");
    assert_eq!(e.batch_size_liters, Some(23.0));
    assert_eq!(e.boil_time_minutes, Some(75));
    assert_eq!(e.notes.as_deref(), Some("old"));
    let missing = equipment_update(None, longer_boil()).unwrap_err();
    assert_eq!(missing.status(), 404);
    assert_eq!(missing.message(), "equipment profile not found");

    let mut p = PatchStyleRequest {
        name: Some("Amber".into()),
        category: None,
        og_min: None,
        og_max: None,
        fg_min: None,
        fg_max: None,
        abv_min: None,
        abv_max: None,
        ibu_min: None,
        ibu_max: None,
        color_ebc_min: None,
        color_ebc_max: None,
        description: None,
    };
    assert_eq!(style_update(Some(style("Pale")), p.clone()).unwrap().name, "Amber");
    p.name = None;
    assert_eq!(style_update(None, p).unwrap_err().message(), "style not found");

    let u = mash_profile_update::<f64>(Some(("Single".into(), None)), None, Some("rest".into()), None).unwrap();
    assert_eq!((u.name.as_str(), u.notes.as_deref()), ("Single", Some("rest")));
    match mash_profile_update::<f64>(None, None, None, None) {
        Err(e) => assert_eq!(e.message(), "mash profile not found"),
        Ok(_) => panic!("a missing mash profile is not found"),
    }
}

#[test]
fn unique_violations_become_conflicts() {
    let e = batchwise::members::service::invitation_failure(true, DbFailure::Other("dup".into()));
    assert_eq!((e.status(), e.message()), (409, "email: already has an open invitation"));
    let e = batchwise::members::service::invitation_failure(false, DbFailure::RowNotFound);
    assert_eq!((e.status(), e.message()), (404, "resource not found"));
    let e = batchwise::members::service::invitation_failure(false, DbFailure::Other("boom".into()));
    assert_eq!((e.status(), e.source()), (500, Some("boom")));
    let e = batchwise::packaging::service::run_insert_failure(true, DbFailure::RowNotFound);
    assert_eq!((e.status(), e.message()), (409, "packaging_run: lot_number"));
    assert_eq!(batchwise::packaging::service::run_insert_failure(false, DbFailure::RowNotFound).status(), 404);
    let e = batchwise::procurement::service::supplier_write_failure(true, DbFailure::RowNotFound);
    assert_eq!((e.status(), e.message()), (409, "supplier: a supplier with this name already exists"));
    assert_eq!(batchwise::procurement::service::supplier_write_failure(false, DbFailure::Other("x".into())).status(), 500);
}

#[test]
fn movement_decisions_follow_the_check_order() {
    let e = decide_movement("sale", false, 5, None, None).unwrap_err();
    assert_eq!(e.status(), 400);
    let e = decide_movement("sale", true, 5, None, None).unwrap_err();
    assert_eq!((e.status(), e.message()), (404, "packaging_run not found"));
    let e = decide_movement("sale", true, 11, Some(10), None).unwrap_err();
    assert_eq!((e.status(), e.message()), (422, "Quantity exceeds available stock."));
    assert_eq!(decide_movement("sale", true, 10, Some(10), Some("".into())).unwrap(), "brewery");
    assert_eq!(decide_movement("return", false, 50, None, Some("pub".into())).unwrap(), "pub");
}
