use batchwise::labels::models::{validate_patch, validate_status, Abv, LabelPatch, LabelState, Page};
use batchwise::labels::repository::{clamp_page, label_order_by, list_query, ListFilter};
use batchwise::labels::service::{
    apply_patch, apply_patch_checked, changed_fields, check_deletable, draft_record, validate_for_approval,
};
use batchwise::platform::errors::Detail;

fn record() -> LabelState<f64> {
    LabelState {
        status: "draft".into(),
        product_name: "Test IPA".into(),
        abv: Abv { value: 5.2, above_zero: true },
        allergens: vec!["barley".into()],
        net_volume_ml: 330,
        responsible_party: "Acme".into(),
        country_of_origin: "GB".into(),
        best_before_date: None,
        lot_identifier: "B-001".into(),
        ingredient_list: None,
        energy_kj_per_100ml: Some(119.0),
        energy_kcal_per_100ml: Some(28.4),
        alcohol_units_per_serving: Some(1.7),
        serving_volume_ml: None,
    }
}

fn empty_patch() -> LabelPatch<f64> {
    LabelPatch {
        product_name: None,
        abv: None,
        allergens: None,
        net_volume_ml: None,
        responsible_party: None,
        country_of_origin: None,
        best_before_date: None,
        lot_identifier: None,
        ingredient_list: None,
        energy_kj_per_100ml: None,
        energy_kcal_per_100ml: None,
        alcohol_units_per_serving: None,
        serving_volume_ml: None,
        status: None,
    }
}

fn rule_of(e: &batchwise::platform::errors::ApiError) -> String {
    for (k, v) in e.details().unwrap() {
        if k == "rule" {
            if let Detail::Text(t) = v {
                return t.clone();
            }
        }
    }
    String::new()
}

#[test]
fn approved_records_cannot_be_modified() {
    let mut r = record();
    r.status = "approved".into();
    let e = apply_patch_checked(r, empty_patch(), true).unwrap_err();
    assert_eq!(e.status(), 422);
    assert_eq!(e.message(), "Approved label records cannot be modified.");
    assert_eq!(rule_of(&e), "label_record_approved");
}

#[test]
fn patch_normalises_and_checks_allergens() {
    let mut p = empty_patch();
    p.allergens = Some(vec![" Gluten ".into(), "MILK".into()]);
    let s = apply_patch_checked(record(), p, true).unwrap();
    assert_eq!(s.allergens, vec!["gluten", "milk"]);

    let mut p = empty_patch();
    p.allergens = Some(vec!["unicorn".into()]);
    let e = apply_patch_checked(record(), p, true).unwrap_err();
    assert_eq!(e.status(), 400);
}

#[test]
fn bad_best_before_dates_are_refused() {
    let mut p = empty_patch();
    p.best_before_date = Some("31/12/2026".into());
    assert!(apply_patch_checked(record(), p.clone(), false).is_err());
    assert!(apply_patch(record(), p).is_err());
    let mut p = empty_patch();
    p.best_before_date = Some("2026-12-31".into());
    let s = apply_patch(record(), p).unwrap();
    assert_eq!(s.best_before_date.as_deref(), Some("2026-12-31"));
}

#[test]
fn approving_needs_every_mandatory_field() {
    let mut r = record();
    r.product_name = "  ".into();
    r.abv = Abv { value: 0.0, above_zero: false };
    let mut p = empty_patch();
    p.status = Some("approved".into());
    let e = apply_patch_checked(r, p, true).unwrap_err();
    assert_eq!(e.message(), "Cannot approve: missing required fields: product_name, abv_percent");
    assert_eq!(rule_of(&e), "label_record_incomplete");

    let mut p = empty_patch();
    p.status = Some("approved".into());
    let s = apply_patch_checked(record(), p, true).unwrap();
    assert_eq!(s.status, "approved");
}

#[test]
fn patch_can_complete_a_record_while_approving_it() {
    let mut r = record();
    r.lot_identifier = String::new();
    let mut p = empty_patch();
    p.lot_identifier = Some("B-002".into());
    p.status = Some("approved".into());
    let s = apply_patch_checked(r, p, true).unwrap();
    assert_eq!(s.lot_identifier, "B-002");
    assert_eq!(s.status, "approved");
}

#[test]
fn validate_for_approval_lists_all_missing_fields() {
    let r = LabelState::<f64> {
        status: "draft".into(),
        product_name: String::new(),
        abv: Abv { value: 0.0, above_zero: false },
        allergens: vec![],
        net_volume_ml: 0,
        responsible_party: " ".into(),
        country_of_origin: String::new(),
        best_before_date: None,
        lot_identifier: String::new(),
        ingredient_list: None,
        energy_kj_per_100ml: None,
        energy_kcal_per_100ml: None,
        alcohol_units_per_serving: None,
        serving_volume_ml: None,
    };
    let e = validate_for_approval(&r).unwrap_err();
    assert_eq!(
        e.message(),
        "Cannot approve: missing required fields: product_name, abv_percent, net_volume_ml, responsible_party, lot_identifier"
    );
    assert!(validate_for_approval(&record()).is_ok());
}

#[test]
fn changed_fields_in_fixed_order() {
    let mut p = empty_patch();
    p.lot_identifier = Some("x".into());
    p.product_name = Some("y".into());
    p.status = Some("draft".into());
    p.ingredient_list = Some("z".into());
    assert_eq!(changed_fields(&p), vec!["product_name", "status", "lot_identifier", "ingredient_list"]);

    let mut p = empty_patch();
    p.responsible_party = Some("Acme Brewing".into());
    assert_eq!(changed_fields(&p), vec!["responsible_party"]);
    assert!(changed_fields(&empty_patch()).is_empty());

    let all = LabelPatch {
        product_name: Some("a".into()),
        abv: Some(Abv { value: 4.0, above_zero: true }),
        allergens: Some(vec![]),
        net_volume_ml: Some(330),
        responsible_party: Some("b".into()),
        country_of_origin: Some("GB".into()),
        best_before_date: Some("2026-01-01".into()),
        lot_identifier: Some("c".into()),
        ingredient_list: Some("d".into()),
        energy_kj_per_100ml: Some(1.0),
        energy_kcal_per_100ml: Some(2.0),
        alcohol_units_per_serving: Some(3.0),
        serving_volume_ml: Some(500),
        status: Some("draft".into()),
    };
    assert_eq!(
        changed_fields(&all),
        vec![
            "product_name",
            "abv_percent",
            "allergens",
            "net_volume_ml",
            "status",
            "responsible_party",
            "country_of_origin",
            "best_before_date",
            "lot_identifier",
            "ingredient_list",
            "energy_kj_per_100ml",
            "energy_kcal_per_100ml",
            "alcohol_units_per_serving",
            "serving_volume_ml",
        ]
    );
}

#[test]
fn patches_carry_the_decimal_fields() {
    let mut p = empty_patch();
    p.abv = Some(Abv { value: 6.5, above_zero: true });
    p.alcohol_units_per_serving = Some(2.1);
    let s = apply_patch_checked(record(), p, true).unwrap();
    assert_eq!(s.abv.value, 6.5);
    assert_eq!(s.alcohol_units_per_serving, Some(2.1));
    assert_eq!(s.energy_kj_per_100ml, Some(119.0));
}

#[test]
fn drafts_start_with_the_tenant_as_responsible_party() {
    let abv = Abv { value: 5.0, above_zero: true };
    let d = draft_record("IPA".into(), abv, (114.4, 27.3, 1.7), "B-9".into(), vec![], "Acme", "1 High St", "GB".into(), 330, None);
    assert_eq!(d.status, "draft");
    assert_eq!(d.energy_kj_per_100ml, Some(114.4));
    assert_eq!(d.energy_kcal_per_100ml, Some(27.3));
    assert_eq!(d.alcohol_units_per_serving, Some(1.7));
    assert_eq!(d.responsible_party, "Acme, 1 High St");
    assert_eq!(d.lot_identifier, "B-9");
    let d = draft_record("IPA".into(), abv, (0.0, 0.0, 0.0), "B-9".into(), vec![], "Acme", "", "GB".into(), 330, Some(500));
    assert_eq!(d.responsible_party, "Acme");
    assert_eq!(d.serving_volume_ml, Some(500));
    let zero = Abv { value: 0.0, above_zero: false };
    let d = draft_record("Water".into(), zero, (0.0, 0.0, 0.0), "B-0".into(), vec![], "Acme", "", "GB".into(), 330, None);
    assert_eq!((d.energy_kj_per_100ml, d.energy_kcal_per_100ml, d.alcohol_units_per_serving), (None, None, None));
}

#[test]
fn approved_records_cannot_be_deleted() {
    assert!(check_deletable("draft").is_ok());
    assert_eq!(check_deletable("approved").unwrap_err().message(), "Approved label records cannot be deleted.");
}

#[test]
fn patch_payload_rules() {
    assert!(validate_status("approved").is_ok());
    assert_eq!(validate_status("final"), Err("oneof"));
    let mut p = empty_patch();
    p.country_of_origin = Some("GBR".into());
    assert_eq!(validate_patch(&p).unwrap_err().status(), 400);
    let mut p = empty_patch();
    p.net_volume_ml = Some(0);
    assert!(validate_patch(&p).is_err());
    assert!(validate_patch(&empty_patch()).is_ok());
}

#[test]
fn label_list_query() {
    assert_eq!(clamp_page(0, 0), (1, 20));
    assert_eq!(clamp_page(2, 500), (2, 500));
    assert_eq!(label_order_by(Some("-status")), "status DESC");
    assert_eq!(label_order_by(Some("bogus")), "created_at DESC");
    assert_eq!(label_order_by(None), "created_at DESC");
    let q = list_query(&ListFilter { batch_id: Some(3), status: Some(String::new()), page: 3, page_size: 10, sort: None });
    assert_eq!((q.page, q.page_size, q.offset), (3, 10, 20));
    assert_eq!(q.status, None);
    assert_eq!(q.batch_id, Some(3));
    let p = Page::<()>::new(vec![], 21, 1, 10);
    assert_eq!(p.total_pages, 3);
}
