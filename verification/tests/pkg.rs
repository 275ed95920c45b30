use chrono::Datelike;
use batchwise::pkg::allergen::{normalise, union, validate, vocabulary};
use batchwise::pkg::bitterness::{hop_timing, is_leaf_form, normalise_form, normalise_use, HopTiming};
use batchwise::pkg::duty::{check_jurisdiction, DutyError};
use batchwise::pkg::gravity::{BrewingStandard, Calculator, SucroseReference};
use batchwise::pkg::labelkit::format::{format_allergens, format_best_before, title_case};
use batchwise::pkg::labelkit::layout::{font_family, hex_to_rgb, label_lines, FontFamily, FontWeight, LabelContent};
use batchwise::pkg::labelkit::model::{DesignOptions, RenderTasting};
use batchwise::pkg::labelkit::presets::{size_preset, template_preset, valid_size_for_kind};
use batchwise::pkg::water::{check_acid, common_water_profiles, get_water_profile, weighs_anhydrous, AcidType, MineralForm, WaterError};

fn strings(v: &[&str]) -> Vec<String> {
    v.iter().map(|s| s.to_string()).collect()
}

#[test]
fn validate_accepts_known_rejects_unknown() {
    assert!(validate(&["gluten".into(), "milk".into()]).is_ok());
    assert!(validate(&["unicorn".into()]).is_err());
}

#[test]
fn normalise_lowercases_and_trims() {
    assert_eq!(normalise(&["  Gluten ".into(), "MILK".into()]), vec!["gluten", "milk"]);
}

#[test]
fn union_is_sorted_and_deduped() {
    assert_eq!(
        union(&["milk".into(), "gluten".into()], &["gluten".into(), "soya".into()]),
        vec!["gluten", "milk", "soya"]
    );
}

#[test]
fn unknown_allergen_message_names_the_token_and_the_vocabulary() {
    let err = validate(&strings(&["milk", "unicorn", "dragon"])).unwrap_err();
    assert_eq!(
        err,
        "unknown allergen token \"unicorn\"; valid tokens: gluten, wheat, barley, rye, oats, \
         sulphites, nuts, peanuts, soya, milk, celery, mustard, sesame, lupin"
    );
}

#[test]
fn vocabulary_has_the_fourteen_major_allergens() {
    let v = vocabulary();
    assert_eq!(v.len(), 14);
    assert!(validate(&strings(&v)).is_ok());
}

#[test]
fn union_commutes_and_ignores_repeats() {
    let a = strings(&["sesame", "celery", "celery"]);
    let b = strings(&["barley", "sesame"]);
    assert_eq!(union(&a, &b), union(&b, &a));
    assert_eq!(union(&a, &b), vec!["barley", "celery", "sesame"]);
    assert_eq!(union(&[], &[]), Vec::<String>::new());
}

#[test]
fn union_orders_by_bytes() {
    assert_eq!(union(&strings(&["b", "B", "a"]), &[]), vec!["B", "a", "b"]);
}

#[test]
fn allergens_title_cased_and_joined() {
    assert_eq!(format_allergens(&[]), "");
    assert_eq!(format_allergens(&["gluten".into(), "MILK".into()]), "Gluten, Milk");
}

#[test]
fn title_case_maps_ascii_only() {
    assert_eq!(title_case("sULPHITES"), "Sulphites");
    assert_eq!(title_case(""), "");
    assert_eq!(title_case("éCLAIR"), "éclair");
}

#[test]
fn size_presets_by_key() {
    let s = size_preset("pumpclip_round_114").unwrap();
    assert_eq!((s.kind, s.shape, s.width_mm, s.height_mm), ("pump_clip", "circle", 114, 114));
    assert!(size_preset("nope").is_none());
    assert!(valid_size_for_kind("can_wrap_200x100", "can"));
    assert!(!valid_size_for_kind("can_wrap_200x100", "bottle"));
    assert!(!valid_size_for_kind("missing", "can"));
}

#[test]
fn template_presets_by_key() {
    assert_eq!(template_preset("clip_standard").unwrap().description, "Pump clip / cask lens layout");
    assert!(template_preset("fancy").is_none());
}

#[test]
fn hex_colours_parse_or_fall_back_to_black() {
    assert_eq!(hex_to_rgb("#ff8000"), (255, 128, 0));
    assert_eq!(hex_to_rgb("#FFaa01"), (255, 170, 1));
    assert_eq!(hex_to_rgb("#112233"), (17, 34, 51));
    assert_eq!(hex_to_rgb("#FFffFF"), (255, 255, 255));
    assert_eq!(hex_to_rgb("#+f+f+f"), (0, 0, 0));
    assert_eq!(hex_to_rgb("#+1+2+3"), (0, 0, 0));
    assert_eq!(hex_to_rgb("#12345"), (0, 0, 0));
    assert_eq!(hex_to_rgb("112233"), (0, 0, 0));
    assert_eq!(hex_to_rgb("#1é345"), (0, 0, 0));
    assert_eq!(hex_to_rgb("ff8000"), (0, 0, 0));
    assert_eq!(hex_to_rgb("#ff80"), (0, 0, 0));
    assert_eq!(hex_to_rgb("#gg0000"), (0, 0, 0));
}

#[test]
fn font_family_by_name() {
    assert_eq!(font_family("times"), FontFamily::Times);
    assert_eq!(font_family("courier"), FontFamily::Courier);
    assert_eq!(font_family("Times"), FontFamily::Helvetica);
}

fn content(kind: &str) -> LabelContent {
    LabelContent {
        kind: kind.to_string(),
        product_name: "Test IPA".to_string(),
        style: Some("IPA".to_string()),
        abv_text: "5.2".to_string(),
        allergens: strings(&["gluten", "barley"]),
        net_volume_ml: Some(330),
        responsible_party: Some("Acme Brewing, 1 High St".to_string()),
        country_of_origin: Some("GB".to_string()),
        best_before_date: Some("2026-12-31".to_string()),
        lot_identifier: Some("B-001".to_string()),
        ingredient_list: Some("water, barley".to_string()),
        energy_text: Some(("180".to_string(), "43".to_string())),
        units_text: Some("1.7".to_string()),
        brewery_name: "Acme Brewing".to_string(),
        tasting: Some(RenderTasting {
            aroma: Some("citrus".to_string()),
            flavour: None,
            mouthfeel: None,
            finish: Some("dry".to_string()),
        }),
        options: DesignOptions {
            show_ingredient_list: true,
            show_energy: true,
            show_units: false,
            show_responsible_drinking: true,
            show_tasting_notes: true,
        },
    }
}

#[test]
fn bottle_layout_lists_the_compliance_lines() {
    let lines = label_lines(&content("bottle"));
    let texts: Vec<(u32, u32, FontWeight, &str)> =
        lines.iter().map(|l| (l.top_mm, l.size_pt, l.weight, l.text.as_str())).collect();
    assert_eq!(
        texts,
        vec![
            (8, 16, FontWeight::Bold, "Test IPA"),
            (16, 9, FontWeight::Regular, "Style: IPA"),
            (21, 10, FontWeight::Regular, "ABV 5.2%"),
            (26, 9, FontWeight::Bold, "Allergens: Gluten, Barley"),
            (31, 9, FontWeight::Regular, "330 ml"),
            (36, 9, FontWeight::Regular, "Acme Brewing, 1 High St"),
            (41, 9, FontWeight::Regular, "Origin: GB"),
            (46, 9, FontWeight::Regular, "Best before: 2026-12-31"),
            (51, 9, FontWeight::Regular, "Lot: B-001"),
            (56, 9, FontWeight::Regular, "Ingredients: water, barley"),
            (61, 9, FontWeight::Regular, "Energy: 180 kJ / 43 kcal per 100ml"),
            (66, 9, FontWeight::Regular, "Please drink responsibly"),
        ]
    );
}

#[test]
fn clip_layout_lists_style_abv_brewery_and_tasting() {
    let lines = label_lines(&content("pump_clip"));
    let texts: Vec<(u32, u32, FontWeight, &str)> =
        lines.iter().map(|l| (l.top_mm, l.size_pt, l.weight, l.text.as_str())).collect();
    assert_eq!(
        texts,
        vec![
            (8, 16, FontWeight::Bold, "Test IPA"),
            (16, 10, FontWeight::Italic, "Style: IPA"),
            (21, 12, FontWeight::Regular, "ABV 5.2%"),
            (26, 9, FontWeight::Regular, "Acme Brewing"),
            (31, 9, FontWeight::Regular, "Aroma: citrus"),
            (36, 9, FontWeight::Regular, "Finish: dry"),
        ]
    );
}

#[test]
fn unknown_kind_has_only_a_title() {
    assert_eq!(label_lines(&content("poster")).len(), 1);
}

#[test]
fn design_options_default_to_off() {
    let d = DesignOptions::default();
    assert!(!d.show_energy && !d.show_units && !d.show_tasting_notes);
}

#[test]
fn hop_forms_and_uses_are_canonical() {
    assert_eq!(normalise_form("whole"), "leaf");
    assert_eq!(normalise_form(""), "pellet");
    assert_eq!(normalise_form("LEAF"), "leaf");
    assert_eq!(normalise_form("Extract"), "extract");
    assert_eq!(normalise_use(""), "boil");
    assert_eq!(normalise_use("DRY-HOP"), "dry-hop");
    for use_ in ["mash", "first-wort", "boil", "whirlpool", "dry-hop"] {
        assert_eq!(normalise_use(use_), use_);
    }
    assert!(is_leaf_form("Whole"));
    assert!(!is_leaf_form("pellet"));
    assert_eq!(hop_timing("dry-hop"), HopTiming::NoBitterness);
    assert_eq!(hop_timing("whirlpool"), HopTiming::Whirlpool);
    assert_eq!(hop_timing("Whirlpool"), HopTiming::Boil);
}

#[test]
fn duty_is_calculated_for_gb_only() {
    assert!(check_jurisdiction("gb").is_ok());
    match check_jurisdiction("us") {
        Err(DutyError::Invalid(m)) => assert_eq!(
            m,
            "duty calculation requested for unsupported jurisdiction US; returning 0"
        ),
        other => panic!("unexpected {other:?}"),
    }
}

#[test]
fn asbc_has_its_own_sucrose_reference() {
    assert_eq!(Calculator::new(BrewingStandard::Asbc).sucrose_reference(), SucroseReference::Asbc);
    assert_eq!(Calculator::new(BrewingStandard::Ebc).sucrose_reference(), SucroseReference::Iob);
    assert_eq!(Calculator::new(BrewingStandard::Iob).standard(), BrewingStandard::Iob);
}

#[test]
fn acids_and_salt_forms() {
    assert!(check_acid(AcidType::Lactic).is_ok());
    match check_acid(AcidType::NoAcid) {
        Err(WaterError::Invalid(m)) => assert_eq!(m, "unknown acid type: \"none\""),
        other => panic!("unexpected {other:?}"),
    }
    assert!(weighs_anhydrous(MineralForm::Liquid));
    assert!(!weighs_anhydrous(MineralForm::default()));
}

#[test]
fn common_water_profiles_lookup() {
    for name in ["burton", "dublin", "pilsen", "ro"] {
        assert!(get_water_profile(name).is_some(), "profile {name:?} should exist");
    }
    assert!(get_water_profile("nonexistent").is_none());
    assert!(get_water_profile("Burton").is_some());
}

#[test]
fn common_water_profiles_burton() {
    let p = get_water_profile("burton").unwrap();
    assert_eq!(p.calcium, 295);
    assert_eq!(p.sulfate, 725);
}

#[test]
fn every_listed_water_can_be_looked_up() {
    let all = common_water_profiles();
    assert_eq!(all.len(), 9);
    for (name, profile) in all {
        assert_eq!(get_water_profile(&name.to_uppercase()), Some(profile));
    }
    let ro = get_water_profile("RO").unwrap();
    assert_eq!(ro.calcium + ro.magnesium + ro.sodium + ro.sulfate + ro.chloride + ro.bicarbonate, 0);
}

#[test]
fn best_before_uk_format() {
    let d = chrono::NaiveDate::from_ymd_opt(2026, 3, 9).unwrap();
    assert_eq!(format_best_before(d.year(), d.month(), d.day()), "09/03/2026");
}

#[test]
fn best_before_years_outside_four_digits_are_signed() {
    assert_eq!(format_best_before(5, 12, 31), "31/12/0005");
    assert_eq!(format_best_before(-44, 3, 15), "15/03/-0044");
    assert_eq!(format_best_before(12345, 1, 1), "01/01/+12345");
    let d = chrono::NaiveDate::from_ymd_opt(-44, 3, 15).unwrap();
    assert_eq!(d.format("%d/%m/%Y").to_string(), "15/03/-0044");
}
