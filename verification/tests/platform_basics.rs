use batchwise::platform::database::{statement_cache_disabled, SUPABASE_TXN_POOLER_PORT};
use batchwise::platform::logger::{default_filter, json_logs};
use batchwise::platform::pagination::{clamp, clamp_with, offset, Page, DEFAULT_PAGE_SIZE, MAX_PAGE_SIZE};
use batchwise::platform::refs::Ref;
use batchwise::platform::sort::{parse, parse_with, Nulls};
use batchwise::platform::sql::{escape_like, like_contains, like_prefix};

const ALLOWED: &[(&str, &str)] = &[("name", "name"), ("created_at", "created_at")];

#[test]
fn clamp_defaults() {
    assert_eq!(clamp(0, 0), (1, DEFAULT_PAGE_SIZE));
}

#[test]
fn clamp_caps() {
    assert_eq!(clamp(3, 1000), (3, MAX_PAGE_SIZE));
}

#[test]
fn clamp_with_custom() {
    assert_eq!(clamp_with(0, 0, 10, 50), (1, 10));
    assert_eq!(clamp_with(2, 200, 10, 50), (2, 50));
    assert_eq!(clamp_with(5, 25, 10, 50), (5, 25));
}

#[test]
fn offset_first_page() {
    assert_eq!(offset(1, 20), 0);
}

#[test]
fn offset_third_page() {
    assert_eq!(offset(3, 20), 40);
}

#[test]
fn offset_max_page_no_panic() {
    let result = offset(i64::MAX, 100);
    assert!(result >= 0);
    assert_eq!(result, i64::MAX);
}

#[test]
fn page_total_pages_ceil() {
    let p = Page::<()>::new(vec![], 45, 1, 20);
    assert_eq!(p.total_pages, 3);
}

#[test]
fn page_total_pages_zero_total() {
    let p = Page::<()>::new(vec![], 0, 1, 20);
    assert_eq!(p.total_pages, 0);
}

#[test]
fn page_total_pages_zero_page_size() {
    let p = Page::<()>::new(vec![], 45, 1, 0);
    assert_eq!(p.total_pages, 0);
}

#[test]
fn offset_is_never_negative() {
    assert_eq!(offset(i64::MIN, 100), 0);
    assert_eq!(offset(0, 20), 0);
    assert_eq!(offset(2, -5), 0);
    assert_eq!(offset(i64::MAX, i64::MAX), i64::MAX);
    assert_eq!(offset(2, i64::MAX), i64::MAX);
}

#[test]
fn total_pages_near_the_top_of_i64() {
    let p = Page::<()>::new(vec![], i64::MAX, 1, 100);
    assert_eq!(p.total_pages, i64::MAX / 100 + 1);
}

#[test]
fn only_library_tables_are_shared() {
    assert!(Ref::Style.shared());
    assert!(Ref::EquipmentProfile.shared());
    assert!(Ref::MashProfile.shared());
    assert!(Ref::LibraryYeast.shared());
    for r in [Ref::Batch, Ref::Fermenter, Ref::Recipe, Ref::WaterProfile] {
        assert!(!r.shared(), "{r:?}");
    }
}

#[test]
fn tables_are_plain_identifiers() {
    for r in [
        Ref::Batch,
        Ref::Fermenter,
        Ref::Recipe,
        Ref::WaterProfile,
        Ref::Style,
        Ref::EquipmentProfile,
        Ref::MashProfile,
        Ref::LibraryYeast,
    ] {
        assert!(r.table().chars().all(|c| c.is_ascii_lowercase() || c == '_'));
    }
}

#[test]
fn default_used_when_spec_empty() {
    let result = parse("", ALLOWED, "name").unwrap();
    assert_eq!(result, "name ASC");
}

#[test]
fn single_desc_field() {
    let result = parse("-name", ALLOWED, "name").unwrap();
    assert_eq!(result, "name DESC");
}

#[test]
fn multi_field() {
    let result = parse("name,-created_at", ALLOWED, "name").unwrap();
    assert_eq!(result, "name ASC, created_at DESC");
}

#[test]
fn mapping_to_prefixed_column() {
    const PREFIXED: &[(&str, &str)] = &[("name", "s.name"), ("order_date", "o.order_date")];
    let result = parse("-order_date,name", PREFIXED, "name").unwrap();
    assert_eq!(result, "o.order_date DESC, s.name ASC");
}

#[test]
fn unknown_field_returns_err() {
    let result = parse("unknown", ALLOWED, "name");
    assert!(result.is_err());
    let err = result.unwrap_err();
    assert_eq!(err.code(), "validation_error");
}

#[test]
fn nulls_last_appends_to_every_field() {
    let result = parse_with("name,-created_at", ALLOWED, "name", Nulls::Last).unwrap();
    assert_eq!(result, "name ASC NULLS LAST, created_at DESC NULLS LAST");
}

#[test]
fn unknown_sort_field_is_named_in_the_reason() {
    let err = parse("name,bogus", ALLOWED, "name").unwrap_err();
    assert_eq!(err.status(), 400);
    let details = err.details().unwrap();
    assert!(details.iter().any(|(k, v)| k == "field" && matches!(v, batchwise::platform::errors::Detail::Text(t) if t == "sort")));
    assert!(details.iter().any(|(k, v)| k == "reason" && matches!(v, batchwise::platform::errors::Detail::Text(t) if t == "invalid sort field: bogus")));
}

#[test]
fn blank_sort_pieces_fall_back_to_default() {
    assert_eq!(parse(" , ", ALLOWED, "-created_at").unwrap(), "created_at DESC");
}

#[test]
fn plain_term_unchanged_inside_wildcards() {
    assert_eq!(like_contains("hello"), "%hello%");
}

#[test]
fn percent_sign_escaped() {
    assert_eq!(like_contains("50%"), "%50\\%%");
}

#[test]
fn underscore_escaped() {
    assert_eq!(like_contains("a_b"), "%a\\_b%");
}

#[test]
fn backslash_doubled() {
    assert_eq!(escape_like("\\"), "\\\\");
    assert_eq!(like_contains("\\"), "%\\\\%");
}

#[test]
fn like_prefix_no_leading_percent() {
    assert_eq!(like_prefix("test"), "test%");
}

#[test]
fn only_the_transaction_pooler_disables_the_statement_cache() {
    assert_eq!(SUPABASE_TXN_POOLER_PORT, 6543);
    assert!(statement_cache_disabled(6543));
    assert!(!statement_cache_disabled(5432));
    assert!(!statement_cache_disabled(0));
}

#[test]
fn production_logs_are_json() {
    assert!(json_logs("production"));
    assert!(!json_logs("development"));
    assert!(!json_logs("Production"));
    assert_eq!(default_filter("debug"), "batchwise=debug,info");
    assert_eq!(default_filter(""), "batchwise=,info");
}
