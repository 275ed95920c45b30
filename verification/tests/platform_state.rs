use batchwise::platform::authz::Role;
use batchwise::platform::config::{Config, ConfigError};
use batchwise::platform::context::RequestContext;
use batchwise::platform::errors::{db_error, ApiError};
use batchwise::platform::features::{FeatureCache, FeatureEntry};
use batchwise::platform::middleware::{bearer_token, client_ip, shared_decision, RateLimiter};
use batchwise::platform::roles::{Membership, RoleCache, TokenClaims};
use batchwise::platform::web::{check_request, decode_message};

fn env(pairs: &[(&str, &str)]) -> Vec<(String, String)> {
    pairs.iter().map(|(k, v)| (k.to_string(), v.to_string())).collect()
}

const LONG_SECRET: &str = "my-very-long-secret-key-that-is-definitely-more-than-32-characters";

#[test]
fn loads_defaults_with_required_set() {
    let cfg = Config::load(&env(&[
        ("APP_ENV", "development"),
        ("DATABASE_URL", "postgres://localhost:5432/db"),
        ("JWT_SECRET", LONG_SECRET),
    ]))
    .unwrap();
    assert_eq!(cfg.app_base_url, "http://localhost:8080");
    assert_eq!(cfg.http_port, 8080);
    assert_eq!(cfg.jwt_expiry_minutes, 15);
    assert_eq!(cfg.refresh_token_expiry_days, 7);
    assert!(!cfg.allow_overdraft);
    assert_eq!(cfg.rate_limit_default_per_minute, 600);
    assert!(!cfg.trust_proxy_headers);
}

#[test]
fn missing_required_errors() {
    assert!(matches!(Config::load(&env(&[])), Err(ConfigError::Missing("DATABASE_URL"))));
}

#[test]
fn production_rejects_short_secret() {
    let r = Config::load(&env(&[
        ("APP_ENV", "production"),
        ("DATABASE_URL", "postgres://localhost:5432/db"),
        ("JWT_SECRET", "short"),
        ("APP_BASE_URL", "https://example.com"),
        ("JWT_ISSUER", "acme"),
        ("JWT_AUDIENCE", "acme"),
    ]));
    assert!(matches!(r, Err(ConfigError::Production(_))));
}

#[test]
fn unset_app_env_rejects_short_secret() {
    let r = Config::load(&env(&[("DATABASE_URL", "postgres://localhost:5432/db"), ("JWT_SECRET", "short")]));
    assert!(matches!(r, Err(ConfigError::Production(_))));
}

#[test]
fn development_still_skips_production_rules() {
    let cfg = Config::load(&env(&[
        ("APP_ENV", "development"),
        ("DATABASE_URL", "postgres://localhost:5432/db"),
        ("JWT_SECRET", LONG_SECRET),
    ]))
    .unwrap();
    assert_eq!(cfg.app_env, "development");
}

#[test]
fn debug_redacts_secrets() {
    let cfg = Config::load(&env(&[
        ("APP_ENV", "development"),
        ("DATABASE_URL", "postgres://localhost:5432/db"),
        ("JWT_SECRET", LONG_SECRET),
    ]))
    .unwrap();
    let debug_output = cfg.redacted_debug();
    assert!(debug_output.contains("[redacted]"));
    assert!(!debug_output.contains("postgres://localhost:5432/db"));
    assert!(!debug_output.contains(LONG_SECRET));
    assert!(debug_output.starts_with("Config { app_env: \"development\", app_base_url: \"http://localhost:8080\", http_port: 8080, database_url: \"[redacted]\""));
}

#[test]
fn bad_port_is_invalid() {
    let r = Config::load(&env(&[
        ("APP_ENV", "development"),
        ("DATABASE_URL", "postgres://localhost:5432/db"),
        ("JWT_SECRET", LONG_SECRET),
        ("HTTP_PORT", "eighty"),
    ]));
    match r {
        Err(ConfigError::Invalid(k, m)) => {
            assert_eq!(k, "HTTP_PORT");
            assert_eq!(m, "invalid digit found in string");
        }
        _ => panic!("expected an invalid port"),
    }
}

#[test]
fn empty_context_has_no_ids() {
    let ctx = RequestContext::default();
    assert!(ctx.tenant_id.is_none());
    assert!(ctx.user_id.is_none());
    assert_eq!(ctx.request_id, "");
    assert!(ctx.tenant_id().is_err());
    assert!(ctx.user_id().is_err());
}

#[test]
fn populated_context_returns_ids() {
    let id: u128 = 0x1234_5678_9abc_def0_1234_5678_9abc_def0;
    let ctx = RequestContext { tenant_id: Some(id), user_id: Some(id), request_id: "req-1".into(), actor_id: Some(id) };
    assert_eq!(ctx.tenant_id().unwrap(), id);
    assert_eq!(ctx.user_id().unwrap(), id);
}

#[test]
fn statuses_match_constructors() {
    assert_eq!(ApiError::validation("a", "b").status(), 400);
    assert_eq!(ApiError::not_found("x").status(), 404);
    assert_eq!(ApiError::conflict("x", "y").status(), 409);
    assert_eq!(ApiError::unauthorized("x").status(), 401);
    assert_eq!(ApiError::forbidden("x").status(), 403);
    assert_eq!(ApiError::business_rule("r", "m", Vec::new()).status(), 422);
    assert_eq!(ApiError::rate_limited(30).status(), 429);
    assert_eq!(ApiError::internal("boom").status(), 500);
}

#[test]
fn row_not_found_maps_to_404() {
    let e = db_error(&sqlx::Error::RowNotFound);
    assert_eq!(e.status(), 404);
    assert_eq!(e.message(), "resource not found");
}

#[test]
fn other_database_failures_are_internal() {
    let e = db_error(&sqlx::Error::PoolClosed);
    assert_eq!(e.status(), 500);
    assert_eq!(e.message(), "internal server error");
    assert!(e.source().is_some());
}

#[test]
fn error_messages_and_codes() {
    let e = ApiError::conflict("supplier", "dup");
    assert_eq!(e.message(), "supplier: dup");
    assert_eq!(e.code(), "conflict");
    assert_eq!(ApiError::rate_limited(7).retry_after_seconds(), Some(7));
    assert_eq!(ApiError::unsupported_media_type().code(), "unsupported_media_type");
}

fn membership(tenant_id: u128) -> Membership {
    Membership { tenant_id, role: Role::Brewer, active: true, token_version: 2, revoked_jtis: Vec::new() }
}

#[test]
fn accepts_only_live_tokens_of_the_current_version() {
    let tenant_id = 7;
    let claims = TokenClaims { subject: 1, tenant_id, jti: 99, version: 2 };
    let m = membership(tenant_id);
    assert!(m.accepts(&claims));
    assert!(!m.accepts(&TokenClaims { version: 1, ..claims }));
    assert!(!m.accepts(&TokenClaims { tenant_id: 8, ..claims }));
    assert!(!Membership { active: false, ..membership(tenant_id) }.accepts(&claims));
    assert!(!Membership { revoked_jtis: vec![claims.jti], ..m }.accepts(&claims));
}

#[test]
fn roles_invalidate_removes_entry() {
    let mut cache = RoleCache::new();
    let id = 42;
    cache.store(id, membership(5), 1_000);
    assert!(cache.fresh(id, 1_000).is_some());
    cache.invalidate(id);
    assert!(cache.fresh(id, 1_000).is_none());
}

#[test]
fn role_cache_entries_expire() {
    let mut cache = RoleCache::new();
    cache.store(1, membership(5), 0);
    assert!(cache.fresh(1, 29_999).is_some());
    assert!(cache.fresh(1, 30_000).is_none());
}

#[test]
fn features_invalidate_removes_entry() {
    let mut cache = FeatureCache::new();
    let id = 42;
    cache.store(id, FeatureEntry { tier: "home".into(), flags: vec![("recipes".to_string(), true)] }, 1_000);
    assert_eq!(cache.cached_enabled(id, "recipes", 1_000), Some("home".to_string()));
    cache.invalidate(id);
    assert!(cache.cached_enabled(id, "recipes", 1_000).is_none());
}

#[test]
fn allows_up_to_limit_then_blocks() {
    let mut rl = RateLimiter::per_minute("test", 3);
    assert!(rl.check("ip", 0).is_ok());
    assert!(rl.check("ip", 1).is_ok());
    assert!(rl.check("ip", 2).is_ok());
    assert!(rl.check("ip", 3).is_err());
}

#[test]
fn separate_keys_are_independent() {
    let mut rl = RateLimiter::per_minute("test", 1);
    assert!(rl.check("a", 0).is_ok());
    assert!(rl.check("b", 0).is_ok());
    assert!(rl.check("a", 0).is_err());
}

#[test]
fn is_limited_does_not_record() {
    let mut rl = RateLimiter::per_minute("test", 1);
    assert_eq!(rl.is_limited("key", 0), None);
    assert!(rl.check("key", 0).is_ok());
    assert!(rl.is_limited("key", 0).is_some());
}

#[test]
fn sweep_evicts_idle_keys() {
    let mut rl = RateLimiter::with_window(1, 10);
    assert!(rl.check("a", 0).is_ok());
    assert!(rl.check("b", 0).is_ok());
    assert_eq!(rl.len(), 2);
    for _ in 0..1024 {
        let _ = rl.check("c", 20);
    }
    assert_eq!(rl.len(), 1);
}

#[test]
fn retry_after_counts_down_to_the_oldest_hit() {
    let mut rl = RateLimiter::per_minute("test", 2);
    assert!(rl.check("ip", 1_000).is_ok());
    assert!(rl.check("ip", 2_000).is_ok());
    assert_eq!(rl.check("ip", 11_000), Err(50));
    assert_eq!(rl.check("ip", 60_500), Err(1));
    assert!(rl.check("ip", 61_000).is_ok());
}

#[test]
fn zero_limit_is_raised_to_one() {
    let mut rl = RateLimiter::per_minute("test", 0);
    assert!(rl.check("ip", 0).is_ok());
    assert!(rl.check("ip", 0).is_err());
}

#[test]
fn shared_limit_decides_when_it_answers() {
    assert_eq!(shared_decision(Err(3), Some(Ok(None))), Ok(()));
    assert_eq!(shared_decision(Ok(()), Some(Ok(Some(9)))), Err(9));
    assert_eq!(shared_decision(Err(3), Some(Err(()))), Err(3));
    assert_eq!(shared_decision(Ok(()), None), Ok(()));
}

#[test]
fn bearer_tokens_are_taken_from_the_header() {
    assert_eq!(bearer_token("Bearer abc.def").unwrap(), "abc.def");
    assert!(bearer_token("bearer abc").is_err());
    assert!(bearer_token("Basic xyz").is_err());
    assert_eq!(bearer_token("Basic").unwrap_err().status(), 401);
}

#[test]
fn client_ip_prefers_the_last_proxy_entry() {
    assert_eq!(client_ip(true, Some("1.1.1.1, 2.2.2.2 "), Some("9.9.9.9".into())), "2.2.2.2");
    assert_eq!(client_ip(false, Some("1.1.1.1"), Some("9.9.9.9".into())), "9.9.9.9");
    assert_eq!(client_ip(true, None, None), "unknown");
}

#[test]
fn json_requests_need_a_json_body() {
    assert!(check_request("application/json; charset=utf-8", 2).is_ok());
    assert_eq!(check_request("text/plain", 2).unwrap_err().status(), 415);
    assert_eq!(check_request("application/json", 0).unwrap_err().status(), 400);
}

#[test]
fn unknown_field_message_parsed() {
    let e = decode_message("unknown field `colour`, expected one of `name`, `notes` at line 1 column 9");
    let d = e.details().unwrap();
    assert!(d.iter().any(|(k, v)| k == "field" && matches!(v, batchwise::platform::errors::Detail::Text(t) if t == "colour")));
    let e = decode_message("EOF while parsing a value");
    let d = e.details().unwrap();
    assert!(d.iter().any(|(k, v)| k == "field" && matches!(v, batchwise::platform::errors::Detail::Text(t) if t == "body")));
    let err: serde_json::Error = serde_json::from_str::<std::collections::HashMap<String, i32>>("[]").unwrap_err();
    let _ = batchwise::platform::web::decode_error(&err);
}

#[test]
fn config_errors_read_as_sentences() {
    assert_eq!(ConfigError::Missing("DATABASE_URL").message(), "DATABASE_URL is required");
    assert_eq!(
        ConfigError::Invalid("HTTP_PORT", "invalid digit found in string".to_string()).message(),
        "HTTP_PORT is invalid: invalid digit found in string"
    );
    assert_eq!(ConfigError::Production("no".to_string()).message(), "no");
    let secret_err = Config::load(&env(&[("DATABASE_URL", "postgres://x"), ("JWT_SECRET", "short")])).err().unwrap();
    assert_eq!(secret_err.message(), "JWT_SECRET must be at least 32 characters");
}

#[test]
fn limiter_reports_its_limit_and_window() {
    let l = RateLimiter::per_minute("login", 0);
    assert_eq!(l.limit(), 1);
    assert_eq!(l.window_ms(), 60_000);
    assert_eq!(l.name(), "login");
    let w = RateLimiter::with_window(7, 1500);
    assert_eq!((w.limit(), w.window_ms()), (7, 1500));
}

#[test]
fn unset_or_misspelt_app_env_gets_the_production_rules() {
    let base = [("DATABASE_URL", "postgres://localhost:5432/db"), ("JWT_SECRET", LONG_SECRET)];
    let r = Config::load(&env(&base));
    assert!(matches!(r, Err(ConfigError::Production(ref m)) if m == "APP_BASE_URL must start with 'https://' in production"));
    let mut misspelt = base.to_vec();
    misspelt.push(("APP_ENV", "developmnet"));
    assert!(matches!(Config::load(&env(&misspelt)), Err(ConfigError::Production(_))));
    let mut empty = base.to_vec();
    empty.push(("APP_ENV", ""));
    assert!(matches!(Config::load(&env(&empty)), Err(ConfigError::Production(_))));
    let mut dev = base.to_vec();
    dev.push(("APP_ENV", "dev"));
    let c = Config::load(&env(&dev)).unwrap();
    assert_eq!(c.app_env, "dev");
    let mut test = base.to_vec();
    test.push(("APP_ENV", "test"));
    assert!(Config::load(&env(&test)).is_ok());
}

#[test]
fn secret_length_counts_characters() {
    let thirty_one_wide = "é".repeat(31);
    assert_eq!(thirty_one_wide.len(), 62);
    let r = Config::load(&env(&[("APP_ENV", "development"), ("DATABASE_URL", "postgres://x"), ("JWT_SECRET", &thirty_one_wide)]));
    assert!(matches!(r, Err(ConfigError::Production(_))));
    let thirty_two_wide = "é".repeat(32);
    assert!(Config::load(&env(&[("APP_ENV", "development"), ("DATABASE_URL", "postgres://x"), ("JWT_SECRET", &thirty_two_wide)])).is_ok());
}
