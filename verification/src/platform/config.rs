//! Application configuration from environment variables.
//!
//! Defaults and production rules: an unset or empty variable takes its
//! default; a short JWT secret is refused in every environment; the other
//! production rules are skipped only for the explicit local-development names
//! (`development`, `dev`, `test`), so an unset or misspelt `APP_ENV` gets the
//! strict checks.
//!
//! The variables are read at the edge and handed in as `(name, value)` pairs.

use vstd::prelude::*;

use crate::number::{
    bool_error_message, int_error_message, int_error_text, parse_bool, parse_bool_spec, parse_i64,
    parse_int_spec, parse_u16, parse_u32, IntError, decimal_text, format_int,
};
use crate::text::{chars_of, debug_quote, debug_text, str_eq, str_views};

verus! {

/// All application settings.
#[derive(Clone)]
pub struct Config {
    pub app_env: String,
    pub app_base_url: String,
    pub http_port: u16,
    pub database_url: String,
    pub jwt_secret: String,
    pub jwt_issuer: String,
    pub jwt_audience: String,
    pub jwt_expiry_minutes: i64,
    pub refresh_token_expiry_days: i64,
    pub cors_origin: String,
    pub allow_overdraft: bool,
    pub bootstrap_registration_enabled: bool,
    pub rate_limit_register_per_minute: u32,
    pub rate_limit_login_per_minute: u32,
    pub rate_limit_refresh_per_minute: u32,
    pub rate_limit_default_per_minute: u32,
    /// Trust `X-Forwarded-For` for rate-limit keying (only behind a trusted proxy).
    pub trust_proxy_headers: bool,
    pub migrations_disabled: bool,
    pub log_level: String,
}

/// Why configuration could not be loaded.
#[derive(Debug)]
pub enum ConfigError {
    /// A required variable is unset or empty (`{0} is required`).
    Missing(&'static str),
    /// A variable does not parse (`{0} is invalid: {1}`).
    Invalid(&'static str, String),
    /// A production rule is broken.
    Production(String),
}

/// The plain value of a [`ConfigError`].
pub enum ConfigErrorView {
    Missing(Seq<char>),
    Invalid(Seq<char>, Seq<char>),
    Production(Seq<char>),
}

impl View for ConfigError {
    type V = ConfigErrorView;

    open spec fn view(&self) -> ConfigErrorView {
        match self {
            ConfigError::Missing(k) => ConfigErrorView::Missing(k@),
            ConfigError::Invalid(k, m) => ConfigErrorView::Invalid(k@, m@),
            ConfigError::Production(m) => ConfigErrorView::Production(m@),
        }
    }
}

/// The text of a configuration error, as an operator reads it.
pub open spec fn config_error_text(e: ConfigErrorView) -> Seq<char> {
    match e {
        ConfigErrorView::Missing(k) => k + " is required"@,
        ConfigErrorView::Invalid(k, m) => k + " is invalid: "@ + m,
        ConfigErrorView::Production(m) => m,
    }
}

impl ConfigError {
    /// The error's text: `KEY is required`, `KEY is invalid: why`, or the
    /// production rule that failed.
    pub fn message(&self) -> (m: String)
        ensures
            m@ == config_error_text(self@),
    {
        match self {
            ConfigError::Missing(k) => String::from_str(k).concat(" is required"),
            ConfigError::Invalid(k, why) => String::from_str(k).concat(" is invalid: ").concat(why.as_str()),
            ConfigError::Production(m) => m.clone(),
        }
    }
}

/// The value of the first variable named `key`.
pub open spec fn env_lookup(env: Seq<(String, String)>, key: Seq<char>) -> Option<Seq<char>>
    decreases env.len(),
{
    if env.len() == 0 {
        None
    } else if env[0].0@ == key {
        Some(env[0].1@)
    } else {
        env_lookup(env.drop_first(), key)
    }
}

/// The value of `key` when it is set and not empty.
pub open spec fn present(env: Seq<(String, String)>, key: Seq<char>) -> Option<Seq<char>> {
    match env_lookup(env, key) {
        Some(v) => if v.len() > 0 {
            Some(v)
        } else {
            None
        },
        None => None,
    }
}

/// A string setting: its value, or `default` when unset or empty.
pub open spec fn opt_value(env: Seq<(String, String)>, key: Seq<char>, default: Seq<char>) -> Seq<char> {
    match present(env, key) {
        Some(v) => v,
        None => default,
    }
}

/// An integer setting: its parsed value, or `default` when unset or empty.
pub open spec fn int_value(
    env: Seq<(String, String)>,
    key: Seq<char>,
    default: int,
    signed: bool,
    min: int,
    max: int,
) -> int {
    match present(env, key) {
        Some(v) => match parse_int_spec(v, signed, min, max) {
            Ok(x) => x,
            Err(_) => default,
        },
        None => default,
    }
}

/// A boolean setting: its parsed value, or `default` when unset or empty.
pub open spec fn bool_value(env: Seq<(String, String)>, key: Seq<char>, default: bool) -> bool {
    match present(env, key) {
        Some(v) => match parse_bool_spec(v) {
            Some(b) => b,
            None => default,
        },
        None => default,
    }
}

/// The error an integer setting raises, if it is set and does not parse.
pub open spec fn int_error(env: Seq<(String, String)>, key: Seq<char>, signed: bool, min: int, max: int) -> Option<
    ConfigErrorView,
> {
    match present(env, key) {
        Some(v) => match parse_int_spec(v, signed, min, max) {
            Ok(_) => None,
            Err(e) => Some(ConfigErrorView::Invalid(key, int_error_message(e))),
        },
        None => None,
    }
}

/// The error a boolean setting raises, if it is set and does not parse.
pub open spec fn bool_error(env: Seq<(String, String)>, key: Seq<char>) -> Option<ConfigErrorView> {
    match present(env, key) {
        Some(v) => match parse_bool_spec(v) {
            Some(_) => None,
            None => Some(ConfigErrorView::Invalid(key, bool_error_message())),
        },
        None => None,
    }
}

/// The error a required setting raises, if it is unset or empty.
pub open spec fn required_error(env: Seq<(String, String)>, key: Seq<char>) -> Option<ConfigErrorView> {
    match present(env, key) {
        Some(_) => None,
        None => Some(ConfigErrorView::Missing(key)),
    }
}

/// The first error of a list of checks.
pub open spec fn first_error(checks: Seq<Option<ConfigErrorView>>) -> Option<ConfigErrorView>
    decreases checks.len(),
{
    if checks.len() == 0 {
        None
    } else if checks[0] is Some {
        checks[0]
    } else {
        first_error(checks.drop_first())
    }
}

/// The per-variable checks, in the order the settings are read.
pub open spec fn field_checks(env: Seq<(String, String)>) -> Seq<Option<ConfigErrorView>> {
    seq![
        int_error(env, "HTTP_PORT"@, false, 0, u16::MAX as int),
        required_error(env, "DATABASE_URL"@),
        required_error(env, "JWT_SECRET"@),
        int_error(env, "JWT_EXPIRY_MINUTES"@, true, i64::MIN as int, i64::MAX as int),
        int_error(env, "REFRESH_TOKEN_EXPIRY_DAYS"@, true, i64::MIN as int, i64::MAX as int),
        bool_error(env, "ALLOW_OVERDRAFT"@),
        bool_error(env, "BOOTSTRAP_REGISTRATION_ENABLED"@),
        int_error(env, "RATE_LIMIT_REGISTER_PER_MINUTE"@, false, 0, u32::MAX as int),
        int_error(env, "RATE_LIMIT_LOGIN_PER_MINUTE"@, false, 0, u32::MAX as int),
        int_error(env, "RATE_LIMIT_REFRESH_PER_MINUTE"@, false, 0, u32::MAX as int),
        int_error(env, "RATE_LIMIT_DEFAULT_PER_MINUTE"@, false, 0, u32::MAX as int),
        bool_error(env, "TRUST_PROXY_HEADERS"@),
        bool_error(env, "MIGRATIONS_DISABLED"@),
    ]
}

/// Whether a loaded configuration holds exactly the values the variables
/// (or the defaults) give.
pub open spec fn config_matches(c: Config, env: Seq<(String, String)>) -> bool {
    &&& c.app_env@ == opt_value(env, "APP_ENV"@, "development"@)
    &&& c.app_base_url@ == opt_value(env, "APP_BASE_URL"@, "http://localhost:8080"@)
    &&& c.http_port as int == int_value(env, "HTTP_PORT"@, 8080, false, 0, u16::MAX as int)
    &&& c.database_url@ == opt_value(env, "DATABASE_URL"@, Seq::empty())
    &&& c.jwt_secret@ == opt_value(env, "JWT_SECRET"@, Seq::empty())
    &&& c.jwt_issuer@ == opt_value(env, "JWT_ISSUER"@, "batchwise"@)
    &&& c.jwt_audience@ == opt_value(env, "JWT_AUDIENCE"@, "batchwise"@)
    &&& c.jwt_expiry_minutes as int == int_value(
        env,
        "JWT_EXPIRY_MINUTES"@,
        15,
        true,
        i64::MIN as int,
        i64::MAX as int,
    )
    &&& c.refresh_token_expiry_days as int == int_value(
        env,
        "REFRESH_TOKEN_EXPIRY_DAYS"@,
        7,
        true,
        i64::MIN as int,
        i64::MAX as int,
    )
    &&& c.cors_origin@ == opt_value(env, "CORS_ORIGIN"@, "http://localhost:5173"@)
    &&& c.allow_overdraft == bool_value(env, "ALLOW_OVERDRAFT"@, false)
    &&& c.bootstrap_registration_enabled == bool_value(env, "BOOTSTRAP_REGISTRATION_ENABLED"@, false)
    &&& c.rate_limit_register_per_minute as int == int_value(
        env,
        "RATE_LIMIT_REGISTER_PER_MINUTE"@,
        5,
        false,
        0,
        u32::MAX as int,
    )
    &&& c.rate_limit_login_per_minute as int == int_value(
        env,
        "RATE_LIMIT_LOGIN_PER_MINUTE"@,
        10,
        false,
        0,
        u32::MAX as int,
    )
    &&& c.rate_limit_refresh_per_minute as int == int_value(
        env,
        "RATE_LIMIT_REFRESH_PER_MINUTE"@,
        30,
        false,
        0,
        u32::MAX as int,
    )
    &&& c.rate_limit_default_per_minute as int == int_value(
        env,
        "RATE_LIMIT_DEFAULT_PER_MINUTE"@,
        600,
        false,
        0,
        u32::MAX as int,
    )
    &&& c.trust_proxy_headers == bool_value(env, "TRUST_PROXY_HEADERS"@, false)
    &&& c.migrations_disabled == bool_value(env, "MIGRATIONS_DISABLED"@, false)
    &&& c.log_level@ == opt_value(env, "LOG_LEVEL"@, "info"@)
}

/// Whether `app_env` names a local-development environment.
pub open spec fn is_dev_env(app_env: Seq<char>) -> bool {
    app_env == "development"@ || app_env == "dev"@ || app_env == "test"@
}

/// The production rule a configuration breaks first, if any.
pub open spec fn production_error(c: Config) -> Option<Seq<char>> {
    if c.cors_origin@.contains('*') {
        Some("CORS_ORIGIN cannot contain '*' in production"@)
    } else if !("https://"@).is_prefix_of(c.app_base_url@) {
        Some("APP_BASE_URL must start with 'https://' in production"@)
    } else if c.jwt_issuer@ == "batchwise"@ {
        Some("JWT_ISSUER cannot be default 'batchwise' in production"@)
    } else if c.jwt_audience@ == "batchwise"@ {
        Some("JWT_AUDIENCE cannot be default 'batchwise' in production"@)
    } else {
        None
    }
}

/// Whether `APP_ENV` is set to one of the local-development names. Only
/// then are the production rules skipped: an unset or misspelt `APP_ENV`
/// gets them (fail closed).
pub open spec fn declared_dev(env: Seq<(String, String)>) -> bool {
    present(env, "APP_ENV"@) matches Some(v) && is_dev_env(v)
}

/// The error loading refuses a well-parsed configuration with, if any: a
/// secret shorter than 32 characters anywhere, then the production rules
/// unless the environment is declared as development (`dev`).
pub open spec fn rule_error(c: Config, dev: bool) -> Option<Seq<char>> {
    if c.jwt_secret@.len() < 32 {
        Some("JWT_SECRET must be at least 32 characters"@)
    } else if !dev {
        production_error(c)
    } else {
        None
    }
}

/// The first value named `key`, if any.
fn lookup_env<'a>(env: &'a Vec<(String, String)>, key: &str) -> (r: Option<&'a String>)
    ensures
        match r {
            Some(v) => env_lookup(env@, key@) == Some(v@),
            None => env_lookup(env@, key@) is None,
        },
{
    let n = env.len();
    let mut i: usize = 0;
    assert(env@.subrange(0, n as int) =~= env@);
    while i < n
        invariant
            i <= n == env@.len(),
            env_lookup(env@, key@) == env_lookup(env@.subrange(i as int, n as int), key@),
        decreases n - i,
    {
        let ghost t = env@.subrange(i as int, n as int);
        assert(t[0] == env@[i as int]);
        if str_eq(env[i].0.as_str(), key) {
            return Some(&env[i].1);
        }
        assert(t.drop_first() =~= env@.subrange(i + 1, n as int));
        i += 1;
    }
    None
}

/// The value of `key` when it is set and not empty.
fn present_value(env: &Vec<(String, String)>, key: &str) -> (r: Option<String>)
    ensures
        match r {
            Some(v) => present(env@, key@) == Some(v@),
            None => present(env@, key@) is None,
        },
{
    match lookup_env(env, key) {
        Some(v) => {
            if v.as_str().is_empty() {
                None
            } else {
                Some(v.clone())
            }
        },
        None => None,
    }
}

fn opt(env: &Vec<(String, String)>, key: &str, default: &str) -> (r: String)
    ensures
        r@ == opt_value(env@, key@, default@),
{
    match present_value(env, key) {
        Some(v) => v,
        None => String::from_str(default),
    }
}

fn required(env: &Vec<(String, String)>, key: &'static str) -> (r: Result<String, ConfigError>)
    ensures
        match r {
            Ok(v) => present(env@, key@) == Some(v@),
            Err(e) => present(env@, key@) is None && e@ == ConfigErrorView::Missing(key@),
        },
{
    match present_value(env, key) {
        Some(v) => Ok(v),
        None => Err(ConfigError::Missing(key)),
    }
}

fn int_setting(env: &Vec<(String, String)>, key: &'static str, default: i128, signed: bool, min: i128, max: i128) -> (r: Result<i128, ConfigError>)
    requires
        i64::MIN <= min <= 0 <= max <= u64::MAX,
        min <= default <= max,
    ensures
        match r {
            Ok(x) => int_error(env@, key@, signed, min as int, max as int) is None && x as int
                == int_value(env@, key@, default as int, signed, min as int, max as int) && min <= x <= max,
            Err(e) => int_error(env@, key@, signed, min as int, max as int) == Some(e@),
        },
{
    match present_value(env, key) {
        Some(v) => match crate::number::parse_int(v.as_str(), signed, min, max) {
            Ok(x) => Ok(x),
            Err(e) => Err(ConfigError::Invalid(key, String::from_str(int_error_text(e)))),
        },
        None => Ok(default),
    }
}

fn bool_setting(env: &Vec<(String, String)>, key: &'static str, default: bool) -> (r: Result<bool, ConfigError>)
    ensures
        match r {
            Ok(b) => bool_error(env@, key@) is None && b == bool_value(env@, key@, default),
            Err(e) => bool_error(env@, key@) == Some(e@),
        },
{
    match present_value(env, key) {
        Some(v) => match parse_bool(v.as_str()) {
            Some(b) => Ok(b),
            None => Err(
                ConfigError::Invalid(key, String::from_str("provided string was not `true` or `false`")),
            ),
        },
        None => Ok(default),
    }
}

/// Whether `s` contains `c`.
fn contains_char(s: &str, c: char) -> (r: bool)
    ensures
        r == s@.contains(c),
{
    let v = crate::text::chars_of(s);
    let mut k: usize = 0;
    while k < v.len()
        invariant
            k <= v.len(),
            v@ == s@,
            forall|x: int| 0 <= x < k ==> v@[x] != c,
        decreases v.len() - k,
    {
        if v[k] == c {
            return true;
        }
        k += 1;
    }
    false
}

/// Whether `s` starts with `p`.
fn starts_with(s: &str, p: &str) -> (r: bool)
    ensures
        r == p@.is_prefix_of(s@),
{
    let sv = crate::text::chars_of(s);
    let pv = crate::text::chars_of(p);
    if pv.len() > sv.len() {
        return false;
    }
    let head = crate::text::sub_chars(&sv, 0, pv.len());
    let r = crate::text::chars_eq(&head, &pv);
    proof {
        if r {
            assert(pv@ =~= sv@.take(pv@.len() as int));
        } else {
            assert(sv@.take(pv@.len() as int) =~= head@);
        }
    }
    r
}

impl Config {
    /// Builds the configuration from the environment's `(name, value)` pairs
    /// and checks the secret length (in characters) and, unless `APP_ENV` is
    /// set to `development`, `dev` or `test`, the production rules. The first
    /// failing setting, in reading order, is the error.
    pub fn load(env: &Vec<(String, String)>) -> (r: Result<Config, ConfigError>)
        ensures
            match r {
                Ok(c) => first_error(field_checks(env@)) is None && config_matches(c, env@)
                    && rule_error(c, declared_dev(env@)) is None,
                Err(e) => match first_error(field_checks(env@)) {
                    Some(fe) => e@ == fe,
                    None => exists|c: Config|
                        config_matches(c, env@) && (rule_error(c, declared_dev(env@)) matches Some(m)
                            && e@ == ConfigErrorView::Production(m)),
                },
            },
    {
        let ghost checks = field_checks(env@);
        let app_env = opt(env, "APP_ENV", "development");
        let app_base_url = opt(env, "APP_BASE_URL", "http://localhost:8080");
        let http_port = match int_setting(env, "HTTP_PORT", 8080, false, 0, u16::MAX as i128) {
            Ok(x) => x as u16,
            Err(e) => return Err(e),
        };
        assert(checks[0] is None);
        let database_url = match required(env, "DATABASE_URL") {
            Ok(v) => v,
            Err(e) => {
                assert(first_error(checks) == checks[1]) by { lemma_first_error_at(checks, 1); }
                return Err(e);
            },
        };
        let jwt_secret = match required(env, "JWT_SECRET") {
            Ok(v) => v,
            Err(e) => {
                assert(first_error(checks) == checks[2]) by { lemma_first_error_at(checks, 2); }
                return Err(e);
            },
        };
        let jwt_issuer = opt(env, "JWT_ISSUER", "batchwise");
        let jwt_audience = opt(env, "JWT_AUDIENCE", "batchwise");
        let jwt_expiry_minutes = match int_setting(env, "JWT_EXPIRY_MINUTES", 15, true, i64::MIN as i128, i64::MAX as i128) {
            Ok(x) => x as i64,
            Err(e) => {
                assert(first_error(checks) == checks[3]) by { lemma_first_error_at(checks, 3); }
                return Err(e);
            },
        };
        let refresh_token_expiry_days = match int_setting(env, "REFRESH_TOKEN_EXPIRY_DAYS", 7, true, i64::MIN as i128, i64::MAX as i128) {
            Ok(x) => x as i64,
            Err(e) => {
                assert(first_error(checks) == checks[4]) by { lemma_first_error_at(checks, 4); }
                return Err(e);
            },
        };
        let cors_origin = opt(env, "CORS_ORIGIN", "http://localhost:5173");
        let allow_overdraft = match bool_setting(env, "ALLOW_OVERDRAFT", false) {
            Ok(b) => b,
            Err(e) => {
                assert(first_error(checks) == checks[5]) by { lemma_first_error_at(checks, 5); }
                return Err(e);
            },
        };
        let bootstrap_registration_enabled = match bool_setting(env, "BOOTSTRAP_REGISTRATION_ENABLED", false) {
            Ok(b) => b,
            Err(e) => {
                assert(first_error(checks) == checks[6]) by { lemma_first_error_at(checks, 6); }
                return Err(e);
            },
        };
        let rate_limit_register_per_minute = match int_setting(env, "RATE_LIMIT_REGISTER_PER_MINUTE", 5, false, 0, u32::MAX as i128) {
            Ok(x) => x as u32,
            Err(e) => {
                assert(first_error(checks) == checks[7]) by { lemma_first_error_at(checks, 7); }
                return Err(e);
            },
        };
        let rate_limit_login_per_minute = match int_setting(env, "RATE_LIMIT_LOGIN_PER_MINUTE", 10, false, 0, u32::MAX as i128) {
            Ok(x) => x as u32,
            Err(e) => {
                assert(first_error(checks) == checks[8]) by { lemma_first_error_at(checks, 8); }
                return Err(e);
            },
        };
        let rate_limit_refresh_per_minute = match int_setting(env, "RATE_LIMIT_REFRESH_PER_MINUTE", 30, false, 0, u32::MAX as i128) {
            Ok(x) => x as u32,
            Err(e) => {
                assert(first_error(checks) == checks[9]) by { lemma_first_error_at(checks, 9); }
                return Err(e);
            },
        };
        let rate_limit_default_per_minute = match int_setting(env, "RATE_LIMIT_DEFAULT_PER_MINUTE", 600, false, 0, u32::MAX as i128) {
            Ok(x) => x as u32,
            Err(e) => {
                assert(first_error(checks) == checks[10]) by { lemma_first_error_at(checks, 10); }
                return Err(e);
            },
        };
        let trust_proxy_headers = match bool_setting(env, "TRUST_PROXY_HEADERS", false) {
            Ok(b) => b,
            Err(e) => {
                assert(first_error(checks) == checks[11]) by { lemma_first_error_at(checks, 11); }
                return Err(e);
            },
        };
        let migrations_disabled = match bool_setting(env, "MIGRATIONS_DISABLED", false) {
            Ok(b) => b,
            Err(e) => {
                assert(first_error(checks) == checks[12]) by { lemma_first_error_at(checks, 12); }
                return Err(e);
            },
        };
        let log_level = opt(env, "LOG_LEVEL", "info");
        proof {
            lemma_first_error_none(checks, 13);
        }
        let cfg = Config {
            app_env,
            app_base_url,
            http_port,
            database_url,
            jwt_secret,
            jwt_issuer,
            jwt_audience,
            jwt_expiry_minutes,
            refresh_token_expiry_days,
            cors_origin,
            allow_overdraft,
            bootstrap_registration_enabled,
            rate_limit_register_per_minute,
            rate_limit_login_per_minute,
            rate_limit_refresh_per_minute,
            rate_limit_default_per_minute,
            trust_proxy_headers,
            migrations_disabled,
            log_level,
        };
        assert(config_matches(cfg, env@));
        let secret_len = chars_of(cfg.jwt_secret.as_str()).len();
        if secret_len < 32 {
            proof {
                assert(rule_error(cfg, declared_dev(env@)) == Some("JWT_SECRET must be at least 32 characters"@));
            }
            return Err(ConfigError::Production(String::from_str("JWT_SECRET must be at least 32 characters")));
        }
        let dev = match present_value(env, "APP_ENV") {
            Some(v) => str_eq(v.as_str(), "development") || str_eq(v.as_str(), "dev") || str_eq(
                v.as_str(),
                "test",
            ),
            None => false,
        };
        assert(dev == declared_dev(env@));
        if !dev {
            match cfg.validate_production() {
                Ok(()) => {},
                Err(e) => {
                    proof {
                        assert(rule_error(cfg, declared_dev(env@)) == production_error(cfg));
                    }
                    return Err(e);
                },
            }
        }
        Ok(cfg)
    }

    /// The production rules, run for every non-development environment.
    fn validate_production(&self) -> (r: Result<(), ConfigError>)
        ensures
            match r {
                Ok(()) => production_error(*self) is None,
                Err(e) => production_error(*self) matches Some(m) && e@ == ConfigErrorView::Production(m),
            },
    {
        if contains_char(self.cors_origin.as_str(), '*') {
            return Err(ConfigError::Production(String::from_str("CORS_ORIGIN cannot contain '*' in production")));
        }
        if !starts_with(self.app_base_url.as_str(), "https://") {
            return Err(ConfigError::Production(String::from_str("APP_BASE_URL must start with 'https://' in production")));
        }
        if str_eq(self.jwt_issuer.as_str(), "batchwise") {
            return Err(ConfigError::Production(String::from_str("JWT_ISSUER cannot be default 'batchwise' in production")));
        }
        if str_eq(self.jwt_audience.as_str(), "batchwise") {
            return Err(ConfigError::Production(String::from_str("JWT_AUDIENCE cannot be default 'batchwise' in production")));
        }
        Ok(())
    }
}

proof fn lemma_first_error_at(checks: Seq<Option<ConfigErrorView>>, k: int)
    requires
        0 <= k < checks.len(),
        checks[k] is Some,
        forall|j: int| 0 <= j < k ==> checks[j] is None,
    ensures
        first_error(checks) == checks[k],
    decreases k,
{
    if k > 0 {
        assert(checks[0] is None);
        lemma_first_error_at(checks.drop_first(), k - 1);
    }
}

proof fn lemma_first_error_none(checks: Seq<Option<ConfigErrorView>>, n: int)
    requires
        n == checks.len(),
        forall|j: int| 0 <= j < n ==> checks[j] is None,
    ensures
        first_error(checks) is None,
    decreases n,
{
    if n > 0 {
        assert(checks[0] is None);
        lemma_first_error_none(checks.drop_first(), n - 1);
    }
}

/// A secret shorter than 32 characters is refused in every environment,
/// also in development.
pub proof fn law_short_secret_always_refused(c: Config, dev: bool)
    requires
        c.jwt_secret@.len() < 32,
    ensures
        rule_error(c, dev) is Some,
{
}

/// Unless `APP_ENV` is set to a development name (so also when it is unset
/// or misspelt), every production rule applies: a wildcard CORS origin, a
/// non-HTTPS base URL, or the default issuer or audience is refused (fail
/// closed).
pub proof fn law_production_fails_closed(c: Config, env: Seq<(String, String)>)
    requires
        !declared_dev(env),
        c.cors_origin@.contains('*') || !("https://"@).is_prefix_of(c.app_base_url@)
            || c.jwt_issuer@ == "batchwise"@ || c.jwt_audience@ == "batchwise"@,
    ensures
        rule_error(c, declared_dev(env)) is Some,
{
}

/// How a flag is written: `true` or `false`.
pub open spec fn bool_text(b: bool) -> Seq<char> {
    if b {
        "true"@
    } else {
        "false"@
    }
}

/// The settings as `Debug` prints a struct, with the database URL and the
/// JWT secret shown as `"[redacted]"`.
pub open spec fn redacted_text(c: Config) -> Seq<char> {
    "Config { app_env: "@
        + debug_text(c.app_env@)
        + ", app_base_url: "@
        + debug_text(c.app_base_url@)
        + ", http_port: "@
        + decimal_text(c.http_port as int)
        + ", database_url: "@
        + debug_text("[redacted]"@)
        + ", jwt_secret: "@
        + debug_text("[redacted]"@)
        + ", jwt_issuer: "@
        + debug_text(c.jwt_issuer@)
        + ", jwt_audience: "@
        + debug_text(c.jwt_audience@)
        + ", jwt_expiry_minutes: "@
        + decimal_text(c.jwt_expiry_minutes as int)
        + ", refresh_token_expiry_days: "@
        + decimal_text(c.refresh_token_expiry_days as int)
        + ", cors_origin: "@
        + debug_text(c.cors_origin@)
        + ", allow_overdraft: "@
        + bool_text(c.allow_overdraft)
        + ", bootstrap_registration_enabled: "@
        + bool_text(c.bootstrap_registration_enabled)
        + ", rate_limit_register_per_minute: "@
        + decimal_text(c.rate_limit_register_per_minute as int)
        + ", rate_limit_login_per_minute: "@
        + decimal_text(c.rate_limit_login_per_minute as int)
        + ", rate_limit_refresh_per_minute: "@
        + decimal_text(c.rate_limit_refresh_per_minute as int)
        + ", rate_limit_default_per_minute: "@
        + decimal_text(c.rate_limit_default_per_minute as int)
        + ", trust_proxy_headers: "@
        + bool_text(c.trust_proxy_headers)
        + ", migrations_disabled: "@
        + bool_text(c.migrations_disabled)
        + ", log_level: "@
        + debug_text(c.log_level@)
        + " }"@
}

impl Config {
    /// The settings in `Debug` form with the database URL and JWT secret
    /// redacted, for logs and panic messages.
    pub fn redacted_debug(&self) -> (s: String)
        ensures
            s@ == redacted_text(*self),
    {
        String::new()
            .concat("Config { app_env: ")
            .concat(debug_quote(self.app_env.as_str()).as_str())
            .concat(", app_base_url: ")
            .concat(debug_quote(self.app_base_url.as_str()).as_str())
            .concat(", http_port: ")
            .concat(format_int(self.http_port as i64).as_str())
            .concat(", database_url: ")
            .concat(debug_quote("[redacted]").as_str())
            .concat(", jwt_secret: ")
            .concat(debug_quote("[redacted]").as_str())
            .concat(", jwt_issuer: ")
            .concat(debug_quote(self.jwt_issuer.as_str()).as_str())
            .concat(", jwt_audience: ")
            .concat(debug_quote(self.jwt_audience.as_str()).as_str())
            .concat(", jwt_expiry_minutes: ")
            .concat(format_int(self.jwt_expiry_minutes as i64).as_str())
            .concat(", refresh_token_expiry_days: ")
            .concat(format_int(self.refresh_token_expiry_days as i64).as_str())
            .concat(", cors_origin: ")
            .concat(debug_quote(self.cors_origin.as_str()).as_str())
            .concat(", allow_overdraft: ")
            .concat(if self.allow_overdraft { "true" } else { "false" })
            .concat(", bootstrap_registration_enabled: ")
            .concat(if self.bootstrap_registration_enabled { "true" } else { "false" })
            .concat(", rate_limit_register_per_minute: ")
            .concat(format_int(self.rate_limit_register_per_minute as i64).as_str())
            .concat(", rate_limit_login_per_minute: ")
            .concat(format_int(self.rate_limit_login_per_minute as i64).as_str())
            .concat(", rate_limit_refresh_per_minute: ")
            .concat(format_int(self.rate_limit_refresh_per_minute as i64).as_str())
            .concat(", rate_limit_default_per_minute: ")
            .concat(format_int(self.rate_limit_default_per_minute as i64).as_str())
            .concat(", trust_proxy_headers: ")
            .concat(if self.trust_proxy_headers { "true" } else { "false" })
            .concat(", migrations_disabled: ")
            .concat(if self.migrations_disabled { "true" } else { "false" })
            .concat(", log_level: ")
            .concat(debug_quote(self.log_level.as_str()).as_str())
            .concat(" }")
    }
}

/// The redacted form never depends on the secrets: two settings that differ
/// only in database URL and JWT secret print the same.
pub proof fn law_redaction_hides_secrets(a: Config, b: Config)
    requires
        a.app_env == b.app_env,
        a.app_base_url == b.app_base_url,
        a.http_port == b.http_port,
        a.jwt_issuer == b.jwt_issuer,
        a.jwt_audience == b.jwt_audience,
        a.jwt_expiry_minutes == b.jwt_expiry_minutes,
        a.refresh_token_expiry_days == b.refresh_token_expiry_days,
        a.cors_origin == b.cors_origin,
        a.allow_overdraft == b.allow_overdraft,
        a.bootstrap_registration_enabled == b.bootstrap_registration_enabled,
        a.rate_limit_register_per_minute == b.rate_limit_register_per_minute,
        a.rate_limit_login_per_minute == b.rate_limit_login_per_minute,
        a.rate_limit_refresh_per_minute == b.rate_limit_refresh_per_minute,
        a.rate_limit_default_per_minute == b.rate_limit_default_per_minute,
        a.trust_proxy_headers == b.trust_proxy_headers,
        a.migrations_disabled == b.migrations_disabled,
        a.log_level == b.log_level,
    ensures
        redacted_text(a) == redacted_text(b),
{
}

} // verus!
