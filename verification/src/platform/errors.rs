//! The [`ApiError`] type: an HTTP status, a stable machine code, a human
//! message, optional structured details, an optional `Retry-After`, and an
//! internal cause that is logged but never returned.
//!
//! The wire shape (`{ "code", "message", "details"?, "request_id" }`) is
//! rendered at the HTTP edge from the accessors here.

use vstd::prelude::*;

verus! {

/// Which kind of failure an error reports; it fixes the status and the code.
#[derive(PartialEq, Eq, Structural, Clone, Copy, Debug)]
pub enum ErrorKind {
    /// 400 `validation_error`.
    Validation,
    /// 404 `not_found`.
    NotFound,
    /// 409 `conflict`.
    Conflict,
    /// 401 `unauthorized`.
    Unauthorized,
    /// 403 `forbidden`.
    Forbidden,
    /// 422 `business_rule_violation`.
    BusinessRule,
    /// 415 `unsupported_media_type`.
    UnsupportedMediaType,
    /// 429 `rate_limited`.
    RateLimited,
    /// 500 `internal_error`.
    Internal,
}

/// A value in an error's structured details.
#[derive(Clone, Debug)]
pub enum Detail {
    Text(String),
    Number(i64),
    List(Vec<String>),
}

/// The mathematical value of a [`Detail`].
pub enum DetailView {
    Text(Seq<char>),
    Number(i64),
    List(Seq<Seq<char>>),
}

impl View for Detail {
    type V = DetailView;

    open spec fn view(&self) -> DetailView {
        match self {
            Detail::Text(s) => DetailView::Text(s@),
            Detail::Number(n) => DetailView::Number(*n),
            Detail::List(v) => DetailView::List(v.deep_view()),
        }
    }
}

/// The entries of a details list as plain values.
pub open spec fn entries_view(v: Seq<(String, Detail)>) -> Seq<(Seq<char>, DetailView)> {
    v.map_values(|e: (String, Detail)| (e.0@, e.1@))
}

/// The map a list of entries denotes: a later entry replaces an earlier one
/// with the same key, as repeated inserts into a map do.
pub open spec fn entries_map(s: Seq<(Seq<char>, DetailView)>) -> Map<Seq<char>, DetailView>
    decreases s.len(),
{
    if s.len() == 0 {
        Map::empty()
    } else {
        entries_map(s.drop_last()).insert(s.last().0, s.last().1)
    }
}

/// The HTTP status of each kind.
pub open spec fn status_of(kind: ErrorKind) -> u16 {
    match kind {
        ErrorKind::Validation => 400,
        ErrorKind::NotFound => 404,
        ErrorKind::Conflict => 409,
        ErrorKind::Unauthorized => 401,
        ErrorKind::Forbidden => 403,
        ErrorKind::BusinessRule => 422,
        ErrorKind::UnsupportedMediaType => 415,
        ErrorKind::RateLimited => 429,
        ErrorKind::Internal => 500,
    }
}

/// The stable machine code of each kind.
pub open spec fn code_of(kind: ErrorKind) -> Seq<char> {
    match kind {
        ErrorKind::Validation => "validation_error"@,
        ErrorKind::NotFound => "not_found"@,
        ErrorKind::Conflict => "conflict"@,
        ErrorKind::Unauthorized => "unauthorized"@,
        ErrorKind::Forbidden => "forbidden"@,
        ErrorKind::BusinessRule => "business_rule_violation"@,
        ErrorKind::UnsupportedMediaType => "unsupported_media_type"@,
        ErrorKind::RateLimited => "rate_limited"@,
        ErrorKind::Internal => "internal_error"@,
    }
}

/// A structured API error.
#[derive(Clone, Debug)]
pub struct ApiError {
    kind: ErrorKind,
    message: String,
    details: Option<Vec<(String, Detail)>>,
    /// Populated for `rate_limited`; emitted as the `Retry-After` header.
    retry_after_seconds: Option<u64>,
    /// Captured internal cause; logged but never serialised.
    source: Option<String>,
}

/// The plain value of an [`ApiError`].
pub struct ApiErrorView {
    pub kind: ErrorKind,
    pub message: Seq<char>,
    pub details: Option<Map<Seq<char>, DetailView>>,
    pub retry_after_seconds: Option<u64>,
    pub source: Option<Seq<char>>,
}

impl View for ApiError {
    type V = ApiErrorView;

    closed spec fn view(&self) -> ApiErrorView {
        ApiErrorView {
            kind: self.kind,
            message: self.message@,
            details: match self.details {
                Some(d) => Some(entries_map(entries_view(d@))),
                None => None,
            },
            retry_after_seconds: self.retry_after_seconds,
            source: match self.source {
                Some(s) => Some(s@),
                None => None,
            },
        }
    }
}

/// The error a field that failed validation gets.
pub open spec fn validation_view(field: Seq<char>, reason: Seq<char>) -> ApiErrorView {
    ApiErrorView {
        kind: ErrorKind::Validation,
        message: "Validation failed."@,
        details: Some(
            Map::empty().insert("field"@, DetailView::Text(field)).insert(
                "reason"@,
                DetailView::Text(reason),
            ),
        ),
        retry_after_seconds: None,
        source: None,
    }
}

/// An error with only a kind and a message.
pub open spec fn plain_view(kind: ErrorKind, message: Seq<char>) -> ApiErrorView {
    ApiErrorView { kind, message, details: None, retry_after_seconds: None, source: None }
}

/// The error for a business rule `rule`, with `details` merged after the
/// `rule` entry (a `rule` key in `details` wins).
pub open spec fn business_rule_view(
    rule: Seq<char>,
    message: Seq<char>,
    details: Seq<(Seq<char>, DetailView)>,
) -> ApiErrorView {
    ApiErrorView {
        kind: ErrorKind::BusinessRule,
        message,
        details: Some(entries_map(seq![("rule"@, DetailView::Text(rule))] + details)),
        retry_after_seconds: None,
        source: None,
    }
}

/// The error for an unexpected internal failure with cause `cause`.
pub open spec fn internal_view(cause: Seq<char>) -> ApiErrorView {
    ApiErrorView {
        kind: ErrorKind::Internal,
        message: "internal server error"@,
        details: None,
        retry_after_seconds: None,
        source: Some(cause),
    }
}

/// The map of a two-entry list.
proof fn lemma_entries_two(a: (Seq<char>, DetailView), b: (Seq<char>, DetailView))
    ensures
        entries_map(seq![a, b]) == Map::<Seq<char>, DetailView>::empty().insert(a.0, a.1).insert(
            b.0,
            b.1,
        ),
{
    let s = seq![a, b];
    assert(s.drop_last() =~= seq![a]);
    assert(seq![a].drop_last() =~= Seq::<(Seq<char>, DetailView)>::empty());
    assert(entries_map(seq![a]) == entries_map(Seq::<(Seq<char>, DetailView)>::empty()).insert(
        a.0,
        a.1,
    ));
    assert(entries_map(s) == entries_map(seq![a]).insert(b.0, b.1));
}

impl ApiError {
    /// 400: a specific field failed validation.
    pub fn validation(field: &str, reason: &str) -> (e: Self)
        ensures
            e@ == validation_view(field@, reason@),
    {
        let mut d: Vec<(String, Detail)> = Vec::new();
        d.push((String::from_str("field"), Detail::Text(String::from_str(field))));
        d.push((String::from_str("reason"), Detail::Text(String::from_str(reason))));
        let e = ApiError {
            kind: ErrorKind::Validation,
            message: String::from_str("Validation failed."),
            details: Some(d),
            retry_after_seconds: None,
            source: None,
        };
        proof {
            let ev = entries_view(d@);
            assert(ev =~= seq![
                ("field"@, DetailView::Text(field@)),
                ("reason"@, DetailView::Text(reason@)),
            ]);
            lemma_entries_two(ev[0], ev[1]);
        }
        e
    }

    /// 404: the named resource does not exist (or is another tenant's).
    pub fn not_found(resource: &str) -> (e: Self)
        ensures
            e@ == plain_view(ErrorKind::NotFound, resource@ + " not found"@),
    {
        ApiError {
            kind: ErrorKind::NotFound,
            message: String::from_str(resource).concat(" not found"),
            details: None,
            retry_after_seconds: None,
            source: None,
        }
    }

    /// 409: a uniqueness or state conflict.
    pub fn conflict(resource: &str, reason: &str) -> (e: Self)
        ensures
            e@ == plain_view(ErrorKind::Conflict, resource@ + ": "@ + reason@),
    {
        ApiError {
            kind: ErrorKind::Conflict,
            message: String::from_str(resource).concat(": ").concat(reason),
            details: None,
            retry_after_seconds: None,
            source: None,
        }
    }

    /// 401: authentication missing or invalid.
    pub fn unauthorized(message: &str) -> (e: Self)
        ensures
            e@ == plain_view(ErrorKind::Unauthorized, message@),
    {
        ApiError {
            kind: ErrorKind::Unauthorized,
            message: String::from_str(message),
            details: None,
            retry_after_seconds: None,
            source: None,
        }
    }

    /// 403: authenticated but not permitted.
    pub fn forbidden(reason: &str) -> (e: Self)
        ensures
            e@ == plain_view(ErrorKind::Forbidden, reason@),
    {
        ApiError {
            kind: ErrorKind::Forbidden,
            message: String::from_str(reason),
            details: None,
            retry_after_seconds: None,
            source: None,
        }
    }

    /// 422: a business rule was violated; `rule` is merged into the details.
    pub fn business_rule(rule: &str, message: &str, details: Vec<(String, Detail)>) -> (e: Self)
        ensures
            e@ == business_rule_view(rule@, message@, entries_view(details@)),
    {
        let mut merged: Vec<(String, Detail)> = Vec::new();
        merged.push((String::from_str("rule"), Detail::Text(String::from_str(rule))));
        let ghost first = merged@;
        let mut rest = details;
        let ghost d0 = rest@;
        merged.append(&mut rest);
        proof {
            assert(merged@ =~= first + d0);
            assert(entries_view(merged@) =~= seq![("rule"@, DetailView::Text(rule@))]
                + entries_view(d0));
        }
        ApiError {
            kind: ErrorKind::BusinessRule,
            message: String::from_str(message),
            details: Some(merged),
            retry_after_seconds: None,
            source: None,
        }
    }

    /// 415: the request body media type is not `application/json`.
    pub fn unsupported_media_type() -> (e: Self)
        ensures
            e@ == plain_view(ErrorKind::UnsupportedMediaType, "unsupported media type"@),
    {
        ApiError {
            kind: ErrorKind::UnsupportedMediaType,
            message: String::from_str("unsupported media type"),
            details: None,
            retry_after_seconds: None,
            source: None,
        }
    }

    /// 429: rate limit exceeded; carries the `Retry-After` seconds.
    pub fn rate_limited(retry_after_seconds: u64) -> (e: Self)
        ensures
            e@ == (ApiErrorView {
                kind: ErrorKind::RateLimited,
                message: "rate limit exceeded"@,
                details: None,
                retry_after_seconds: Some(retry_after_seconds),
                source: None,
            }),
    {
        ApiError {
            kind: ErrorKind::RateLimited,
            message: String::from_str("rate limit exceeded"),
            details: None,
            retry_after_seconds: Some(retry_after_seconds),
            source: None,
        }
    }

    /// 500: an unexpected internal error. The cause is kept for the log, never returned.
    pub fn internal(cause: &str) -> (e: Self)
        ensures
            e@ == internal_view(cause@),
    {
        ApiError {
            kind: ErrorKind::Internal,
            message: String::from_str("internal server error"),
            details: None,
            retry_after_seconds: None,
            source: Some(String::from_str(cause)),
        }
    }

    /// The kind of failure.
    pub fn kind(&self) -> (k: ErrorKind)
        ensures
            k == self@.kind,
    {
        self.kind
    }

    /// The HTTP status this error renders as.
    pub fn status(&self) -> (s: u16)
        ensures
            s == status_of(self@.kind),
    {
        match self.kind {
            ErrorKind::Validation => 400,
            ErrorKind::NotFound => 404,
            ErrorKind::Conflict => 409,
            ErrorKind::Unauthorized => 401,
            ErrorKind::Forbidden => 403,
            ErrorKind::BusinessRule => 422,
            ErrorKind::UnsupportedMediaType => 415,
            ErrorKind::RateLimited => 429,
            ErrorKind::Internal => 500,
        }
    }

    /// The stable machine-readable code.
    pub fn code(&self) -> (c: &'static str)
        ensures
            c@ == code_of(self@.kind),
    {
        match self.kind {
            ErrorKind::Validation => "validation_error",
            ErrorKind::NotFound => "not_found",
            ErrorKind::Conflict => "conflict",
            ErrorKind::Unauthorized => "unauthorized",
            ErrorKind::Forbidden => "forbidden",
            ErrorKind::BusinessRule => "business_rule_violation",
            ErrorKind::UnsupportedMediaType => "unsupported_media_type",
            ErrorKind::RateLimited => "rate_limited",
            ErrorKind::Internal => "internal_error",
        }
    }

    /// Whether this error is a server error (5xx) that must be logged.
    pub fn is_server_error(&self) -> (b: bool)
        ensures
            b == (status_of(self@.kind) >= 500),
    {
        self.status() >= 500
    }

    /// The human message.
    pub fn message(&self) -> (m: &str)
        ensures
            m@ == self@.message,
    {
        self.message.as_str()
    }

    /// The structured details, in insertion order (a later entry replaces an
    /// earlier one with the same key).
    pub fn details(&self) -> (d: Option<&Vec<(String, Detail)>>)
        ensures
            self@.details is Some <==> d is Some,
            d matches Some(v) ==> self@.details == Some(entries_map(entries_view(v@))),
    {
        match &self.details {
            Some(d) => Some(d),
            None => None,
        }
    }

    /// The `Retry-After` seconds, for `rate_limited`.
    pub fn retry_after_seconds(&self) -> (r: Option<u64>)
        ensures
            r == self@.retry_after_seconds,
    {
        self.retry_after_seconds
    }

    /// The internal cause, for the log.
    pub fn source(&self) -> (s: Option<&str>)
        ensures
            self@.source is Some <==> s is Some,
            s matches Some(v) ==> self@.source == Some(v@),
    {
        match &self.source {
            Some(s) => Some(s.as_str()),
            None => None,
        }
    }
}

/// `sqlx`'s error type, carried through opaquely.
#[verifier::external_type_specification]
#[verifier::external_body]
pub struct ExDbError(sqlx::Error);

/// What the API distinguishes in a database failure.
pub enum DbFailure {
    /// The query expected a row and found none.
    RowNotFound,
    /// Anything else, with the failure's text.
    Other(String),
}

/// Tells a missing row (`sqlx::Error::RowNotFound`) from every other
/// `sqlx::Error`, keeping the other's `Display` text. Which variant an error
/// is, and its text, are not visible here; nothing is stated of them.
#[verifier::external_body]
pub(crate) fn classify_db_error(e: &sqlx::Error) -> (f: DbFailure) {
    match e {
        sqlx::Error::RowNotFound => DbFailure::RowNotFound,
        other => DbFailure::Other(other.to_string()),
    }
}

/// The error a database failure becomes, as a plain value.
pub open spec fn db_failure_view(f: DbFailure) -> ApiErrorView {
    match f {
        DbFailure::RowNotFound => plain_view(ErrorKind::NotFound, "resource"@ + " not found"@),
        DbFailure::Other(t) => internal_view(t@),
    }
}

/// The error a database failure becomes: a missing row is a 404 on
/// `resource`; anything else is an internal error carrying its text.
pub fn from_db_failure(f: DbFailure) -> (e: ApiError)
    ensures
        e@ == db_failure_view(f),
        match f {
            DbFailure::RowNotFound => e@ == plain_view(ErrorKind::NotFound, "resource"@ + " not found"@),
            DbFailure::Other(t) => e@ == internal_view(t@),
        },
{
    match f {
        DbFailure::RowNotFound => ApiError::not_found("resource"),
        DbFailure::Other(t) => ApiError::internal(t.as_str()),
    }
}

/// The error a `sqlx` failure becomes: missing rows are 404, everything else
/// is an internal error.
pub fn db_error(e: &sqlx::Error) -> (r: ApiError)
    ensures
        r@ == plain_view(ErrorKind::NotFound, "resource"@ + " not found"@) || exists|t: Seq<char>| r@ == internal_view(t),
{
    from_db_failure(classify_db_error(e))
}

/// Whether a `sqlx` failure is a unique-constraint violation reported by
/// the database (`DatabaseError::is_unique_violation` on a
/// `sqlx::Error::Database`). Nothing is stated of the answer: it depends on
/// the database's reply.
#[verifier::external_body]
pub(crate) fn is_unique_violation(e: &sqlx::Error) -> (b: bool) {
    match e {
        sqlx::Error::Database(d) => d.is_unique_violation(),
        _ => false,
    }
}

/// Each constructor renders with its own status: 400, 404, 409, 401, 403,
/// 422, 415, 429 and 500.
pub proof fn law_kinds_have_distinct_statuses(a: ErrorKind, b: ErrorKind)
    ensures
        a != b ==> status_of(a) != status_of(b),
        a == ErrorKind::Internal <==> status_of(a) >= 500,
{
}

} // verus!
