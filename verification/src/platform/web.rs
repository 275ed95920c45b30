//! JSON request decoding rules: the media type and body a JSON endpoint
//! accepts, and how a decode failure is reported (an unknown field is named).

use vstd::prelude::*;
use super::errors::{plain_view, validation_view, ApiError, ApiErrorView, ErrorKind};
use crate::text::{chars_of, split_chars, split_on, string_of, sub_chars};

verus! {

/// A request body that was decoded and validated.
pub struct ValidatedJson<T>(pub T);

/// `serde_json`'s error type, carried through opaquely.
#[verifier::external_type_specification]
#[verifier::external_body]
pub struct ExJsonError(serde_json::Error);

/// Whether `s` starts with `prefix`.
pub open spec fn starts_with(s: Seq<char>, prefix: Seq<char>) -> bool {
    s.len() >= prefix.len() && s.take(prefix.len() as int) == prefix
}

fn has_prefix(s: &Vec<char>, prefix: &Vec<char>) -> (b: bool)
    ensures
        b == starts_with(s@, prefix@),
{
    if s.len() < prefix.len() {
        return false;
    }
    let head = sub_chars(s, 0, prefix.len());
    crate::text::chars_eq(&head, prefix)
}

/// What a JSON endpoint answers to a request's media type and body size: a
/// non-JSON media type is unsupported, and an empty body is refused.
pub open spec fn body_outcome(content_type: Seq<char>, body_len: nat) -> Result<(), ApiErrorView> {
    if !starts_with(content_type, "application/json"@) {
        Err(plain_view(ErrorKind::UnsupportedMediaType, "unsupported media type"@))
    } else if body_len == 0 {
        Err(validation_view("body"@, "request body is required"@))
    } else {
        Ok(())
    }
}

/// Checks a JSON request's `Content-Type` (empty when absent or not text)
/// and body length.
pub fn check_request(content_type: &str, body_len: usize) -> (r: Result<(), ApiError>)
    ensures
        match r {
            Ok(()) => body_outcome(content_type@, body_len as nat) is Ok,
            Err(e) => body_outcome(content_type@, body_len as nat) == Err::<(), ApiErrorView>(e@),
        },
{
    let ct = chars_of(content_type);
    let json = chars_of("application/json");
    if !has_prefix(&ct, &json) {
        return Err(ApiError::unsupported_media_type());
    }
    if body_len == 0 {
        return Err(ApiError::validation("body", "request body is required"));
    }
    Ok(())
}

/// The refusal when the body cannot be read.
pub fn unreadable_body() -> (e: ApiError)
    ensures
        e@ == validation_view("body"@, "could not read request body"@),
{
    ApiError::validation("body", "could not read request body")
}

/// How a decode failure with message `msg` is reported: an `unknown field`
/// failure names the field (up to its closing backquote); anything else is
/// reported on the body with the message.
pub open spec fn decode_view(msg: Seq<char>) -> ApiErrorView {
    let p = "unknown field `"@;
    if starts_with(msg, p) {
        validation_view(split_on(msg.skip(p.len() as int), '`')[0], "unknown field"@)
    } else {
        validation_view("body"@, msg)
    }
}

/// Reports a decode failure from its message.
pub fn decode_message(msg: &str) -> (e: ApiError)
    ensures
        e@ == decode_view(msg@),
{
    let m = chars_of(msg);
    let p = chars_of("unknown field `");
    if has_prefix(&m, &p) {
        let rest = sub_chars(&m, p.len(), m.len());
        assert(rest@ =~= msg@.skip(p@.len() as int));
        let pieces = split_chars(&rest, '`');
        proof {
            crate::text::lemma_split_nonempty(rest@, '`');
        }
        let field = string_of(&pieces[0]);
        return ApiError::validation(field.as_str(), "unknown field");
    }
    ApiError::validation("body", msg)
}

/// The text of a `serde_json` error (its `Display`). What the text is
/// depends on the error's insides, which are not visible here; nothing is
/// stated of it.
#[verifier::external_body]
fn json_error_text(e: &serde_json::Error) -> (s: String) {
    e.to_string()
}

/// Reports a body that did not decode.
pub fn decode_error(e: &serde_json::Error) -> (r: ApiError)
    ensures
        exists|msg: Seq<char>| r@ == decode_view(msg),
{
    let text = json_error_text(e);
    decode_message(text.as_str())
}

} // verus!
