//! The e-mail address rule that request payloads are checked against.

use vstd::prelude::*;

verus! {

/// Whether the `validator` crate accepts `s` as an e-mail address: a user
/// part of at most 64 chars from its allowed set, an `@`, and a domain of at
/// most 255 chars that is a host name (after IDNA mapping) or a bracketed IP
/// literal.
pub uninterp spec fn email_accepted(s: Seq<char>) -> bool;

/// Whether `s` is an e-mail address, by `validator::ValidateEmail::validate_email`.
/// The contract names that rule's result; of it, it states only what the
/// source shows in its first lines: an empty text, or one without an `@`,
/// is refused.
#[verifier::external_body]
pub(crate) fn is_email(s: &str) -> (b: bool)
    ensures
        b == email_accepted(s@),
        (s@.len() == 0 || !s@.contains('@')) ==> !b,
{
    validator::ValidateEmail::validate_email(&s)
}

} // verus!
