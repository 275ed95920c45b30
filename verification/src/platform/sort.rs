//! Parse and validate `?sort=` query strings for list endpoints.
//!
//! List endpoints accept `?sort=col[,col2]` with a leading `-` for DESC. Each
//! module declares an allow-list mapping public names to trusted SQL column
//! expressions. Unknown names are rejected with a validation error. The
//! returned fragment is built only from allow-list values, never from user
//! input.

use vstd::prelude::*;

use super::errors::{internal_view, validation_view, ApiError, ApiErrorView};
use crate::text::{
    char_views, chars_eq, chars_of, join, join_strings, split_chars, split_on, string_views,
    sub_chars, trim, trim_chars,
};

verus! {

/// Controls where NULL values appear in sorted results.
#[derive(PartialEq, Eq, Structural, Clone, Copy, Debug)]
pub enum Nulls {
    /// The Postgres default: `NULLS LAST` for `ASC`, `NULLS FIRST` for `DESC`.
    Default,
    /// Append `NULLS LAST` to every sort field.
    Last,
}

/// The column an allow-list maps `name` to: that of its first entry with that name.
pub open spec fn lookup(allowed: Seq<(&str, &str)>, name: Seq<char>) -> Option<Seq<char>>
    decreases allowed.len(),
{
    if allowed.len() == 0 {
        None
    } else if allowed[0].0@ == name {
        Some(allowed[0].1@)
    } else {
        lookup(allowed.drop_first(), name)
    }
}

/// The `ORDER BY` fragment for one column.
pub open spec fn fragment(col: Seq<char>, desc: bool, nulls: Nulls) -> Seq<char> {
    col + " "@ + (if desc {
        "DESC"@
    } else {
        "ASC"@
    }) + (if nulls == Nulls::Last {
        " NULLS LAST"@
    } else {
        Seq::<char>::empty()
    })
}

/// Whether a (trimmed, non-empty) field asks for descending order.
pub open spec fn is_desc(f: Seq<char>) -> bool {
    f.len() > 0 && f[0] == '-'
}

/// The field's public name: without its leading `-`.
pub open spec fn field_name(f: Seq<char>) -> Seq<char> {
    if is_desc(f) {
        f.drop_first()
    } else {
        f
    }
}

/// The fragments of the comma-separated pieces, left to right: empty
/// (after trimming) pieces are skipped, and the first unknown name is the error.
pub open spec fn sort_fields(pieces: Seq<Seq<char>>, allowed: Seq<(&str, &str)>, nulls: Nulls) -> Result<
    Seq<Seq<char>>,
    Seq<char>,
>
    decreases pieces.len(),
{
    if pieces.len() == 0 {
        Ok(Seq::empty())
    } else {
        match sort_fields(pieces.drop_last(), allowed, nulls) {
            Err(n) => Err(n),
            Ok(parts) => {
                let f = trim(pieces.last());
                if f.len() == 0 {
                    Ok(parts)
                } else {
                    match lookup(allowed, field_name(f)) {
                        None => Err(field_name(f)),
                        Some(col) => Ok(parts.push(fragment(col, is_desc(f), nulls))),
                    }
                }
            },
        }
    }
}

/// The outcome of one parsing pass: a result, or "retry with the default".
pub enum SortPass {
    Done(Result<Seq<char>, ApiErrorView>),
    Retry,
}

/// One pass over `spec` (or over `default` when `spec` is blank).
pub open spec fn sort_pass(spec: Seq<char>, allowed: Seq<(&str, &str)>, default: Seq<char>, nulls: Nulls) -> SortPass {
    let t = trim(spec);
    let to_parse = if t.len() == 0 {
        default
    } else {
        t
    };
    match sort_fields(split_on(to_parse, ','), allowed, nulls) {
        Err(name) => SortPass::Done(
            Err(validation_view("sort"@, "invalid sort field: "@ + name)),
        ),
        Ok(parts) => if parts.len() == 0 {
            if to_parse == default {
                SortPass::Done(Err(internal_view("empty default sort spec"@)))
            } else {
                SortPass::Retry
            }
        } else {
            SortPass::Done(Ok(join(parts, ", "@)))
        },
    }
}

/// Whether parsing the default settles in one pass (it always does unless the
/// default is blank-padded and holds no field, which would retry forever).
pub open spec fn default_settles(allowed: Seq<(&str, &str)>, default: Seq<char>, nulls: Nulls) -> bool {
    !(sort_pass(default, allowed, default, nulls) is Retry)
}

/// The `ORDER BY` fragment `spec` denotes, or the error it is refused with:
/// a blank spec uses `default`; a spec with no usable field falls back to
/// `default`.
pub open spec fn sort_result(spec: Seq<char>, allowed: Seq<(&str, &str)>, default: Seq<char>, nulls: Nulls) -> Result<
    Seq<char>,
    ApiErrorView,
> {
    match sort_pass(spec, allowed, default, nulls) {
        SortPass::Done(r) => r,
        SortPass::Retry => match sort_pass(default, allowed, default, nulls) {
            SortPass::Done(r) => r,
            SortPass::Retry => Err(internal_view("empty default sort spec"@)),
        },
    }
}

/// Whether an outcome matches the spec-level result.
pub open spec fn matches_result(r: Result<String, ApiError>, s: Result<Seq<char>, ApiErrorView>) -> bool {
    match r {
        Ok(v) => s == Ok::<Seq<char>, ApiErrorView>(v@),
        Err(e) => s == Err::<Seq<char>, ApiErrorView>(e@),
    }
}

proof fn lemma_lookup_skip(allowed: Seq<(&str, &str)>, name: Seq<char>, i: int)
    requires
        0 <= i < allowed.len(),
        allowed[i].0@ != name,
    ensures
        lookup(allowed.subrange(i, allowed.len() as int), name) == lookup(
            allowed.subrange(i + 1, allowed.len() as int),
            name,
        ),
{
    let t = allowed.subrange(i, allowed.len() as int);
    assert(t.drop_first() =~= allowed.subrange(i + 1, allowed.len() as int));
}

/// The column `allowed` maps `name` to.
pub(crate) fn lookup_column<'a>(allowed: &[(&'a str, &'a str)], name: &Vec<char>) -> (r: Option<&'a str>)
    ensures
        match r {
            Some(c) => lookup(allowed@, name@) == Some(c@),
            None => lookup(allowed@, name@) is None,
        },
{
    let n = allowed.len();
    let mut i: usize = 0;
    assert(allowed@.subrange(0, n as int) =~= allowed@);
    while i < n
        invariant
            i <= n == allowed@.len(),
            lookup(allowed@, name@) == lookup(allowed@.subrange(i as int, n as int), name@),
        decreases n - i,
    {
        let key = chars_of(allowed[i].0);
        if chars_eq(&key, name) {
            proof {
                let t = allowed@.subrange(i as int, n as int);
                assert(t[0] == allowed@[i as int]);
            }
            return Some(allowed[i].1);
        }
        proof {
            lemma_lookup_skip(allowed@, name@, i as int);
        }
        i += 1;
    }
    None
}

proof fn lemma_sort_fields_err_extends(
    pieces: Seq<Seq<char>>,
    k: int,
    allowed: Seq<(&str, &str)>,
    nulls: Nulls,
    name: Seq<char>,
)
    requires
        0 <= k <= pieces.len(),
        sort_fields(pieces.take(k), allowed, nulls) == Err::<Seq<Seq<char>>, Seq<char>>(name),
    ensures
        sort_fields(pieces, allowed, nulls) == Err::<Seq<Seq<char>>, Seq<char>>(name),
    decreases pieces.len() - k,
{
    if k == pieces.len() {
        assert(pieces.take(k) =~= pieces);
    } else {
        let t = pieces.take(k + 1);
        assert(t.drop_last() =~= pieces.take(k));
        lemma_sort_fields_err_extends(pieces, k + 1, allowed, nulls, name);
    }
}

/// The fragment for one column and direction.
pub(crate) fn make_fragment(col: &str, desc: bool, nulls: Nulls) -> (r: String)
    ensures
        r@ == fragment(col@, desc, nulls),
{
    let mut s = String::from_str(col);
    s.append(" ");
    if desc {
        s.append("DESC");
    } else {
        s.append("ASC");
    }
    if nulls == Nulls::Last {
        s.append(" NULLS LAST");
    }
    s
}

/// The fragments of the pieces, or the first unknown name.
fn fields_to_fragments(pieces: &Vec<Vec<char>>, allowed: &[(&str, &str)], nulls: Nulls) -> (r: Result<
    Vec<String>,
    Vec<char>,
>)
    ensures
        match r {
            Ok(parts) => sort_fields(char_views(pieces@), allowed@, nulls) == Ok::<
                Seq<Seq<char>>,
                Seq<char>,
            >(string_views(parts@)),
            Err(name) => sort_fields(char_views(pieces@), allowed@, nulls) == Err::<
                Seq<Seq<char>>,
                Seq<char>,
            >(name@),
        },
{
    let mut parts: Vec<String> = Vec::new();
    let mut k: usize = 0;
    assert(char_views(pieces@).take(0) =~= Seq::<Seq<char>>::empty());
    assert(string_views(parts@) =~= Seq::<Seq<char>>::empty());
    while k < pieces.len()
        invariant
            k <= pieces.len(),
            sort_fields(char_views(pieces@).take(k as int), allowed@, nulls) == Ok::<
                Seq<Seq<char>>,
                Seq<char>,
            >(string_views(parts@)),
        decreases pieces.len() - k,
    {
        let ghost pv = char_views(pieces@);
        proof {
            let t = pv.take(k + 1);
            assert(t.drop_last() =~= pv.take(k as int));
            assert(t.last() == pieces@[k as int]@);
        }
        let f = trim_chars(&pieces[k]);
        if f.len() > 0 {
            let desc = f[0] == '-';
            let name = if desc {
                sub_chars(&f, 1, f.len())
            } else {
                f
            };
            proof {
                if desc {
                    assert(name@ =~= f@.drop_first());
                }
                assert(name@ == field_name(f@));
            }
            match lookup_column(allowed, &name) {
                None => {
                    proof {
                        lemma_sort_fields_err_extends(pv, k + 1, allowed@, nulls, name@);
                    }
                    return Err(name);
                },
                Some(col) => {
                    let frag = make_fragment(col, desc, nulls);
                    let ghost before = string_views(parts@);
                    parts.push(frag);
                    assert(string_views(parts@) =~= before.push(frag@));
                },
            }
        }
        k += 1;
    }
    assert(char_views(pieces@).take(pieces.len() as int) =~= char_views(pieces@));
    Ok(parts)
}

/// One parsing pass; `None` asks for a retry with the default.
fn parse_pass(spec: &str, allowed: &[(&str, &str)], default: &str, nulls: Nulls) -> (r: Option<
    Result<String, ApiError>,
>)
    ensures
        match r {
            None => sort_pass(spec@, allowed@, default@, nulls) is Retry,
            Some(res) => sort_pass(spec@, allowed@, default@, nulls) matches SortPass::Done(
                s,
            ) && matches_result(res, s),
        },
{
    let sv = chars_of(spec);
    let t = trim_chars(&sv);
    let dv = chars_of(default);
    let to_parse = if t.len() == 0 {
        dv
    } else {
        t
    };
    let pieces = split_chars(&to_parse, ',');
    match fields_to_fragments(&pieces, allowed, nulls) {
        Err(name) => {
            let mut msg = String::from_str("invalid sort field: ");
            let ghost m0 = msg@;
            let mut k: usize = 0;
            while k < name.len()
                invariant
                    k <= name.len(),
                    msg@ == m0 + name@.take(k as int),
                decreases name.len() - k,
            {
                crate::text::push_char(&mut msg, name[k]);
                assert(name@.take(k + 1) =~= name@.take(k as int).push(name@[k as int]));
                k += 1;
            }
            assert(name@.take(name.len() as int) =~= name@);
            Some(Err(ApiError::validation("sort", msg.as_str())))
        },
        Ok(parts) => {
            if parts.len() == 0 {
                let dv2 = chars_of(default);
                if chars_eq(&to_parse, &dv2) {
                    Some(Err(ApiError::internal("empty default sort spec")))
                } else {
                    None
                }
            } else {
                Some(Ok(join_strings(&parts, ", ")))
            }
        },
    }
}

/// Parses a sort specification against an allow-list with the Postgres NULL
/// ordering. Equivalent to [`parse_with`] with [`Nulls::Default`].
pub fn parse(spec: &str, allowed: &[(&str, &str)], default: &str) -> (r: Result<String, ApiError>)
    requires
        default_settles(allowed@, default@, Nulls::Default),
    ensures
        matches_result(r, sort_result(spec@, allowed@, default@, Nulls::Default)),
{
    parse_with(spec, allowed, default, Nulls::Default)
}

/// Parses a comma-separated list of field names (each optionally prefixed
/// with `-` for descending order) into an `ORDER BY` fragment built from the
/// allow-list's columns, joined with `", "`. A blank spec uses `default`;
/// empty segments are ignored; a spec with no usable segment falls back to
/// `default`; an unknown name is a validation error on `sort`.
pub fn parse_with(spec: &str, allowed: &[(&str, &str)], default: &str, nulls: Nulls) -> (r: Result<
    String,
    ApiError,
>)
    requires
        default_settles(allowed@, default@, nulls),
    ensures
        matches_result(r, sort_result(spec@, allowed@, default@, nulls)),
{
    match parse_pass(spec, allowed, default, nulls) {
        Some(res) => res,
        None => match parse_pass(default, allowed, default, nulls) {
            Some(res) => res,
            None => Err(ApiError::internal("empty default sort spec")),
        },
    }
}

/// Whether `p` is the fragment of some allow-listed column.
pub open spec fn from_allow_list(p: Seq<char>, allowed: Seq<(&str, &str)>, nulls: Nulls) -> bool {
    exists|j: int, d: bool| 0 <= j < allowed.len() && p == fragment(allowed[j].1@, d, nulls)
}

/// Every successful result names only allow-listed columns: each
/// comma-separated fragment is built from a column of the allow-list, so user
/// input never reaches the SQL text.
pub proof fn law_fragments_come_from_allow_list(
    pieces: Seq<Seq<char>>,
    allowed: Seq<(&str, &str)>,
    nulls: Nulls,
)
    ensures
        sort_fields(pieces, allowed, nulls) matches Ok(parts) ==> forall|i: int|
            0 <= i < parts.len() ==> from_allow_list(#[trigger] parts[i], allowed, nulls),
    decreases pieces.len(),
{
    if pieces.len() > 0 {
        law_fragments_come_from_allow_list(pieces.drop_last(), allowed, nulls);
        if let Ok(parts) = sort_fields(pieces.drop_last(), allowed, nulls) {
            let f = trim(pieces.last());
            if f.len() > 0 {
                lemma_lookup_in_list(allowed, field_name(f));
                if let Some(col) = lookup(allowed, field_name(f)) {
                    let np = parts.push(fragment(col, is_desc(f), nulls));
                    let j0 = choose|j: int| 0 <= j < allowed.len() && allowed[j].1@ == col;
                    assert(from_allow_list(np.last(), allowed, nulls)) by {
                        assert(np.last() == fragment(allowed[j0].1@, is_desc(f), nulls));
                    }
                    assert forall|i: int| 0 <= i < np.len() implies from_allow_list(
                        #[trigger] np[i],
                        allowed,
                        nulls,
                    ) by {
                        if i < parts.len() {
                            assert(np[i] == parts[i]);
                        }
                    }
                }
            }
        }
    }
}

proof fn lemma_lookup_in_list(allowed: Seq<(&str, &str)>, name: Seq<char>)
    ensures
        lookup(allowed, name) matches Some(c) ==> exists|j: int|
            0 <= j < allowed.len() && allowed[j].1@ == c,
    decreases allowed.len(),
{
    if allowed.len() > 0 && allowed[0].0@ != name {
        lemma_lookup_in_list(allowed.drop_first(), name);
        if let Some(c) = lookup(allowed.drop_first(), name) {
            let j = choose|j: int| 0 <= j < allowed.drop_first().len() && allowed.drop_first()[j].1@ == c;
            assert(allowed[j + 1].1@ == c);
        }
    }
}

} // verus!
