//! SQL `LIKE` pattern helpers.
//!
//! In PostgreSQL the default `LIKE` escape character is a backslash, so
//! escaping the term is enough: no `ESCAPE` clause is needed.

use vstd::prelude::*;

use crate::text::{chars_of, push_char};

verus! {

/// The escaped form of one char: `\`, `%` and `_` get a backslash in front.
pub open spec fn escape_char(c: char) -> Seq<char> {
    if c == '\\' || c == '%' || c == '_' {
        seq!['\\', c]
    } else {
        seq![c]
    }
}

/// `s` with every special `LIKE` character escaped.
pub open spec fn escaped(s: Seq<char>) -> Seq<char>
    decreases s.len(),
{
    if s.len() == 0 {
        Seq::empty()
    } else {
        escaped(s.drop_last()) + escape_char(s.last())
    }
}

/// Escapes the special `LIKE` characters in a term: backslashes, percent
/// signs and underscores each get a backslash in front.
pub fn escape_like(term: &str) -> (r: String)
    ensures
        r@ == escaped(term@),
{
    let v = chars_of(term);
    let mut result = String::new();
    let mut k: usize = 0;
    assert(v@.take(0) =~= Seq::<char>::empty());
    while k < v.len()
        invariant
            k <= v.len(),
            v@ == term@,
            result@ == escaped(v@.take(k as int)),
        decreases v.len() - k,
    {
        let c = v[k];
        proof {
            let t = v@.take(k + 1);
            assert(t.drop_last() =~= v@.take(k as int));
            assert(t.last() == c);
        }
        if c == '\\' || c == '%' || c == '_' {
            push_char(&mut result, '\\');
            push_char(&mut result, c);
        } else {
            push_char(&mut result, c);
        }
        proof {
            assert(result@ =~= escaped(v@.take(k + 1)));
        }
        k += 1;
    }
    assert(v@.take(v.len() as int) =~= v@);
    result
}

/// A `LIKE` pattern matching strings that contain the term.
pub fn like_contains(term: &str) -> (r: String)
    ensures
        r@ == seq!['%'] + escaped(term@) + seq!['%'],
{
    let mut r = String::new();
    push_char(&mut r, '%');
    let e = escape_like(term);
    r.append(e.as_str());
    push_char(&mut r, '%');
    assert(r@ =~= seq!['%'] + escaped(term@) + seq!['%']);
    r
}

/// A `LIKE` pattern matching strings that start with the term.
pub fn like_prefix(term: &str) -> (r: String)
    ensures
        r@ == escaped(term@) + seq!['%'],
{
    let mut r = escape_like(term);
    push_char(&mut r, '%');
    r
}

/// In an escaped term every `%` and `_` is preceded by a backslash, so none
/// of them can act as a wildcard; and escaping adds one backslash per special
/// char, so the term is never shortened.
pub proof fn law_escaped_has_no_bare_wildcard(s: Seq<char>)
    ensures
        forall|i: int|
            0 <= i < escaped(s).len() && (#[trigger] escaped(s)[i] == '%' || escaped(s)[i] == '_') ==> i
                > 0 && escaped(s)[i - 1] == '\\',
        escaped(s).len() >= s.len(),
    decreases s.len(),
{
    if s.len() > 0 {
        law_escaped_has_no_bare_wildcard(s.drop_last());
        let p = escaped(s.drop_last());
        let e = escaped(s);
        assert(e == p + escape_char(s.last()));
        assert forall|i: int|
            0 <= i < e.len() && (#[trigger] e[i] == '%' || e[i] == '_') implies i > 0 && e[i - 1] == '\\' by {
            if i < p.len() {
                assert(e[i] == p[i]);
                assert(e[i - 1] == p[i - 1]);
            } else {
                let c = s.last();
                if c == '\\' || c == '%' || c == '_' {
                    if i == p.len() {
                        assert(e[i] == '\\');
                    } else {
                        assert(e[i - 1] == '\\');
                    }
                } else {
                    assert(e[i] == c);
                }
            }
        }
    }
}


/// Whether PostgreSQL `LIKE` with the default backslash escape matches the
/// whole of `s` against pattern `p`: `%` matches any run of chars, `_` any
/// one char, a backslash makes the next char literal (a pattern ending in a
/// lone backslash matches nothing), and every other char matches itself.
pub open spec fn like_match(p: Seq<char>, s: Seq<char>) -> bool
    decreases p.len() + s.len(),
{
    if p.len() == 0 {
        s.len() == 0
    } else if p[0] == '\\' {
        p.len() >= 2 && s.len() > 0 && s[0] == p[1] && like_match(p.skip(2), s.skip(1))
    } else if p[0] == '%' {
        like_match(p.skip(1), s) || (s.len() > 0 && like_match(p, s.skip(1)))
    } else if p[0] == '_' {
        s.len() > 0 && like_match(p.skip(1), s.skip(1))
    } else {
        s.len() > 0 && s[0] == p[0] && like_match(p.skip(1), s.skip(1))
    }
}

/// A pattern with each escaping backslash dropped and the char after it kept.
pub open spec fn unescaped(p: Seq<char>) -> Seq<char>
    decreases p.len(),
{
    if p.len() == 0 {
        Seq::empty()
    } else if p[0] == '\\' && p.len() >= 2 {
        seq![p[1]] + unescaped(p.skip(2))
    } else {
        seq![p[0]] + unescaped(p.skip(1))
    }
}

/// Escaping, read from the front: the first char's escape, then the rest.
proof fn lemma_escaped_front(t: Seq<char>)
    requires
        t.len() > 0,
    ensures
        escaped(t) == escape_char(t[0]) + escaped(t.skip(1)),
    decreases t.len(),
{
    if t.len() == 1 {
        assert(t.drop_last() =~= Seq::<char>::empty());
        assert(t.skip(1) =~= Seq::<char>::empty());
        assert(escaped(t) =~= escape_char(t[0]) + escaped(t.skip(1)));
    } else {
        let d = t.drop_last();
        lemma_escaped_front(d);
        assert(d.skip(1) =~= t.skip(1).drop_last());
        assert(t.skip(1).last() == t.last());
        assert(escaped(t) =~= escape_char(t[0]) + escaped(t.skip(1)));
    }
}

/// Unescaping an escaped term gives the term back.
pub proof fn law_unescape_undoes_escape(t: Seq<char>)
    ensures
        unescaped(escaped(t)) == t,
    decreases t.len(),
{
    if t.len() == 0 {
        assert(escaped(t) =~= Seq::<char>::empty());
    } else {
        lemma_escaped_front(t);
        law_unescape_undoes_escape(t.skip(1));
        let e = escaped(t);
        let c = t[0];
        if c == '\\' || c == '%' || c == '_' {
            assert(e.skip(2) =~= escaped(t.skip(1)));
        } else {
            assert(e.skip(1) =~= escaped(t.skip(1)));
        }
        assert(unescaped(e) =~= t);
    }
}

/// An escaped term, used as a `LIKE` pattern, matches exactly the term.
pub proof fn law_escaped_pattern_matches_only_term(t: Seq<char>, s: Seq<char>)
    ensures
        like_match(escaped(t), s) <==> s == t,
    decreases t.len(),
{
    if t.len() == 0 {
        assert(escaped(t) =~= Seq::<char>::empty());
        if s.len() == 0 {
            assert(s =~= t);
        }
    } else {
        lemma_escaped_front(t);
        law_escaped_pattern_matches_only_term(t.skip(1), s.skip(1));
        let e = escaped(t);
        let c = t[0];
        let rest = escaped(t.skip(1));
        if c == '\\' || c == '%' || c == '_' {
            assert(e[0] == '\\' && e[1] == c);
            assert(e.skip(2) =~= rest);
            assert(like_match(e, s) == (s.len() > 0 && s[0] == c && like_match(rest, s.skip(1))));
        } else {
            assert(e[0] == c);
            assert(e.skip(1) =~= rest);
            assert(like_match(e, s) == (s.len() > 0 && s[0] == c && like_match(rest, s.skip(1))));
        }
        if s.len() > 0 && s[0] == t[0] && s.skip(1) == t.skip(1) {
            assert forall|i: int| 0 <= i < s.len() implies s[i] == t[i] by {
                if i > 0 {
                    assert(s[i] == s.skip(1)[i - 1]);
                    assert(t[i] == t.skip(1)[i - 1]);
                }
            }
            assert(s =~= t);
        }
        if s == t {
            assert(s.skip(1) == t.skip(1));
        }
    }
}

} // verus!
