//! The vocabulary of the fourteen UK major allergens, and the operations the
//! label records use on allergen lists: validation, normalisation and union.

use vstd::prelude::*;
use crate::text::{
    debug_quote, debug_text, lemma_lex_irreflexive, lemma_lex_total, lemma_lex_transitive,
    lex_lt, list_contains, str_eq, lowercase, str_lt, str_views, string_views, to_lowercase, trim,
    trim_str,
};

verus! {

/// The canonical allergen tokens, lowercase, in their declared order.
pub open spec fn vocabulary_spec() -> Seq<Seq<char>> {
    seq![
        "gluten"@, "wheat"@, "barley"@, "rye"@, "oats"@, "sulphites"@, "nuts"@,
        "peanuts"@, "soya"@, "milk"@, "celery"@, "mustard"@, "sesame"@, "lupin"@,
    ]
}

/// The canonical set of UK major allergen tokens (lowercase).
pub fn vocabulary() -> (v: Vec<&'static str>)
    ensures
        str_views(v@) == vocabulary_spec(),
{
    let v = vec![
        "gluten", "wheat", "barley", "rye", "oats", "sulphites", "nuts", "peanuts", "soya",
        "milk", "celery", "mustard", "sesame", "lupin",
    ];
    assert(str_views(v@) =~= vocabulary_spec());
    v
}

/// The message for a token outside the vocabulary.
pub open spec fn unknown_token_message(token: Seq<char>) -> Seq<char> {
    "unknown allergen token "@ + debug_text(token)
        + "; valid tokens: gluten, wheat, barley, rye, oats, sulphites, nuts, peanuts, soya, milk, celery, mustard, sesame, lupin"@
}

/// The message for the first token outside the vocabulary, if any.
pub open spec fn first_unknown(tokens: Seq<Seq<char>>) -> Option<Seq<char>>
    decreases tokens.len(),
{
    if tokens.len() == 0 {
        None
    } else if !vocabulary_spec().contains(tokens[0]) {
        Some(unknown_token_message(tokens[0]))
    } else {
        first_unknown(tokens.drop_first())
    }
}

/// Known leading tokens do not change which token is reported first.
proof fn lemma_first_unknown_skip(tokens: Seq<Seq<char>>, k: int)
    requires
        0 <= k <= tokens.len(),
        forall|j: int| 0 <= j < k ==> vocabulary_spec().contains(#[trigger] tokens[j]),
    ensures
        first_unknown(tokens) == first_unknown(tokens.skip(k)),
    decreases k,
{
    if k == 0 {
        assert(tokens.skip(0) =~= tokens);
    } else {
        assert(vocabulary_spec().contains(tokens[0]));
        let rest = tokens.drop_first();
        assert forall|j: int| 0 <= j < k - 1 implies vocabulary_spec().contains(#[trigger] rest[j]) by {
            assert(rest[j] == tokens[j + 1]);
        }
        lemma_first_unknown_skip(rest, k - 1);
        assert(rest.skip(k - 1) =~= tokens.skip(k));
    }
}

/// Checks that every token is in the vocabulary. Tokens must already be
/// normalised (lowercase, trimmed). The first unknown token is reported.
pub fn validate(tokens: &[String]) -> (r: Result<(), String>)
    ensures
        match r {
            Ok(()) => first_unknown(string_views(tokens@)) is None,
            Err(m) => first_unknown(string_views(tokens@)) == Some(m@),
        },
        r is Ok <==> forall|i: int|
            0 <= i < tokens@.len() ==> vocabulary_spec().contains(#[trigger] tokens@[i]@),
        r matches Err(m) ==> exists|i: int|
            0 <= i < tokens@.len() && !vocabulary_spec().contains(#[trigger] tokens@[i]@)
                && (forall|j: int| 0 <= j < i ==> vocabulary_spec().contains(#[trigger] tokens@[j]@))
                && m@ == unknown_token_message(tokens@[i]@),
{
    let vocab = vocabulary();
    let mut k: usize = 0;
    while k < tokens.len()
        invariant
            k <= tokens@.len(),
            str_views(vocab@) == vocabulary_spec(),
            forall|j: int| 0 <= j < k ==> vocabulary_spec().contains(#[trigger] tokens@[j]@),
        decreases tokens.len() - k,
    {
        if !list_contains(&vocab, tokens[k].as_str()) {
            proof {
                let tv = string_views(tokens@);
                assert forall|j: int| 0 <= j < k implies vocabulary_spec().contains(#[trigger] tv[j]) by {
                    assert(tv[j] == tokens@[j]@);
                }
                lemma_first_unknown_skip(tv, k as int);
                assert(tv.skip(k as int)[0] == tokens@[k as int]@);
            }
            let q = debug_quote(tokens[k].as_str());
            let mut m = String::from_str("unknown allergen token ");
            m.append(q.as_str());
            m.append(
                "; valid tokens: gluten, wheat, barley, rye, oats, sulphites, nuts, peanuts, soya, milk, celery, mustard, sesame, lupin",
            );
            return Err(m);
        }
        k += 1;
    }
    proof {
        let tv = string_views(tokens@);
        assert forall|j: int| 0 <= j < tokens@.len() implies vocabulary_spec().contains(#[trigger] tv[j]) by {
            assert(tv[j] == tokens@[j]@);
        }
        lemma_first_unknown_skip(tv, tv.len() as int);
        assert(tv.skip(tv.len() as int).len() == 0);
    }
    Ok(())
}

/// Trims whitespace from each token and lowercases it.
pub fn normalise(tokens: &[String]) -> (r: Vec<String>)
    ensures
        r@.len() == tokens@.len(),
        forall|i: int| 0 <= i < tokens@.len() ==> #[trigger] r@[i]@ == lowercase(trim(tokens@[i]@)),
{
    let mut r: Vec<String> = Vec::new();
    let mut k: usize = 0;
    while k < tokens.len()
        invariant
            k <= tokens@.len(),
            r@.len() == k,
            forall|i: int| 0 <= i < k ==> #[trigger] r@[i]@ == lowercase(trim(tokens@[i]@)),
        decreases tokens.len() - k,
    {
        let t = trim_str(tokens[k].as_str());
        r.push(to_lowercase(t.as_str()));
        k += 1;
    }
    r
}

/// Whether the texts are in strictly increasing order (so none repeats).
pub open spec fn strictly_sorted(s: Seq<Seq<char>>) -> bool {
    forall|i: int, j: int| 0 <= i < j < s.len() ==> lex_lt(#[trigger] s[i], #[trigger] s[j])
}

/// Two strictly sorted lists with the same elements are the same list.
proof fn lemma_sorted_unique(s: Seq<Seq<char>>, t: Seq<Seq<char>>)
    requires
        strictly_sorted(s),
        strictly_sorted(t),
        s.to_set() == t.to_set(),
    ensures
        s == t,
    decreases s.len() + t.len(),
{
    if s.len() == 0 {
        if t.len() > 0 {
            assert(t.to_set().contains(t[0]));
            assert(!s.to_set().contains(t[0]));
        }
        assert(s =~= t);
    } else if t.len() == 0 {
        assert(s.to_set().contains(s[0]));
    } else {
        // The first elements are both the least of the common set.
        assert(t.to_set().contains(s[0]));
        assert(s.to_set().contains(t[0]));
        let i = choose|i: int| 0 <= i < t.len() && t[i] == s[0];
        let j = choose|j: int| 0 <= j < s.len() && s[j] == t[0];
        if i > 0 {
            if j > 0 {
                lemma_lex_transitive(s[0], s[j], s[0]);
                lemma_lex_irreflexive(s[0]);
            } else {
                lemma_lex_irreflexive(t[0]);
            }
        }
        assert(s[0] == t[0]);
        let s1 = s.drop_first();
        let t1 = t.drop_first();
        assert forall|x: Seq<char>| s1.to_set().contains(x) implies t1.to_set().contains(x) by {
            let a = choose|a: int| 0 <= a < s1.len() && s1[a] == x;
            assert(s[a + 1] == x);
            assert(lex_lt(s[0], x));
            lemma_lex_irreflexive(x);
            assert(t.to_set().contains(x));
            let b = choose|b: int| 0 <= b < t.len() && t[b] == x;
            assert(b != 0);
            assert(t1[b - 1] == x);
        }
        assert forall|x: Seq<char>| t1.to_set().contains(x) implies s1.to_set().contains(x) by {
            let a = choose|a: int| 0 <= a < t1.len() && t1[a] == x;
            assert(t[a + 1] == x);
            assert(lex_lt(t[0], x));
            lemma_lex_irreflexive(x);
            assert(s.to_set().contains(x));
            let b = choose|b: int| 0 <= b < s.len() && s[b] == x;
            assert(b != 0);
            assert(s1[b - 1] == x);
        }
        assert(s1.to_set() =~= t1.to_set());
        lemma_sorted_unique(s1, t1);
        assert(s =~= seq![s[0]] + s1);
        assert(t =~= seq![t[0]] + t1);
    }
}

/// Adds `x` to a strictly sorted list, keeping it strictly sorted.
fn insert_sorted(v: &mut Vec<String>, x: String)
    requires
        strictly_sorted(string_views(old(v)@)),
    ensures
        strictly_sorted(string_views(final(v)@)),
        string_views(final(v)@).to_set() == string_views(old(v)@).to_set().insert(x@),
{
    let ghost s = string_views(v@);
    let mut k: usize = 0;
    while k < v.len() && str_lt(v[k].as_str(), x.as_str())
        invariant
            k <= v@.len(),
            s == string_views(v@),
            forall|i: int| 0 <= i < k ==> lex_lt(#[trigger] s[i], x@),
        decreases v.len() - k,
    {
        k += 1;
    }
    if k < v.len() && str_eq(v[k].as_str(), x.as_str()) {
        proof {
            assert(s[k as int] == x@);
            assert(s.to_set().insert(x@) =~= s.to_set());
        }
        return;
    }
    proof {
        if k < v@.len() {
            assert(s[k as int] == v@[k as int]@);
            lemma_lex_total(s[k as int], x@);
        }
    }
    v.insert(k, x);
    proof {
        let t = string_views(v@);
        assert(t =~= s.insert(k as int, x@));
        assert forall|i: int, j: int| 0 <= i < j < t.len() implies lex_lt(#[trigger] t[i], #[trigger] t[j]) by {
            if j < k {
            } else if j == k {
            } else if i < k {
                assert(t[j] == s[j - 1]);
                if j - 1 > k {
                    lemma_lex_transitive(x@, s[k as int], s[j - 1]);
                }
                lemma_lex_transitive(s[i], x@, s[j - 1]);
            } else if i == k {
                assert(t[j] == s[j - 1]);
                if j - 1 > k {
                    lemma_lex_transitive(x@, s[k as int], s[j - 1]);
                }
            } else {
                assert(t[i] == s[i - 1]);
                assert(t[j] == s[j - 1]);
            }
        }
        assert forall|y: Seq<char>| t.to_set().contains(y) <==> s.to_set().insert(x@).contains(y) by {
            if t.to_set().contains(y) {
                let a = choose|a: int| 0 <= a < t.len() && t[a] == y;
                if a < k {
                    assert(s[a] == y);
                } else if a > k {
                    assert(s[a - 1] == y);
                }
            }
            if s.to_set().contains(y) {
                let a = choose|a: int| 0 <= a < s.len() && s[a] == y;
                if a < k {
                    assert(t[a] == y);
                } else {
                    assert(t[a + 1] == y);
                }
            }
            if y == x@ {
                assert(t[k as int] == y);
            }
        }
        assert(t.to_set() =~= s.to_set().insert(x@));
    }
}

/// The sorted, deduplicated union of two allergen lists, in the order
/// `String` compares in.
pub fn union(a: &[String], b: &[String]) -> (r: Vec<String>)
    ensures
        strictly_sorted(string_views(r@)),
        string_views(r@).to_set() == string_views(a@).to_set() + string_views(b@).to_set(),
{
    let mut r: Vec<String> = Vec::new();
    let mut k: usize = 0;
    assert(string_views(r@).to_set() =~= string_views(a@).take(0).to_set());
    while k < a.len()
        invariant
            k <= a@.len(),
            strictly_sorted(string_views(r@)),
            string_views(r@).to_set() == string_views(a@).take(k as int).to_set(),
        decreases a.len() - k,
    {
        insert_sorted(&mut r, a[k].clone());
        proof {
            assert(string_views(a@).take(k + 1) =~= string_views(a@).take(k as int).push(a@[k as int]@));
            string_views(a@).take(k as int).lemma_push_to_set_commute(a@[k as int]@);
        }
        k += 1;
    }
    assert(string_views(a@).take(a@.len() as int) =~= string_views(a@));
    let mut k: usize = 0;
    assert(string_views(b@).take(0).to_set() =~= Set::<Seq<char>>::empty());
    while k < b.len()
        invariant
            k <= b@.len(),
            strictly_sorted(string_views(r@)),
            string_views(r@).to_set() == string_views(a@).to_set() + string_views(b@).take(k as int).to_set(),
        decreases b.len() - k,
    {
        insert_sorted(&mut r, b[k].clone());
        proof {
            assert(string_views(b@).take(k + 1) =~= string_views(b@).take(k as int).push(b@[k as int]@));
            string_views(b@).take(k as int).lemma_push_to_set_commute(b@[k as int]@);
        }
        k += 1;
    }
    assert(string_views(b@).take(b@.len() as int) =~= string_views(b@));
    r
}

/// The union does not depend on the order of its arguments.
pub proof fn law_union_commutes(a: Seq<Seq<char>>, b: Seq<Seq<char>>, ab: Seq<Seq<char>>, ba: Seq<Seq<char>>)
    requires
        strictly_sorted(ab),
        ab.to_set() == a.to_set() + b.to_set(),
        strictly_sorted(ba),
        ba.to_set() == b.to_set() + a.to_set(),
    ensures
        ab == ba,
{
    assert(a.to_set() + b.to_set() =~= b.to_set() + a.to_set());
    lemma_sorted_unique(ab, ba);
}

/// The union of a sorted, duplicate-free list with nothing is that list.
pub proof fn law_union_keeps_sorted_list(a: Seq<Seq<char>>, r: Seq<Seq<char>>)
    requires
        strictly_sorted(a),
        strictly_sorted(r),
        r.to_set() == a.to_set() + Set::<Seq<char>>::empty(),
    ensures
        r == a,
{
    assert(a.to_set() + Set::<Seq<char>>::empty() =~= a.to_set());
    lemma_sorted_unique(r, a);
}

} // verus!
