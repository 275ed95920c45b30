//! Character-level text helpers shared by the parsers and formatters: trimming
//! (by the Unicode `White_Space` property, as `str::trim` does), splitting on a
//! separator, joining, ASCII case mapping, and string building.

use vstd::prelude::*;

verus! {

/// Whether `c` has the Unicode `White_Space` property, which is what
/// `char::is_whitespace` (and so `str::trim`) goes by.
pub open spec fn is_ws(c: char) -> bool {
    let u = c as u32;
    ||| (0x09 <= u && u <= 0x0d)
    ||| u == 0x20
    ||| u == 0x85
    ||| u == 0xa0
    ||| u == 0x1680
    ||| (0x2000 <= u && u <= 0x200a)
    ||| u == 0x2028
    ||| u == 0x2029
    ||| u == 0x202f
    ||| u == 0x205f
    ||| u == 0x3000
}

/// `s` without its leading whitespace.
pub open spec fn trim_start(s: Seq<char>) -> Seq<char>
    decreases s.len(),
{
    if s.len() > 0 && is_ws(s[0]) {
        trim_start(s.drop_first())
    } else {
        s
    }
}

/// `s` without its trailing whitespace.
pub open spec fn trim_end(s: Seq<char>) -> Seq<char>
    decreases s.len(),
{
    if s.len() > 0 && is_ws(s.last()) {
        trim_end(s.drop_last())
    } else {
        s
    }
}

/// `s` without leading or trailing whitespace.
pub open spec fn trim(s: Seq<char>) -> Seq<char> {
    trim_end(trim_start(s))
}

/// The pieces of `s` between occurrences of `sep`, as `str::split` yields them:
/// always at least one piece, empty pieces included.
pub open spec fn split_on(s: Seq<char>, sep: char) -> Seq<Seq<char>>
    decreases s.len(),
{
    if s.len() == 0 {
        seq![Seq::<char>::empty()]
    } else {
        let prev = split_on(s.drop_last(), sep);
        if s.last() == sep {
            prev.push(Seq::<char>::empty())
        } else {
            prev.update(prev.len() - 1, prev.last().push(s.last()))
        }
    }
}

/// The pieces joined with `sep` between consecutive pieces.
pub open spec fn join(pieces: Seq<Seq<char>>, sep: Seq<char>) -> Seq<char>
    decreases pieces.len(),
{
    if pieces.len() == 0 {
        Seq::<char>::empty()
    } else if pieces.len() == 1 {
        pieces[0]
    } else {
        join(pieces.drop_last(), sep) + sep + pieces.last()
    }
}

/// ASCII upper-case mapping of one char; other chars are unchanged.
pub open spec fn ascii_upper(c: char) -> char {
    if 'a' <= c && c <= 'z' {
        ((c as u32) - 32) as char
    } else {
        c
    }
}

/// ASCII lower-case mapping of one char; other chars are unchanged.
pub open spec fn ascii_lower(c: char) -> char {
    if 'A' <= c && c <= 'Z' {
        ((c as u32) + 32) as char
    } else {
        c
    }
}

pub proof fn lemma_split_nonempty(s: Seq<char>, sep: char)
    ensures
        split_on(s, sep).len() >= 1,
    decreases s.len(),
{
    if s.len() > 0 {
        lemma_split_nonempty(s.drop_last(), sep);
    }
}

/// The first piece of a split is the text up to the first separator: when
/// `s` has no `sep` before `k`, and `k` is its end or a `sep`, the first
/// piece is `s.take(k)` (and there is a second piece exactly when `k` is not
/// the end).
pub proof fn lemma_split_first(s: Seq<char>, sep: char, k: int)
    requires
        0 <= k <= s.len(),
        forall|j: int| 0 <= j < k ==> s[j] != sep,
        k < s.len() ==> s[k] == sep,
    ensures
        split_on(s, sep)[0] == s.take(k),
        k < s.len() ==> split_on(s, sep).len() >= 2,
        k == s.len() ==> split_on(s, sep).len() == 1,
    decreases s.len(),
{
    if s.len() == 0 {
        assert(s.take(0) =~= Seq::<char>::empty());
    } else {
        let d = s.drop_last();
        if k == s.len() {
            lemma_split_first(d, sep, k - 1);
            assert(d.take(k - 1) =~= d);
            assert(s.take(k) =~= d.push(s.last()));
        } else if k == s.len() - 1 {
            lemma_split_first(d, sep, k);
            assert(d.take(k) =~= d);
            assert(s.take(k) =~= d);
        } else {
            lemma_split_first(d, sep, k);
            assert(d.take(k) =~= s.take(k));
        }
    }
}

/// The chars of a string slice.
pub(crate) fn chars_of(s: &str) -> (v: Vec<char>)
    ensures
        v@ == s@,
{
    broadcast use vstd::string::axiom_spec_iter;
    let mut v: Vec<char> = Vec::new();
    for c in it: s.chars()
        invariant
            v@ == it.seq().take(it.index() as int),
            it.seq() == s@,
    {
        v.push(c);
        assert(v@ =~= it.seq().take(it.index() + 1));
    }
    assert(v@ =~= s@);
    v
}

/// Appends one char to a string (`String::push`).
#[verifier::external_body]
pub(crate) fn push_char(s: &mut String, c: char)
    ensures
        final(s)@ == old(s)@.push(c),
{
    s.push(c)
}

/// The text `format!("{:?}", s)` gives for a string: quoted, with escapes.
pub uninterp spec fn debug_text(s: Seq<char>) -> Seq<char>;

/// The text `str::to_lowercase` gives (Unicode lower-case mapping).
pub uninterp spec fn lowercase(s: Seq<char>) -> Seq<char>;

/// The text `str::to_uppercase` gives (Unicode upper-case mapping).
pub uninterp spec fn uppercase(s: Seq<char>) -> Seq<char>;

/// `s` as `Debug` prints a string (`format!("{:?}", s)`): in double quotes,
/// with special chars escaped.
#[verifier::external_body]
pub(crate) fn debug_quote(s: &str) -> (r: String)
    ensures
        r@ == debug_text(s@),
{
    format!("{:?}", s)
}

/// The Unicode lower-case form of `s` (`str::to_lowercase`).
#[verifier::external_body]
pub(crate) fn to_lowercase(s: &str) -> (r: String)
    ensures
        r@ == lowercase(s@),
{
    s.to_lowercase()
}

/// The Unicode upper-case form of `s` (`str::to_uppercase`).
#[verifier::external_body]
pub(crate) fn to_uppercase(s: &str) -> (r: String)
    ensures
        r@ == uppercase(s@),
{
    s.to_uppercase()
}

/// Whether `c` is whitespace (Unicode `White_Space`).
pub fn is_whitespace(c: char) -> (r: bool)
    ensures
        r == is_ws(c),
{
    let u = c as u32;
    (0x09 <= u && u <= 0x0d) || u == 0x20 || u == 0x85 || u == 0xa0 || u == 0x1680 || (0x2000
        <= u && u <= 0x200a) || u == 0x2028 || u == 0x2029 || u == 0x202f || u == 0x205f || u
        == 0x3000
}

/// ASCII upper-case mapping of one char.
pub fn to_ascii_upper(c: char) -> (r: char)
    ensures
        r == ascii_upper(c),
{
    if 'a' <= c && c <= 'z' {
        let b = (c as u8) - 32;
        b as char
    } else {
        c
    }
}

/// ASCII lower-case mapping of one char.
pub fn to_ascii_lower(c: char) -> (r: char)
    ensures
        r == ascii_lower(c),
{
    if 'A' <= c && c <= 'Z' {
        let b = (c as u8) + 32;
        b as char
    } else {
        c
    }
}

/// The chars `v[from..to]` as a new vector.
pub fn sub_chars(v: &Vec<char>, from: usize, to: usize) -> (r: Vec<char>)
    requires
        from <= to <= v.len(),
    ensures
        r@ == v@.subrange(from as int, to as int),
{
    let mut r: Vec<char> = Vec::new();
    let mut k = from;
    while k < to
        invariant
            from <= k <= to <= v.len(),
            r@ == v@.subrange(from as int, k as int),
        decreases to - k,
    {
        r.push(v[k]);
        assert(v@.subrange(from as int, k + 1) =~= v@.subrange(from as int, k as int).push(v@[k as int]));
        k += 1;
    }
    r
}

proof fn lemma_trim_start_skip(s: Seq<char>, i: int)
    requires
        0 <= i < s.len(),
        is_ws(s[i]),
    ensures
        trim_start(s.subrange(i, s.len() as int)) == trim_start(s.subrange(i + 1, s.len() as int)),
{
    let t = s.subrange(i, s.len() as int);
    assert(t.drop_first() =~= s.subrange(i + 1, s.len() as int));
}

proof fn lemma_trim_end_skip(s: Seq<char>, i: int, j: int)
    requires
        0 <= i < j <= s.len(),
        is_ws(s[j - 1]),
    ensures
        trim_end(s.subrange(i, j)) == trim_end(s.subrange(i, j - 1)),
{
    let t = s.subrange(i, j);
    assert(t.drop_last() =~= s.subrange(i, j - 1));
}

/// `v` without leading or trailing whitespace.
pub fn trim_chars(v: &Vec<char>) -> (r: Vec<char>)
    ensures
        r@ == trim(v@),
{
    let n = v.len();
    let mut i: usize = 0;
    assert(v@.subrange(0, n as int) =~= v@);
    while i < n && is_whitespace(v[i])
        invariant
            i <= n == v.len(),
            trim_start(v@) == trim_start(v@.subrange(i as int, n as int)),
        decreases n - i,
    {
        proof {
            lemma_trim_start_skip(v@, i as int);
        }
        i += 1;
    }
    proof {
        let t = v@.subrange(i as int, n as int);
        if t.len() > 0 {
            assert(t[0] == v@[i as int]);
        }
        assert(trim_start(t) == t);
    }
    let mut j: usize = n;
    assert(v@.subrange(i as int, n as int) =~= v@.subrange(i as int, j as int));
    while j > i && is_whitespace(v[j - 1])
        invariant
            i <= j <= n == v.len(),
            trim_start(v@) == v@.subrange(i as int, n as int),
            trim_end(v@.subrange(i as int, n as int)) == trim_end(v@.subrange(i as int, j as int)),
        decreases j - i,
    {
        proof {
            lemma_trim_end_skip(v@, i as int, j as int);
        }
        j -= 1;
    }
    proof {
        let t = v@.subrange(i as int, j as int);
        if t.len() > 0 {
            assert(t.last() == v@[j - 1]);
        }
        assert(trim_end(t) == t);
    }
    sub_chars(v, i, j)
}

/// Whether two char sequences are equal.
pub fn chars_eq(a: &Vec<char>, b: &Vec<char>) -> (r: bool)
    ensures
        r == (a@ == b@),
{
    if a.len() != b.len() {
        return false;
    }
    let mut k: usize = 0;
    while k < a.len()
        invariant
            a.len() == b.len(),
            k <= a.len(),
            forall|x: int| 0 <= x < k ==> a@[x] == b@[x],
        decreases a.len() - k,
    {
        if a[k] != b[k] {
            return false;
        }
        k += 1;
    }
    assert(a@ =~= b@);
    true
}

/// Whether two string slices are equal.
pub fn str_eq(a: &str, b: &str) -> (r: bool)
    ensures
        r == (a@ == b@),
{
    let va = chars_of(a);
    let vb = chars_of(b);
    chars_eq(&va, &vb)
}

/// A string holding exactly the chars of `v`.
pub fn string_of(v: &Vec<char>) -> (s: String)
    ensures
        s@ == v@,
{
    let mut s = String::new();
    let mut k: usize = 0;
    while k < v.len()
        invariant
            k <= v.len(),
            s@ == v@.subrange(0, k as int),
        decreases v.len() - k,
    {
        push_char(&mut s, v[k]);
        assert(v@.subrange(0, k + 1) =~= v@.subrange(0, k as int).push(v@[k as int]));
        k += 1;
    }
    assert(v@.subrange(0, v.len() as int) =~= v@);
    s
}

/// `s` with leading and trailing whitespace removed, as a new string.
pub fn trim_str(s: &str) -> (r: String)
    ensures
        r@ == trim(s@),
{
    let v = chars_of(s);
    let t = trim_chars(&v);
    string_of(&t)
}

/// Whether `needle` occurs among `hay`.
pub fn contains_str(hay: &[&str], needle: &str) -> (r: bool)
    ensures
        r == exists|i: int| 0 <= i < hay@.len() && hay@[i]@ == needle@,
{
    let mut k: usize = 0;
    while k < hay.len()
        invariant
            k <= hay.len(),
            forall|x: int| 0 <= x < k ==> hay@[x]@ != needle@,
        decreases hay.len() - k,
    {
        if str_eq(hay[k], needle) {
            return true;
        }
        k += 1;
    }
    false
}

/// The plain values of a list of char vectors.
pub open spec fn char_views(v: Seq<Vec<char>>) -> Seq<Seq<char>> {
    v.map_values(|p: Vec<char>| p@)
}

/// The plain values of a list of strings.
pub open spec fn string_views(v: Seq<String>) -> Seq<Seq<char>> {
    v.map_values(|p: String| p@)
}

/// The pieces of `v` between occurrences of `sep` (as `str::split` yields them).
pub fn split_chars(v: &Vec<char>, sep: char) -> (r: Vec<Vec<char>>)
    ensures
        char_views(r@) == split_on(v@, sep),
{
    let mut done: Vec<Vec<char>> = Vec::new();
    let mut cur: Vec<char> = Vec::new();
    let mut i: usize = 0;
    assert(v@.take(0) =~= Seq::<char>::empty());
    assert(char_views(done@).push(cur@) =~= split_on(v@.take(0), sep));
    while i < v.len()
        invariant
            i <= v.len(),
            char_views(done@).push(cur@) == split_on(v@.take(i as int), sep),
        decreases v.len() - i,
    {
        let c = v[i];
        proof {
            let t = v@.take(i + 1);
            assert(t.drop_last() =~= v@.take(i as int));
            assert(t.last() == c);
            lemma_split_nonempty(v@.take(i as int), sep);
        }
        let ghost before = char_views(done@);
        if c == sep {
            done.push(cur);
            cur = Vec::new();
            proof {
                assert(char_views(done@) =~= before.push(split_on(v@.take(i as int), sep).last()));
                assert(char_views(done@).push(cur@) =~= split_on(v@.take(i + 1), sep));
            }
        } else {
            let ghost old_cur = cur@;
            cur.push(c);
            proof {
                let prev = split_on(v@.take(i as int), sep);
                assert(prev =~= before.push(old_cur));
                assert(char_views(done@).push(cur@) =~= prev.update(prev.len() - 1, prev.last().push(c)));
            }
        }
        i += 1;
    }
    assert(v@.take(v.len() as int) =~= v@);
    let ghost before = char_views(done@);
    done.push(cur);
    assert(char_views(done@) =~= before.push(cur@));
    done
}

/// The strings joined with `sep` between consecutive ones.
pub fn join_strings(parts: &Vec<String>, sep: &str) -> (r: String)
    ensures
        r@ == join(string_views(parts@), sep@),
{
    let mut r = String::new();
    let mut k: usize = 0;
    assert(string_views(parts@).take(0) =~= Seq::<Seq<char>>::empty());
    while k < parts.len()
        invariant
            k <= parts.len(),
            r@ == join(string_views(parts@).take(k as int), sep@),
        decreases parts.len() - k,
    {
        let ghost pv = string_views(parts@);
        proof {
            let t = pv.take(k + 1);
            assert(t.drop_last() =~= pv.take(k as int));
            assert(t.last() == parts@[k as int]@);
        }
        if k > 0 {
            r.append(sep);
        }
        r.append(parts[k].as_str());
        proof {
            if k == 0 {
                assert(pv.take(1) =~= seq![parts@[0]@]);
                assert(r@ =~= parts@[0]@);
            }
        }
        k += 1;
    }
    assert(string_views(parts@).take(parts.len() as int) =~= string_views(parts@));
    r
}

/// The plain values of a list of string slices.
pub open spec fn str_views(v: Seq<&str>) -> Seq<Seq<char>> {
    v.map_values(|p: &str| p@)
}

/// Whether `name` is one of the strings of `list`.
pub fn list_contains(list: &Vec<&str>, name: &str) -> (r: bool)
    ensures
        r == str_views(list@).contains(name@),
{
    let mut k: usize = 0;
    while k < list.len()
        invariant
            k <= list.len(),
            forall|x: int| 0 <= x < k ==> list@[x]@ != name@,
        decreases list.len() - k,
    {
        if str_eq(list[k], name) {
            assert(str_views(list@)[k as int] == name@);
            return true;
        }
        k += 1;
    }
    assert forall|x: int| 0 <= x < str_views(list@).len() implies str_views(list@)[x] != name@ by {
        assert(str_views(list@)[x] == list@[x]@);
    }
    false
}

/// Whether `name` is one of the char vectors' values in `list` (by chars).
pub fn chars_list_contains(list: &Vec<&str>, name: &Vec<char>) -> (r: bool)
    ensures
        r == str_views(list@).contains(name@),
{
    let s = string_of(name);
    list_contains(list, s.as_str())
}


/// Lexicographic order of texts by char code, which is the order `String`
/// compares in (UTF-8 byte order agrees with code-point order).
pub open spec fn lex_lt(x: Seq<char>, y: Seq<char>) -> bool
    decreases x.len(),
{
    if x.len() == 0 {
        y.len() > 0
    } else if y.len() == 0 {
        false
    } else if x[0] == y[0] {
        lex_lt(x.drop_first(), y.drop_first())
    } else {
        x[0] < y[0]
    }
}

/// No text is below itself.
pub proof fn lemma_lex_irreflexive(x: Seq<char>)
    ensures
        !lex_lt(x, x),
    decreases x.len(),
{
    if x.len() > 0 {
        lemma_lex_irreflexive(x.drop_first());
    }
}

/// Two different texts are ordered one way, and only one way.
pub proof fn lemma_lex_total(x: Seq<char>, y: Seq<char>)
    ensures
        x != y ==> (lex_lt(x, y) || lex_lt(y, x)),
        !(lex_lt(x, y) && lex_lt(y, x)),
    decreases x.len(),
{
    if x.len() > 0 && y.len() > 0 {
        lemma_lex_total(x.drop_first(), y.drop_first());
        if x[0] == y[0] && x != y {
            assert(x =~= seq![x[0]] + x.drop_first());
            assert(y =~= seq![y[0]] + y.drop_first());
        }
    } else if x.len() == 0 && y.len() == 0 {
        assert(x =~= y);
    }
}

/// The order is transitive.
pub proof fn lemma_lex_transitive(x: Seq<char>, y: Seq<char>, z: Seq<char>)
    requires
        lex_lt(x, y),
        lex_lt(y, z),
    ensures
        lex_lt(x, z),
    decreases x.len(),
{
    if x.len() > 0 && y.len() > 0 && z.len() > 0 {
        if x[0] == y[0] && y[0] == z[0] {
            lemma_lex_transitive(x.drop_first(), y.drop_first(), z.drop_first());
        }
    }
}

/// Skipping a common prefix keeps the order.
proof fn lemma_lex_skip(x: Seq<char>, y: Seq<char>, i: int)
    requires
        0 <= i <= x.len(),
        i <= y.len(),
        x.take(i) == y.take(i),
    ensures
        lex_lt(x, y) == lex_lt(x.skip(i), y.skip(i)),
    decreases i,
{
    if i > 0 {
        assert(x[0] == x.take(i)[0]);
        assert(y[0] == y.take(i)[0]);
        assert(x.drop_first().take(i - 1) =~= x.take(i).drop_first());
        assert(y.drop_first().take(i - 1) =~= y.take(i).drop_first());
        lemma_lex_skip(x.drop_first(), y.drop_first(), i - 1);
        assert(x.drop_first().skip(i - 1) =~= x.skip(i));
        assert(y.drop_first().skip(i - 1) =~= y.skip(i));
    } else {
        assert(x.skip(0) =~= x);
        assert(y.skip(0) =~= y);
    }
}

/// Whether `a` comes before `b` in the order `String` compares in.
pub fn str_lt(a: &str, b: &str) -> (r: bool)
    ensures
        r == lex_lt(a@, b@),
{
    let va = chars_of(a);
    let vb = chars_of(b);
    let mut i: usize = 0;
    while i < va.len() && i < vb.len() && va[i] == vb[i]
        invariant
            i <= va.len(),
            i <= vb.len(),
            va@ == a@,
            vb@ == b@,
            va@.take(i as int) == vb@.take(i as int),
        decreases va.len() - i,
    {
        assert(va@.take(i + 1) =~= va@.take(i as int).push(va@[i as int]));
        assert(vb@.take(i + 1) =~= vb@.take(i as int).push(vb@[i as int]));
        i += 1;
    }
    proof {
        lemma_lex_skip(va@, vb@, i as int);
    }
    let ghost x = va@.skip(i as int);
    let ghost y = vb@.skip(i as int);
    if i == va.len() {
        assert(x.len() == 0);
        i < vb.len()
    } else if i == vb.len() {
        assert(y.len() == 0);
        false
    } else {
        assert(x[0] == va@[i as int]);
        assert(y[0] == vb@[i as int]);
        va[i] < vb[i]
    }
}

} // verus!
