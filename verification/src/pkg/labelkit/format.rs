//! Field formatting for label rendering.

use vstd::prelude::*;
use crate::number::{digits_of, push_padded, zero_pad};
use crate::text::{ascii_lower, ascii_upper, chars_of, join, join_strings, push_char, string_views, to_ascii_lower, to_ascii_upper};

verus! {

/// First char upper-cased, the rest lower-cased, by ASCII case mapping only;
/// other chars are left as they are.
pub open spec fn title_case_spec(s: Seq<char>) -> Seq<char> {
    Seq::new(s.len(), |i: int| if i == 0 { ascii_upper(s[i]) } else { ascii_lower(s[i]) })
}

/// The allergens, title-cased and separated by `", "`.
pub open spec fn format_allergens_spec(allergens: Seq<Seq<char>>) -> Seq<char> {
    join(allergens.map_values(|a: Seq<char>| title_case_spec(a)), ", "@)
}

/// Title-cases a string: first char upper-case, the rest lower-case (ASCII
/// case mapping; other chars unchanged).
pub fn title_case(s: &str) -> (r: String)
    ensures
        r@ == title_case_spec(s@),
{
    let v = chars_of(s);
    let mut out = String::new();
    let mut i: usize = 0;
    while i < v.len()
        invariant
            i <= v@.len(),
            v@ == s@,
            out@ == title_case_spec(s@).take(i as int),
        decreases v.len() - i,
    {
        let c = if i == 0 { to_ascii_upper(v[i]) } else { to_ascii_lower(v[i]) };
        push_char(&mut out, c);
        assert(title_case_spec(s@).take(i + 1) =~= title_case_spec(s@).take(i as int).push(c));
        i += 1;
    }
    assert(title_case_spec(s@).take(v.len() as int) =~= title_case_spec(s@));
    out
}

/// A comma-separated, title-cased list of allergens.
pub fn format_allergens(allergens: &[String]) -> (r: String)
    ensures
        r@ == format_allergens_spec(string_views(allergens@)),
{
    let mut parts: Vec<String> = Vec::new();
    let mut i: usize = 0;
    while i < allergens.len()
        invariant
            i <= allergens@.len(),
            string_views(parts@) == string_views(allergens@).take(i as int).map_values(
                |a: Seq<char>| title_case_spec(a),
            ),
        decreases allergens.len() - i,
    {
        let t = title_case(allergens[i].as_str());
        let ghost before = string_views(parts@);
        parts.push(t);
        proof {
            let sv = string_views(allergens@);
            assert(sv.take(i + 1) =~= sv.take(i as int).push(allergens@[i as int]@));
            assert(string_views(parts@) =~= before.push(title_case_spec(allergens@[i as int]@)));
        }
        assert(string_views(parts@) =~= string_views(allergens@).take(i + 1).map_values(
            |a: Seq<char>| title_case_spec(a),
        ));
        i += 1;
    }
    assert(string_views(allergens@).take(allergens@.len() as int) =~= string_views(allergens@));
    join_strings(&parts, ", ")
}


/// A year as `%Y` writes it: zero-padded to four digits, with a sign before
/// a year outside 0 to 9999 (the sign counting towards the four).
pub open spec fn year_text(y: int) -> Seq<char> {
    if y < 0 {
        seq!['-'] + zero_pad(digits_of((-y) as nat), 4)
    } else if y > 9999 {
        seq!['+'] + digits_of(y as nat)
    } else {
        zero_pad(digits_of(y as nat), 4)
    }
}

/// A best-before date in UK order, `dd/mm/yyyy`.
pub open spec fn best_before_spec(year: int, month: nat, day: nat) -> Seq<char> {
    zero_pad(digits_of(day), 2) + "/"@ + zero_pad(digits_of(month), 2) + "/"@ + year_text(year)
}

/// Formats a calendar date as UK day/month/year, e.g. `02/01/2006`.
pub fn format_best_before(year: i32, month: u32, day: u32) -> (s: String)
    requires
        1 <= month <= 12,
        1 <= day <= 31,
    ensures
        s@ == best_before_spec(year as int, month as nat, day as nat),
{
    let mut s = String::new();
    push_padded(&mut s, day as u64, 2);
    push_char(&mut s, '/');
    push_padded(&mut s, month as u64, 2);
    push_char(&mut s, '/');
    let ghost before = s@;
    proof {
        reveal_strlit("/");
        assert(before =~= zero_pad(digits_of(day as nat), 2) + "/"@ + zero_pad(digits_of(month as nat), 2) + "/"@);
    }
    if year < 0 {
        push_char(&mut s, '-');
        let m: u64 = (-(year as i64)) as u64;
        assert(m as nat == (-year) as nat);
        push_padded(&mut s, m, 4);
        assert(s@ =~= before + year_text(year as int));
    } else if year > 9999 {
        push_char(&mut s, '+');
        push_padded(&mut s, year as u64, 0);
        proof {
            assert(zero_pad(digits_of(year as nat), 0) == digits_of(year as nat));
        }
        assert(s@ =~= before + year_text(year as int));
    } else {
        push_padded(&mut s, year as u64, 4);
        assert(s@ =~= before + year_text(year as int));
    }
    assert(s@ =~= best_before_spec(year as int, month as nat, day as nat));
    s
}

} // verus!
