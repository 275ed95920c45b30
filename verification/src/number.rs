//! Decimal integer and boolean parsing with the semantics (and error
//! messages) of the standard `FromStr` impls: an optional `+` (or `-` for
//! signed types), then ASCII digits; the first bad digit or the first
//! overflow, scanning left to right, decides the error.

use vstd::prelude::*;

use crate::text::chars_of;

verus! {

/// Why a string is not an integer of the target type.
#[derive(PartialEq, Eq, Structural, Clone, Copy, Debug)]
pub enum IntError {
    Empty,
    InvalidDigit,
    PosOverflow,
    NegOverflow,
}

pub open spec fn is_digit(c: char) -> bool {
    '0' <= c && c <= '9'
}

pub open spec fn digit_value(c: char) -> int {
    (c as int) - ('0' as int)
}

/// Digits accumulated left to right into a value in `[min, max]`: positive
/// values grow by adding digits, negative ones by subtracting them.
pub open spec fn accumulate(digits: Seq<char>, neg: bool, min: int, max: int) -> Result<int, IntError>
    decreases digits.len(),
{
    if digits.len() == 0 {
        Ok(0)
    } else {
        match accumulate(digits.drop_last(), neg, min, max) {
            Err(e) => Err(e),
            Ok(v) => {
                let c = digits.last();
                if !is_digit(c) {
                    Err(IntError::InvalidDigit)
                } else if neg {
                    let w = v * 10 - digit_value(c);
                    if w < min {
                        Err(IntError::NegOverflow)
                    } else {
                        Ok(w)
                    }
                } else {
                    let w = v * 10 + digit_value(c);
                    if w > max {
                        Err(IntError::PosOverflow)
                    } else {
                        Ok(w)
                    }
                }
            },
        }
    }
}

/// The integer `s` denotes in `[min, max]`; `signed` says whether a leading
/// `-` is allowed.
pub open spec fn parse_int_spec(s: Seq<char>, signed: bool, min: int, max: int) -> Result<int, IntError> {
    if s.len() == 0 {
        Err(IntError::Empty)
    } else if (s[0] == '+' || s[0] == '-') && s.len() == 1 {
        Err(IntError::InvalidDigit)
    } else if s[0] == '+' {
        accumulate(s.drop_first(), false, min, max)
    } else if s[0] == '-' && signed {
        accumulate(s.drop_first(), true, min, max)
    } else {
        accumulate(s, false, min, max)
    }
}

/// The message an integer error displays.
pub open spec fn int_error_message(e: IntError) -> Seq<char> {
    match e {
        IntError::Empty => "cannot parse integer from empty string"@,
        IntError::InvalidDigit => "invalid digit found in string"@,
        IntError::PosOverflow => "number too large to fit in target type"@,
        IntError::NegOverflow => "number too small to fit in target type"@,
    }
}

/// The message a boolean parse error displays.
pub open spec fn bool_error_message() -> Seq<char> {
    "provided string was not `true` or `false`"@
}

/// The boolean `s` denotes: exactly `true` or `false`.
pub open spec fn parse_bool_spec(s: Seq<char>) -> Option<bool> {
    if s == "true"@ {
        Some(true)
    } else if s == "false"@ {
        Some(false)
    } else {
        None
    }
}

proof fn lemma_accumulate_bounds(digits: Seq<char>, neg: bool, min: int, max: int)
    requires
        min <= 0 <= max,
    ensures
        accumulate(digits, neg, min, max) matches Ok(v) ==> min <= v <= max && (neg ==> v <= 0)
            && (!neg ==> v >= 0),
    decreases digits.len(),
{
    if digits.len() > 0 {
        lemma_accumulate_bounds(digits.drop_last(), neg, min, max);
    }
}

/// Accumulates `digits[from..]` into `[min, max]`.
fn accumulate_exec(v: &Vec<char>, from: usize, neg: bool, min: i128, max: i128) -> (r: Result<i128, IntError>)
    requires
        from <= v.len(),
        i64::MIN <= min <= 0 <= max <= u64::MAX,
    ensures
        match r {
            Ok(x) => accumulate(v@.skip(from as int), neg, min as int, max as int) == Ok::<int, IntError>(x as int),
            Err(e) => accumulate(v@.skip(from as int), neg, min as int, max as int) == Err::<int, IntError>(e),
        },
{
    let ghost d = v@.skip(from as int);
    let mut acc: i128 = 0;
    let mut k: usize = from;
    assert(d.take(0) =~= Seq::<char>::empty());
    while k < v.len()
        invariant
            from <= k <= v.len(),
            d == v@.skip(from as int),
            i64::MIN <= min <= 0 <= max <= u64::MAX,
            min <= acc <= max,
            neg ==> acc <= 0,
            !neg ==> acc >= 0,
            accumulate(d.take(k - from), neg, min as int, max as int) == Ok::<int, IntError>(acc as int),
        decreases v.len() - k,
    {
        let c = v[k];
        proof {
            let t = d.take(k - from + 1);
            assert(t.drop_last() =~= d.take(k - from));
            assert(t.last() == c);
        }
        if !('0' <= c && c <= '9') {
            proof {
                lemma_accumulate_extends(d, (k - from + 1) as int, neg, min as int, max as int, IntError::InvalidDigit);
            }
            return Err(IntError::InvalidDigit);
        }
        let dv = ((c as u32) - ('0' as u32)) as i128;
        if neg {
            let w = acc * 10 - dv;
            if w < min {
                proof {
                    lemma_accumulate_extends(d, (k - from + 1) as int, neg, min as int, max as int, IntError::NegOverflow);
                }
                return Err(IntError::NegOverflow);
            }
            acc = w;
        } else {
            let w = acc * 10 + dv;
            if w > max {
                proof {
                    lemma_accumulate_extends(d, (k - from + 1) as int, neg, min as int, max as int, IntError::PosOverflow);
                }
                return Err(IntError::PosOverflow);
            }
            acc = w;
        }
        k += 1;
    }
    assert(d.take(k - from) =~= d);
    Ok(acc)
}

proof fn lemma_accumulate_extends(d: Seq<char>, k: int, neg: bool, min: int, max: int, e: IntError)
    requires
        0 <= k <= d.len(),
        accumulate(d.take(k), neg, min, max) == Err::<int, IntError>(e),
    ensures
        accumulate(d, neg, min, max) == Err::<int, IntError>(e),
    decreases d.len() - k,
{
    if k == d.len() {
        assert(d.take(k) =~= d);
    } else {
        let t = d.take(k + 1);
        assert(t.drop_last() =~= d.take(k));
        lemma_accumulate_extends(d, k + 1, neg, min, max, e);
    }
}

/// Parses `s` as a decimal integer in `[min, max]`.
pub fn parse_int(s: &str, signed: bool, min: i128, max: i128) -> (r: Result<i128, IntError>)
    requires
        i64::MIN <= min <= 0 <= max <= u64::MAX,
    ensures
        match r {
            Ok(x) => parse_int_spec(s@, signed, min as int, max as int) == Ok::<int, IntError>(x as int) && min <= x <= max,
            Err(e) => parse_int_spec(s@, signed, min as int, max as int) == Err::<int, IntError>(e),
        },
{
    let v = chars_of(s);
    if v.len() == 0 {
        return Err(IntError::Empty);
    }
    let c0 = v[0];
    let r = if (c0 == '+' || c0 == '-') && v.len() == 1 {
        Err(IntError::InvalidDigit)
    } else if c0 == '+' {
        assert(v@.skip(1) =~= v@.drop_first());
        accumulate_exec(&v, 1, false, min, max)
    } else if c0 == '-' && signed {
        assert(v@.skip(1) =~= v@.drop_first());
        accumulate_exec(&v, 1, true, min, max)
    } else {
        assert(v@.skip(0) =~= v@);
        accumulate_exec(&v, 0, false, min, max)
    };
    proof {
        lemma_accumulate_bounds(v@.drop_first(), false, min as int, max as int);
        lemma_accumulate_bounds(v@.drop_first(), true, min as int, max as int);
        lemma_accumulate_bounds(v@, false, min as int, max as int);
    }
    r
}

/// Parses a `u16`.
pub fn parse_u16(s: &str) -> (r: Result<u16, IntError>)
    ensures
        match r {
            Ok(x) => parse_int_spec(s@, false, 0, u16::MAX as int) == Ok::<int, IntError>(x as int),
            Err(e) => parse_int_spec(s@, false, 0, u16::MAX as int) == Err::<int, IntError>(e),
        },
{
    match parse_int(s, false, 0, u16::MAX as i128) {
        Ok(x) => Ok(x as u16),
        Err(e) => Err(e),
    }
}

/// Parses a `u32`.
pub fn parse_u32(s: &str) -> (r: Result<u32, IntError>)
    ensures
        match r {
            Ok(x) => parse_int_spec(s@, false, 0, u32::MAX as int) == Ok::<int, IntError>(x as int),
            Err(e) => parse_int_spec(s@, false, 0, u32::MAX as int) == Err::<int, IntError>(e),
        },
{
    match parse_int(s, false, 0, u32::MAX as i128) {
        Ok(x) => Ok(x as u32),
        Err(e) => Err(e),
    }
}

/// Parses an `i64`.
pub fn parse_i64(s: &str) -> (r: Result<i64, IntError>)
    ensures
        match r {
            Ok(x) => parse_int_spec(s@, true, i64::MIN as int, i64::MAX as int) == Ok::<int, IntError>(x as int),
            Err(e) => parse_int_spec(s@, true, i64::MIN as int, i64::MAX as int) == Err::<int, IntError>(e),
        },
{
    match parse_int(s, true, i64::MIN as i128, i64::MAX as i128) {
        Ok(x) => Ok(x as i64),
        Err(e) => Err(e),
    }
}

/// Parses a boolean: exactly `true` or `false`.
pub fn parse_bool(s: &str) -> (r: Option<bool>)
    ensures
        r == parse_bool_spec(s@),
{
    if crate::text::str_eq(s, "true") {
        Some(true)
    } else if crate::text::str_eq(s, "false") {
        Some(false)
    } else {
        None
    }
}

/// The message of an integer parse error.
pub fn int_error_text(e: IntError) -> (s: &'static str)
    ensures
        s@ == int_error_message(e),
{
    match e {
        IntError::Empty => "cannot parse integer from empty string",
        IntError::InvalidDigit => "invalid digit found in string",
        IntError::PosOverflow => "number too large to fit in target type",
        IntError::NegOverflow => "number too small to fit in target type",
    }
}


/// The ASCII digit for `d` in `0..10`.
pub open spec fn digit_char(d: int) -> char {
    if d == 0 { '0' }
    else if d == 1 { '1' }
    else if d == 2 { '2' }
    else if d == 3 { '3' }
    else if d == 4 { '4' }
    else if d == 5 { '5' }
    else if d == 6 { '6' }
    else if d == 7 { '7' }
    else if d == 8 { '8' }
    else { '9' }
}

/// The decimal digits of `n`, most significant first, without leading zeros.
pub open spec fn digits_of(n: nat) -> Seq<char>
    decreases n,
{
    if n < 10 {
        seq![digit_char(n as int)]
    } else {
        digits_of(n / 10).push(digit_char((n % 10) as int))
    }
}

/// How `Display` writes an integer: an optional `-`, then its digits.
pub open spec fn decimal_text(n: int) -> Seq<char> {
    if n < 0 {
        seq!['-'] + digits_of((-n) as nat)
    } else {
        digits_of(n as nat)
    }
}

fn digit(d: u64) -> (c: char)
    requires
        d < 10,
    ensures
        c == digit_char(d as int),
{
    match d {
        0 => '0',
        1 => '1',
        2 => '2',
        3 => '3',
        4 => '4',
        5 => '5',
        6 => '6',
        7 => '7',
        8 => '8',
        _ => '9',
    }
}

fn push_digits(s: &mut String, m: u64)
    ensures
        final(s)@ == old(s)@ + digits_of(m as nat),
    decreases m,
{
    if m >= 10 {
        push_digits(s, m / 10);
    }
    crate::text::push_char(s, digit(m % 10));
}

/// The decimal text of `n`, as `Display` writes it.
pub fn format_int(n: i64) -> (s: String)
    ensures
        s@ == decimal_text(n as int),
{
    let mut s = String::new();
    if n < 0 {
        crate::text::push_char(&mut s, '-');
        let m: u64 = (-(n as i128)) as u64;
        push_digits(&mut s, m);
    } else {
        push_digits(&mut s, n as u64);
    }
    s
}

/// `digits` left-padded with `0` to `width` chars.
pub open spec fn zero_pad(digits: Seq<char>, width: int) -> Seq<char> {
    if digits.len() >= width {
        digits
    } else {
        Seq::new((width - digits.len()) as nat, |i: int| '0') + digits
    }
}

/// Appends `m` zero-padded to `width` chars.
pub(crate) fn push_padded(s: &mut String, m: u64, width: usize)
    requires
        m <= i64::MAX,
    ensures
        final(s)@ == old(s)@ + zero_pad(digits_of(m as nat), width as int),
{
    let d = format_int(m as i64);
    let n = crate::text::chars_of(d.as_str()).len();
    let pad: usize = if n < width { width - n } else { 0 };
    let ghost start = s@;
    let mut k: usize = 0;
    while k < pad
        invariant
            k <= pad,
            s@ == start + Seq::new(k as nat, |i: int| '0'),
        decreases pad - k,
    {
        crate::text::push_char(s, '0');
        assert(Seq::new((k + 1) as nat, |i: int| '0') =~= Seq::new(k as nat, |i: int| '0').push('0'));
        k += 1;
    }
    s.append(d.as_str());
    proof {
        let digits = digits_of(m as nat);
        assert(d@ == digits);
        if n < width {
            assert(s@ =~= start + (Seq::new((width - digits.len()) as nat, |i: int| '0') + digits));
        } else {
            assert(Seq::new(0, |i: int| '0') =~= Seq::<char>::empty());
            assert(s@ =~= start + digits);
        }
    }
}

} // verus!
