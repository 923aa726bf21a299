//! Format checks of the three fiscal fields, run on the raw URL text.
//!
//! Each field is described by a pattern: a fixed key such as `iic=` followed by
//! a run of character classes. A field is present when its pattern occurs
//! anywhere in the text, so it does not matter whether the field sits in the
//! query string or in a query-like fragment.
use vstd::prelude::*;
use crate::text::chars_of;

verus! {

/// One position of a field pattern.
#[derive(Clone, Copy, Debug, PartialEq, Eq, Structural)]
pub enum CharClass {
    /// Exactly this character.
    Lit(char),
    /// An ASCII decimal digit.
    Digit,
    /// An ASCII hexadecimal digit, either case.
    Hex,
}

/// The field whose format check failed.
#[derive(Clone, Copy, Debug, PartialEq, Eq, Structural)]
pub enum FieldError {
    IicInvalid,
    TinInvalid,
    CrtdInvalid,
}

pub open spec fn is_digit(c: char) -> bool {
    '0' <= c <= '9'
}

pub open spec fn is_hex(c: char) -> bool {
    is_digit(c) || ('a' <= c <= 'f') || ('A' <= c <= 'F')
}

pub open spec fn accepts(k: CharClass, c: char) -> bool {
    match k {
        CharClass::Lit(l) => c == l,
        CharClass::Digit => is_digit(c),
        CharClass::Hex => is_hex(c),
    }
}

/// `pat` matches `s` starting at position `i`.
pub open spec fn matches_at(s: Seq<char>, pat: Seq<CharClass>, i: int) -> bool {
    &&& 0 <= i
    &&& i + pat.len() <= s.len()
    &&& forall|j: int| 0 <= j < pat.len() ==> accepts(#[trigger] pat[j], s[i + j])
}

/// `pat` matches somewhere in `s`.
pub open spec fn occurs(s: Seq<char>, pat: Seq<CharClass>) -> bool {
    exists|i: int| matches_at(s, pat, i)
}

pub open spec fn digits(n: nat) -> Seq<CharClass> {
    Seq::new(n, |_i: int| CharClass::Digit)
}

/// `iic=` and 32 hexadecimal digits.
pub open spec fn iic_pattern() -> Seq<CharClass> {
    seq![CharClass::Lit('i'), CharClass::Lit('i'), CharClass::Lit('c'), CharClass::Lit('=')] + Seq::new(32, |_i: int| CharClass::Hex)
}

/// `tin=` and 8 decimal digits.
pub open spec fn tin_pattern() -> Seq<CharClass> {
    seq![CharClass::Lit('t'), CharClass::Lit('i'), CharClass::Lit('n'), CharClass::Lit('=')] + digits(8)
}

/// `YYYY-MM-DDThh:mm:ss`, the part of a creation timestamp that is always
/// present.
pub open spec fn timestamp_pattern() -> Seq<CharClass> {
    digits(4) + seq![CharClass::Lit('-')] + digits(2) + seq![CharClass::Lit('-')] + digits(2) + seq![CharClass::Lit('T')]
        + digits(2) + seq![CharClass::Lit(':')] + digits(2) + seq![CharClass::Lit(':')] + digits(2)
}

/// `crtd=` and a timestamp. A fractional second and a `Z` or `±hh:mm` offset
/// may follow; being optional, they do not decide whether the field is present.
pub open spec fn crtd_pattern() -> Seq<CharClass> {
    seq![
        CharClass::Lit('c'),
        CharClass::Lit('r'),
        CharClass::Lit('t'),
        CharClass::Lit('d'),
        CharClass::Lit('='),
    ] + timestamp_pattern()
}

/// A well-formed invoice identification code: 32 hexadecimal digits.
pub open spec fn valid_iic(v: Seq<char>) -> bool {
    v.len() == 32 && forall|i: int| 0 <= i < 32 ==> is_hex(#[trigger] v[i])
}

/// A well-formed tax number: 8 decimal digits.
pub open spec fn valid_tin(v: Seq<char>) -> bool {
    v.len() == 8 && forall|i: int| 0 <= i < 8 ==> is_digit(#[trigger] v[i])
}

/// An optional fractional second: empty, or `.` and any number of digits.
pub open spec fn is_fraction(f: Seq<char>) -> bool {
    f.len() == 0 || (f[0] == '.' && forall|i: int| 1 <= i < f.len() ==> is_digit(#[trigger] f[i]))
}

/// An optional offset: empty, `Z`, or a sign and `hh:mm`.
pub open spec fn is_offset(o: Seq<char>) -> bool {
    ||| o.len() == 0
    ||| o == seq!['Z']
    ||| (o.len() == 6 && (o[0] == '+' || o[0] == '-') && is_digit(o[1]) && is_digit(o[2]) && o[3]
        == ':' && is_digit(o[4]) && is_digit(o[5]))
}

/// A well-formed creation timestamp: `YYYY-MM-DDThh:mm:ss`, an optional
/// fractional second and an optional offset.
pub open spec fn valid_crtd(v: Seq<char>) -> bool {
    &&& v.len() >= 19
    &&& matches_at(v, timestamp_pattern(), 0)
    &&& exists|k: int| 19 <= k <= v.len() && is_fraction(v.subrange(19, k)) && is_offset(v.skip(k))
}

/// The result of the three format checks on `s`, in the order iic, crtd, tin.
pub open spec fn fields_result(s: Seq<char>) -> Result<(), FieldError> {
    if !occurs(s, iic_pattern()) {
        Err(FieldError::IicInvalid)
    } else if !occurs(s, crtd_pattern()) {
        Err(FieldError::CrtdInvalid)
    } else if !occurs(s, tin_pattern()) {
        Err(FieldError::TinInvalid)
    } else {
        Ok(())
    }
}

fn accepts_char(k: CharClass, c: char) -> (r: bool)
    ensures
        r == accepts(k, c),
{
    match k {
        CharClass::Lit(l) => c == l,
        CharClass::Digit => '0' <= c && c <= '9',
        CharClass::Hex => ('0' <= c && c <= '9') || ('a' <= c && c <= 'f') || ('A' <= c
            && c <= 'F'),
    }
}

fn matches_here(s: &Vec<char>, pat: &Vec<CharClass>, i: usize) -> (r: bool)
    requires
        i + pat.len() <= s.len(),
    ensures
        r == matches_at(s@, pat@, i as int),
{
    let mut j: usize = 0;
    while j < pat.len()
        invariant
            j <= pat.len(),
            i + pat.len() <= s.len(),
            forall|k: int| 0 <= k < j ==> accepts(#[trigger] pat@[k], s@[i + k]),
        decreases pat.len() - j,
    {
        if !accepts_char(pat[j], s[i + j]) {
            return false;
        }
        j = j + 1;
    }
    true
}

/// Whether `pat` occurs anywhere in `s`.
pub fn find_pattern(s: &Vec<char>, pat: &Vec<CharClass>) -> (r: bool)
    ensures
        r == occurs(s@, pat@),
{
    if pat.len() > s.len() {
        assert(forall|k: int| !matches_at(s@, pat@, k));
        return false;
    }
    let last: usize = s.len() - pat.len();
    let mut i: usize = 0;
    loop
        invariant
            i <= last,
            last + pat.len() == s.len(),
            forall|k: int| 0 <= k < i ==> !matches_at(s@, pat@, k),
        decreases last - i,
    {
        if matches_here(s, pat, i) {
            return true;
        }
        if i == last {
            assert(forall|k: int| !matches_at(s@, pat@, k));
            return false;
        }
        i = i + 1;
    }
}

fn push_class(v: &mut Vec<CharClass>, k: CharClass, n: usize)
    ensures
        final(v)@ == old(v)@ + Seq::new(n as nat, |_i: int| k),
{
    let mut i: usize = 0;
    while i < n
        invariant
            i <= n,
            v@ == old(v)@ + Seq::new(i as nat, |_i: int| k),
        decreases n - i,
    {
        v.push(k);
        i = i + 1;
        assert(v@ =~= old(v)@ + Seq::new(i as nat, |_i: int| k));
    }
}

fn push_lit(v: &mut Vec<CharClass>, c: char)
    ensures
        final(v)@ == old(v)@ + seq![CharClass::Lit(c)],
{
    v.push(CharClass::Lit(c));
    assert(v@ =~= old(v)@ + seq![CharClass::Lit(c)]);
}

/// The pattern of the invoice identification code.
pub fn iic_pattern_exec() -> (r: Vec<CharClass>)
    ensures
        r@ == iic_pattern(),
{
    let mut v: Vec<CharClass> = Vec::new();
    push_lit(&mut v, 'i');
    push_lit(&mut v, 'i');
    push_lit(&mut v, 'c');
    push_lit(&mut v, '=');
    push_class(&mut v, CharClass::Hex, 32);
    assert(v@ =~= iic_pattern());
    v
}

/// The pattern of the issuer's tax number.
pub fn tin_pattern_exec() -> (r: Vec<CharClass>)
    ensures
        r@ == tin_pattern(),
{
    let mut v: Vec<CharClass> = Vec::new();
    push_lit(&mut v, 't');
    push_lit(&mut v, 'i');
    push_lit(&mut v, 'n');
    push_lit(&mut v, '=');
    push_class(&mut v, CharClass::Digit, 8);
    assert(v@ =~= tin_pattern());
    v
}

/// The pattern of the creation timestamp.
pub fn crtd_pattern_exec() -> (r: Vec<CharClass>)
    ensures
        r@ == crtd_pattern(),
{
    let mut v: Vec<CharClass> = Vec::new();
    push_lit(&mut v, 'c');
    push_lit(&mut v, 'r');
    push_lit(&mut v, 't');
    push_lit(&mut v, 'd');
    push_lit(&mut v, '=');
    push_class(&mut v, CharClass::Digit, 4);
    push_lit(&mut v, '-');
    push_class(&mut v, CharClass::Digit, 2);
    push_lit(&mut v, '-');
    push_class(&mut v, CharClass::Digit, 2);
    push_lit(&mut v, 'T');
    push_class(&mut v, CharClass::Digit, 2);
    push_lit(&mut v, ':');
    push_class(&mut v, CharClass::Digit, 2);
    push_lit(&mut v, ':');
    push_class(&mut v, CharClass::Digit, 2);
    assert(v@ =~= crtd_pattern());
    v
}

/// Checks the three fields in `decoded`, a percent-decoded URL: the first of
/// iic, crtd and tin whose pattern occurs nowhere in the text is reported.
pub fn validate_fields(decoded: &str) -> (r: Result<(), FieldError>)
    ensures
        r == fields_result(decoded@),
{
    let s = chars_of(decoded);
    if !find_pattern(&s, &iic_pattern_exec()) {
        return Err(FieldError::IicInvalid);
    }
    if !find_pattern(&s, &crtd_pattern_exec()) {
        return Err(FieldError::CrtdInvalid);
    }
    if !find_pattern(&s, &tin_pattern_exec()) {
        return Err(FieldError::TinInvalid);
    }
    Ok(())
}

} // verus!
