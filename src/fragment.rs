//! Extraction of the fiscal parameters from a query-like URL fragment such as
//! `#/verify?iic=...&tin=...&crtd=...`.
use vstd::prelude::*;
use crate::domain::{parse_url, url_parses, url_fragment};
use crate::text::{chars_of, string_of};

verus! {

/// The three values that a check URL attests.
pub struct FiscalParams {
    /// Invoice identification code.
    pub iic: String,
    /// Issuer's tax number.
    pub tin: String,
    /// Creation timestamp, as written in the URL.
    pub crtd: String,
}

/// Why the parameters could not be taken from a URL's fragment.
#[derive(Clone, Copy, Debug, PartialEq, Eq, Structural)]
pub enum ExtractError {
    UrlParseFailed,
    MissingFragment,
    MissingQueryInFragment,
    IicMissing,
    CrtdMissing,
    TinMissing,
}

/// Position of the first `c` in `s`.
pub open spec fn first_index(s: Seq<char>, c: char) -> Option<int>
    decreases s.len(),
{
    if s.len() == 0 {
        None
    } else if s[0] == c {
        Some(0)
    } else {
        match first_index(s.drop_first(), c) {
            Some(k) => Some(k + 1),
            None => None,
        }
    }
}

/// What follows the first `c` in `s`, if `s` holds a `c`.
pub open spec fn after_first(s: Seq<char>, c: char) -> Option<Seq<char>> {
    match first_index(s, c) {
        Some(k) => Some(s.skip(k + 1)),
        None => None,
    }
}

/// `s` cut at every `sep`; an empty `s` gives one empty piece.
pub open spec fn split_on(s: Seq<char>, sep: char) -> Seq<Seq<char>>
    decreases s.len(),
{
    match first_index(s, sep) {
        Some(k) => if 0 <= k < s.len() {
            seq![s.take(k)] + split_on(s.skip(k + 1), sep)
        } else {
            seq![s]
        },
        None => seq![s],
    }
}

/// A `key=value` piece split at its first `=`; a piece without `=` is no pair.
pub open spec fn pair_of(piece: Seq<char>) -> Option<(Seq<char>, Seq<char>)> {
    match first_index(piece, '=') {
        Some(k) => Some((piece.take(k), piece.skip(k + 1))),
        None => None,
    }
}

/// The value of the last pair among `pieces` whose key is `key`.
pub open spec fn lookup_in(pieces: Seq<Seq<char>>, key: Seq<char>) -> Option<Seq<char>>
    decreases pieces.len(),
{
    if pieces.len() == 0 {
        None
    } else {
        match pair_of(pieces.last()) {
            Some(p) => if p.0 == key {
                Some(p.1)
            } else {
                lookup_in(pieces.drop_last(), key)
            },
            None => lookup_in(pieces.drop_last(), key),
        }
    }
}

/// The value of `key` in an `&`-separated query; of repeated keys the last wins.
pub open spec fn param_value(query: Seq<char>, key: Seq<char>) -> Option<Seq<char>> {
    lookup_in(split_on(query, '&'), key)
}

/// `s` with every `+` replaced by a space.
pub open spec fn plus_to_space(s: Seq<char>) -> Seq<char> {
    Seq::new(s.len(), |i: int| if s[i] == '+' { ' ' } else { s[i] })
}

/// The parameters (iic, tin, crtd) in the query `q`, or the first of iic,
/// crtd and tin that is missing.
pub open spec fn query_result(q: Seq<char>) -> Result<(Seq<char>, Seq<char>, Seq<char>), ExtractError> {
    match param_value(q, "iic"@) {
        None => Err(ExtractError::IicMissing),
        Some(iic) => match param_value(q, "crtd"@) {
            None => Err(ExtractError::CrtdMissing),
            Some(crtd) => match param_value(q, "tin"@) {
                None => Err(ExtractError::TinMissing),
                Some(tin) => Ok((iic, tin, plus_to_space(crtd))),
            },
        },
    }
}

/// The parameters taken from the fragment of the URL `s`.
pub open spec fn extract_result(s: Seq<char>) -> Result<(Seq<char>, Seq<char>, Seq<char>), ExtractError> {
    if !url_parses(s) {
        Err(ExtractError::UrlParseFailed)
    } else {
        match url_fragment(s) {
            None => Err(ExtractError::MissingFragment),
            Some(f) => match after_first(f, '?') {
                None => Err(ExtractError::MissingQueryInFragment),
                Some(q) => query_result(q),
            },
        }
    }
}

pub open spec fn params_view(r: Result<FiscalParams, ExtractError>) -> Result<(Seq<char>, Seq<char>, Seq<char>), ExtractError> {
    match r {
        Ok(p) => Ok((p.iic@, p.tin@, p.crtd@)),
        Err(e) => Err(e),
    }
}

proof fn lemma_first_index(s: Seq<char>, c: char, i: int)
    requires
        0 <= i <= s.len(),
        forall|j: int| 0 <= j < i ==> s[j] != c,
    ensures
        i < s.len() && s[i] == c ==> first_index(s, c) == Some(i),
        i == s.len() ==> first_index(s, c) is None,
    decreases i,
{
    if i > 0 {
        lemma_first_index(s.drop_first(), c, i - 1);
    }
}

/// Position of the first `c` in `s[lo..]`, counted from the start of `s`.
fn find_from(s: &Vec<char>, lo: usize, c: char) -> (r: Option<usize>)
    requires
        lo <= s.len(),
    ensures
        match r {
            Some(k) => lo <= k < s.len() && first_index(s@.skip(lo as int), c) == Some(k - lo),
            None => first_index(s@.skip(lo as int), c) is None,
        },
{
    let ghost t = s@.skip(lo as int);
    let mut i: usize = lo;
    while i < s.len()
        invariant
            lo <= i <= s.len(),
            t == s@.skip(lo as int),
            forall|j: int| 0 <= j < i - lo ==> t[j] != c,
        decreases s.len() - i,
    {
        if s[i] == c {
            proof {
                lemma_first_index(t, c, i - lo);
            }
            return Some(i);
        }
        i = i + 1;
    }
    proof {
        lemma_first_index(t, c, i - lo);
    }
    None
}

fn sub_vec(v: &Vec<char>, lo: usize, hi: usize) -> (r: Vec<char>)
    requires
        lo <= hi <= v.len(),
    ensures
        r@ == v@.subrange(lo as int, hi as int),
{
    let mut r: Vec<char> = Vec::new();
    let mut i: usize = lo;
    while i < hi
        invariant
            lo <= i <= hi <= v.len(),
            r@ == v@.subrange(lo as int, i as int),
        decreases hi - i,
    {
        r.push(v[i]);
        i = i + 1;
        assert(r@ =~= v@.subrange(lo as int, i as int));
    }
    r
}

fn prefix_equals(s: &Vec<char>, k: usize, key: &Vec<char>) -> (r: bool)
    requires
        k <= s.len(),
    ensures
        r == (s@.take(k as int) == key@),
{
    if k != key.len() {
        assert(s@.take(k as int).len() != key@.len());
        return false;
    }
    let mut i: usize = 0;
    while i < k
        invariant
            i <= k <= s.len(),
            k == key.len(),
            forall|j: int| 0 <= j < i ==> s@[j] == key@[j],
        decreases k - i,
    {
        if s[i] != key[i] {
            assert(s@.take(k as int)[i as int] != key@[i as int]);
            return false;
        }
        i = i + 1;
    }
    assert(s@.take(k as int) =~= key@);
    true
}

/// The value of `key` in the `&`-separated query `q`; of repeated keys the last
/// wins, and a piece without `=` is skipped.
pub fn query_param(q: &Vec<char>, key: &Vec<char>) -> (r: Option<String>)
    ensures
        match r {
            Some(v) => param_value(q@, key@) == Some(v@),
            None => param_value(q@, key@) is None,
        },
{
    let mut found: Option<String> = None;
    let ghost done: Seq<Seq<char>> = Seq::empty();
    let mut start: usize = 0;
    assert(q@.skip(0) =~= q@);
    loop
        invariant
            start <= q.len(),
            split_on(q@, '&') == done + split_on(q@.skip(start as int), '&'),
            match found {
                Some(v) => lookup_in(done, key@) == Some(v@),
                None => lookup_in(done, key@) is None,
            },
        decreases q.len() - start,
    {
        let ghost rest = q@.skip(start as int);
        let amp = find_from(q, start, '&');
        let end: usize = match amp {
            Some(k) => k,
            None => q.len(),
        };
        let piece = sub_vec(q, start, end);
        proof {
            match amp {
                Some(k) => {
                    assert(rest.take(k - start) =~= piece@);
                    assert(rest.skip(k - start + 1) =~= q@.skip(k + 1));
                },
                None => {
                    assert(rest =~= piece@);
                },
            }
        }
        let ghost before = done;
        proof {
            done = done.push(piece@);
            assert(done.drop_last() =~= before);
        }
        match find_from(&piece, 0, '=') {
            Some(eq) => {
                assert(piece@.skip(0) =~= piece@);
                if prefix_equals(&piece, eq, key) {
                    found = Some(string_of(&piece, eq + 1, piece.len()));
                    assert(piece@.subrange(eq + 1, piece@.len() as int) =~= piece@.skip(eq + 1));
                }
            },
            None => {
                assert(piece@.skip(0) =~= piece@);
            },
        }
        match amp {
            Some(k) => {
                assert(split_on(q@, '&') =~= done + split_on(q@.skip(k + 1), '&'));
                start = k + 1;
            },
            None => {
                assert(split_on(q@, '&') =~= done);
                return found;
            },
        }
    }
}

/// `s` with every `+` replaced by a space.
pub fn replace_plus(s: &String) -> (r: String)
    ensures
        r@ == plus_to_space(s@),
{
    let cs = chars_of(s.as_str());
    let mut r = String::new();
    let mut i: usize = 0;
    while i < cs.len()
        invariant
            i <= cs.len(),
            cs@ == s@,
            r@ == plus_to_space(s@).take(i as int),
        decreases cs.len() - i,
    {
        let c = if cs[i] == '+' {
            ' '
        } else {
            cs[i]
        };
        crate::text::push(&mut r, c);
        i = i + 1;
        assert(r@ =~= plus_to_space(s@).take(i as int));
    }
    assert(r@ =~= plus_to_space(s@));
    r
}

/// Takes iic, crtd and tin, in that order, from the query `q`; the `+`
/// characters of crtd become spaces.
pub fn params_from_query(q: &Vec<char>) -> (r: Result<FiscalParams, ExtractError>)
    ensures
        params_view(r) == query_result(q@),
{
    let iic = match query_param(q, &chars_of("iic")) {
        Some(v) => v,
        None => {
            return Err(ExtractError::IicMissing);
        },
    };
    let crtd = match query_param(q, &chars_of("crtd")) {
        Some(v) => replace_plus(&v),
        None => {
            return Err(ExtractError::CrtdMissing);
        },
    };
    let tin = match query_param(q, &chars_of("tin")) {
        Some(v) => v,
        None => {
            return Err(ExtractError::TinMissing);
        },
    };
    Ok(FiscalParams { iic, tin, crtd })
}

/// Takes the parameters from the fragment of `decoded`, a percent-decoded URL:
/// the fragment is cut at its first `?`, and what follows is read as an
/// `&`-separated list of `key=value` pairs.
pub fn extract_params(decoded: &str) -> (r: Result<FiscalParams, ExtractError>)
    ensures
        params_view(r) == extract_result(decoded@),
{
    let parts = match parse_url(decoded) {
        Some(p) => p,
        None => {
            return Err(ExtractError::UrlParseFailed);
        },
    };
    let fragment = match parts.fragment {
        Some(f) => f,
        None => {
            return Err(ExtractError::MissingFragment);
        },
    };
    let f = chars_of(fragment.as_str());
    match find_from(&f, 0, '?') {
        None => {
            assert(f@.skip(0) =~= f@);
            Err(ExtractError::MissingQueryInFragment)
        },
        Some(k) => {
            assert(f@.skip(0) =~= f@);
            let q = sub_vec(&f, k + 1, f.len());
            assert(q@ =~= f@.skip(k + 1));
            params_from_query(&q)
        },
    }
}

} // verus!
