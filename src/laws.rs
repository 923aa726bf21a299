//! Properties of the pipeline as a whole.
use vstd::prelude::*;
use crate::domain::{url_parses, url_origin, is_allowed_origin};
use crate::fields::{
    valid_iic, valid_tin, valid_crtd, occurs, matches_at, iic_pattern, tin_pattern, crtd_pattern,
    timestamp_pattern, accepts, CharClass,
};
use crate::pipeline::{percent_decoded, validation_result, extraction_result};
use crate::fragment::{param_value, plus_to_space, query_result, ExtractError};

verus! {

/// `needle` stands somewhere in `hay`.
pub open spec fn contains_seq(hay: Seq<char>, needle: Seq<char>) -> bool {
    exists|i: int| 0 <= i && i + needle.len() <= hay.len() && #[trigger] hay.subrange(i, i + needle.len()) == needle
}

/// Decoding comes first and is idempotent for the pipeline: a URL that decodes
/// to `plain`, where `plain` decodes to itself, validates and extracts exactly
/// as `plain` does.
pub proof fn lemma_decoding_idempotent(encoded: Seq<char>, plain: Seq<char>)
    requires
        percent_decoded(encoded) == Some(plain),
        percent_decoded(plain) == Some(plain),
    ensures
        validation_result(encoded) == validation_result(plain),
        extraction_result(encoded) == extraction_result(plain),
{
}

proof fn lemma_literal_then_class(
    d: Seq<char>,
    lit: Seq<char>,
    value: Seq<char>,
    pat: Seq<CharClass>,
    i: int,
)
    requires
        0 <= i && i + lit.len() + value.len() <= d.len(),
        d.subrange(i, i + lit.len() + value.len()) == lit + value,
        pat.len() == lit.len() + value.len(),
        forall|j: int| 0 <= j < lit.len() ==> pat[j] == CharClass::Lit(lit[j]),
        forall|j: int| 0 <= j < value.len() ==> accepts(pat[lit.len() + j], value[j]),
    ensures
        matches_at(d, pat, i),
{
    assert forall|j: int| 0 <= j < pat.len() implies accepts(#[trigger] pat[j], d[i + j]) by {
        assert(d[i + j] == d.subrange(i, i + lit.len() + value.len())[j]);
        if j >= lit.len() {
            assert(accepts(pat[lit.len() + (j - lit.len())], value[j - lit.len()]));
        }
    }
}

/// A URL whose decoded text has an allow-listed origin and holds
/// `iic=`, `tin=` and `crtd=` each followed by a well-formed value passes
/// validation.
pub proof fn lemma_valid_fields_accepted(
    url: Seq<char>,
    decoded: Seq<char>,
    iic: Seq<char>,
    tin: Seq<char>,
    crtd: Seq<char>,
)
    requires
        percent_decoded(url) == Some(decoded),
        url_parses(decoded),
        is_allowed_origin(url_origin(decoded)),
        valid_iic(iic),
        valid_tin(tin),
        valid_crtd(crtd),
        contains_seq(decoded, seq!['i', 'i', 'c', '='] + iic),
        contains_seq(decoded, seq!['t', 'i', 'n', '='] + tin),
        contains_seq(decoded, seq!['c', 'r', 't', 'd', '='] + crtd),
    ensures
        validation_result(url) == Ok::<(), crate::pipeline::ValidationError>(()),
{
    let n_iic = seq!['i', 'i', 'c', '='] + iic;
    let i = choose|i: int|
        0 <= i && i + n_iic.len() <= decoded.len() && #[trigger] decoded.subrange(i, i + n_iic.len()) == n_iic;
    lemma_literal_then_class(decoded, seq!['i', 'i', 'c', '='], iic, iic_pattern(), i);
    assert(occurs(decoded, iic_pattern()));

    let n_tin = seq!['t', 'i', 'n', '='] + tin;
    let t = choose|t: int|
        0 <= t && t + n_tin.len() <= decoded.len() && #[trigger] decoded.subrange(t, t + n_tin.len()) == n_tin;
    lemma_literal_then_class(decoded, seq!['t', 'i', 'n', '='], tin, tin_pattern(), t);
    assert(occurs(decoded, tin_pattern()));

    let lit = seq!['c', 'r', 't', 'd', '='];
    let n_crtd = lit + crtd;
    let c = choose|c: int|
        0 <= c && c + n_crtd.len() <= decoded.len() && #[trigger] decoded.subrange(c, c + n_crtd.len()) == n_crtd;
    let stamp = crtd.take(19);
    assert(decoded.subrange(c, c + lit.len() + 19) == lit + stamp) by {
        assert(decoded.subrange(c, c + lit.len() + 19) =~= decoded.subrange(c, c + lit.len() + crtd.len()).take(lit.len() + 19int));
        assert((lit + crtd).take(lit.len() + 19int) =~= lit + stamp);
    }
    assert forall|j: int| 0 <= j < stamp.len() implies accepts(crtd_pattern()[lit.len() + j], stamp[j]) by {
        assert(accepts(timestamp_pattern()[j], crtd[0 + j]));
    }
    lemma_literal_then_class(decoded, lit, stamp, crtd_pattern(), c);
    assert(occurs(decoded, crtd_pattern()));
}

/// When iic, crtd and tin are all in the fragment's query, extraction
/// succeeds and the timestamp is the raw crtd value with `+` read as a space.
pub proof fn lemma_crtd_plus_as_space(q: Seq<char>, iic: Seq<char>, tin: Seq<char>, crtd: Seq<char>)
    requires
        param_value(q, "iic"@) == Some(iic),
        param_value(q, "tin"@) == Some(tin),
        param_value(q, "crtd"@) == Some(crtd),
    ensures
        query_result(q) == Ok::<(Seq<char>, Seq<char>, Seq<char>), ExtractError>(
            (iic, tin, plus_to_space(crtd)),
        ),
{
}

/// A query that lacks exactly one of iic, crtd and tin fails with the error
/// of that field.
pub proof fn lemma_missing_field(q: Seq<char>)
    ensures
        param_value(q, "iic"@) is None ==> query_result(q) == Err::<
            (Seq<char>, Seq<char>, Seq<char>),
            ExtractError,
        >(ExtractError::IicMissing),
        param_value(q, "iic"@) is Some && param_value(q, "tin"@) is Some && param_value(
            q,
            "crtd"@,
        ) is None ==> query_result(q) == Err::<(Seq<char>, Seq<char>, Seq<char>), ExtractError>(
            ExtractError::CrtdMissing,
        ),
        param_value(q, "iic"@) is Some && param_value(q, "crtd"@) is Some && param_value(
            q,
            "tin"@,
        ) is None ==> query_result(q) == Err::<(Seq<char>, Seq<char>, Seq<char>), ExtractError>(
            ExtractError::TinMissing,
        ),
{
}

} // verus!
