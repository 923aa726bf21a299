//! Parsing of check URLs and the allow-list of authority origins.
use vstd::prelude::*;

verus! {

/// Why a URL's domain was not accepted.
#[derive(Clone, Copy, Debug, PartialEq, Eq, Structural)]
pub enum DomainError {
    /// The text does not parse as a URL.
    MalformedUrl,
    /// The origin is neither allow-listed nor a known foreign scheme.
    UntrustedOrigin,
    /// The origin belongs to a known foreign scheme that is not supported.
    UnsupportedForeignScheme,
}

/// Whether `url::Url::parse` accepts the text.
pub uninterp spec fn url_parses(s: Seq<char>) -> bool;

/// The Unicode serialization of the origin of the URL parsed from the text.
pub uninterp spec fn url_origin(s: Seq<char>) -> Seq<char>;

/// The fragment (without `#`) of the URL parsed from the text, if it has one.
pub uninterp spec fn url_fragment(s: Seq<char>) -> Option<Seq<char>>;

/// What the pipeline reads of a parsed URL.
pub struct UrlParts {
    pub origin: String,
    pub fragment: Option<String>,
}

pub open spec fn opt_view(o: Option<String>) -> Option<Seq<char>> {
    match o {
        Some(s) => Some(s@),
        None => None,
    }
}

/// Relies on `url::Url::parse` to parse the text, on `Url::origin` with
/// `Origin::unicode_serialization` for the origin and on `Url::fragment` for the
/// fragment. All three depend on the text alone.
#[verifier::external_body]
pub(crate) fn parse_url(s: &str) -> (r: Option<UrlParts>)
    ensures
        r is Some <==> url_parses(s@),
        r matches Some(p) ==> p.origin@ == url_origin(s@),
        r matches Some(p) ==> opt_view(p.fragment) == url_fragment(s@),
{
    match url::Url::parse(s) {
        Ok(u) => Some(
            UrlParts {
                origin: u.origin().unicode_serialization(),
                fragment: u.fragment().map(String::from),
            },
        ),
        Err(_) => None,
    }
}

/// The authority's canonical origin.
pub open spec fn canonical_origin() -> Seq<char> {
    "https://mapr.tax.gov.me"@
}

/// The authority's origin by IP address.
pub open spec fn ip_origin() -> Seq<char> {
    "https://213.149.97.151"@
}

/// The origin of the neighbouring country's scheme, recognised but unsupported.
pub open spec fn foreign_origin() -> Seq<char> {
    "https://suf.purs.gov.rs"@
}

pub open spec fn is_allowed_origin(o: Seq<char>) -> bool {
    o == canonical_origin() || o == ip_origin()
}

pub open spec fn is_foreign_origin(o: Seq<char>) -> bool {
    o == foreign_origin()
}

pub open spec fn origin_result(o: Seq<char>) -> Result<(), DomainError> {
    if is_allowed_origin(o) {
        Ok(())
    } else if is_foreign_origin(o) {
        Err(DomainError::UnsupportedForeignScheme)
    } else {
        Err(DomainError::UntrustedOrigin)
    }
}

pub open spec fn domain_result(s: Seq<char>) -> Result<(), DomainError> {
    if !url_parses(s) {
        Err(DomainError::MalformedUrl)
    } else {
        origin_result(url_origin(s))
    }
}

/// Classifies a serialized origin against the allow-list and the list of
/// foreign schemes, by exact comparison.
pub fn check_origin(origin: &str) -> (r: Result<(), DomainError>)
    ensures
        r == origin_result(origin@),
        is_allowed_origin(origin@) ==> r is Ok,
        is_foreign_origin(origin@) ==> r == Err::<(), DomainError>(
            DomainError::UnsupportedForeignScheme,
        ),
        !is_allowed_origin(origin@) && !is_foreign_origin(origin@) ==> r == Err::<(), DomainError>(
            DomainError::UntrustedOrigin,
        ),
{
    proof {
        reveal_strlit("https://mapr.tax.gov.me");
        reveal_strlit("https://213.149.97.151");
        reveal_strlit("https://suf.purs.gov.rs");
        assert(foreign_origin()[8] != canonical_origin()[8]);
        assert(foreign_origin()[8] != ip_origin()[8]);
    }
    let o: String = origin.to_owned();
    let canonical: String = "https://mapr.tax.gov.me".to_owned();
    let ip: String = "https://213.149.97.151".to_owned();
    let foreign: String = "https://suf.purs.gov.rs".to_owned();
    if o == canonical || o == ip {
        Ok(())
    } else if o == foreign {
        Err(DomainError::UnsupportedForeignScheme)
    } else {
        Err(DomainError::UntrustedOrigin)
    }
}

/// Checks the origin of `decoded`, a percent-decoded URL.
pub fn validate_domain(decoded: &str) -> (r: Result<(), DomainError>)
    ensures
        r == domain_result(decoded@),
        !url_parses(decoded@) ==> r == Err::<(), DomainError>(DomainError::MalformedUrl),
        url_parses(decoded@) && is_foreign_origin(url_origin(decoded@)) ==> r == Err::<
            (),
            DomainError,
        >(DomainError::UnsupportedForeignScheme),
        url_parses(decoded@) && !is_allowed_origin(url_origin(decoded@)) && !is_foreign_origin(
            url_origin(decoded@),
        ) ==> r == Err::<(), DomainError>(DomainError::UntrustedOrigin),
{
    match parse_url(decoded) {
        None => Err(DomainError::MalformedUrl),
        Some(parts) => check_origin(parts.origin.as_str()),
    }
}

} // verus!
