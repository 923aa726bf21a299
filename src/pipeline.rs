//! The whole check of a possibly percent-encoded URL: decoding first, then
//! domain and field validation, or parameter extraction.
use vstd::prelude::*;
use crate::domain::{validate_domain, domain_result, DomainError};
use crate::fields::{validate_fields, fields_result, FieldError};
use crate::fragment::{extract_params, extract_result, params_view, ExtractError, FiscalParams};

verus! {

/// The text `urlencoding::decode` gives for the input, or `None` where the
/// decoded bytes are not UTF-8.
pub uninterp spec fn percent_decoded(s: Seq<char>) -> Option<Seq<char>>;

/// Relies on `urlencoding::decode`: `%XX` escapes become bytes, and the result
/// must be UTF-8. An input without `%` comes back unchanged.
#[verifier::external_body]
fn decode_percent(s: &str) -> (r: Option<String>)
    ensures
        r is Some <==> percent_decoded(s@) is Some,
        r matches Some(d) ==> percent_decoded(s@) == Some(d@),
        s@.contains('%') || (r is Some && r->0@ == s@),
{
    match urlencoding::decode(s) {
        Ok(d) => Some(d.into_owned()),
        Err(_) => None,
    }
}

/// Why a check URL was rejected.
#[derive(Clone, Copy, Debug, PartialEq, Eq, Structural)]
pub enum ValidationError {
    Domain(DomainError),
    Field(FieldError),
}

impl ValidationError {
    /// A short code for the failure, for display to users.
    pub fn code(&self) -> (r: &'static str)
        ensures
            r@ == error_code(*self),
    {
        match self {
            ValidationError::Domain(DomainError::MalformedUrl) => "wrong_check_url",
            ValidationError::Domain(DomainError::UntrustedOrigin) => "wrong_check_url",
            ValidationError::Domain(DomainError::UnsupportedForeignScheme) => "serbian_checks_not_supported_yet",
            ValidationError::Field(FieldError::IicInvalid) => "iic_param_is_missing_or_wrong_format",
            ValidationError::Field(FieldError::CrtdInvalid) => "crtd_param_is_missing_or_wrong_format",
            ValidationError::Field(FieldError::TinInvalid) => "tin_param_is_missing_or_wrong_format",
        }
    }
}

pub open spec fn error_code(e: ValidationError) -> Seq<char> {
    match e {
        ValidationError::Domain(DomainError::MalformedUrl) => "wrong_check_url"@,
        ValidationError::Domain(DomainError::UntrustedOrigin) => "wrong_check_url"@,
        ValidationError::Domain(DomainError::UnsupportedForeignScheme) => "serbian_checks_not_supported_yet"@,
        ValidationError::Field(FieldError::IicInvalid) => "iic_param_is_missing_or_wrong_format"@,
        ValidationError::Field(FieldError::CrtdInvalid) => "crtd_param_is_missing_or_wrong_format"@,
        ValidationError::Field(FieldError::TinInvalid) => "tin_param_is_missing_or_wrong_format"@,
    }
}

/// Domain check, then field checks, on an already decoded URL.
pub open spec fn decoded_result(d: Seq<char>) -> Result<(), ValidationError> {
    match domain_result(d) {
        Err(e) => Err(ValidationError::Domain(e)),
        Ok(()) => match fields_result(d) {
            Err(e) => Err(ValidationError::Field(e)),
            Ok(()) => Ok(()),
        },
    }
}

/// The validation of the check URL `s`. Text that does not decode to UTF-8 is
/// no URL.
pub open spec fn validation_result(s: Seq<char>) -> Result<(), ValidationError> {
    match percent_decoded(s) {
        None => Err(ValidationError::Domain(DomainError::MalformedUrl)),
        Some(d) => decoded_result(d),
    }
}

/// The parameters taken from the check URL `s`. Text that does not decode to
/// UTF-8 is no URL.
pub open spec fn extraction_result(s: Seq<char>) -> Result<(Seq<char>, Seq<char>, Seq<char>), ExtractError> {
    match percent_decoded(s) {
        None => Err(ExtractError::UrlParseFailed),
        Some(d) => extract_result(d),
    }
}

/// Decodes the check URL, then checks its origin against the allow-list and
/// the format of its iic, crtd and tin fields.
pub fn verify_invoice_url(check_url: &str) -> (r: Result<(), ValidationError>)
    ensures
        r == validation_result(check_url@),
{
    let decoded = match decode_percent(check_url) {
        Some(d) => d,
        None => {
            return Err(ValidationError::Domain(DomainError::MalformedUrl));
        },
    };
    match validate_domain(decoded.as_str()) {
        Err(e) => {
            return Err(ValidationError::Domain(e));
        },
        Ok(()) => {},
    }
    match validate_fields(decoded.as_str()) {
        Err(e) => Err(ValidationError::Field(e)),
        Ok(()) => Ok(()),
    }
}

/// Decodes the check URL, then takes the fiscal parameters from its fragment.
pub fn extract_params_from_url(check_url: &str) -> (r: Result<FiscalParams, ExtractError>)
    ensures
        params_view(r) == extraction_result(check_url@),
{
    match decode_percent(check_url) {
        Some(d) => extract_params(d.as_str()),
        None => Err(ExtractError::UrlParseFailed),
    }
}

} // verus!
