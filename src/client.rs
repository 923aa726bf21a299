//! The request that submits fiscal parameters to the authority's
//! verification endpoint. Sending it is left to the caller.
use vstd::prelude::*;
use crate::fragment::FiscalParams;

verus! {

/// Seconds that the whole verification request may take.
pub const VERIFY_TIMEOUT_SECS: u64 = 60;

/// One text part of a multipart form.
pub struct FormPart {
    pub name: String,
    pub value: String,
}

/// A multipart POST to the verification endpoint.
pub struct VerificationRequest {
    pub url: String,
    pub parts: Vec<FormPart>,
    pub timeout_secs: u64,
}

/// The failure of the remote call: a transport error, a timeout or an
/// unreadable response body.
#[derive(Clone, Copy, Debug, PartialEq, Eq, Structural)]
pub enum VerificationError {
    VerificationRequestFailed,
}

pub open spec fn verify_endpoint() -> Seq<char> {
    "https://mapr.tax.gov.me/ic/api/verifyInvoice"@
}

/// The request for `params`: parts `iic`, `dateTimeCreated` (the crtd value)
/// and `tin`, in that order, posted to the authority's endpoint with the
/// fixed timeout.
pub fn verification_request(params: FiscalParams) -> (r: VerificationRequest)
    ensures
        r.url@ == verify_endpoint(),
        r.timeout_secs == VERIFY_TIMEOUT_SECS,
        r.parts.len() == 3,
        r.parts[0].name@ == "iic"@ && r.parts[0].value@ == params.iic@,
        r.parts[1].name@ == "dateTimeCreated"@ && r.parts[1].value@ == params.crtd@,
        r.parts[2].name@ == "tin"@ && r.parts[2].value@ == params.tin@,
{
    let mut parts: Vec<FormPart> = Vec::new();
    parts.push(FormPart { name: "iic".to_owned(), value: params.iic });
    parts.push(FormPart { name: "dateTimeCreated".to_owned(), value: params.crtd });
    parts.push(FormPart { name: "tin".to_owned(), value: params.tin });
    VerificationRequest {
        url: "https://mapr.tax.gov.me/ic/api/verifyInvoice".to_owned(),
        parts,
        timeout_secs: VERIFY_TIMEOUT_SECS,
    }
}

} // verus!
