//! Validation and extraction of fiscal-invoice check URLs.
//!
//! A check URL names the invoice (iic), the issuer (tin) and the creation
//! time (crtd). The library decodes such a URL, checks its origin against the
//! authority's allow-list and the format of the three fields, takes the fields
//! out of a query-like fragment, and describes the request that submits them
//! for verification.
pub mod text;
pub mod fields;
pub mod domain;
pub mod fragment;
pub mod pipeline;
pub mod laws;
pub mod client;
pub mod settings;

pub use client::{verification_request, FormPart, VerificationError, VerificationRequest};
pub use domain::{check_origin, validate_domain, DomainError};
pub use fields::{validate_fields, FieldError};
pub use fragment::{extract_params, ExtractError, FiscalParams};
pub use pipeline::{extract_params_from_url, verify_invoice_url, ValidationError};
pub use settings::{DBEnvConfig, Email, Settings};
