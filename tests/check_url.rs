use fiscal_check::{
    check_origin, extract_params, extract_params_from_url, validate_domain, validate_fields,
    verification_request, verify_invoice_url, DomainError, ExtractError, FieldError, FiscalParams,
    ValidationError,
};

const IIC: &str = "CDDDFEDA791C81615A66FFD8824ACFE0";

fn mapr_url(query: &str) -> String {
    format!("https://mapr.tax.gov.me/ic/#/verify/?{}", query)
}

#[test]
fn correct_invoice_mapr_domain_test() {
    let correct_check_url = "https://mapr.tax.gov.me/ic/#/verify/?iic=CDDDFEDA791C81615A66FFD8824ACFE0&tin=02404281&crtd=2023-02-11T18:27:35+01:00&ord=1973&bu=gt860be150&cr=wn519mv937&sw=ti937tv565&prc=514.00";
    assert!(verify_invoice_url(correct_check_url).is_ok());
}

#[test]
fn correct_invoice_ip_address_test() {
    let correct_check_url = "https://213.149.97.151/ic/#/verify/?iic=CDDDFEDA791C81615A66FFD8824ACFE0&tin=02404281&crtd=2023-02-11T18:27:35+01:00&ord=1973&bu=gt860be150&cr=wn519mv937&sw=ti937tv565&prc=514.00";
    assert!(verify_invoice_url(correct_check_url).is_ok());
}

#[test]
fn correct_invoice_urlencoded_test() {
    let encoded_url = "https://mapr.tax.gov.me/ic/#/verify?iic=569b2a25e33a44c5b755a5565dee180d&tin=03320758&crtd=2023-02-09T13%3A25%3A58%2B01%3A00&ord=59&bu=rf895ij778&cr=lx211ol284&sw=gg387fl042&prc=50.00";
    assert!(verify_invoice_url(encoded_url).is_ok());
}

#[test]
fn malformed_url_test() {
    let invalid_check_url = "a_wrong_url/http";
    let err = verify_invoice_url(invalid_check_url).unwrap_err();
    assert_eq!(err, ValidationError::Domain(DomainError::MalformedUrl));
    assert_eq!(err.code(), "wrong_check_url");
}

#[test]
fn serbian_invoice_url_test() {
    let serbian_check_url = "https://suf.purs.gov.rs/v/";
    let err = verify_invoice_url(serbian_check_url).unwrap_err();
    assert_eq!(err, ValidationError::Domain(DomainError::UnsupportedForeignScheme));
    assert_eq!(err.code(), "serbian_checks_not_supported_yet");
}

#[test]
fn extract_url_params_test() {
    let encoded_url = "https://mapr.tax.gov.me/ic/#/verify?iic=569b2a25e33a44c5b755a5565dee180d&tin=03320758&crtd=2023-02-09T13%3A25%3A58%2B01%3A00&ord=59&bu=rf895ij778&cr=lx211ol284&sw=gg387fl042&prc=50.00";
    let params = extract_params_from_url(encoded_url).unwrap();
    assert_eq!(params.iic, String::from("569b2a25e33a44c5b755a5565dee180d"));
    assert_eq!(params.tin, String::from("03320758"));
    assert_eq!(params.crtd, String::from("2023-02-09T13:25:58 01:00"));
}

#[test]
fn untrusted_origin_is_rejected() {
    let url = "https://example.com/ic/#/verify/?iic=CDDDFEDA791C81615A66FFD8824ACFE0&tin=02404281&crtd=2023-02-11T18:27:35+01:00";
    let err = verify_invoice_url(url).unwrap_err();
    assert_eq!(err, ValidationError::Domain(DomainError::UntrustedOrigin));
    assert_eq!(err.code(), "wrong_check_url");
    assert_eq!(validate_domain("http://mapr.tax.gov.me/"), Err(DomainError::UntrustedOrigin));
    assert_eq!(validate_domain("https://mapr.tax.gov.me:8443/"), Err(DomainError::UntrustedOrigin));
}

#[test]
fn origin_classification() {
    assert_eq!(check_origin("https://mapr.tax.gov.me"), Ok(()));
    assert_eq!(check_origin("https://213.149.97.151"), Ok(()));
    assert_eq!(check_origin("https://suf.purs.gov.rs"), Err(DomainError::UnsupportedForeignScheme));
    assert_eq!(check_origin("https://suf.purs.gov.rs.evil"), Err(DomainError::UntrustedOrigin));
    assert_eq!(check_origin(""), Err(DomainError::UntrustedOrigin));
    assert_eq!(check_origin("null"), Err(DomainError::UntrustedOrigin));
}

#[test]
fn domain_uses_parsed_origin() {
    assert_eq!(validate_domain("https://MAPR.tax.gov.me/anything"), Ok(()));
    assert_eq!(validate_domain("https://213.149.97.151:443/x"), Ok(()));
    assert_eq!(validate_domain("https://suf.purs.gov.rs/v/"), Err(DomainError::UnsupportedForeignScheme));
    assert_eq!(validate_domain("not a url"), Err(DomainError::MalformedUrl));
}

#[test]
fn each_field_error_is_distinct() {
    let tin = "tin=02404281";
    let crtd = "crtd=2023-02-11T18:27:35";
    assert_eq!(
        verify_invoice_url(&mapr_url(&format!("{}&{}", tin, crtd))),
        Err(ValidationError::Field(FieldError::IicInvalid))
    );
    assert_eq!(
        verify_invoice_url(&mapr_url(&format!("iic={}&{}", IIC, tin))),
        Err(ValidationError::Field(FieldError::CrtdInvalid))
    );
    assert_eq!(
        verify_invoice_url(&mapr_url(&format!("iic={}&tin=0240428&{}", IIC, crtd))),
        Err(ValidationError::Field(FieldError::TinInvalid))
    );
    assert_eq!(
        verify_invoice_url(&mapr_url(&format!("iic=CDDDFEDA791C81615A66FFD8824ACFEG&{}&{}", tin, crtd))),
        Err(ValidationError::Field(FieldError::IicInvalid))
    );
}

#[test]
fn field_error_codes() {
    assert_eq!(ValidationError::Field(FieldError::IicInvalid).code(), "iic_param_is_missing_or_wrong_format");
    assert_eq!(ValidationError::Field(FieldError::CrtdInvalid).code(), "crtd_param_is_missing_or_wrong_format");
    assert_eq!(ValidationError::Field(FieldError::TinInvalid).code(), "tin_param_is_missing_or_wrong_format");
}

#[test]
fn fields_checked_in_order_iic_crtd_tin() {
    assert_eq!(validate_fields("nothing here"), Err(FieldError::IicInvalid));
    assert_eq!(validate_fields(&format!("iic={}", IIC)), Err(FieldError::CrtdInvalid));
    assert_eq!(
        validate_fields(&format!("iic={}&crtd=2023-02-11T18:27:35", IIC)),
        Err(FieldError::TinInvalid)
    );
}

#[test]
fn crtd_accepts_z_offset_and_bare() {
    for crtd in [
        "2023-02-11T18:27:35Z",
        "2023-02-11T18:27:35+01:00",
        "2023-02-11T18:27:35-05:30",
        "2023-02-11T18:27:35",
        "2023-02-11T18:27:35.123456789Z",
    ] {
        let text = format!("?iic={}&tin=02404281&crtd={}", IIC, crtd);
        assert_eq!(validate_fields(&text), Ok(()), "{}", crtd);
    }
    let text = format!("?iic={}&tin=02404281&crtd=2023-02-11 18:27:35", IIC);
    assert_eq!(validate_fields(&text), Err(FieldError::CrtdInvalid));
    let text = format!("?iic={}&tin=02404281&crtd=2023-02-11T18:27", IIC);
    assert_eq!(validate_fields(&text), Err(FieldError::CrtdInvalid));
}

#[test]
fn valid_fields_in_query_string_pass() {
    let url = format!(
        "https://mapr.tax.gov.me/ic/verify?iic={}&tin=12345678&crtd=2024-12-31T23:59:59Z",
        "0123456789abcdefABCDEF0123456789"
    );
    assert_eq!(verify_invoice_url(&url), Ok(()));
}

#[test]
fn given_example_url_passes() {
    let url = "https://mapr.tax.gov.me/ic/#/verify/?iic=CDDDFEDA791C81615A66FFD8824ACFE0&tin=02404281&crtd=2023-02-11T18:27:35+01:00&ord=1973";
    assert_eq!(verify_invoice_url(url), Ok(()));
}

#[test]
fn decoding_does_not_change_the_result() {
    let encoded = "https://mapr.tax.gov.me/ic/#/verify?iic=569b2a25e33a44c5b755a5565dee180d&tin=03320758&crtd=2023-02-09T13%3A25%3A58%2B01%3A00";
    let plain = "https://mapr.tax.gov.me/ic/#/verify?iic=569b2a25e33a44c5b755a5565dee180d&tin=03320758&crtd=2023-02-09T13:25:58+01:00";
    assert_eq!(verify_invoice_url(encoded), verify_invoice_url(plain));
    assert_eq!(verify_invoice_url(plain), Ok(()));
    let a = extract_params_from_url(encoded).unwrap();
    let b = extract_params_from_url(plain).unwrap();
    assert_eq!((a.iic, a.tin, a.crtd), (b.iic, b.tin, b.crtd));
}

#[test]
fn encoded_field_is_only_seen_after_decoding() {
    // `%3D` is `=`: the tin key is only visible once the text is decoded.
    let url = format!("https://mapr.tax.gov.me/ic/#/verify?iic={}&tin%3D02404281&crtd=2023-02-11T18:27:35", IIC);
    assert_eq!(verify_invoice_url(&url), Ok(()));
    assert_eq!(validate_fields(&url), Err(FieldError::TinInvalid));
}

#[test]
fn undecodable_input_is_malformed() {
    assert_eq!(
        verify_invoice_url("https://mapr.tax.gov.me/%FF"),
        Err(ValidationError::Domain(DomainError::MalformedUrl))
    );
    assert!(matches!(extract_params_from_url("https://mapr.tax.gov.me/#/v?%FF"), Err(ExtractError::UrlParseFailed)));
}

#[test]
fn plus_in_crtd_becomes_space() {
    let p = extract_params("https://host/#/verify?iic=X&tin=Y&crtd=A+B").unwrap();
    assert_eq!(p.crtd, "A B");
    assert_eq!(p.iic, "X");
    assert_eq!(p.tin, "Y");
    let p = extract_params_from_url("https://host/#/verify?iic=a+b&tin=1+2&crtd=++").unwrap();
    assert_eq!(p.iic, "a+b");
    assert_eq!(p.tin, "1+2");
    assert_eq!(p.crtd, "  ");
}

#[test]
fn missing_fragment_parts() {
    assert!(matches!(extract_params("https://host/verify?iic=X&tin=Y&crtd=Z"), Err(ExtractError::MissingFragment)));
    assert!(matches!(extract_params("https://host/#/verify"), Err(ExtractError::MissingQueryInFragment)));
    assert!(matches!(extract_params("a_wrong_url/http"), Err(ExtractError::UrlParseFailed)));
    assert!(matches!(extract_params_from_url("a_wrong_url/http"), Err(ExtractError::UrlParseFailed)));
}

#[test]
fn missing_each_field_in_fragment() {
    assert!(matches!(extract_params("https://host/#/v?tin=Y&crtd=Z"), Err(ExtractError::IicMissing)));
    assert!(matches!(extract_params("https://host/#/v?iic=X&crtd=Z"), Err(ExtractError::TinMissing)));
    assert!(matches!(extract_params("https://host/#/v?iic=X&tin=Y"), Err(ExtractError::CrtdMissing)));
    assert!(matches!(extract_params("https://host/#/v?"), Err(ExtractError::IicMissing)));
    // A piece without `=` is no pair.
    assert!(matches!(extract_params("https://host/#/v?iic&tin=Y&crtd=Z"), Err(ExtractError::IicMissing)));
}

#[test]
fn fragment_pairs_rules() {
    // Last of repeated keys wins; a value may hold `=`; an empty value counts.
    let p = extract_params("https://host/#/v?iic=first&tin=&crtd=a=b&iic=second").unwrap();
    assert_eq!(p.iic, "second");
    assert_eq!(p.tin, "");
    assert_eq!(p.crtd, "a=b");
    // Everything after the first `?` is the query.
    let p = extract_params("https://host/#/v?iic=X?Y&tin=T&crtd=C").unwrap();
    assert_eq!(p.iic, "X?Y");
}

#[test]
fn verification_request_parts() {
    let req = verification_request(FiscalParams {
        iic: "569b2a25e33a44c5b755a5565dee180d".to_string(),
        tin: "03320758".to_string(),
        crtd: "2023-02-09T13:25:58 01:00".to_string(),
    });
    assert_eq!(req.url, "https://mapr.tax.gov.me/ic/api/verifyInvoice");
    assert_eq!(req.timeout_secs, 60);
    let parts: Vec<(String, String)> = req.parts.into_iter().map(|p| (p.name, p.value)).collect();
    assert_eq!(
        parts,
        vec![
            ("iic".to_string(), "569b2a25e33a44c5b755a5565dee180d".to_string()),
            ("dateTimeCreated".to_string(), "2023-02-09T13:25:58 01:00".to_string()),
            ("tin".to_string(), "03320758".to_string()),
        ]
    );
}
