use ra_verifier::attestation::{
    ra_attestation, verify_at, verify_quote_body, verify_report, verify_with_clock,
};
use ra_verifier::{
    AttestationError, AttestationReport, BuildMode, FreshnessPolicy, ReportField,
};

// 2023-06-01T12:00:00Z
const ISSUED: i64 = 1_685_620_800;
const ISSUED_TEXT: &str = "2023-06-01T12:00:00.123456";

fn patterned_quote(len: usize) -> Vec<u8> {
    let mut bytes = Vec::new();
    for i in 0..len {
        bytes.push((i % 251) as u8);
    }
    bytes
}

fn wire_report(timestamp: &str, status: &str, blob: Option<&str>, quote: &[u8]) -> Vec<u8> {
    let blob_member = match blob {
        Some(blob) => format!("\"platformInfoBlob\":\"{}\",", blob),
        None => String::new(),
    };
    let json = format!(
        "{{\"id\":\"1234\",\"timestamp\":\"{}\",\"version\":4,\"isvEnclaveQuoteStatus\":\"{}\",{}\"isvEnclaveQuoteBody\":\"{}\"}}",
        timestamp,
        status,
        blob_member,
        base64::encode(quote)
    );
    base64::encode(json).into_bytes()
}

fn whole_blob() -> String {
    let mut blob = String::from("1502006504");
    blob.truncate(8);
    for i in 0..101 {
        blob.push_str(&format!("{:02x}", i));
    }
    blob
}

#[test]
fn debug_build_is_rejected_whatever_the_report() {
    let policy = FreshnessPolicy::standard();
    assert_eq!(
        verify_at(b"not a report", BuildMode::Debug, None, 0, &policy),
        Err(AttestationError::InvalidBuildMode)
    );
    assert_eq!(
        ra_attestation(b"", BuildMode::PreProduction, None, &policy),
        Err(AttestationError::InvalidBuildMode)
    );
    let good = wire_report(ISSUED_TEXT, "OK", None, &patterned_quote(432));
    assert_eq!(
        verify_at(&good, BuildMode::Debug, None, ISSUED + 60, &policy),
        Err(AttestationError::InvalidBuildMode)
    );
    assert_eq!(
        verify_at(&good, BuildMode::PreProduction, None, ISSUED + 60, &policy),
        Err(AttestationError::InvalidBuildMode)
    );
    assert!(verify_at(&good, BuildMode::Production, None, ISSUED + 60, &policy).is_ok());
}

#[test]
fn ok_report_yields_the_bytes_at_the_offsets() {
    let policy = FreshnessPolicy::standard();
    let body = patterned_quote(432);
    let wire = wire_report(ISSUED_TEXT, "OK", None, &body);
    let quote = verify_at(&wire, BuildMode::Production, None, ISSUED + 60, &policy).unwrap();
    assert_eq!(quote.version, 0x0100);
    assert_eq!(quote.sign_type, 0x0302);
    assert_eq!(&quote.report_body.mr_enclave[..], &body[112..144]);
    assert_eq!(&quote.report_body.mr_signer[..], &body[176..208]);
    assert_eq!(&quote.report_body.report_data[..], &body[368..432]);
}

#[test]
fn longer_quote_body_is_read_up_to_the_layout() {
    let policy = FreshnessPolicy::standard();
    let body = patterned_quote(600);
    let wire = wire_report(ISSUED_TEXT, "OK", None, &body);
    let quote = verify_at(&wire, BuildMode::Production, None, ISSUED, &policy).unwrap();
    assert_eq!(&quote.report_body.report_data[..], &body[368..432]);
}

#[test]
fn caveat_verdicts_with_whole_blob_reach_the_quote() {
    let policy = FreshnessPolicy::standard();
    let body = patterned_quote(432);
    let blob = whole_blob();
    for status in ["GROUP_OUT_OF_DATE", "GROUP_REVOKED", "CONFIGURATION_NEEDED"] {
        let wire = wire_report(ISSUED_TEXT, status, Some(&blob), &body);
        let quote = verify_at(&wire, BuildMode::Production, None, ISSUED + 60, &policy).unwrap();
        assert_eq!(&quote.report_body.mr_enclave[..], &body[112..144]);
        let short = wire_report(ISSUED_TEXT, status, Some(&blob), &body[..431]);
        assert_eq!(
            verify_at(&short, BuildMode::Production, None, ISSUED + 60, &policy),
            Err(AttestationError::TruncatedQuote)
        );
    }
}

#[test]
fn caveat_verdict_without_blob_is_missing_field() {
    let policy = FreshnessPolicy::standard();
    let wire = wire_report(ISSUED_TEXT, "GROUP_REVOKED", None, &patterned_quote(432));
    assert_eq!(
        verify_at(&wire, BuildMode::Production, None, ISSUED, &policy),
        Err(AttestationError::MissingField(ReportField::PlatformInfoBlob))
    );
}

#[test]
fn blob_of_wrong_size_rejects_the_report() {
    let policy = FreshnessPolicy::standard();
    let body = patterned_quote(432);
    let mut short = whole_blob();
    short.truncate(8 + 2 * 100);
    let mut long = whole_blob();
    long.push_str("ff");
    let wire = wire_report(ISSUED_TEXT, "GROUP_OUT_OF_DATE", Some(&short), &body);
    assert_eq!(
        verify_at(&wire, BuildMode::Production, None, ISSUED, &policy),
        Err(AttestationError::TruncatedBlob)
    );
    let wire = wire_report(ISSUED_TEXT, "GROUP_OUT_OF_DATE", Some(&long), &body);
    assert_eq!(
        verify_at(&wire, BuildMode::Production, None, ISSUED, &policy),
        Err(AttestationError::BlobOverflow)
    );
}

#[test]
fn blob_is_not_read_with_verdict_ok() {
    let policy = FreshnessPolicy::standard();
    let wire = wire_report(ISSUED_TEXT, "OK", Some("zz"), &patterned_quote(432));
    assert!(verify_at(&wire, BuildMode::Production, None, ISSUED, &policy).is_ok());
}

#[test]
fn stale_report_is_rejected_and_window_is_inclusive() {
    let policy = FreshnessPolicy { max_age_secs: 3600, max_skew_secs: 30 };
    let wire = wire_report(ISSUED_TEXT, "OK", None, &patterned_quote(432));
    assert!(verify_at(&wire, BuildMode::Production, None, ISSUED + 3600, &policy).is_ok());
    assert_eq!(
        verify_at(&wire, BuildMode::Production, None, ISSUED + 3601, &policy),
        Err(AttestationError::ReportStale)
    );
    assert!(verify_at(&wire, BuildMode::Production, None, ISSUED - 30, &policy).is_ok());
    assert_eq!(
        verify_at(&wire, BuildMode::Production, None, ISSUED - 31, &policy),
        Err(AttestationError::ReportFromFuture)
    );
}

#[test]
fn short_quote_body_is_truncated() {
    let policy = FreshnessPolicy::standard();
    let wire = wire_report(ISSUED_TEXT, "OK", None, &patterned_quote(431));
    assert_eq!(
        verify_at(&wire, BuildMode::Production, None, ISSUED, &policy),
        Err(AttestationError::TruncatedQuote)
    );
    let wire = wire_report(ISSUED_TEXT, "OK", None, &[]);
    assert_eq!(
        verify_at(&wire, BuildMode::Production, None, ISSUED, &policy),
        Err(AttestationError::TruncatedQuote)
    );
}

#[test]
fn end_to_end_with_the_wall_clock() {
    let now = std::time::SystemTime::now()
        .duration_since(std::time::UNIX_EPOCH)
        .unwrap()
        .as_secs() as i64;
    let issued = chrono::DateTime::from_timestamp(now - 60, 0).unwrap();
    let timestamp = issued.format("%Y-%m-%dT%H:%M:%S%.6f").to_string();
    let mut body = vec![0u8; 432];
    let mut pattern = [0u8; 32];
    for i in 0..32 {
        pattern[i] = 0xa0 + i as u8;
        body[112 + i] = pattern[i];
    }
    let wire = wire_report(&timestamp, "OK", None, &body);
    let quote =
        ra_attestation(&wire, BuildMode::Production, None, &FreshnessPolicy::standard()).unwrap();
    assert_eq!(quote.report_body.mr_enclave, pattern);
    assert_eq!(quote.report_body.mr_signer, [0u8; 32]);
    assert_eq!(quote.version, 0);
}

#[test]
fn wall_clock_rejects_an_old_report() {
    let wire = wire_report(ISSUED_TEXT, "OK", None, &patterned_quote(432));
    assert_eq!(
        ra_attestation(&wire, BuildMode::Production, None, &FreshnessPolicy::standard()),
        Err(AttestationError::ReportStale)
    );
    assert_eq!(
        ra_attestation(b"%%%", BuildMode::Production, None, &FreshnessPolicy::standard()),
        Err(AttestationError::MalformedReport)
    );
}

#[test]
fn malformed_wire_forms_are_rejected() {
    let policy = FreshnessPolicy::standard();
    assert_eq!(
        verify_at(b"***not base64***", BuildMode::Production, None, ISSUED, &policy),
        Err(AttestationError::MalformedReport)
    );
    let not_json = base64::encode("{\"timestamp\": ").into_bytes();
    assert_eq!(
        verify_at(&not_json, BuildMode::Production, None, ISSUED, &policy),
        Err(AttestationError::MalformedReport)
    );
    let json = format!(
        "{{\"timestamp\":\"{}\",\"isvEnclaveQuoteStatus\":\"OK\",\"isvEnclaveQuoteBody\":\"@@@@\"}}",
        ISSUED_TEXT
    );
    let bad_body = base64::encode(json).into_bytes();
    assert_eq!(
        verify_at(&bad_body, BuildMode::Production, None, ISSUED, &policy),
        Err(AttestationError::MalformedReport)
    );
}

#[test]
fn unknown_verdict_is_rejected_with_its_text() {
    let policy = FreshnessPolicy::standard();
    let wire = wire_report(ISSUED_TEXT, "SIGNATURE_INVALID", Some(&whole_blob()), &patterned_quote(432));
    assert_eq!(
        verify_at(&wire, BuildMode::Production, None, ISSUED, &policy),
        Err(AttestationError::StatusRejected("SIGNATURE_INVALID".to_string()))
    );
}

#[test]
fn unreadable_timestamp_is_a_time_parse_error() {
    let policy = FreshnessPolicy::standard();
    let wire = wire_report("yesterday", "OK", None, &patterned_quote(432));
    assert_eq!(
        verify_at(&wire, BuildMode::Production, None, ISSUED, &policy),
        Err(AttestationError::TimeParseError)
    );
}

#[test]
fn freshness_is_judged_before_the_verdict() {
    let policy = FreshnessPolicy::standard();
    let wire = wire_report(ISSUED_TEXT, "SIGNATURE_INVALID", None, &patterned_quote(10));
    assert_eq!(
        verify_at(&wire, BuildMode::Production, None, ISSUED + 86_401, &policy),
        Err(AttestationError::ReportStale)
    );
    assert_eq!(
        verify_at(&wire, BuildMode::Production, None, ISSUED + 86_400, &policy),
        Err(AttestationError::StatusRejected("SIGNATURE_INVALID".to_string()))
    );
}

#[test]
fn binding_value_must_be_the_report_data() {
    let policy = FreshnessPolicy::standard();
    let body = patterned_quote(432);
    let wire = wire_report(ISSUED_TEXT, "OK", None, &body);
    let expected = body[368..432].to_vec();
    assert!(verify_at(&wire, BuildMode::Production, Some(&expected), ISSUED, &policy).is_ok());
    let mut other = expected.clone();
    other[63] ^= 1;
    assert_eq!(
        verify_at(&wire, BuildMode::Production, Some(&other), ISSUED, &policy),
        Err(AttestationError::BindingMismatch)
    );
    assert_eq!(
        verify_at(&wire, BuildMode::Production, Some(&expected[..63]), ISSUED, &policy),
        Err(AttestationError::BindingMismatch)
    );
    let mut longer = expected.clone();
    longer.push(0);
    assert_eq!(
        verify_at(&wire, BuildMode::Production, Some(&longer), ISSUED, &policy),
        Err(AttestationError::BindingMismatch)
    );
    assert_eq!(
        verify_at(&wire, BuildMode::Production, Some(&[]), ISSUED, &policy),
        Err(AttestationError::BindingMismatch)
    );
}

#[test]
fn quote_body_stage_decodes_base64() {
    let body = patterned_quote(432);
    let text = base64::encode(&body);
    let quote = verify_quote_body(&text, None).unwrap();
    assert_eq!(&quote.report_body.mr_signer[..], &body[176..208]);
    assert_eq!(verify_quote_body("AAAA", None), Err(AttestationError::TruncatedQuote));
    assert_eq!(verify_quote_body("A", None), Err(AttestationError::MalformedReport));
}

#[test]
fn decoded_report_goes_through_the_same_gates() {
    let policy = FreshnessPolicy::standard();
    let body = patterned_quote(432);
    let report = AttestationReport {
        timestamp: ISSUED_TEXT.to_string(),
        quote_status: "CONFIGURATION_NEEDED".to_string(),
        platform_info_blob: Some(whole_blob()),
        quote_body: base64::encode(&body),
    };
    let quote = verify_report(&report, None, ISSUED + 5, &policy).unwrap();
    assert_eq!(&quote.report_body.mr_enclave[..], &body[112..144]);
    let mut odd = report.clone();
    odd.platform_info_blob = Some(format!("{}a", whole_blob()));
    assert_eq!(
        verify_report(&odd, None, ISSUED + 5, &policy),
        Err(AttestationError::MalformedReport)
    );
}

#[test]
fn unread_clock_is_a_clock_error() {
    let policy = FreshnessPolicy::standard();
    let wire = wire_report(ISSUED_TEXT, "OK", None, &patterned_quote(432));
    assert_eq!(
        verify_with_clock(&wire, BuildMode::Production, None, None, &policy),
        Err(AttestationError::ClockError)
    );
    assert_eq!(
        verify_with_clock(&wire, BuildMode::Debug, None, None, &policy),
        Err(AttestationError::InvalidBuildMode)
    );
    assert_eq!(
        verify_with_clock(b"????", BuildMode::Production, None, None, &policy),
        Err(AttestationError::MalformedReport)
    );
    let unreadable = wire_report("then", "NOPE", None, &[]);
    assert_eq!(
        verify_with_clock(&unreadable, BuildMode::Production, None, None, &policy),
        Err(AttestationError::ClockError)
    );
    assert_eq!(
        verify_with_clock(&wire, BuildMode::Production, None, Some(ISSUED), &policy),
        verify_at(&wire, BuildMode::Production, None, ISSUED, &policy)
    );
    assert!(verify_with_clock(&wire, BuildMode::Production, None, Some(ISSUED), &policy).is_ok());
}
