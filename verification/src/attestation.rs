//! The attestation verifier: the gates through which a report must pass, in
//! their order.

use vstd::prelude::*;
use vstd::utf8::encode_utf8;

use crate::clock::unix_now;
use crate::error::{result_view, AttestationError, ErrorModel};
use crate::freshness::{check_freshness, freshness_spec, report_time, FreshnessPolicy};
use crate::quote::{binding_spec, check_binding, parse_quote, quote_spec, Quote, QuoteModel};
use crate::report::{
    base64_decode, base64_decoded, decode_report, decoded_report, AttestationReport, ReportModel,
};
use crate::status::{evaluate_status, status_spec};

verus! {

/// The mode in which an enclave was built.
#[derive(Clone, Copy, Debug, PartialEq, Eq, Structural)]
pub enum BuildMode {
    /// Built for debugging: the enclave's memory can be inspected.
    Debug,
    /// Built as for production, but still open to debugging.
    PreProduction,
    /// Built for production. Only such an enclave is ever trusted.
    Production,
}

/// The bytes of an optional binding value.
pub open spec fn optional_binding(expected: Option<&[u8]>) -> Option<Seq<u8>> {
    match expected {
        Some(value) => Some(value@),
        None => None,
    }
}

/// The UTF-8 bytes of an optional text.
pub open spec fn optional_utf8(text: Option<Seq<char>>) -> Option<Seq<u8>> {
    match text {
        Some(text) => Some(encode_utf8(text)),
        None => None,
    }
}

/// What the quote body of a report yields: it must be base64 of a quote, and
/// the quote's report data must be the expected binding value, if one is
/// given.
pub open spec fn quote_outcome(quote_body: Seq<char>, expected: Option<Seq<u8>>) -> Result<
    QuoteModel,
    ErrorModel,
> {
    match base64_decoded(encode_utf8(quote_body)) {
        Some(bytes) => match quote_spec(bytes) {
            Ok(quote) => binding_spec(quote, expected),
            Err(e) => Err(e),
        },
        None => Err(ErrorModel::MalformedReport),
    }
}

/// What a decoded report yields at `now`: the first failure among the
/// freshness check, the verdict and the quote body, or else the quote.
pub open spec fn report_outcome(
    report: ReportModel,
    expected: Option<Seq<u8>>,
    now: int,
    policy: FreshnessPolicy,
) -> Result<QuoteModel, ErrorModel> {
    match freshness_spec(report_time(report.timestamp), now, policy) {
        Err(e) => Err(e),
        Ok(_) => match status_spec(report.quote_status, optional_utf8(report.platform_info_blob)) {
            Err(e) => Err(e),
            Ok(_) => quote_outcome(report.quote_body, expected),
        },
    }
}

/// What verification yields when the clock was read as `reading`, `None`
/// standing for a clock that could not be read: the first failure among the
/// build mode gate, the decoding of the report, the reading of the clock, and
/// the gates on the decoded report, or else the quote.
pub open spec fn clocked_outcome(
    report_bytes: Seq<u8>,
    mode: BuildMode,
    expected: Option<Seq<u8>>,
    reading: Option<int>,
    policy: FreshnessPolicy,
) -> Result<QuoteModel, ErrorModel> {
    if mode != BuildMode::Production {
        Err(ErrorModel::InvalidBuildMode)
    } else {
        match decoded_report(report_bytes) {
            Ok(report) => match reading {
                Some(now) => report_outcome(report, expected, now, policy),
                None => Err(ErrorModel::ClockError),
            },
            Err(e) => Err(e),
        }
    }
}

/// What verification yields at `now`, in seconds since the Unix epoch.
pub open spec fn verify_spec(
    report_bytes: Seq<u8>,
    mode: BuildMode,
    expected: Option<Seq<u8>>,
    now: int,
    policy: FreshnessPolicy,
) -> Result<QuoteModel, ErrorModel> {
    clocked_outcome(report_bytes, mode, expected, Some(now), policy)
}

/// A reading of the clock as a mathematical value.
pub open spec fn reading_view(reading: Option<i64>) -> Option<int> {
    match reading {
        Some(now) => Some(now as int),
        None => None,
    }
}

/// Whether `r` is what verification yields when the clock was read as
/// `reading`.
pub open spec fn is_outcome_with(
    r: Result<Quote, AttestationError>,
    report_bytes: Seq<u8>,
    mode: BuildMode,
    expected: Option<Seq<u8>>,
    reading: Option<i64>,
    policy: FreshnessPolicy,
) -> bool {
    result_view(r) == clocked_outcome(report_bytes, mode, expected, reading_view(reading), policy)
}

/// Decodes and parses the quote body of a report and checks its binding.
pub fn verify_quote_body(quote_body: &str, expected_binding: Option<&[u8]>) -> (r: Result<
    Quote,
    AttestationError,
>)
    ensures
        result_view(r) == quote_outcome(quote_body@, optional_binding(expected_binding)),
{
    let bytes = match base64_decode(quote_body.as_bytes()) {
        Ok(bytes) => bytes,
        Err(_) => { return Err(AttestationError::MalformedReport); },
    };
    match parse_quote(bytes.as_slice()) {
        Ok(quote) => check_binding(quote, expected_binding),
        Err(e) => Err(e),
    }
}

/// Passes a decoded report through the freshness check, the verdict and the
/// quote body, as seen at `now`, given in seconds since the Unix epoch.
pub fn verify_report(
    report: &AttestationReport,
    expected_binding: Option<&[u8]>,
    now: i64,
    policy: &FreshnessPolicy,
) -> (r: Result<Quote, AttestationError>)
    ensures
        result_view(r) == report_outcome(
            report@,
            optional_binding(expected_binding),
            now as int,
            *policy,
        ),
{
    match check_freshness(report.timestamp.as_str(), now, policy) {
        Err(e) => { return Err(e); },
        Ok(_) => {},
    }
    let blob: Option<&str> = match &report.platform_info_blob {
        Some(blob) => Some(blob.as_str()),
        None => None,
    };
    match evaluate_status(report.quote_status.as_str(), blob) {
        Err(e) => { return Err(e); },
        Ok(_) => {},
    }
    verify_quote_body(report.quote_body.as_str(), expected_binding)
}

/// Verifies an attestation report, given what the clock showed: `reading` is
/// the time in seconds since the Unix epoch, or `None` if the clock could not
/// be read.
///
/// The report is accepted, and its quote returned, only if the enclave is a
/// production build, the report decodes, the clock was read, the report is
/// fresh at that time, its verdict is accepted, its quote body parses, and
/// the quote's report data is the expected binding value where one is given.
/// The first gate that fails decides the error.
pub fn verify_with_clock(
    report_bytes: &[u8],
    declared_build_mode: BuildMode,
    expected_binding: Option<&[u8]>,
    reading: Option<i64>,
    policy: &FreshnessPolicy,
) -> (r: Result<Quote, AttestationError>)
    ensures
        result_view(r) == clocked_outcome(
            report_bytes@,
            declared_build_mode,
            optional_binding(expected_binding),
            reading_view(reading),
            *policy,
        ),
{
    match declared_build_mode {
        BuildMode::Production => {},
        _ => { return Err(AttestationError::InvalidBuildMode); },
    }
    let report = match decode_report(report_bytes) {
        Ok(report) => report,
        Err(e) => { return Err(e); },
    };
    match reading {
        Some(now) => verify_report(&report, expected_binding, now, policy),
        None => Err(AttestationError::ClockError),
    }
}

/// Verifies an attestation report as seen at `now`, given in seconds since
/// the Unix epoch.
pub fn verify_at(
    report_bytes: &[u8],
    declared_build_mode: BuildMode,
    expected_binding: Option<&[u8]>,
    now: i64,
    policy: &FreshnessPolicy,
) -> (r: Result<Quote, AttestationError>)
    ensures
        result_view(r) == verify_spec(
            report_bytes@,
            declared_build_mode,
            optional_binding(expected_binding),
            now as int,
            *policy,
        ),
{
    verify_with_clock(report_bytes, declared_build_mode, expected_binding, Some(now), policy)
}

/// Verifies an attestation report as seen now, by the wall clock.
///
/// The clock is read once. Whatever it shows, an enclave that is no
/// production build is rejected for that, and a report that does not decode
/// is rejected for that; beyond these the outcome is that of
/// [`verify_with_clock`] for what the clock showed.
pub fn ra_attestation(
    report_bytes: &[u8],
    declared_build_mode: BuildMode,
    expected_binding: Option<&[u8]>,
    policy: &FreshnessPolicy,
) -> (r: Result<Quote, AttestationError>)
    ensures
        declared_build_mode != BuildMode::Production ==> result_view(r) == Err::<
            QuoteModel,
            ErrorModel,
        >(ErrorModel::InvalidBuildMode),
        declared_build_mode == BuildMode::Production ==> (decoded_report(report_bytes@) matches Err(
            e,
        ) ==> result_view(r) == Err::<QuoteModel, ErrorModel>(e)),
        exists|reading: Option<i64>| #[trigger]
            is_outcome_with(
                r,
                report_bytes@,
                declared_build_mode,
                optional_binding(expected_binding),
                reading,
                *policy,
            ),
{
    let reading = unix_now();
    let r = verify_with_clock(report_bytes, declared_build_mode, expected_binding, reading, policy);
    assert(is_outcome_with(
        r,
        report_bytes@,
        declared_build_mode,
        optional_binding(expected_binding),
        reading,
        *policy,
    ));
    r
}

} // verus!
