//! What holds of verification as a whole, proved from the definitions of its
//! stages.

use vstd::prelude::*;
use vstd::utf8::encode_utf8;

use crate::attestation::{
    clocked_outcome, optional_utf8, quote_outcome, verify_spec, BuildMode,
};
use crate::error::ErrorModel;
use crate::freshness::{age_spec, freshness_spec, report_time, FreshnessPolicy};
use crate::hex::{hex_decoded, is_hex_text};
use crate::platform_info::{platform_info_spec, BLOB_HEADER_CHARS, PLATFORM_INFO_SIZE};
use crate::quote::{
    binding_spec, le_u16_value, quote_spec, QuoteModel, MEASUREMENT_SIZE, MR_ENCLAVE_OFFSET,
    MR_SIGNER_OFFSET, QUOTE_SIZE, REPORT_DATA_OFFSET, REPORT_DATA_SIZE, SIGN_TYPE_OFFSET,
    VERSION_OFFSET,
};
use crate::report::{base64_decoded, decoded_report, ReportModel};
use crate::status::{is_caveat_status, is_ok_status, status_spec, StatusModel};

verus! {

/// Whether a platform info blob, after its header, is hexadecimal text that
/// spells `count` bytes.
pub open spec fn blob_spells(blob: Seq<u8>, count: int) -> bool {
    &&& blob.len() >= BLOB_HEADER_CHARS
    &&& is_hex_text(blob.skip(BLOB_HEADER_CHARS as int))
    &&& blob.len() - BLOB_HEADER_CHARS == 2 * count
}

/// A verdict with a caveat is not the verdict `OK`.
pub proof fn lemma_caveat_is_not_ok(status: Seq<char>)
    requires
        is_caveat_status(status),
    ensures
        !is_ok_status(status),
{
    reveal_strlit("OK");
    reveal_strlit("GROUP_OUT_OF_DATE");
    reveal_strlit("GROUP_REVOKED");
    reveal_strlit("CONFIGURATION_NEEDED");
    assert("OK"@.len() == 2);
}

/// An enclave that is not a production build is rejected for that, whatever
/// the report, the binding value, the clock and the policy.
pub proof fn law_build_mode_gate(
    report_bytes: Seq<u8>,
    mode: BuildMode,
    expected: Option<Seq<u8>>,
    reading: Option<int>,
    policy: FreshnessPolicy,
)
    requires
        mode != BuildMode::Production,
    ensures
        clocked_outcome(report_bytes, mode, expected, reading, policy) == Err::<
            QuoteModel,
            ErrorModel,
        >(ErrorModel::InvalidBuildMode),
{
}

/// A fresh report of a production enclave with the verdict `OK`, whose quote
/// body is base64 of at least a whole quote layout, is accepted when no
/// binding value is expected or the expected one is the quote's report data;
/// and the quote that is returned holds the bytes that stand at the layout's
/// offsets, unchanged.
pub proof fn law_ok_report_yields_quote(
    report_bytes: Seq<u8>,
    expected: Option<Seq<u8>>,
    now: int,
    policy: FreshnessPolicy,
    report: ReportModel,
    body: Seq<u8>,
)
    requires
        decoded_report(report_bytes) == Ok::<ReportModel, ErrorModel>(report),
        freshness_spec(report_time(report.timestamp), now, policy) is Ok,
        is_ok_status(report.quote_status),
        base64_decoded(encode_utf8(report.quote_body)) == Some(body),
        body.len() >= QUOTE_SIZE,
        expected matches Some(value) ==> value == body.subrange(
            REPORT_DATA_OFFSET as int,
            REPORT_DATA_OFFSET + REPORT_DATA_SIZE,
        ),
    ensures
        verify_spec(report_bytes, BuildMode::Production, expected, now, policy) matches Ok(quote)
            && quote.version == le_u16_value(body, VERSION_OFFSET as int)
            && quote.sign_type == le_u16_value(body, SIGN_TYPE_OFFSET as int)
            && quote.mr_enclave == body.subrange(
            MR_ENCLAVE_OFFSET as int,
            MR_ENCLAVE_OFFSET + MEASUREMENT_SIZE,
        ) && quote.mr_signer == body.subrange(
            MR_SIGNER_OFFSET as int,
            MR_SIGNER_OFFSET + MEASUREMENT_SIZE,
        ) && quote.report_data == body.subrange(
            REPORT_DATA_OFFSET as int,
            REPORT_DATA_OFFSET + REPORT_DATA_SIZE,
        ),
{
}

/// With a verdict that carries a caveat and a platform info blob that spells
/// exactly a platform info record, the status stage accepts, and carries the
/// record that the blob spells.
pub proof fn law_caveat_with_whole_blob_passes_status(status: Seq<char>, blob: Seq<u8>)
    requires
        is_caveat_status(status),
        blob_spells(blob, PLATFORM_INFO_SIZE as int),
    ensures
        status_spec(status, Some(blob)) == Ok::<StatusModel, ErrorModel>(
            StatusModel::AcceptedWithCaveat(hex_decoded(blob.skip(BLOB_HEADER_CHARS as int))),
        ),
{
    lemma_caveat_is_not_ok(status);
}

/// A fresh report of a production enclave, with a verdict that carries a
/// caveat and a platform info blob that spells exactly a platform info
/// record, is not rejected at the status stage: its outcome is that of its
/// quote body.
pub proof fn law_caveat_report_reaches_quote(
    report_bytes: Seq<u8>,
    expected: Option<Seq<u8>>,
    now: int,
    policy: FreshnessPolicy,
    report: ReportModel,
)
    requires
        decoded_report(report_bytes) == Ok::<ReportModel, ErrorModel>(report),
        freshness_spec(report_time(report.timestamp), now, policy) is Ok,
        is_caveat_status(report.quote_status),
        report.platform_info_blob matches Some(blob) && blob_spells(
            encode_utf8(blob),
            PLATFORM_INFO_SIZE as int,
        ),
    ensures
        verify_spec(report_bytes, BuildMode::Production, expected, now, policy) == quote_outcome(
            report.quote_body,
            expected,
        ),
{
    law_caveat_with_whole_blob_passes_status(
        report.quote_status,
        encode_utf8(report.platform_info_blob->0),
    );
}

/// A platform info blob that spells fewer bytes than a platform info record
/// is rejected as truncated, and one that spells more as overflowing: what a
/// blob decodes to is never cut short nor filled up.
pub proof fn law_blob_of_wrong_size_is_rejected(blob: Seq<u8>, count: int)
    requires
        blob_spells(blob, count),
    ensures
        count < PLATFORM_INFO_SIZE ==> platform_info_spec(blob) == Err::<Seq<u8>, ErrorModel>(
            ErrorModel::TruncatedBlob,
        ),
        count > PLATFORM_INFO_SIZE ==> platform_info_spec(blob) == Err::<Seq<u8>, ErrorModel>(
            ErrorModel::BlobOverflow,
        ),
        platform_info_spec(blob) matches Ok(info) ==> count == PLATFORM_INFO_SIZE && info.len()
            == PLATFORM_INFO_SIZE,
{
}

/// With a verdict that carries a caveat, a platform info blob of the wrong
/// size has the report rejected at the status stage, with the blob's error.
pub proof fn law_caveat_with_wrong_blob_fails_status(status: Seq<char>, blob: Seq<u8>, count: int)
    requires
        is_caveat_status(status),
        blob_spells(blob, count),
        count != PLATFORM_INFO_SIZE,
    ensures
        status_spec(status, Some(blob)) == Err::<StatusModel, ErrorModel>(
            if count < PLATFORM_INFO_SIZE {
                ErrorModel::TruncatedBlob
            } else {
                ErrorModel::BlobOverflow
            },
        ),
{
    lemma_caveat_is_not_ok(status);
    law_blob_of_wrong_size_is_rejected(blob, count);
}

/// A fresh report of a production enclave, with a verdict that carries a
/// caveat and a platform info blob of the wrong size, is rejected with the
/// blob's error, whatever its quote body holds.
pub proof fn law_wrong_blob_rejects_report(
    report_bytes: Seq<u8>,
    expected: Option<Seq<u8>>,
    now: int,
    policy: FreshnessPolicy,
    report: ReportModel,
    count: int,
)
    requires
        decoded_report(report_bytes) == Ok::<ReportModel, ErrorModel>(report),
        freshness_spec(report_time(report.timestamp), now, policy) is Ok,
        is_caveat_status(report.quote_status),
        report.platform_info_blob matches Some(blob) && blob_spells(encode_utf8(blob), count),
        count != PLATFORM_INFO_SIZE,
    ensures
        verify_spec(report_bytes, BuildMode::Production, expected, now, policy) == Err::<
            QuoteModel,
            ErrorModel,
        >(
            if count < PLATFORM_INFO_SIZE {
                ErrorModel::TruncatedBlob
            } else {
                ErrorModel::BlobOverflow
            },
        ),
{
    law_caveat_with_wrong_blob_fails_status(
        report.quote_status,
        encode_utf8(report.platform_info_blob->0),
        count,
    );
}

/// A report older than the greatest age is stale; one that is not older, and
/// not dated ahead of the clock by more than the tolerated skew, passes the
/// freshness check.
pub proof fn law_freshness_window(issued: int, now: int, policy: FreshnessPolicy)
    ensures
        now - issued > policy.max_age_secs ==> age_spec(issued, now, policy) == Err::<
            (),
            ErrorModel,
        >(ErrorModel::ReportStale),
        -policy.max_skew_secs <= now - issued <= policy.max_age_secs ==> age_spec(
            issued,
            now,
            policy,
        ) is Ok,
{
}

/// A report whose timestamp reads as an instant inside the window passes the
/// freshness stage.
pub proof fn law_report_in_window_is_fresh(
    timestamp: Seq<char>,
    now: int,
    policy: FreshnessPolicy,
    issued: int,
)
    requires
        report_time(timestamp) == Some(issued),
        -policy.max_skew_secs <= now - issued <= policy.max_age_secs,
    ensures
        freshness_spec(report_time(timestamp), now, policy) is Ok,
{
}

/// A report of a production enclave that decodes and is older than the
/// greatest age is rejected as stale, whatever else it holds.
pub proof fn law_stale_report_is_rejected(
    report_bytes: Seq<u8>,
    expected: Option<Seq<u8>>,
    now: int,
    policy: FreshnessPolicy,
    report: ReportModel,
    issued: int,
)
    requires
        decoded_report(report_bytes) == Ok::<ReportModel, ErrorModel>(report),
        report_time(report.timestamp) == Some(issued),
        now - issued > policy.max_age_secs,
    ensures
        verify_spec(report_bytes, BuildMode::Production, expected, now, policy) == Err::<
            QuoteModel,
            ErrorModel,
        >(ErrorModel::ReportStale),
{
}

/// A quote body shorter than the quote layout does not parse.
pub proof fn law_short_quote_is_truncated(body: Seq<u8>)
    requires
        body.len() < QUOTE_SIZE,
    ensures
        quote_spec(body) == Err::<QuoteModel, ErrorModel>(ErrorModel::TruncatedQuote),
{
}

/// A report of a production enclave that passes the freshness check and the
/// status stage, and whose quote body is base64 of fewer bytes than the quote
/// layout, is rejected as a truncated quote.
pub proof fn law_short_quote_rejects_report(
    report_bytes: Seq<u8>,
    expected: Option<Seq<u8>>,
    now: int,
    policy: FreshnessPolicy,
    report: ReportModel,
    body: Seq<u8>,
)
    requires
        decoded_report(report_bytes) == Ok::<ReportModel, ErrorModel>(report),
        freshness_spec(report_time(report.timestamp), now, policy) is Ok,
        status_spec(report.quote_status, optional_utf8(report.platform_info_blob)) is Ok,
        base64_decoded(encode_utf8(report.quote_body)) == Some(body),
        body.len() < QUOTE_SIZE,
    ensures
        verify_spec(report_bytes, BuildMode::Production, expected, now, policy) == Err::<
            QuoteModel,
            ErrorModel,
        >(ErrorModel::TruncatedQuote),
{
}

/// Verification accepts only what every gate accepts: an accepted report
/// comes from a production enclave, decodes, is fresh, has an accepted
/// verdict, and the quote that is returned is the one its quote body holds.
pub proof fn law_acceptance_passes_every_gate(
    report_bytes: Seq<u8>,
    mode: BuildMode,
    expected: Option<Seq<u8>>,
    now: int,
    policy: FreshnessPolicy,
)
    requires
        verify_spec(report_bytes, mode, expected, now, policy) is Ok,
    ensures
        mode == BuildMode::Production,
        match decoded_report(report_bytes) {
            Ok(report) => freshness_spec(report_time(report.timestamp), now, policy) is Ok
                && status_spec(report.quote_status, optional_utf8(report.platform_info_blob))
                is Ok && match base64_decoded(encode_utf8(report.quote_body)) {
                Some(body) => match quote_spec(body) {
                    Ok(quote) => binding_spec(quote, expected) == Ok::<QuoteModel, ErrorModel>(
                        quote,
                    ) && verify_spec(report_bytes, mode, expected, now, policy) == Ok::<
                        QuoteModel,
                        ErrorModel,
                    >(quote),
                    Err(_) => false,
                },
                None => false,
            },
            Err(_) => false,
        },
{
}

} // verus!
