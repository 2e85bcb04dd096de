//! The attestation report as it comes over the wire: base64 text of a JSON
//! object whose members are strings.

use serde_json::Value;
use vstd::prelude::*;

use crate::error::{result_view, AttestationError, ErrorModel, ReportField};

verus! {

/// The members of an attestation report that verification reads.
#[derive(Clone, Debug, PartialEq, Eq)]
pub struct AttestationReport {
    /// When the report was issued: date, `T` and time with optional
    /// fractional seconds, in UTC.
    pub timestamp: String,
    /// The attestation service's verdict on the quote.
    pub quote_status: String,
    /// Hexadecimal text of the platform info; required only with a verdict
    /// that carries a caveat.
    pub platform_info_blob: Option<String>,
    /// Base64 text of the quote body.
    pub quote_body: String,
}

/// The mathematical value of an [`AttestationReport`].
pub ghost struct ReportModel {
    pub timestamp: Seq<char>,
    pub quote_status: Seq<char>,
    pub platform_info_blob: Option<Seq<char>>,
    pub quote_body: Seq<char>,
}

/// The characters of an optional text.
pub open spec fn optional_text(text: Option<String>) -> Option<Seq<char>> {
    match text {
        Some(text) => Some(text@),
        None => None,
    }
}

impl View for AttestationReport {
    type V = ReportModel;

    open spec fn view(&self) -> ReportModel {
        ReportModel {
            timestamp: self.timestamp@,
            quote_status: self.quote_status@,
            platform_info_blob: optional_text(self.platform_info_blob),
            quote_body: self.quote_body@,
        }
    }
}

/// `base64::DecodeError`: why a text is no base64. Nothing is known of it.
#[verifier::external_type_specification]
#[verifier::external_body]
pub struct ExDecodeError(base64::DecodeError);

/// `serde_json::Error`: why a text is no JSON. Nothing is known of it.
#[verifier::external_type_specification]
#[verifier::external_body]
pub struct ExJsonError(serde_json::Error);

/// `serde_json::Value`: a parsed JSON value. What it holds is known only
/// through [`json_text_members`].
#[verifier::external_type_specification]
#[verifier::external_body]
pub struct ExValue(Value);

/// The bytes that a text in standard, padded base64 stands for, or `None`
/// where the text is not such base64.
pub uninterp spec fn base64_decoded(text: Seq<u8>) -> Option<Seq<u8>>;

/// `base64::decode`: decodes standard, padded base64; the call fails exactly
/// where the text is not such base64. A slice never holds more than
/// `isize::MAX` bytes, so the lengths that the decoder computes from the
/// text's length do not overflow.
#[verifier::external_body]
pub(crate) fn base64_decode(text: &[u8]) -> (r: Result<Vec<u8>, base64::DecodeError>)
    ensures
        match r {
            Ok(bytes) => base64_decoded(text@) == Some(bytes@),
            Err(_) => base64_decoded(text@) is None,
        },
{
    base64::decode(text)
}

/// The members of a JSON value whose values are strings, by name. A value
/// that is no object has none.
pub uninterp spec fn json_text_members(value: Value) -> Map<Seq<char>, Seq<char>>;

/// The string members of the JSON value that `bytes` spell, or `None` where
/// `bytes` are not one JSON value.
pub uninterp spec fn json_parsed_members(bytes: Seq<u8>) -> Option<Map<Seq<char>, Seq<char>>>;

/// `serde_json::from_slice` at type `Value`: parses one JSON value; the call
/// fails exactly where the bytes are not one JSON value.
#[verifier::external_body]
fn json_parse(bytes: &[u8]) -> (r: Result<Value, serde_json::Error>)
    ensures
        match r {
            Ok(value) => json_parsed_members(bytes@) == Some(json_text_members(value)),
            Err(_) => json_parsed_members(bytes@) is None,
        },
{
    serde_json::from_slice(bytes)
}

/// Indexing a `Value` by a name, then `Value::as_str`: the string that the
/// member `name` holds; `None` where the value is no object, has no such
/// member, or the member is no string.
#[verifier::external_body]
fn json_text_member(value: &Value, name: &str) -> (r: Option<String>)
    ensures
        match r {
            Some(text) => json_text_members(*value).contains_key(name@) && json_text_members(
                *value,
            )[name@] == text@,
            None => !json_text_members(*value).contains_key(name@),
        },
{
    value[name].as_str().map(str::to_owned)
}

/// The string member that a report field names, if the report has it.
pub open spec fn member_of(members: Map<Seq<char>, Seq<char>>, field: ReportField) -> Option<
    Seq<char>,
> {
    if members.contains_key(field.spec_name()) {
        Some(members[field.spec_name()])
    } else {
        None
    }
}

/// The report that four optional members make. The timestamp, the verdict and
/// the quote body are mandatory; the first of them that is absent, in this
/// order, is named in the failure.
pub open spec fn assembled_report(
    timestamp: Option<Seq<char>>,
    quote_status: Option<Seq<char>>,
    platform_info_blob: Option<Seq<char>>,
    quote_body: Option<Seq<char>>,
) -> Result<ReportModel, ErrorModel> {
    if timestamp is None {
        Err(ErrorModel::MissingField(ReportField::Timestamp))
    } else if quote_status is None {
        Err(ErrorModel::MissingField(ReportField::QuoteStatus))
    } else if quote_body is None {
        Err(ErrorModel::MissingField(ReportField::QuoteBody))
    } else {
        Ok(
            ReportModel {
                timestamp: timestamp->0,
                quote_status: quote_status->0,
                platform_info_blob,
                quote_body: quote_body->0,
            },
        )
    }
}

/// What a report on the wire decodes to: it must be base64 of one JSON value,
/// and the value must hold the mandatory members as strings.
pub open spec fn decoded_report(report_bytes: Seq<u8>) -> Result<ReportModel, ErrorModel> {
    match base64_decoded(report_bytes) {
        Some(json) => match json_parsed_members(json) {
            Some(members) => assembled_report(
                member_of(members, ReportField::Timestamp),
                member_of(members, ReportField::QuoteStatus),
                member_of(members, ReportField::PlatformInfoBlob),
                member_of(members, ReportField::QuoteBody),
            ),
            None => Err(ErrorModel::MalformedReport),
        },
        None => Err(ErrorModel::MalformedReport),
    }
}

/// Makes a report of the members that were found in its JSON object.
pub fn assemble_report(
    timestamp: Option<String>,
    quote_status: Option<String>,
    platform_info_blob: Option<String>,
    quote_body: Option<String>,
) -> (r: Result<AttestationReport, AttestationError>)
    ensures
        result_view(r) == assembled_report(
            optional_text(timestamp),
            optional_text(quote_status),
            optional_text(platform_info_blob),
            optional_text(quote_body),
        ),
{
    let timestamp = match timestamp {
        Some(text) => text,
        None => { return Err(AttestationError::MissingField(ReportField::Timestamp)); },
    };
    let quote_status = match quote_status {
        Some(text) => text,
        None => { return Err(AttestationError::MissingField(ReportField::QuoteStatus)); },
    };
    let quote_body = match quote_body {
        Some(text) => text,
        None => { return Err(AttestationError::MissingField(ReportField::QuoteBody)); },
    };
    Ok(AttestationReport { timestamp, quote_status, platform_info_blob, quote_body })
}

/// Reads the member that `field` names out of a parsed report.
fn read_member(value: &Value, field: ReportField) -> (r: Option<String>)
    ensures
        optional_text(r) == member_of(json_text_members(*value), field),
{
    json_text_member(value, field.name())
}

/// Decodes a report from its wire form.
pub fn decode_report(report_bytes: &[u8]) -> (r: Result<AttestationReport, AttestationError>)
    ensures
        result_view(r) == decoded_report(report_bytes@),
{
    let json = match base64_decode(report_bytes) {
        Ok(json) => json,
        Err(_) => { return Err(AttestationError::MalformedReport); },
    };
    let value = match json_parse(json.as_slice()) {
        Ok(value) => value,
        Err(_) => { return Err(AttestationError::MalformedReport); },
    };
    assemble_report(
        read_member(&value, ReportField::Timestamp),
        read_member(&value, ReportField::QuoteStatus),
        read_member(&value, ReportField::PlatformInfoBlob),
        read_member(&value, ReportField::QuoteBody),
    )
}

} // verus!
