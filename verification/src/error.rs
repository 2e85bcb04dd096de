//! The failures with which a verification can end.

use vstd::prelude::*;

verus! {

/// A member of the attestation report's JSON object.
#[derive(Clone, Copy, Debug, PartialEq, Eq, Structural)]
pub enum ReportField {
    /// `timestamp`
    Timestamp,
    /// `isvEnclaveQuoteStatus`
    QuoteStatus,
    /// `platformInfoBlob`
    PlatformInfoBlob,
    /// `isvEnclaveQuoteBody`
    QuoteBody,
}

impl ReportField {
    /// The member's name as it stands in the report.
    pub open spec fn spec_name(self) -> Seq<char> {
        match self {
            ReportField::Timestamp => "timestamp"@,
            ReportField::QuoteStatus => "isvEnclaveQuoteStatus"@,
            ReportField::PlatformInfoBlob => "platformInfoBlob"@,
            ReportField::QuoteBody => "isvEnclaveQuoteBody"@,
        }
    }

    /// The member's name as it stands in the report.
    pub fn name(self) -> (s: &'static str)
        ensures
            s@ == self.spec_name(),
    {
        match self {
            ReportField::Timestamp => "timestamp",
            ReportField::QuoteStatus => "isvEnclaveQuoteStatus",
            ReportField::PlatformInfoBlob => "platformInfoBlob",
            ReportField::QuoteBody => "isvEnclaveQuoteBody",
        }
    }
}

/// Why a report was rejected. Every failure is terminal for the call that
/// returned it; none leaves a partly trusted quote behind.
#[derive(Clone, Debug, PartialEq, Eq)]
pub enum AttestationError {
    /// The enclave was not built for production.
    InvalidBuildMode,
    /// The report, or one of its encoded members, is not valid base64, JSON
    /// or hexadecimal text.
    MalformedReport,
    /// A mandatory member is absent or is not a string.
    MissingField(ReportField),
    /// The timestamp does not follow the report's date-time format.
    TimeParseError,
    /// The wall clock could not be read.
    ClockError,
    /// The report is older than the policy allows.
    ReportStale,
    /// The report is dated further ahead than the tolerated clock skew.
    ReportFromFuture,
    /// The attestation service gave a verdict that is never accepted; the
    /// verdict is carried as it stood in the report.
    StatusRejected(String),
    /// The platform info blob holds fewer bytes than a platform info record.
    TruncatedBlob,
    /// The platform info blob holds more bytes than a platform info record.
    BlobOverflow,
    /// The quote body is shorter than the quote layout.
    TruncatedQuote,
    /// The quote's report data differs from the expected binding value.
    BindingMismatch,
}

/// The mathematical value of an [`AttestationError`].
pub ghost enum ErrorModel {
    InvalidBuildMode,
    MalformedReport,
    MissingField(ReportField),
    TimeParseError,
    ClockError,
    ReportStale,
    ReportFromFuture,
    StatusRejected(Seq<char>),
    TruncatedBlob,
    BlobOverflow,
    TruncatedQuote,
    BindingMismatch,
}

impl View for AttestationError {
    type V = ErrorModel;

    open spec fn view(&self) -> ErrorModel {
        match self {
            AttestationError::InvalidBuildMode => ErrorModel::InvalidBuildMode,
            AttestationError::MalformedReport => ErrorModel::MalformedReport,
            AttestationError::MissingField(f) => ErrorModel::MissingField(*f),
            AttestationError::TimeParseError => ErrorModel::TimeParseError,
            AttestationError::ClockError => ErrorModel::ClockError,
            AttestationError::ReportStale => ErrorModel::ReportStale,
            AttestationError::ReportFromFuture => ErrorModel::ReportFromFuture,
            AttestationError::StatusRejected(s) => ErrorModel::StatusRejected(s@),
            AttestationError::TruncatedBlob => ErrorModel::TruncatedBlob,
            AttestationError::BlobOverflow => ErrorModel::BlobOverflow,
            AttestationError::TruncatedQuote => ErrorModel::TruncatedQuote,
            AttestationError::BindingMismatch => ErrorModel::BindingMismatch,
        }
    }
}

/// The mathematical value of a stage's outcome: the view of what it
/// produced, or the view of its failure.
pub open spec fn result_view<T: View>(r: Result<T, AttestationError>) -> Result<T::V, ErrorModel> {
    match r {
        Ok(value) => Ok(value@),
        Err(e) => Err(e@),
    }
}

impl ErrorModel {
    /// A short description of the failure. It names the stage and, for an
    /// absent member, the member; it never holds the report's content, not
    /// even a rejected verdict.
    pub open spec fn description(self) -> Seq<char> {
        match self {
            ErrorModel::InvalidBuildMode => "enclave is not a production build"@,
            ErrorModel::MalformedReport => "report is not well-formed"@,
            ErrorModel::MissingField(f) => "report lacks member "@ + f.spec_name(),
            ErrorModel::TimeParseError => "timestamp cannot be parsed"@,
            ErrorModel::ClockError => "clock cannot be read"@,
            ErrorModel::ReportStale => "report is stale"@,
            ErrorModel::ReportFromFuture => "report is dated in the future"@,
            ErrorModel::StatusRejected(_) => "quote status is rejected"@,
            ErrorModel::TruncatedBlob => "platform info blob is truncated"@,
            ErrorModel::BlobOverflow => "platform info blob overflows"@,
            ErrorModel::TruncatedQuote => "quote body is truncated"@,
            ErrorModel::BindingMismatch => "report data does not match the binding"@,
        }
    }
}

impl AttestationError {
    /// A short description of the failure, fit for an audit log.
    pub fn describe(&self) -> (s: String)
        ensures
            s@ == self@.description(),
    {
        match self {
            AttestationError::InvalidBuildMode => "enclave is not a production build".to_owned(),
            AttestationError::MalformedReport => "report is not well-formed".to_owned(),
            AttestationError::MissingField(f) => "report lacks member ".to_owned().concat(f.name()),
            AttestationError::TimeParseError => "timestamp cannot be parsed".to_owned(),
            AttestationError::ClockError => "clock cannot be read".to_owned(),
            AttestationError::ReportStale => "report is stale".to_owned(),
            AttestationError::ReportFromFuture => "report is dated in the future".to_owned(),
            AttestationError::StatusRejected(_) => "quote status is rejected".to_owned(),
            AttestationError::TruncatedBlob => "platform info blob is truncated".to_owned(),
            AttestationError::BlobOverflow => "platform info blob overflows".to_owned(),
            AttestationError::TruncatedQuote => "quote body is truncated".to_owned(),
            AttestationError::BindingMismatch => "report data does not match the binding".to_owned(),
        }
    }
}

} // verus!
