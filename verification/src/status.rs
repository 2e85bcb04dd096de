//! The attestation service's verdict on a quote, and what follows from it.

use vstd::prelude::*;
use vstd::string::StringSliceAdditionalSpecFns;

use crate::error::{result_view, AttestationError, ErrorModel, ReportField};
use crate::platform_info::{extract_platform_info, platform_info_spec, PlatformInfo};

verus! {

/// How an accepted verdict is classified.
#[derive(Clone, Copy, Debug, PartialEq, Eq)]
pub enum StatusClass {
    /// The verdict is `OK`.
    Accepted,
    /// The platform needs attention. The report is structurally sound and
    /// carries this platform info; whether to trust such a platform is the
    /// caller's policy.
    AcceptedWithCaveat(PlatformInfo),
}

/// The mathematical value of a [`StatusClass`].
pub ghost enum StatusModel {
    Accepted,
    AcceptedWithCaveat(Seq<u8>),
}

impl View for StatusClass {
    type V = StatusModel;

    open spec fn view(&self) -> StatusModel {
        match self {
            StatusClass::Accepted => StatusModel::Accepted,
            StatusClass::AcceptedWithCaveat(info) => StatusModel::AcceptedWithCaveat(info@),
        }
    }
}

/// Whether `status` is the verdict that is accepted outright.
pub open spec fn is_ok_status(status: Seq<char>) -> bool {
    status == "OK"@
}

/// Whether `status` is one of the verdicts that are accepted with a caveat.
pub open spec fn is_caveat_status(status: Seq<char>) -> bool {
    ||| status == "GROUP_OUT_OF_DATE"@
    ||| status == "GROUP_REVOKED"@
    ||| status == "CONFIGURATION_NEEDED"@
}

/// What a verdict leads to. `blob` is the report's platform info blob, by its
/// bytes, if the report has one; it is looked at only for a verdict with a
/// caveat, and must then be there and decode.
pub open spec fn status_spec(status: Seq<char>, blob: Option<Seq<u8>>) -> Result<
    StatusModel,
    ErrorModel,
> {
    if is_ok_status(status) {
        Ok(StatusModel::Accepted)
    } else if is_caveat_status(status) {
        match blob {
            Some(blob) => match platform_info_spec(blob) {
                Ok(info) => Ok(StatusModel::AcceptedWithCaveat(info)),
                Err(e) => Err(e),
            },
            None => Err(ErrorModel::MissingField(ReportField::PlatformInfoBlob)),
        }
    } else {
        Err(ErrorModel::StatusRejected(status))
    }
}

/// The bytes of an optional text.
pub open spec fn optional_bytes(text: Option<&str>) -> Option<Seq<u8>> {
    match text {
        Some(text) => Some(text.spec_bytes()),
        None => None,
    }
}

/// Whether two texts are the same.
fn same_text(a: &str, b: &str) -> (same: bool)
    ensures
        same == (a@ == b@),
{
    a.to_owned() == b.to_owned()
}

/// Classifies the attestation service's verdict, decoding the platform info
/// blob where the verdict calls for it.
pub fn evaluate_status(status: &str, blob: Option<&str>) -> (r: Result<
    StatusClass,
    AttestationError,
>)
    ensures
        result_view(r) == status_spec(status@, optional_bytes(blob)),
{
    if same_text(status, "OK") {
        Ok(StatusClass::Accepted)
    } else if same_text(status, "GROUP_OUT_OF_DATE") || same_text(status, "GROUP_REVOKED")
        || same_text(status, "CONFIGURATION_NEEDED") {
        match blob {
            Some(blob) => match extract_platform_info(blob) {
                Ok(info) => Ok(StatusClass::AcceptedWithCaveat(info)),
                Err(e) => Err(e),
            },
            None => Err(AttestationError::MissingField(ReportField::PlatformInfoBlob)),
        }
    } else {
        Err(AttestationError::StatusRejected(status.to_owned()))
    }
}

} // verus!
