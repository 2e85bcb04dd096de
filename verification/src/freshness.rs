//! The freshness window: how old, and how far ahead, a report may be dated.

use vstd::prelude::*;
use vstd::string::StringExecFns;

use crate::error::{result_view, AttestationError, ErrorModel};

verus! {

/// The bounds on a report's age. Both are enforced: a report outside the
/// window is rejected, since an unbounded window would let an old report be
/// replayed.
#[derive(Clone, Copy, Debug, PartialEq, Eq)]
pub struct FreshnessPolicy {
    /// The greatest age, in seconds, at which a report is still accepted.
    pub max_age_secs: u64,
    /// How many seconds ahead of the verifier's clock a report may be dated.
    pub max_skew_secs: u64,
}

/// The standard greatest age of a report: one day.
pub const STANDARD_MAX_AGE_SECS: u64 = 86_400;

/// The standard tolerance for clock skew: five minutes.
pub const STANDARD_MAX_SKEW_SECS: u64 = 300;

impl FreshnessPolicy {
    /// The standard policy: reports up to one day old, dated at most five
    /// minutes ahead.
    pub fn standard() -> (policy: FreshnessPolicy)
        ensures
            policy.max_age_secs == STANDARD_MAX_AGE_SECS,
            policy.max_skew_secs == STANDARD_MAX_SKEW_SECS,
    {
        FreshnessPolicy {
            max_age_secs: STANDARD_MAX_AGE_SECS,
            max_skew_secs: STANDARD_MAX_SKEW_SECS,
        }
    }
}

/// `chrono::ParseError`: why a text does not follow a format. Nothing is
/// known of it.
#[verifier::external_type_specification]
#[verifier::external_body]
pub struct ExParseError(chrono::ParseError);

/// The seconds since the Unix epoch of the instant that `text` denotes when
/// read by the strftime-style `format`, or `None` where `text` does not
/// follow `format`.
pub uninterp spec fn parsed_unix_seconds(text: Seq<char>, format: Seq<char>) -> Option<int>;

/// `chrono::DateTime::parse_from_str` followed by `DateTime::timestamp`: the
/// call succeeds exactly where the text follows the format, and then gives
/// the instant's seconds since the Unix epoch.
#[verifier::external_body]
fn parse_unix_seconds(text: &str, format: &str) -> (r: Result<i64, chrono::ParseError>)
    ensures
        match r {
            Ok(seconds) => parsed_unix_seconds(text@, format@) == Some(seconds as int),
            Err(_) => parsed_unix_seconds(text@, format@) is None,
        },
{
    Ok(chrono::DateTime::parse_from_str(text, format)?.timestamp())
}

/// The format of a report's timestamp once its offset is written out: date,
/// `T`, time with optional fractional seconds, numeric offset.
pub open spec fn timestamp_format() -> Seq<char> {
    "%Y-%m-%dT%H:%M:%S%.f%z"@
}

/// The offset that a report's timestamp implies: UTC.
pub open spec fn utc_offset() -> Seq<char> {
    "+0000"@
}

/// The instant at which a report says it was issued, in seconds since the
/// Unix epoch, or `None` if its timestamp cannot be read.
pub open spec fn report_time(timestamp: Seq<char>) -> Option<int> {
    parsed_unix_seconds(timestamp + utc_offset(), timestamp_format())
}

/// Whether a report issued at `issued` is fresh at `now`, both in seconds
/// since the Unix epoch: it is stale if older than the greatest age, and from
/// the future if dated ahead by more than the tolerated skew.
pub open spec fn age_spec(issued: int, now: int, policy: FreshnessPolicy) -> Result<
    (),
    ErrorModel,
> {
    if now - issued > policy.max_age_secs {
        Err(ErrorModel::ReportStale)
    } else if issued - now > policy.max_skew_secs {
        Err(ErrorModel::ReportFromFuture)
    } else {
        Ok(())
    }
}

/// Whether a report whose timestamp was read as `issued` is fresh at `now`.
pub open spec fn freshness_spec(issued: Option<int>, now: int, policy: FreshnessPolicy) -> Result<
    (),
    ErrorModel,
> {
    match issued {
        Some(issued) => age_spec(issued, now, policy),
        None => Err(ErrorModel::TimeParseError),
    }
}

/// Reads a report's timestamp as seconds since the Unix epoch.
pub fn parse_timestamp(timestamp: &str) -> (r: Option<i64>)
    ensures
        match r {
            Some(seconds) => report_time(timestamp@) == Some(seconds as int),
            None => report_time(timestamp@) is None,
        },
{
    let with_offset = timestamp.to_owned().concat("+0000");
    match parse_unix_seconds(with_offset.as_str(), "%Y-%m-%dT%H:%M:%S%.f%z") {
        Ok(seconds) => Some(seconds),
        Err(_) => None,
    }
}

/// Judges the age of a report issued at `issued`, as seen at `now`.
pub fn check_age(issued: i64, now: i64, policy: &FreshnessPolicy) -> (r: Result<
    (),
    AttestationError,
>)
    ensures
        result_view(r) == age_spec(issued as int, now as int, *policy),
{
    let age: i128 = now as i128 - issued as i128;
    if age > policy.max_age_secs as i128 {
        Err(AttestationError::ReportStale)
    } else if -age > policy.max_skew_secs as i128 {
        Err(AttestationError::ReportFromFuture)
    } else {
        Ok(())
    }
}

/// Checks that a report with the given timestamp is fresh at `now`, given in
/// seconds since the Unix epoch.
pub fn check_freshness(timestamp: &str, now: i64, policy: &FreshnessPolicy) -> (r: Result<
    (),
    AttestationError,
>)
    ensures
        result_view(r) == freshness_spec(report_time(timestamp@), now as int, *policy),
{
    match parse_timestamp(timestamp) {
        Some(issued) => check_age(issued, now, policy),
        None => Err(AttestationError::TimeParseError),
    }
}

} // verus!
