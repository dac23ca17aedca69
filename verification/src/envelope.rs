//! The uniform success/failure wrapper returned to adapter callers: a domain
//! value or an error message, with tool name, duration, timestamp and version.

use vstd::prelude::*;
use crate::{BridgeResult, spec_error_message};
use crate::timefmt::is_rfc3339;

verus! {

/// Timing and versioning metadata stamped on every envelope.
#[derive(Debug, Clone)]
pub struct ResponseMetadata {
    pub tool_name: String,
    pub duration_ms: u64,
    /// Time the envelope was produced, as RFC 3339 text.
    pub timestamp: String,
    pub version: String,
}

/// Common response wrapper for all CLI tools. Exactly one of `data` and
/// `error` is present, and `success` says which.
#[derive(Debug, Clone)]
pub struct CapabilityResult<T> {
    pub success: bool,
    pub data: Option<T>,
    pub error: Option<String>,
    pub metadata: ResponseMetadata,
}

impl<T> CapabilityResult<T> {
    /// Success and error are mutually exclusive: never both set, never both
    /// absent, and `success` reports which one is present.
    pub open spec fn well_formed(&self) -> bool {
        &&& self.success <==> self.data is Some
        &&& self.success <==> self.error is None
    }

    /// Wraps a domain value in a success envelope.
    pub fn success(data: T, tool_name: &str, duration_ms: u64, version: &str) -> (r: Self)
        ensures
            r.success == true,
            r.data == Some(data),
            r.error is None,
            r.metadata.tool_name@ == tool_name@,
            r.metadata.duration_ms == duration_ms,
            r.metadata.version@ == version@,
            is_rfc3339(r.metadata.timestamp@),
            r.well_formed(),
    {
        CapabilityResult {
            success: true,
            data: Some(data),
            error: None,
            metadata: ResponseMetadata {
                tool_name: tool_name.to_owned(),
                duration_ms,
                timestamp: now_rfc3339(),
                version: version.to_owned(),
            },
        }
    }

    /// Wraps an error message in a failure envelope.
    pub fn error(error: String, tool_name: &str, duration_ms: u64, version: &str) -> (r: Self)
        ensures
            r.success == false,
            r.data is None,
            r.error == Some(error),
            r.metadata.tool_name@ == tool_name@,
            r.metadata.duration_ms == duration_ms,
            r.metadata.version@ == version@,
            is_rfc3339(r.metadata.timestamp@),
            r.well_formed(),
    {
        CapabilityResult {
            success: false,
            data: None,
            error: Some(error),
            metadata: ResponseMetadata {
                tool_name: tool_name.to_owned(),
                duration_ms,
                timestamp: now_rfc3339(),
                version: version.to_owned(),
            },
        }
    }
}

/// Converts an executor outcome into an envelope: a value becomes a success
/// envelope, an error becomes a failure envelope carrying the error's message
/// text. Expected failures never escape as errors.
pub fn outcome_to_envelope<T>(
    outcome: BridgeResult<T>,
    tool_name: &str,
    duration_ms: u64,
    version: &str,
) -> (r: CapabilityResult<T>)
    ensures
        r.well_formed(),
        r.metadata.tool_name@ == tool_name@,
        r.metadata.duration_ms == duration_ms,
        r.metadata.version@ == version@,
        is_rfc3339(r.metadata.timestamp@),
        (match outcome {
            Ok(v) => r.success == true && r.data == Some(v),
            Err(e) => r.success == false && (r.error matches Some(m) && m@ == spec_error_message(
                e,
            )),
        }),
{
    match outcome {
        Ok(v) => CapabilityResult::success(v, tool_name, duration_ms, version),
        Err(e) => CapabilityResult::error(e.message(), tool_name, duration_ms, version),
    }
}

/// Relies on chrono's DateTime::from_timestamp and DateTime::to_rfc3339
/// for the current wall-clock time as RFC 3339 text. The instant itself
/// depends on the clock, so nothing more is promised. A clock before the
/// epoch falls back to the epoch instant, and the seconds are clamped to
/// the last four-digit year: to_rfc3339 writes later years with five or
/// more digits, a form RFC 3339 itself does not admit.
#[verifier::external_body]
fn now_rfc3339() -> (r: String)
    ensures
        is_rfc3339(r@),
{
    let now = std::time::SystemTime::now()
        .duration_since(std::time::UNIX_EPOCH)
        .unwrap_or(std::time::Duration::ZERO);
    // 9999-12-31T23:59:59 UTC, the last second RFC 3339 can name.
    let secs = now.as_secs().min(253_402_300_799) as i64;
    chrono::DateTime::from_timestamp(secs, now.subsec_nanos())
        .unwrap_or(chrono::DateTime::UNIX_EPOCH)
        .to_rfc3339()
}

} // verus!
