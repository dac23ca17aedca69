//! Timestamp text validation. Tools report creation and completion times as
//! RFC 3339 text; decoding checks the text is well-formed before accepting
//! a response.

use vstd::prelude::*;

verus! {

/// Whether the text is a well-formed RFC 3339 timestamp. The result is a
/// function of the text alone.
pub uninterp spec fn is_rfc3339(s: Seq<char>) -> bool;

/// Relies on chrono's DateTime::parse_from_rfc3339: it accepts exactly the
/// well-formed RFC 3339 timestamps, by the text alone.
#[verifier::external_body]
pub fn rfc3339_valid(s: &str) -> (r: bool)
    ensures
        r == is_rfc3339(s@),
{
    chrono::DateTime::parse_from_rfc3339(s).is_ok()
}

} // verus!
