//! A typed bridge that runs external command-line tools as child processes,
//! exchanging a single JSON request/response pair over standard I/O under a
//! bounded timeout, and reporting a uniform success/error envelope.

pub mod config;
pub mod envelope;
pub mod executor;
pub mod codexify;
pub mod json;
pub mod manifest;
pub mod ritual_engine;
pub mod timefmt;
pub mod strutil;

use vstd::prelude::*;
use vstd::string::StringExecFns;

verus! {

/// Classified failure of one bridge call.
#[derive(Debug, Clone, PartialEq, Eq)]
pub enum BridgeError {
    /// Spawn or pipe failure; carries the reported message.
    Io(String),
    /// Malformed JSON on either side; carries a short diagnostic.
    Json(String),
    /// The tool did not exit within the configured timeout.
    Timeout { duration_ms: u64 },
    /// The tool exited with a non-zero status code.
    ProcessFailed(i32),
    /// Exit status zero, but standard output was not one well-formed
    /// JSON value of the expected shape.
    InvalidOutput(String),
    /// No tool of that name is known.
    ToolNotFound(String),
}

pub type BridgeResult<T> = Result<T, BridgeError>;

/// The human-readable text of an error, as shown in failed envelopes.
pub open spec fn spec_error_message(e: BridgeError) -> Seq<char> {
    match e {
        BridgeError::Io(m) => "IO error: "@ + m@,
        BridgeError::Json(m) => "JSON serialization error: "@ + m@,
        BridgeError::Timeout { duration_ms } => "Process timeout after "@
            + crate::strutil::u64_digits(duration_ms) + "ms"@,
        BridgeError::ProcessFailed(code) => "Process exited with non-zero status: "@
            + spec_i32_text(code),
        BridgeError::InvalidOutput(m) => "Invalid output format: "@ + m@,
        BridgeError::ToolNotFound(m) => "Tool not found: "@ + m@,
    }
}

/// Decimal text of a signed 32-bit value.
pub open spec fn spec_i32_text(code: i32) -> Seq<char> {
    if code >= 0 {
        crate::strutil::u64_digits(code as u64)
    } else {
        seq!['-'] + crate::strutil::u64_digits((-(code as int)) as u64)
    }
}

impl BridgeError {
    /// Renders the error as the message text a failed envelope carries.
    pub fn message(&self) -> (r: String)
        ensures
            r@ == spec_error_message(*self),
    {
        match self {
            BridgeError::Io(m) => String::from_str("IO error: ").concat(m.as_str()),
            BridgeError::Json(m) => String::from_str("JSON serialization error: ").concat(
                m.as_str(),
            ),
            BridgeError::Timeout { duration_ms } => {
                let mut v: Vec<char> = crate::strutil::str_to_chars("Process timeout after ");
                crate::strutil::push_u64_digits(*duration_ms, &mut v);
                v.push('m');
                v.push('s');
                let r = crate::strutil::chars_to_string(&v);
                proof {
                    reveal_strlit("ms");
                    assert(r@ =~= spec_error_message(*self));
                }
                r
            },
            BridgeError::ProcessFailed(code) => {
                let mut v: Vec<char> = crate::strutil::str_to_chars(
                    "Process exited with non-zero status: ",
                );
                push_i32_text(*code, &mut v);
                let r = crate::strutil::chars_to_string(&v);
                proof {
                    assert(r@ =~= spec_error_message(*self));
                }
                r
            },
            BridgeError::InvalidOutput(m) => String::from_str("Invalid output format: ").concat(
                m.as_str(),
            ),
            BridgeError::ToolNotFound(m) => String::from_str("Tool not found: ").concat(m.as_str()),
        }
    }
}

/// Appends the decimal text of a signed 32-bit value to `out`.
fn push_i32_text(code: i32, out: &mut Vec<char>)
    ensures
        final(out)@ == old(out)@ + spec_i32_text(code),
{
    if code >= 0 {
        crate::strutil::push_u64_digits(code as u64, out);
    } else {
        out.push('-');
        let magnitude: u64 = (-(code as i64)) as u64;
        crate::strutil::push_u64_digits(magnitude, out);
        assert(out@ =~= old(out)@ + spec_i32_text(code));
    }
}

} // verus!
