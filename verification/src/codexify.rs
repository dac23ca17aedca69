//! Adapter for the codexify tool: typed request and response shapes, the
//! request's wire encoding, the response's decoding, and the conversion of
//! one finished exchange into a result envelope.

use vstd::prelude::*;
use vstd::string::StringExecFns;
use crate::{BridgeError, BridgeResult};
use crate::config::SubprocessConfig;
use crate::envelope::{outcome_to_envelope, CapabilityResult};
use crate::executor::{spec_classify_event, classify_event, ProcessEvent};
use crate::json;
use crate::timefmt::is_rfc3339;
use vstd::string::StrSliceExecFns;

verus! {

/// Request structure for the codexify tool.
#[derive(Debug, Clone, PartialEq, Eq)]
pub struct CodexifyRequest {
    pub file_path: String,
    pub tags: Option<Vec<String>>,
    pub metadata: Option<Vec<(String, String)>>,
}

/// Response structure for the codexify tool. The creation time is carried
/// as RFC 3339 text.
#[derive(Debug, Clone, PartialEq, Eq)]
pub struct CodexifyResponse {
    pub node_id: String,
    pub summary: String,
    pub metadata: Vec<(String, String)>,
    pub tags: Vec<String>,
    pub created_at: String,
}

/// The wire text of a codexify request: one JSON object with the fields in
/// declaration order, absent options written as `null`.
pub open spec fn spec_codexify_request_text(
    file_path: Seq<char>,
    tags: Option<Seq<Seq<char>>>,
    metadata: Option<Seq<(Seq<char>, Seq<char>)>>,
) -> Seq<char> {
    "{\"file_path\":"@ + json::spec_json_string(file_path) + ",\"tags\":"@ + (match tags {
        Some(ts) => json::spec_string_array_text(ts),
        None => "null"@,
    }) + ",\"metadata\":"@ + (match metadata {
        Some(ps) => json::spec_string_map_text(ps),
        None => "null"@,
    }) + "}"@
}

/// The view of an optional vector of strings.
pub open spec fn opt_strings_view(v: Option<Vec<String>>) -> Option<Seq<Seq<char>>> {
    match v {
        Some(x) => Some(json::strings_view(x@)),
        None => None,
    }
}

/// The view of an optional vector of string pairs.
pub open spec fn opt_pairs_view(v: Option<Vec<(String, String)>>) -> Option<
    Seq<(Seq<char>, Seq<char>)>,
> {
    match v {
        Some(x) => Some(json::pairs_view(x@)),
        None => None,
    }
}

/// Serializes a codexify request to its wire text.
pub fn render_codexify_request(req: &CodexifyRequest) -> (r: String)
    ensures
        r@ == spec_codexify_request_text(
            req.file_path@,
            opt_strings_view(req.tags),
            opt_pairs_view(req.metadata),
        ),
{
    let mut out: Vec<char> = Vec::new();
    json::push_str_chars("{\"file_path\":", &mut out);
    json::push_json_string(req.file_path.as_str(), &mut out);
    json::push_str_chars(",\"tags\":", &mut out);
    match &req.tags {
        Some(ts) => json::push_string_array(ts, &mut out),
        None => json::push_str_chars("null", &mut out),
    };
    json::push_str_chars(",\"metadata\":", &mut out);
    match &req.metadata {
        Some(ps) => json::push_string_map(ps, &mut out),
        None => json::push_str_chars("null", &mut out),
    };
    json::push_str_chars("}", &mut out);
    let r = crate::strutil::chars_to_string(&out);
    proof {
        assert(r@ =~= spec_codexify_request_text(
            req.file_path@,
            opt_strings_view(req.tags),
            opt_pairs_view(req.metadata),
        ));
    }
    r
}

/// The decoded fields of a codexify response, when the text is one JSON
/// object carrying all of them in the expected shapes, with a well-formed
/// creation timestamp.
pub open spec fn spec_codexify_response(text: Seq<char>) -> Option<
    (Seq<char>, Seq<char>, Seq<(Seq<char>, Seq<char>)>, Seq<Seq<char>>, Seq<char>),
> {
    match json::spec_parse_doc(text) {
        Some(ms) => match json::spec_get_string(text, ms, "node_id"@) {
            Some(node_id) => match json::spec_get_string(text, ms, "summary"@) {
                Some(summary) => match json::spec_get_string_map(text, ms, "metadata"@) {
                    Some(metadata) => match json::spec_get_string_array(text, ms, "tags"@) {
                        Some(tags) => match json::spec_get_string(text, ms, "created_at"@) {
                            Some(created_at) => if is_rfc3339(created_at) {
                                Some((node_id, summary, metadata, tags, created_at))
                            } else {
                                None
                            },
                            None => None,
                        },
                        None => None,
                    },
                    None => None,
                },
                None => None,
            },
            None => None,
        },
        None => None,
    }
}

/// Decodes a codexify response from wire text.
pub fn parse_codexify_response(text: &str) -> (r: Option<CodexifyResponse>)
    requires
        json::spec_text_fits(text@.len() as int),
    ensures
        (match r {
            None => spec_codexify_response(text@) is None,
            Some(resp) => spec_codexify_response(text@) == Some(
                (
                    resp.node_id@,
                    resp.summary@,
                    json::pairs_view(resp.metadata@),
                    json::strings_view(resp.tags@),
                    resp.created_at@,
                ),
            ),
        }),
{
    let chars = crate::strutil::str_to_chars(text);
    match json::parse_doc(chars) {
        Some(doc) => {
            match json::get_string(&doc.chars, &doc.members, "node_id") {
                Some(node_id) => match json::get_string(&doc.chars, &doc.members, "summary") {
                    Some(summary) => match json::get_string_map(&doc.chars, &doc.members, "metadata") {
                        Some(metadata) => match json::get_string_array(&doc.chars, &doc.members, "tags") {
                            Some(tags) => match json::get_string(&doc.chars, &doc.members, "created_at") {
                                Some(created_at) => {
                                    if crate::timefmt::rfc3339_valid(created_at.as_str()) {
                                        Some(CodexifyResponse {
                                            node_id,
                                            summary,
                                            metadata,
                                            tags,
                                            created_at,
                                        })
                                    } else {
                                        None
                                    }
                                },
                                None => None,
                            },
                            None => None,
                        },
                        None => None,
                    },
                    None => None,
                },
                None => None,
            }
        },
        None => None,
    }
}

/// Completes one codexify exchange at the executor level: classification
/// first, then decoding of a zero-exit tool's output; a malformed response
/// is an `InvalidOutput` failure.
pub fn codexify_call_outcome(event: ProcessEvent, timeout_ms: u64) -> (r: BridgeResult<
    CodexifyResponse,
>)
    requires
        timeout_ms > 0,
    ensures
        (match spec_classify_event(event, timeout_ms) {
            Err(e) => r == Err::<CodexifyResponse, BridgeError>(e),
            Ok(out) => if json::spec_text_fits(out@.len() as int) {
                match spec_codexify_response(out@) {
                    Some(fields) => (r matches Ok(resp) && (
                        resp.node_id@,
                        resp.summary@,
                        json::pairs_view(resp.metadata@),
                        json::strings_view(resp.tags@),
                        resp.created_at@,
                    ) == fields),
                    None => (r matches Err(e) && (e matches BridgeError::InvalidOutput(m) && m@
                        == "malformed codexify response"@)),
                }
            } else {
                (r matches Err(e) && (e matches BridgeError::InvalidOutput(m) && m@
                    == "malformed codexify response"@))
            },
        }),
{
    match classify_event(event, timeout_ms) {
        Err(e) => Err(e),
        Ok(out) => {
            if json::text_fits(out.as_str().unicode_len()) {
                match parse_codexify_response(out.as_str()) {
                    Some(resp) => Ok(resp),
                    None => Err(
                        BridgeError::InvalidOutput(
                            crate::strutil::str_to_string("malformed codexify response"),
                        ),
                    ),
                }
            } else {
                Err(
                    BridgeError::InvalidOutput(
                        crate::strutil::str_to_string("malformed codexify response"),
                    ),
                )
            }
        },
    }
}

/// Completes one codexify exchange at the adapter level: expected failures
/// are converted into a failed envelope, never re-raised.
pub fn finish_codexify_call(event: ProcessEvent, timeout_ms: u64, duration_ms: u64) -> (r:
    CapabilityResult<CodexifyResponse>)
    requires
        timeout_ms > 0,
    ensures
        r.well_formed(),
        r.metadata.tool_name@ == "codexify"@,
        r.metadata.duration_ms == duration_ms,
        r.metadata.version@ == "1.0.0"@,
        crate::timefmt::is_rfc3339(r.metadata.timestamp@),
        (match spec_classify_event(event, timeout_ms) {
            Err(e) => r.success == false && (r.error matches Some(m) && m@
                == crate::spec_error_message(e)),
            Ok(out) => if json::spec_text_fits(out@.len() as int) {
                match spec_codexify_response(out@) {
                    Some(fields) => r.success == true && (r.data matches Some(resp) && (
                        resp.node_id@,
                        resp.summary@,
                        json::pairs_view(resp.metadata@),
                        json::strings_view(resp.tags@),
                        resp.created_at@,
                    ) == fields),
                    None => r.success == false && (r.error matches Some(m) && m@
                        == "Invalid output format: "@ + "malformed codexify response"@),
                }
            } else {
                r.success == false && (r.error matches Some(m) && m@
                    == "Invalid output format: "@ + "malformed codexify response"@)
            },
        }),
{
    let outcome = codexify_call_outcome(event, timeout_ms);
    outcome_to_envelope(outcome, "codexify", duration_ms, "1.0.0")
}

/// Completes one schema-introspection exchange: a zero-exit tool must have
/// written one JSON value, which is handed back as text; every expected
/// failure is reported as an `InvalidOutput` failure whose message names
/// the cause.
pub fn fetch_schema_outcome(event: ProcessEvent, timeout_ms: u64) -> (r: BridgeResult<String>)
    requires
        timeout_ms > 0,
    ensures
        (match spec_classify_event(event, timeout_ms) {
            Err(e) => (r matches Err(e2) && (e2 matches BridgeError::InvalidOutput(m) && m@
                == "Failed to fetch schema: "@ + crate::spec_error_message(e))),
            Ok(out) => if json::spec_text_fits(out@.len() as int) && json::spec_is_json_value_text(
                out@,
            ) {
                (r matches Ok(v) && v@ == out@)
            } else {
                (r matches Err(e2) && (e2 matches BridgeError::InvalidOutput(m) && m@
                    == "Failed to fetch schema: "@ + ("Invalid output format: "@
                    + "malformed schema output"@)))
            },
        }),
{
    match classify_event(event, timeout_ms) {
        Ok(out) => {
            if json::text_fits(out.as_str().unicode_len()) {
                let chars = crate::strutil::str_to_chars(out.as_str());
                if json::is_json_value_text(&chars) {
                    return Ok(out);
                }
            }
            let inner = BridgeError::InvalidOutput(
                crate::strutil::str_to_string("malformed schema output"),
            );
            Err(
                BridgeError::InvalidOutput(
                    String::from_str("Failed to fetch schema: ").concat(inner.message().as_str()),
                ),
            )
        },
        Err(e) => Err(
            BridgeError::InvalidOutput(
                String::from_str("Failed to fetch schema: ").concat(e.message().as_str()),
            ),
        ),
    }
}

/// The default execution configuration for the codexify tool: the common
/// defaults with a sixty-second timeout.
pub fn default_codexify_config() -> (r: SubprocessConfig)
    ensures
        r.timeout_ms == 60000u64,
        r.working_dir is None,
        r.env_vars@ =~= Seq::<(String, String)>::empty(),
        r.log_io == true,
        r.valid(),
{
    let mut config = SubprocessConfig::default();
    config.timeout_ms = 60000;
    config
}

/// The execution configuration for a schema-introspection call: the common
/// defaults with a ten-second timeout.
pub fn schema_fetch_config() -> (r: SubprocessConfig)
    ensures
        r.timeout_ms == 10000u64,
        r.working_dir is None,
        r.env_vars@ =~= Seq::<(String, String)>::empty(),
        r.log_io == true,
        r.valid(),
{
    let mut config = SubprocessConfig::default();
    config.timeout_ms = 10000;
    config
}

} // verus!
