//! Adapter for the ritual_engine tool: typed request and response shapes,
//! the request's wire encoding, the response's decoding, and the conversion
//! of one finished exchange into a result envelope.

use vstd::prelude::*;
use crate::{BridgeError, BridgeResult};
use crate::config::SubprocessConfig;
use crate::envelope::{outcome_to_envelope, CapabilityResult};
use crate::executor::{spec_classify_event, classify_event, ProcessEvent};
use crate::json;
use crate::codexify::{opt_pairs_view};
use crate::timefmt::is_rfc3339;
use vstd::string::StrSliceExecFns;

verus! {

/// Request structure for the ritual_engine tool.
#[derive(Debug, Clone, PartialEq, Eq)]
pub struct RitualEngineRequest {
    pub ritual_type: String,
    pub parameters: Vec<(String, String)>,
    pub context: Option<String>,
    pub metadata: Option<Vec<(String, String)>>,
}

/// Response structure for the ritual_engine tool. The completion time is
/// carried as RFC 3339 text.
#[derive(Debug, Clone, PartialEq, Eq)]
pub struct RitualEngineResponse {
    pub ritual_id: String,
    pub status: String,
    pub result: Vec<(String, String)>,
    pub logs: Vec<String>,
    pub metadata: Vec<(String, String)>,
    pub completed_at: String,
}

/// The wire text of a ritual_engine request: one JSON object with the
/// fields in declaration order, absent options written as `null`.
pub open spec fn spec_ritual_request_text(
    ritual_type: Seq<char>,
    parameters: Seq<(Seq<char>, Seq<char>)>,
    context: Option<Seq<char>>,
    metadata: Option<Seq<(Seq<char>, Seq<char>)>>,
) -> Seq<char> {
    "{\"ritual_type\":"@ + json::spec_json_string(ritual_type) + ",\"parameters\":"@
        + json::spec_string_map_text(parameters) + ",\"context\":"@ + (match context {
        Some(c) => json::spec_json_string(c),
        None => "null"@,
    }) + ",\"metadata\":"@ + (match metadata {
        Some(ps) => json::spec_string_map_text(ps),
        None => "null"@,
    }) + "}"@
}

/// The view of an optional string.
pub open spec fn opt_string_view(v: Option<String>) -> Option<Seq<char>> {
    match v {
        Some(x) => Some(x@),
        None => None,
    }
}

/// Serializes a ritual_engine request to its wire text.
pub fn render_ritual_request(req: &RitualEngineRequest) -> (r: String)
    ensures
        r@ == spec_ritual_request_text(
            req.ritual_type@,
            json::pairs_view(req.parameters@),
            opt_string_view(req.context),
            opt_pairs_view(req.metadata),
        ),
{
    let mut out: Vec<char> = Vec::new();
    json::push_str_chars("{\"ritual_type\":", &mut out);
    json::push_json_string(req.ritual_type.as_str(), &mut out);
    json::push_str_chars(",\"parameters\":", &mut out);
    json::push_string_map(&req.parameters, &mut out);
    json::push_str_chars(",\"context\":", &mut out);
    match &req.context {
        Some(c) => json::push_json_string(c.as_str(), &mut out),
        None => json::push_str_chars("null", &mut out),
    };
    json::push_str_chars(",\"metadata\":", &mut out);
    match &req.metadata {
        Some(ps) => json::push_string_map(ps, &mut out),
        None => json::push_str_chars("null", &mut out),
    };
    json::push_str_chars("}", &mut out);
    let r = crate::strutil::chars_to_string(&out);
    proof {
        assert(r@ =~= spec_ritual_request_text(
            req.ritual_type@,
            json::pairs_view(req.parameters@),
            opt_string_view(req.context),
            opt_pairs_view(req.metadata),
        ));
    }
    r
}

/// The decoded fields of a ritual_engine response, when the text is one
/// JSON object carrying all of them in the expected shapes, with a
/// well-formed completion timestamp.
pub open spec fn spec_ritual_response(text: Seq<char>) -> Option<
    (
        Seq<char>,
        Seq<char>,
        Seq<(Seq<char>, Seq<char>)>,
        Seq<Seq<char>>,
        Seq<(Seq<char>, Seq<char>)>,
        Seq<char>,
    ),
> {
    match json::spec_parse_doc(text) {
        Some(ms) => match json::spec_get_string(text, ms, "ritual_id"@) {
            Some(ritual_id) => match json::spec_get_string(text, ms, "status"@) {
                Some(status) => match json::spec_get_string_map(text, ms, "result"@) {
                    Some(result) => match json::spec_get_string_array(text, ms, "logs"@) {
                        Some(logs) => match json::spec_get_string_map(text, ms, "metadata"@) {
                            Some(metadata) => match json::spec_get_string(
                                text,
                                ms,
                                "completed_at"@,
                            ) {
                                Some(completed_at) => if is_rfc3339(completed_at) {
                                    Some((ritual_id, status, result, logs, metadata, completed_at))
                                } else {
                                    None
                                },
                                None => None,
                            },
                            None => None,
                        },
                        None => None,
                    },
                    None => None,
                },
                None => None,
            },
            None => None,
        },
        None => None,
    }
}

/// Decodes a ritual_engine response from wire text.
pub fn parse_ritual_response(text: &str) -> (r: Option<RitualEngineResponse>)
    requires
        json::spec_text_fits(text@.len() as int),
    ensures
        (match r {
            None => spec_ritual_response(text@) is None,
            Some(resp) => spec_ritual_response(text@) == Some(
                (
                    resp.ritual_id@,
                    resp.status@,
                    json::pairs_view(resp.result@),
                    json::strings_view(resp.logs@),
                    json::pairs_view(resp.metadata@),
                    resp.completed_at@,
                ),
            ),
        }),
{
    let chars = crate::strutil::str_to_chars(text);
    match json::parse_doc(chars) {
        Some(doc) => {
            match json::get_string(&doc.chars, &doc.members, "ritual_id") {
                Some(ritual_id) => match json::get_string(&doc.chars, &doc.members, "status") {
                    Some(status) => match json::get_string_map(&doc.chars, &doc.members, "result") {
                        Some(result) => match json::get_string_array(
                            &doc.chars,
                            &doc.members,
                            "logs",
                        ) {
                            Some(logs) => match json::get_string_map(
                                &doc.chars,
                                &doc.members,
                                "metadata",
                            ) {
                                Some(metadata) => match json::get_string(
                                    &doc.chars,
                                    &doc.members,
                                    "completed_at",
                                ) {
                                    Some(completed_at) => {
                                        if crate::timefmt::rfc3339_valid(completed_at.as_str()) {
                                            Some(RitualEngineResponse {
                                                ritual_id,
                                                status,
                                                result,
                                                logs,
                                                metadata,
                                                completed_at,
                                            })
                                        } else {
                                            None
                                        }
                                    },
                                    None => None,
                                },
                                None => None,
                            },
                            None => None,
                        },
                        None => None,
                    },
                    None => None,
                },
                None => None,
            }
        },
        None => None,
    }
}

/// Completes one ritual_engine exchange at the executor level:
/// classification first, then decoding of a zero-exit tool's output; a
/// malformed response is an `InvalidOutput` failure.
pub fn ritual_call_outcome(event: ProcessEvent, timeout_ms: u64) -> (r: BridgeResult<
    RitualEngineResponse,
>)
    requires
        timeout_ms > 0,
    ensures
        (match spec_classify_event(event, timeout_ms) {
            Err(e) => r == Err::<RitualEngineResponse, BridgeError>(e),
            Ok(out) => if json::spec_text_fits(out@.len() as int) {
                match spec_ritual_response(out@) {
                    Some(fields) => (r matches Ok(resp) && (
                        resp.ritual_id@,
                        resp.status@,
                        json::pairs_view(resp.result@),
                        json::strings_view(resp.logs@),
                        json::pairs_view(resp.metadata@),
                        resp.completed_at@,
                    ) == fields),
                    None => (r matches Err(e) && (e matches BridgeError::InvalidOutput(m) && m@
                        == "malformed ritual_engine response"@)),
                }
            } else {
                (r matches Err(e) && (e matches BridgeError::InvalidOutput(m) && m@
                    == "malformed ritual_engine response"@))
            },
        }),
{
    match classify_event(event, timeout_ms) {
        Err(e) => Err(e),
        Ok(out) => {
            if json::text_fits(out.as_str().unicode_len()) {
                match parse_ritual_response(out.as_str()) {
                    Some(resp) => Ok(resp),
                    None => Err(
                        BridgeError::InvalidOutput(
                            crate::strutil::str_to_string("malformed ritual_engine response"),
                        ),
                    ),
                }
            } else {
                Err(
                    BridgeError::InvalidOutput(
                        crate::strutil::str_to_string("malformed ritual_engine response"),
                    ),
                )
            }
        },
    }
}

/// Completes one ritual_engine exchange at the adapter level: expected
/// failures are converted into a failed envelope, never re-raised.
pub fn finish_ritual_call(event: ProcessEvent, timeout_ms: u64, duration_ms: u64) -> (r:
    CapabilityResult<RitualEngineResponse>)
    requires
        timeout_ms > 0,
    ensures
        r.well_formed(),
        r.metadata.tool_name@ == "ritual_engine"@,
        r.metadata.duration_ms == duration_ms,
        r.metadata.version@ == "1.0.0"@,
        crate::timefmt::is_rfc3339(r.metadata.timestamp@),
        (match spec_classify_event(event, timeout_ms) {
            Err(e) => r.success == false && (r.error matches Some(m) && m@
                == crate::spec_error_message(e)),
            Ok(out) => if json::spec_text_fits(out@.len() as int) {
                match spec_ritual_response(out@) {
                    Some(fields) => r.success == true && (r.data matches Some(resp) && (
                        resp.ritual_id@,
                        resp.status@,
                        json::pairs_view(resp.result@),
                        json::strings_view(resp.logs@),
                        json::pairs_view(resp.metadata@),
                        resp.completed_at@,
                    ) == fields),
                    None => r.success == false && (r.error matches Some(m) && m@
                        == "Invalid output format: "@ + "malformed ritual_engine response"@),
                }
            } else {
                r.success == false && (r.error matches Some(m) && m@
                    == "Invalid output format: "@ + "malformed ritual_engine response"@)
            },
        }),
{
    let outcome = ritual_call_outcome(event, timeout_ms);
    outcome_to_envelope(outcome, "ritual_engine", duration_ms, "1.0.0")
}

/// The default execution configuration for the ritual_engine tool: the
/// common defaults with a two-minute timeout.
pub fn default_ritual_engine_config() -> (r: SubprocessConfig)
    ensures
        r.timeout_ms == 120000u64,
        r.working_dir is None,
        r.env_vars@ =~= Seq::<(String, String)>::empty(),
        r.log_io == true,
        r.valid(),
{
    let mut config = SubprocessConfig::default();
    config.timeout_ms = 120000;
    config
}

} // verus!
