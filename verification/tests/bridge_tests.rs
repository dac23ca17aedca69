//! End-to-end tests of the executor classification, the envelope, the JSON
//! codec, the adapters and the manifest model.

use cli_bridge::codexify::{
    codexify_call_outcome, fetch_schema_outcome, finish_codexify_call, parse_codexify_response,
    render_codexify_request, CodexifyRequest,
};
use cli_bridge::config::SubprocessConfig;
use cli_bridge::envelope::{outcome_to_envelope, CapabilityResult};
use cli_bridge::executor::{classify_event, ProcessEvent};
use cli_bridge::json;
use cli_bridge::manifest::{
    generate_all_manifests, generate_codexify_manifest, generate_ritual_engine_manifest,
    manifest_from_json_text, manifest_keys_unique, manifest_to_json_text, manifest_wf,
};
use cli_bridge::ritual_engine::{
    finish_ritual_call, parse_ritual_response, render_ritual_request, RitualEngineRequest,
};
use cli_bridge::strutil::{str_to_chars, u64_to_string};
use cli_bridge::BridgeError;

fn exited(code: i32, stdout: &str) -> ProcessEvent {
    ProcessEvent::Exited { code: Some(code), stdout: stdout.to_string() }
}

#[test]
fn test_ritual_engine_request_serialization() {
    let request = RitualEngineRequest {
        ritual_type: "memory_sync".to_string(),
        parameters: vec![("target".to_string(), "memory_bank".to_string())],
        context: Some("test_context".to_string()),
        metadata: None,
    };

    let json = render_ritual_request(&request);
    assert!(json.contains("memory_sync"));
    assert!(json.contains("test_context"));
}

#[test]
fn test_ritual_engine_response_deserialization() {
    let json = r#"{
        "ritual_id": "ritual-123",
        "status": "completed",
        "result": {"key": "value"},
        "logs": ["log1", "log2"],
        "metadata": {"type": "test"},
        "completed_at": "2024-01-01T00:00:00Z"
    }"#;

    let response = parse_ritual_response(json).unwrap();
    assert_eq!(response.ritual_id, "ritual-123");
    assert_eq!(response.status, "completed");
}

#[test]
fn test_codexify_request_serialization() {
    let request = CodexifyRequest {
        file_path: "/test/path".to_string(),
        tags: Some(vec!["tag1".to_string(), "tag2".to_string()]),
        metadata: None,
    };

    let json = render_codexify_request(&request);
    assert!(json.contains("/test/path"));
    assert!(json.contains("tag1"));
}

#[test]
fn test_codexify_response_deserialization() {
    let json = r#"{
        "node_id": "test-node-123",
        "summary": "Test summary",
        "metadata": {"key": "value"},
        "tags": ["test"],
        "created_at": "2024-01-01T00:00:00Z"
    }"#;

    let response = parse_codexify_response(json).unwrap();
    assert_eq!(response.node_id, "test-node-123");
    assert_eq!(response.summary, "Test summary");
}

#[test]
fn test_manifest_serialization() {
    let manifest = generate_codexify_manifest();
    let json = manifest_to_json_text(&manifest);
    assert!(json.contains("codexify"));
    assert!(json.contains("knowledge graph"));
}

#[test]
fn test_manifest_save_load() {
    let manifest = generate_codexify_manifest();
    let saved = manifest_to_json_text(&manifest);
    let loaded = manifest_from_json_text(&saved).unwrap();

    assert_eq!(loaded.name, manifest.name);
    assert_eq!(loaded.version, manifest.version);
}

#[test]
fn manifest_round_trip_field_for_field() {
    for (_, manifest) in generate_all_manifests() {
        let saved = manifest_to_json_text(&manifest);
        let loaded = manifest_from_json_text(&saved).unwrap();
        assert_eq!(loaded, manifest);
    }
}

#[test]
fn manifest_round_trip_with_escapes() {
    let mut manifest = generate_ritual_engine_manifest();
    manifest.description = "line one\nline \"two\"\t\\ backslash".to_string();
    manifest.schema = None;
    manifest.requirements.push(("weird\nkey".to_string(), "v\"alue".to_string()));
    let saved = manifest_to_json_text(&manifest);
    let loaded = manifest_from_json_text(&saved).unwrap();
    assert_eq!(loaded, manifest);
}

#[test]
fn manifest_rejects_malformed_text() {
    let err = manifest_from_json_text("not json").unwrap_err();
    assert!(matches!(err, BridgeError::Json(_)));
    assert_eq!(err.message(), "JSON serialization error: malformed manifest");
}

#[test]
fn manifest_timeout_bounds() {
    let mut manifest = generate_codexify_manifest();
    manifest.timeout_sec = 18446744073709551615;
    let saved = manifest_to_json_text(&manifest);
    let loaded = manifest_from_json_text(&saved).unwrap();
    assert_eq!(loaded.timeout_sec, 18446744073709551615);

    let overflowing = saved.replace("18446744073709551615", "18446744073709551616");
    assert!(manifest_from_json_text(&overflowing).is_err());
}

#[test]
fn generated_manifests_match_originals() {
    let manifest = generate_codexify_manifest();
    assert_eq!(manifest.name, "codexify");
    assert_eq!(manifest.version, "1.0.0");
    assert_eq!(manifest.timeout_sec, 60);
    assert_eq!(manifest.entry_point, "guardian-backend_v2/codexify/main.py");
    assert_eq!(manifest.capabilities.len(), 4);
    assert_eq!(manifest.inputs.len(), 2);
    assert_eq!(manifest.inputs[1].1.default.as_deref(), Some("[]"));
    assert_eq!(manifest.outputs.len(), 2);

    let ritual = generate_ritual_engine_manifest();
    assert_eq!(ritual.name, "ritual_engine");
    assert_eq!(ritual.timeout_sec, 120);

    let all = generate_all_manifests();
    assert_eq!(all.len(), 2);
    assert_eq!(all[0].0, "codexify");
    assert_eq!(all[1].0, "ritual_engine");
}

#[test]
fn scenario_echo_tool_success() {
    // An echo tool answers {"message":"hello"} with {"response":"hello"}
    // and exit 0: the exchange succeeds with exactly that document.
    let outcome = classify_event(exited(0, "{\"response\": \"hello\"}"), 30000);
    let text = outcome.unwrap();
    let doc = json::parse_doc(str_to_chars(&text)).unwrap();
    let response = json::get_string(&doc.chars, &doc.members, "response").unwrap();
    assert_eq!(response, "hello");

    let envelope: CapabilityResult<String> =
        outcome_to_envelope(Ok(response), "echo", 5, "1.0.0");
    assert!(envelope.success);
    assert_eq!(envelope.data.as_deref(), Some("hello"));
    assert!(envelope.error.is_none());
}

#[test]
fn scenario_timeout() {
    // A tool that sleeps past a one-second timeout: the outcome is a
    // Timeout failure carrying the configured duration, and the envelope
    // reports it.
    let outcome = classify_event(ProcessEvent::TimedOut, 1000);
    assert_eq!(outcome.unwrap_err(), BridgeError::Timeout { duration_ms: 1000 });

    let envelope = finish_codexify_call(ProcessEvent::TimedOut, 1000, 1000);
    assert!(!envelope.success);
    assert!(envelope.data.is_none());
    assert_eq!(envelope.error.as_deref(), Some("Process timeout after 1000ms"));
}

#[test]
fn scenario_nonzero_exit() {
    // A tool that exits with status 2 and writes nothing.
    let outcome = classify_event(exited(2, ""), 30000);
    assert_eq!(outcome.unwrap_err(), BridgeError::ProcessFailed(2));

    let envelope = finish_ritual_call(exited(2, ""), 30000, 7);
    assert!(!envelope.success);
    assert_eq!(
        envelope.error.as_deref(),
        Some("Process exited with non-zero status: 2")
    );
}

#[test]
fn scenario_invalid_output() {
    // A tool that writes the text `not json` with exit 0.
    let outcome = codexify_call_outcome(exited(0, "not json"), 30000);
    assert!(matches!(outcome.unwrap_err(), BridgeError::InvalidOutput(_)));
}

#[test]
fn signal_termination_uses_sentinel_code() {
    let outcome = classify_event(ProcessEvent::Exited { code: None, stdout: String::new() }, 500);
    assert_eq!(outcome.unwrap_err(), BridgeError::ProcessFailed(-1));
}

#[test]
fn io_failure_is_reported() {
    let event = ProcessEvent::IoFailed { message: "No such file or directory".to_string() };
    let outcome = classify_event(event, 30000);
    let err = outcome.unwrap_err();
    assert_eq!(err, BridgeError::Io("No such file or directory".to_string()));
    assert_eq!(err.message(), "IO error: No such file or directory");
}

#[test]
fn envelope_success_and_error_are_exclusive() {
    let good: CapabilityResult<u64> = CapabilityResult::success(42, "tool", 3, "1.0.0");
    assert!(good.success);
    assert!(good.data.is_some());
    assert!(good.error.is_none());
    assert_eq!(good.metadata.tool_name, "tool");
    assert_eq!(good.metadata.duration_ms, 3);
    assert_eq!(good.metadata.version, "1.0.0");

    let bad: CapabilityResult<u64> =
        CapabilityResult::error("boom".to_string(), "tool", 9, "1.0.0");
    assert!(!bad.success);
    assert!(bad.data.is_none());
    assert_eq!(bad.error.as_deref(), Some("boom"));
}

#[test]
fn codexify_success_envelope_carries_parsed_response() {
    let stdout = r#"{"node_id":"n-1","summary":"ok","metadata":{},"tags":["a"],"created_at":"2024-01-01T00:00:00Z"}"#;
    let envelope = finish_codexify_call(exited(0, stdout), 60000, 12);
    assert!(envelope.success);
    let data = envelope.data.unwrap();
    assert_eq!(data.node_id, "n-1");
    assert_eq!(data.summary, "ok");
    assert_eq!(data.tags, vec!["a".to_string()]);
    assert_eq!(data.created_at, "2024-01-01T00:00:00Z");
    assert_eq!(envelope.metadata.tool_name, "codexify");
    assert_eq!(envelope.metadata.version, "1.0.0");
}

#[test]
fn codexify_rejects_bad_timestamp() {
    let stdout = r#"{"node_id":"n-1","summary":"ok","metadata":{},"tags":[],"created_at":"yesterday"}"#;
    let outcome = codexify_call_outcome(exited(0, stdout), 60000);
    assert!(matches!(outcome.unwrap_err(), BridgeError::InvalidOutput(_)));
}

#[test]
fn ritual_engine_full_decode() {
    let stdout = r#"{"ritual_id":"r-9","status":"done","result":{"k":"v"},"logs":[],"metadata":{"m":"1"},"completed_at":"2024-06-01T10:20:30+00:00","extra":{"nested":[1,2,{"deep":true}]}}"#;
    let envelope = finish_ritual_call(exited(0, stdout), 120000, 44);
    assert!(envelope.success);
    let data = envelope.data.unwrap();
    assert_eq!(data.ritual_id, "r-9");
    assert_eq!(data.status, "done");
    assert_eq!(data.result, vec![("k".to_string(), "v".to_string())]);
    assert!(data.logs.is_empty());
    assert_eq!(envelope.metadata.tool_name, "ritual_engine");
}

#[test]
fn schema_fetch_maps_failures() {
    let ok = fetch_schema_outcome(exited(0, "{\"fields\": [1, 2.5, null, \"x\"]}"), 10000);
    assert_eq!(ok.unwrap(), "{\"fields\": [1, 2.5, null, \"x\"]}");

    let bad = fetch_schema_outcome(exited(3, ""), 10000);
    match bad.unwrap_err() {
        BridgeError::InvalidOutput(message) => {
            assert_eq!(
                message,
                "Failed to fetch schema: Process exited with non-zero status: 3"
            );
        }
        other => panic!("unexpected error {:?}", other),
    }

    let garbled = fetch_schema_outcome(exited(0, "not json"), 10000);
    assert!(matches!(garbled.unwrap_err(), BridgeError::InvalidOutput(_)));
}

#[test]
fn error_messages_match_format() {
    assert_eq!(
        BridgeError::Json("x".to_string()).message(),
        "JSON serialization error: x"
    );
    assert_eq!(
        BridgeError::ProcessFailed(-1).message(),
        "Process exited with non-zero status: -1"
    );
    assert_eq!(
        BridgeError::InvalidOutput("bad".to_string()).message(),
        "Invalid output format: bad"
    );
    assert_eq!(
        BridgeError::ToolNotFound("codexify".to_string()).message(),
        "Tool not found: codexify"
    );
    assert_eq!(
        BridgeError::Timeout { duration_ms: 30000 }.message(),
        "Process timeout after 30000ms"
    );
}

#[test]
fn default_config_matches_original() {
    let config = SubprocessConfig::default();
    assert_eq!(config.timeout_ms, 30000);
    assert!(config.working_dir.is_none());
    assert!(config.env_vars.is_empty());
    assert!(config.log_io);
}

#[test]
fn decimal_rendering_is_exact() {
    assert_eq!(u64_to_string(0), "0");
    assert_eq!(u64_to_string(12345), "12345");
    assert_eq!(u64_to_string(18446744073709551615), "18446744073709551615");
}

#[test]
fn request_render_writes_null_options() {
    let request = CodexifyRequest {
        file_path: "a b".to_string(),
        tags: None,
        metadata: Some(vec![("k".to_string(), "v".to_string())]),
    };
    let json = render_codexify_request(&request);
    assert_eq!(
        json,
        "{\"file_path\":\"a b\",\"tags\":null,\"metadata\":{\"k\":\"v\"}}"
    );
}

#[test]
fn parser_handles_escapes_and_rejects_trailing_text() {
    let doc = json::parse_doc(str_to_chars("{\"a\": \"x\\n\\\"y\\\"\"}")).unwrap();
    let value = json::get_string(&doc.chars, &doc.members, "a").unwrap();
    assert_eq!(value, "x\n\"y\"");

    assert!(json::parse_doc(str_to_chars("{\"a\": 1} trailing")).is_none());
    assert!(json::parse_doc(str_to_chars("{\"a\": }")).is_none());
    assert!(json::parse_doc(str_to_chars("[1, 2]")).is_none());
}

#[test]
fn manifest_empty_maps_round_trip() {
    let mut manifest = generate_codexify_manifest();
    manifest.capabilities = Vec::new();
    manifest.requirements = Vec::new();
    manifest.inputs = Vec::new();
    manifest.outputs = Vec::new();
    let saved = manifest_to_json_text(&manifest);
    let loaded = manifest_from_json_text(&saved).unwrap();
    assert_eq!(loaded, manifest);
}

#[test]
fn manifest_schema_member_may_be_absent() {
    let text = "{\"name\":\"t\",\"version\":\"1\",\"description\":\"d\",\"language\":\"python\",\"entry_point\":\"e.py\",\"capabilities\":[],\"timeout_sec\":5,\"requirements\":{},\"inputs\":{},\"outputs\":{}}";
    let loaded = manifest_from_json_text(text).unwrap();
    assert_eq!(loaded.name, "t");
    assert!(loaded.schema.is_none());

    let missing_name = text.replace("\"name\"", "\"renamed\"");
    assert!(manifest_from_json_text(&missing_name).is_err());
}

#[test]
fn manifest_wf_accepts_only_whole_json_defaults() {
    let mut manifest = generate_codexify_manifest();
    assert!(manifest_wf(&manifest));
    assert!(manifest_wf(&generate_ritual_engine_manifest()));

    manifest.inputs[1].1.default = Some("{\"unit\": [1, 2.5]}".to_string());
    assert!(manifest_wf(&manifest));

    for bad in ["x", "null", "", " []", "[] ", "1,2", "{\"a\":}"] {
        manifest.inputs[1].1.default = Some(bad.to_string());
        assert!(!manifest_wf(&manifest), "accepted bad default {:?}", bad);
    }
}

#[test]
fn manifest_round_trip_keeps_structured_default() {
    let mut manifest = generate_codexify_manifest();
    manifest.inputs[1].1.default = Some("{\"depth\": [1, {\"n\": true}]}".to_string());
    assert!(manifest_wf(&manifest));
    let saved = manifest_to_json_text(&manifest);
    let loaded = manifest_from_json_text(&saved).unwrap();
    assert_eq!(loaded, manifest);
    assert!(manifest_wf(&loaded));
}

#[test]
fn envelope_timestamp_is_rfc3339() {
    let envelope: CapabilityResult<u64> = CapabilityResult::success(1, "tool", 0, "1.0.0");
    let stamp = envelope.metadata.timestamp;
    assert!(stamp.len() >= 20, "timestamp too short: {:?}", stamp);
    assert_eq!(&stamp[4..5], "-");
    assert_eq!(&stamp[10..11], "T");
}

#[test]
fn manifest_key_uniqueness_is_detected() {
    let mut manifest = generate_codexify_manifest();
    assert!(manifest_keys_unique(&manifest));

    manifest.requirements.push(("python".to_string(), "3.12".to_string()));
    assert!(!manifest_keys_unique(&manifest));

    manifest.requirements.pop();
    assert!(manifest_keys_unique(&manifest));
    let duplicate = manifest.outputs[0].clone();
    manifest.outputs.push(duplicate);
    assert!(!manifest_keys_unique(&manifest));
}

#[test]
fn parser_accepts_unicode_escapes() {
    // Python's json.dumps writes non-ASCII text as \u escapes by default.
    let stdout = "{\"node_id\":\"n-1\",\"summary\":\"caf\\u00e9 \\ud83d\\ude00 a\\b\\f\",\"metadata\":{},\"tags\":[],\"created_at\":\"2024-01-01T00:00:00Z\"}";
    let response = parse_codexify_response(stdout).unwrap();
    assert_eq!(response.summary, "caf\u{e9} \u{1F600} a\u{8}\u{c}");

    let envelope = finish_codexify_call(exited(0, stdout), 60000, 3);
    assert!(envelope.success);

    // A lone surrogate is not a scalar value and is malformed.
    let lone = "{\"a\": \"\\ud83d\"}";
    assert!(json::parse_doc(str_to_chars(lone)).is_none());
}

#[test]
fn writer_escapes_control_characters() {
    let mut manifest = generate_ritual_engine_manifest();
    manifest.description = "bell \u{7} backspace \u{8} feed \u{c} end".to_string();
    let saved = manifest_to_json_text(&manifest);
    assert!(saved.contains("\\u0007"));
    assert!(saved.contains("\\b"));
    assert!(saved.contains("\\f"));
    assert!(!saved.contains('\u{7}'));
    let loaded = manifest_from_json_text(&saved).unwrap();
    assert_eq!(loaded, manifest);
}

#[test]
fn manifest_with_unicode_escapes_loads() {
    let manifest = generate_codexify_manifest();
    let saved = manifest_to_json_text(&manifest);
    // The same document with the name written the way Python would.
    let escaped = saved.replace("\"codexify\"", "\"codexif\\u0079\"");
    let loaded = manifest_from_json_text(&escaped).unwrap();
    assert_eq!(loaded, manifest);
}

#[test]
fn decode_failure_envelope_carries_message() {
    let envelope = finish_codexify_call(exited(0, "not json"), 30000, 2);
    assert!(!envelope.success);
    assert_eq!(
        envelope.error.as_deref(),
        Some("Invalid output format: malformed codexify response")
    );

    let ritual = finish_ritual_call(exited(0, "{}"), 30000, 2);
    assert!(!ritual.success);
    assert_eq!(
        ritual.error.as_deref(),
        Some("Invalid output format: malformed ritual_engine response")
    );
}
