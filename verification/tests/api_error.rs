// Integration tests for ApiError serialization: the record is built from a
// report tree and checked against its JSON wire form.

use errors_lib::types::{LibError, NamedSource, SourceSpan};
use errors_lib::{BuildInfo, LibReport, Report, ReportExt};
use serde_json::Value;

fn build_info() -> BuildInfo {
    BuildInfo::new("abc123def", "https://docs.rs/errors-lib")
}

fn make_report() -> LibReport<LibError> {
    let err = LibError::ConfigParseError {
        path: "config.json".to_string(),
        src: NamedSource::new("config.json", "{ \"key\": !!invalid }"),
        span: SourceSpan::new(10, 9),
    };
    LibReport(Report::new(err).attach("The application cannot proceed without a valid config."))
}

#[test]
fn test_api_error_json_structure() {
    let api_error = make_report().to_api_error(&build_info());

    let json_value: Value = serde_json::from_str(&api_error.to_json())
        .expect("Failed to serialize ApiError to JSON");

    assert_eq!(json_value["code"], "config::invalid_format");
    assert!(
        json_value["title"]
            .as_str()
            .unwrap()
            .contains("Failed to parse config")
    );

    // correlation_id exists and is the correct length
    let id = json_value["correlation_id"]
        .as_str()
        .expect("correlation_id missing");
    assert_eq!(id.len(), 8);

    // git_hash is present
    assert!(json_value.get("git_hash").is_some());

    // history contains the attachment
    let history = json_value["history"].as_array().expect("history missing");
    assert!(
        history
            .iter()
            .any(|h| h.as_str().unwrap().contains("valid config"))
    );
}

#[test]
fn test_snapshot_api_error() {
    let api_error = make_report().to_api_error(&build_info());

    // Redact volatile fields before comparing against the expected record
    let mut redacted: Value = serde_json::from_str(&api_error.to_json()).unwrap();
    redacted["correlation_id"] = Value::String("REDACTED_ID".to_string());
    redacted["git_hash"] = Value::String("REDACTED_HASH".to_string());

    let expected: Value = serde_json::from_str(
        "{\"git_hash\":\"REDACTED_HASH\",\
          \"docs_url\":\"https://docs.rs/errors-lib\",\
          \"correlation_id\":\"REDACTED_ID\",\
          \"title\":\"Failed to parse config at config.json\",\
          \"code\":\"config::invalid_format\",\
          \"help\":\"Ensure the configuration file is valid JSON.\",\
          \"history\":[\"The application cannot proceed without a valid config.\"]}",
    )
    .unwrap();
    assert_eq!(redacted, expected);
}

#[test]
fn test_json_round_trip_full_record() {
    let api_error = make_report().to_api_error(&build_info());
    let parsed = errors_lib::ApiError::from_json(&api_error.to_json()).expect("round trip failed");
    assert_eq!(parsed.git_hash, api_error.git_hash);
    assert_eq!(parsed.docs_url, api_error.docs_url);
    assert_eq!(parsed.correlation_id, api_error.correlation_id);
    assert_eq!(parsed.title, api_error.title);
    assert_eq!(parsed.code, api_error.code);
    assert_eq!(parsed.help, api_error.help);
    assert_eq!(parsed.history.len(), api_error.history.len());
    for (a, b) in parsed.history.iter().zip(api_error.history.iter()) {
        assert_eq!(a.message, b.message);
    }
}

#[test]
fn test_json_round_trip_without_optional_fields() {
    let err = LibError::NetworkError { timeout: 7 };
    let report = LibReport(Report::new(err).attach("line one").attach("line two"));
    let api_error = report.to_api_error(&build_info());
    assert!(api_error.code.is_none());
    assert!(api_error.help.is_none());

    let parsed = errors_lib::ApiError::from_json(&api_error.to_json()).expect("round trip failed");
    assert!(parsed.code.is_none());
    assert!(parsed.help.is_none());
    assert_eq!(parsed.title, "Network timeout after 7s");
    assert_eq!(parsed.history.len(), 2);
    assert_eq!(parsed.history[0].message, "line one");
    assert_eq!(parsed.history[1].message, "line two");
}

#[test]
fn test_json_escapes_special_characters() {
    let err = LibError::NetworkError { timeout: 1 };
    let report = LibReport(Report::new(err).attach("a \"quoted\"\\\nline\ttext"));
    let api_error = report.to_api_error(&build_info());
    let json = api_error.to_json();

    // Our own parser recovers the original text exactly
    let parsed = errors_lib::ApiError::from_json(&json).expect("round trip failed");
    assert_eq!(parsed.history[0].message, "a \"quoted\"\\\nline\ttext");

    // And the wire form is real JSON: an independent parser agrees
    let value: Value = serde_json::from_str(&json).unwrap();
    assert_eq!(
        value["history"][0].as_str().unwrap(),
        "a \"quoted\"\\\nline\ttext"
    );
}

#[test]
fn test_from_json_rejects_malformed_input() {
    assert!(errors_lib::ApiError::from_json("").is_none());
    assert!(errors_lib::ApiError::from_json("{}").is_none());
    assert!(errors_lib::ApiError::from_json("{\"git_hash\":\"x\"}").is_none());
}
