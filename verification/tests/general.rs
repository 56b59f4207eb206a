// Test suite for the report-tree library: error construction and display,
// diagnostic delegation, tree navigation, API projection, serialization,
// and end-to-end scenarios.

use std::collections::HashSet;

use errors_lib::types::{LibError, NamedSource, SourceSpan};
use errors_lib::{
    handle_error_logic, perform_task, ApiError, BuildInfo, Context, IoErrorKind, IoFailure,
    LibReport, Report, ReportExt,
};
use serde_json::Value;

fn build_info() -> BuildInfo {
    BuildInfo::new("abc123def", "https://docs.rs/errors-lib")
}

// ---------------------------------------------------------------------------
// Error construction & display
// ---------------------------------------------------------------------------

#[test]
fn test_config_parse_error_display() {
    let err = LibError::ConfigParseError {
        path: "test.json".to_string(),
        src: NamedSource::new("test.json", r#"{"key": invalid}"#),
        span: SourceSpan::new(8, 7),
    };

    let display = err.message();
    assert!(display.contains("Failed to parse config at test.json"));
}

#[test]
fn test_network_error_display() {
    let err = LibError::NetworkError { timeout: 30 };
    let display = err.message();
    assert_eq!(display, "Network timeout after 30s");
}

#[test]
fn test_config_error_has_diagnostic_code() {
    let err = LibError::ConfigParseError {
        path: "config.json".to_string(),
        src: NamedSource::new("config.json", "{}"),
        span: SourceSpan::new(0, 1),
    };

    let code = err.code();
    assert!(code.is_some());
    assert_eq!(code.unwrap(), "config::invalid_format");
}

#[test]
fn test_config_error_has_help_text() {
    let err = LibError::ConfigParseError {
        path: "config.json".to_string(),
        src: NamedSource::new("config.json", "{}"),
        span: SourceSpan::new(0, 1),
    };

    let help = err.help();
    assert!(help.is_some());
    assert_eq!(help.unwrap(), "Ensure the configuration file is valid JSON.");
}

#[test]
fn test_error_source_code_available() {
    let source = r#"{"key": !!invalid}"#;
    let err = LibError::ConfigParseError {
        path: "test.json".to_string(),
        src: NamedSource::new("test.json", source),
        span: SourceSpan::new(8, 9),
    };

    let src_code = err.source_code();
    assert!(src_code.is_some());
}

#[test]
fn test_error_has_labels() {
    let err = LibError::ConfigParseError {
        path: "test.json".to_string(),
        src: NamedSource::new("test.json", "invalid"),
        span: SourceSpan::new(0, 7),
    };

    let labels = err.labels().unwrap();
    assert_eq!(labels.len(), 1);
    assert_eq!(labels[0].label, "syntax error here");
}

// ---------------------------------------------------------------------------
// Report wrapper
// ---------------------------------------------------------------------------

#[test]
fn test_lib_report_wraps_rootcause_report() {
    let err = LibError::NetworkError { timeout: 10 };
    let report = Report::new(err);
    let lib_report = LibReport(report);

    assert!(lib_report.display_message().contains("Network timeout"));
}

#[test]
fn test_lib_report_implements_diagnostic() {
    let err = LibError::ConfigParseError {
        path: "app.json".to_string(),
        src: NamedSource::new("app.json", "{}"),
        span: SourceSpan::new(0, 1),
    };
    let lib_report = LibReport(Report::new(err));

    assert!(lib_report.code().is_some());
    assert!(lib_report.help().is_some());
    assert!(lib_report.source_code().is_some());
}

#[test]
fn test_lib_report_url_generation() {
    let err = LibError::ConfigParseError {
        path: "config.json".to_string(),
        src: NamedSource::new("config.json", "{}"),
        span: SourceSpan::new(0, 1),
    };
    let lib_report = LibReport(Report::new(err));

    let url = lib_report.url(&build_info());
    assert!(url.is_some());
    let url_str = url.unwrap();
    assert!(url_str.contains("docs.rs/errors-lib"));
    assert!(url_str.contains("#config::invalid_format"));
}

#[test]
fn test_url_absent_without_code() {
    let err = LibError::NetworkError { timeout: 3 };
    let lib_report = LibReport(Report::new(err));
    assert!(lib_report.url(&build_info()).is_none());
}

// ---------------------------------------------------------------------------
// API projection
// ---------------------------------------------------------------------------

#[test]
fn test_to_api_error_basic() {
    let err = LibError::NetworkError { timeout: 30 };
    let lib_report = LibReport(Report::new(err));

    let api_err = lib_report.to_api_error(&build_info());

    assert_eq!(api_err.title, "Network timeout after 30s");
    assert!(api_err.code.is_none()); // NetworkError doesn't have a code
    assert!(api_err.correlation_id.len() == 8);
}

#[test]
fn test_to_api_error_with_metadata() {
    let err = LibError::ConfigParseError {
        path: "settings.json".to_string(),
        src: NamedSource::new("settings.json", "{}"),
        span: SourceSpan::new(0, 1),
    };
    let lib_report = LibReport(Report::new(err));

    let api_err = lib_report.to_api_error(&build_info());

    assert!(api_err.title.contains("Failed to parse config"));
    assert_eq!(api_err.code, Some("config::invalid_format".to_string()));
    assert_eq!(
        api_err.help,
        Some("Ensure the configuration file is valid JSON.".to_string())
    );
}

#[test]
fn test_api_error_contains_git_hash() {
    let err = LibError::NetworkError { timeout: 15 };
    let lib_report = LibReport(Report::new(err));

    let api_err = lib_report.to_api_error(&build_info());

    assert!(!api_err.git_hash.is_empty());
}

#[test]
fn test_api_error_contains_docs_url() {
    let err = LibError::NetworkError { timeout: 20 };
    let lib_report = LibReport(Report::new(err));

    let api_err = lib_report.to_api_error(&build_info());

    assert!(api_err.docs_url.contains("docs.rs/errors-lib"));
}

#[test]
fn test_api_error_with_attachments() {
    let err = LibError::ConfigParseError {
        path: "db.json".to_string(),
        src: NamedSource::new("db.json", "malformed"),
        span: SourceSpan::new(0, 9),
    };
    let report = Report::new(err)
        .attach("Database initialization failed")
        .attach("Fallback to defaults not available");
    let lib_report = LibReport(report);

    let api_err = lib_report.to_api_error(&build_info());

    assert_eq!(api_err.history.len(), 2);
    assert_eq!(api_err.history[0].message, "Database initialization failed");
    assert_eq!(
        api_err.history[1].message,
        "Fallback to defaults not available"
    );
}

#[test]
fn test_history_flattening_order() {
    let child = Report::new(LibError::NetworkError { timeout: 2 }).attach("c");
    let root = Report::new(LibError::NetworkError { timeout: 1 })
        .attach("a")
        .attach("b")
        .with_child(child);
    let api_err = LibReport(root).to_api_error(&build_info());

    let history: Vec<&str> = api_err.history.iter().map(|f| f.message.as_str()).collect();
    assert_eq!(history, vec!["a", "b", "c"]);
}

// ---------------------------------------------------------------------------
// Error tree navigation
// ---------------------------------------------------------------------------

#[test]
fn test_tree_iteration_single_error() {
    let err = LibError::NetworkError { timeout: 10 };
    let lib_report = LibReport(Report::new(err));

    let count = lib_report.0.iter_reports().len();
    assert_eq!(count, 1);
}

#[test]
fn test_tree_iteration_with_children() {
    let err1 = LibError::NetworkError { timeout: 5 };
    let err2 = LibError::ConfigParseError {
        path: "net.json".to_string(),
        src: NamedSource::new("net.json", "{}"),
        span: SourceSpan::new(0, 1),
    };

    let report = Report::new(err2).with_child(Report::new(err1));
    let lib_report = LibReport(report);

    let count = lib_report.0.iter_reports().len();
    assert_eq!(count, 2);
}

#[test]
fn test_iteration_first_node_is_root() {
    let child = Report::new(LibError::NetworkError { timeout: 9 });
    let root = Report::new(LibError::ConfigParseError {
        path: "root.json".to_string(),
        src: NamedSource::new("root.json", "{}"),
        span: SourceSpan::new(0, 1),
    })
    .with_child(child);
    let nodes = root.iter_reports();
    assert_eq!(nodes.len(), 2);
    assert!(nodes[0]
        .current_context()
        .message()
        .contains("root.json"));
    assert!(nodes[1]
        .current_context()
        .message()
        .contains("Network timeout"));
}

#[test]
fn test_handle_error_logic_with_io_error() {
    // handle_error_logic detects I/O failures that are part of the tree
    let io_err = IoFailure::new(IoErrorKind::NotFound, "file not found");
    let report = Report::new(io_err);
    let lib_report = LibReport(report.into_dynamic());

    // Should not panic
    handle_error_logic(&lib_report);
}

#[test]
fn test_handle_error_logic_counts_not_found() {
    let io_err = IoFailure::new(IoErrorKind::NotFound, "file not found");
    let lib_report = LibReport(Report::new(io_err).into_dynamic());
    assert_eq!(handle_error_logic(&lib_report), 1);

    let other = LibReport(Report::new(LibError::NetworkError { timeout: 4 }));
    assert_eq!(handle_error_logic(&other), 0);

    let denied = IoFailure::new(IoErrorKind::PermissionDenied, "no access");
    let lib_report = LibReport(Report::new(denied).into_dynamic());
    assert_eq!(handle_error_logic(&lib_report), 0);
}

#[test]
fn test_downcast_to_specific_error_type() {
    let err = LibError::NetworkError { timeout: 25 };
    let report = Report::new(err);

    // Verify we can downcast to LibError
    let downcasted = report.downcast_report::<LibError>();
    assert!(downcasted.is_ok());
}

#[test]
fn test_downcast_mismatch_returns_original() {
    let err = LibError::NetworkError { timeout: 25 };
    let report = Report::new(err).attach("kept");

    let downcasted = report.downcast_report::<IoFailure>();
    let original = downcasted.err().expect("mismatch must fail");
    assert_eq!(original.attachments()[0], "kept");

    let nodes = original.iter_reports();
    assert!(nodes[0].downcast_current_context::<IoFailure>().is_none());
    assert!(nodes[0].downcast_current_context::<LibError>().is_some());
}

// ---------------------------------------------------------------------------
// Serialization
// ---------------------------------------------------------------------------

#[test]
fn test_api_error_serializes_to_json() {
    let err = LibError::NetworkError { timeout: 10 };
    let lib_report = LibReport(Report::new(err));
    let api_err = lib_report.to_api_error(&build_info());

    let json: Value = serde_json::from_str(&api_err.to_json()).unwrap();

    assert!(json["title"].is_string());
    assert!(json["correlation_id"].is_string());
    assert!(json["git_hash"].is_string());
    assert!(json["docs_url"].is_string());
}

#[test]
fn test_api_error_omits_none_fields() {
    let err = LibError::NetworkError { timeout: 5 };
    let lib_report = LibReport(Report::new(err));
    let api_err = lib_report.to_api_error(&build_info());

    let json: Value = serde_json::from_str(&api_err.to_json()).unwrap();

    // NetworkError has no code or help
    assert!(!json.as_object().unwrap().contains_key("code"));
    assert!(!json.as_object().unwrap().contains_key("help"));
}

#[test]
fn test_api_error_includes_optional_fields() {
    let err = LibError::ConfigParseError {
        path: "api.json".to_string(),
        src: NamedSource::new("api.json", "{}"),
        span: SourceSpan::new(0, 1),
    };
    let lib_report = LibReport(Report::new(err));
    let api_err = lib_report.to_api_error(&build_info());

    let json: Value = serde_json::from_str(&api_err.to_json()).unwrap();

    assert!(json["code"].is_string());
    assert!(json["help"].is_string());
}

#[test]
fn test_history_serializes_as_flat_array() {
    let err = LibError::NetworkError { timeout: 1 };
    let report = Report::new(err)
        .attach("First context")
        .attach("Second context");
    let lib_report = LibReport(report);
    let api_err = lib_report.to_api_error(&build_info());

    let json: Value = serde_json::from_str(&api_err.to_json()).unwrap();

    assert!(json["history"].is_array());
    let history = json["history"].as_array().unwrap();
    assert_eq!(history.len(), 2);
    assert_eq!(history[0].as_str().unwrap(), "First context");
    assert_eq!(history[1].as_str().unwrap(), "Second context");
}

// ---------------------------------------------------------------------------
// Integration
// ---------------------------------------------------------------------------

#[test]
fn test_perform_task_returns_error() {
    let result = perform_task();
    assert!(result.is_err());
}

#[test]
fn test_perform_task_error_has_correct_type() {
    let result = perform_task();
    let err = result.unwrap_err();

    assert!(err.0.current_context().message().contains("config.json"));
}

#[test]
fn test_perform_task_error_has_attachment() {
    let result = perform_task();
    let err = result.unwrap_err();

    let api_err = err.to_api_error(&build_info());
    assert!(api_err.history.len() > 0);
    assert!(api_err.history[0]
        .message
        .contains("cannot proceed without a valid config"));
}

#[test]
fn test_end_to_end_error_pipeline() {
    // Simulate the full error handling pipeline
    let result = perform_task();
    assert!(result.is_err());

    let lib_report = result.unwrap_err();

    // 1. Test diagnostic info
    assert!(lib_report.code().is_some());
    assert!(lib_report.help().is_some());

    // 2. Test API error conversion
    let api_err = lib_report.to_api_error(&build_info());
    assert_eq!(api_err.code, Some("config::invalid_format".to_string()));
    assert!(!api_err.correlation_id.is_empty());

    // 3. Test serialization
    let json = api_err.to_json();
    assert!(json.contains("correlation_id"));
    assert!(json.contains("git_hash"));
}

// ---------------------------------------------------------------------------
// Snapshots: the exact wire form of projected records
// ---------------------------------------------------------------------------

#[test]
fn test_api_error_snapshot() {
    let result = perform_task();
    let lib_report = result.unwrap_err();
    let mut api_err = lib_report.to_api_error(&build_info());

    // Normalize dynamic fields for a stable comparison
    api_err.correlation_id = "TEST-ID".to_string();
    api_err.git_hash = "abc123".to_string();
    api_err.docs_url = "[docs_url]".to_string();

    assert_eq!(
        api_err.to_json(),
        "{\"git_hash\":\"abc123\",\
          \"docs_url\":\"[docs_url]\",\
          \"correlation_id\":\"TEST-ID\",\
          \"title\":\"Failed to parse config at config.json\",\
          \"code\":\"config::invalid_format\",\
          \"help\":\"Ensure the configuration file is valid JSON.\",\
          \"history\":[\"The application cannot proceed without a valid config.\"]}"
    );
}

#[test]
fn test_network_error_snapshot() {
    let err = LibError::NetworkError { timeout: 30 };
    let lib_report = LibReport(Report::new(err).attach("Connection refused"));
    let mut api_err = lib_report.to_api_error(&build_info());

    api_err.correlation_id = "NET-TEST".to_string();
    api_err.git_hash = "def456".to_string();
    api_err.docs_url = "[docs_url]".to_string();

    assert_eq!(
        api_err.to_json(),
        "{\"git_hash\":\"def456\",\
          \"docs_url\":\"[docs_url]\",\
          \"correlation_id\":\"NET-TEST\",\
          \"title\":\"Network timeout after 30s\",\
          \"history\":[\"Connection refused\"]}"
    );
}

#[test]
fn test_complex_error_tree_snapshot() {
    let child_err = LibError::NetworkError { timeout: 5 };
    let parent_err = LibError::ConfigParseError {
        path: "database.json".to_string(),
        src: NamedSource::new("database.json", r#"{"host": "localhost"}"#),
        span: SourceSpan::new(9, 9),
    };

    let report = Report::new(parent_err)
        .with_child(Report::new(child_err))
        .attach("Failed to load database configuration")
        .attach("Using default settings");

    let lib_report = LibReport(report);
    let mut api_err = lib_report.to_api_error(&build_info());

    api_err.correlation_id = "TREE-TEST".to_string();
    api_err.git_hash = "ghi789".to_string();
    api_err.docs_url = "[docs_url]".to_string();

    assert_eq!(
        api_err.to_json(),
        "{\"git_hash\":\"ghi789\",\
          \"docs_url\":\"[docs_url]\",\
          \"correlation_id\":\"TREE-TEST\",\
          \"title\":\"Failed to parse config at database.json\",\
          \"code\":\"config::invalid_format\",\
          \"help\":\"Ensure the configuration file is valid JSON.\",\
          \"history\":[\"Failed to load database configuration\",\"Using default settings\"]}"
    );
}

// ---------------------------------------------------------------------------
// Edge cases
// ---------------------------------------------------------------------------

#[test]
fn test_error_with_empty_source() {
    let err = LibError::ConfigParseError {
        path: "empty.json".to_string(),
        src: NamedSource::new("empty.json", ""),
        span: SourceSpan::new(0, 0),
    };
    let lib_report = LibReport(Report::new(err));

    // Should not panic
    let api_err = lib_report.to_api_error(&build_info());
    assert!(api_err.title.contains("empty.json"));
}

#[test]
fn test_error_with_unicode_path() {
    let err = LibError::ConfigParseError {
        path: "配置.json".to_string(),
        src: NamedSource::new("配置.json", "{}"),
        span: SourceSpan::new(0, 1),
    };
    let lib_report = LibReport(Report::new(err));

    let display = lib_report.display_message();
    assert!(display.contains("配置.json"));
}

#[test]
fn test_error_with_very_long_attachment() {
    let long_msg = "x".repeat(10000);
    let err = LibError::NetworkError { timeout: 1 };
    let report = Report::new(err).attach(&long_msg);
    let lib_report = LibReport(report);

    let api_err = lib_report.to_api_error(&build_info());
    assert_eq!(api_err.history[0].message, long_msg);
}

#[test]
fn test_zero_timeout_network_error() {
    let err = LibError::NetworkError { timeout: 0 };
    let display = err.message();
    assert_eq!(display, "Network timeout after 0s");
}

#[test]
fn test_error_with_special_characters_in_source() {
    let source = r#"{"key": "value\nwith\ttabs"}"#;
    let err = LibError::ConfigParseError {
        path: "special.json".to_string(),
        src: NamedSource::new("special.json", source),
        span: SourceSpan::new(0, 5),
    };
    let lib_report = LibReport(Report::new(err));

    // Should handle special characters gracefully
    let _api_err = lib_report.to_api_error(&build_info());
}

// ---------------------------------------------------------------------------
// Shared ownership
// ---------------------------------------------------------------------------

#[test]
fn test_error_can_be_shared_across_threads() {
    let err = LibError::NetworkError { timeout: 10 };
    let report = Report::new(err).into_cloneable();
    let report_clone = report.duplicate();

    // Both handles observe the same failure
    let title1 = report.report().current_context().message();
    let title2 = report_clone.report().current_context().message();
    assert_eq!(title1, title2);
}

#[test]
fn test_multiple_threads_creating_errors() {
    let results: Vec<ApiError> = (0..10)
        .map(|i| {
            let err = LibError::NetworkError { timeout: i };
            let lib_report = LibReport(Report::new(err));
            lib_report.to_api_error(&build_info())
        })
        .collect();

    assert_eq!(results.len(), 10);
    // Each should have a unique correlation ID of exactly 8 characters
    for r in results.iter() {
        assert_eq!(r.correlation_id.len(), 8);
    }
    let unique_ids: HashSet<&String> = results.iter().map(|r| &r.correlation_id).collect();
    assert_eq!(unique_ids.len(), 10);
}

// ---------------------------------------------------------------------------
// Diagnostic capability defaults
// ---------------------------------------------------------------------------

#[test]
fn test_severity_defaults_to_none() {
    let err = LibError::NetworkError { timeout: 5 };
    let lib_report = LibReport(Report::new(err));

    assert!(lib_report.severity().is_none());
}

#[test]
fn test_attach_appends_only() {
    let report = Report::new(LibError::NetworkError { timeout: 8 }).attach("first");
    assert_eq!(report.attachments().len(), 1);
    assert_eq!(report.attachments()[0], "first");

    let enriched = report.attach("second");
    assert_eq!(enriched.attachments().len(), 2);
    assert_eq!(enriched.attachments()[0], "first");
    assert_eq!(enriched.attachments()[1], "second");
}

#[test]
fn test_clone_keeps_old_handle_unchanged() {
    let original = Report::new(LibError::NetworkError { timeout: 8 }).attach("first");
    let enriched = original.clone().attach("second");

    // the retained handle is observably unchanged
    assert_eq!(original.attachments().len(), 1);
    assert_eq!(original.attachments()[0], "first");
    assert_eq!(enriched.attachments().len(), 2);
    assert_eq!(enriched.attachments()[1], "second");
    assert_eq!(original.iter_reports().len(), 1);
}

#[test]
fn test_lib_report_debug_format() {
    let lib_report = LibReport(Report::new(LibError::NetworkError { timeout: 4 }));
    let rendered = format!("{lib_report:?}");
    assert!(rendered.contains("NetworkError"));
}

#[test]
fn test_opaque_context_downcasts_fail() {
    let opaque = errors_lib::OpaqueContext::new("mystery::Kind", "something failed");
    let report = Report::new(opaque).into_dynamic();
    let nodes = report.iter_reports();
    assert!(nodes[0].downcast_current_context::<LibError>().is_none());
    assert!(nodes[0].downcast_current_context::<IoFailure>().is_none());
    assert!(nodes[0]
        .downcast_current_context::<errors_lib::OpaqueContext>()
        .is_some());
    assert_eq!(nodes[0].current_context().message(), "something failed");
}

#[test]
fn test_dynamic_report_keeps_context() {
    let err = LibError::NetworkError { timeout: 12 };
    let dynamic = Report::new(err).into_dynamic();
    match dynamic.current_context() {
        Context::Lib(e) => assert_eq!(e.message(), "Network timeout after 12s"),
        _ => panic!("expected a library context"),
    }
}

#[test]
fn test_related_returns_none() {
    let err = LibError::NetworkError { timeout: 5 };
    let lib_report = LibReport(Report::new(err));

    assert!(lib_report.related().is_none());
}

#[test]
fn test_diagnostic_source_returns_none() {
    let err = LibError::NetworkError { timeout: 5 };
    let lib_report = LibReport(Report::new(err));

    assert!(lib_report.diagnostic_source().is_none());
}
