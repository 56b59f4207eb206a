// Tests for the numeric helpers and the demonstration modules: value
// parsing and the experiment runner.

use errors_lib::parsing::{parse_value, ParseError};
use errors_lib::experiments::{parse_experiment, run, start_experiments};
use errors_lib::text::u64_to_string;
use errors_lib::{handle_error_logic, Context, IoErrorKind, IoFailure, LibReport};

#[test]
fn test_u64_rendering() {
    assert_eq!(u64_to_string(0), "0");
    assert_eq!(u64_to_string(7), "7");
    assert_eq!(u64_to_string(10), "10");
    assert_eq!(u64_to_string(1234567890), "1234567890");
    assert_eq!(u64_to_string(u64::MAX), "18446744073709551615");
}

#[test]
fn test_parse_value_accepts_digits() {
    assert_eq!(parse_value("42").unwrap(), 42);
    assert_eq!(parse_value("0").unwrap(), 0);
    assert_eq!(parse_value("4294967295").unwrap(), u32::MAX);
}

#[test]
fn test_parse_value_rejects_empty_input() {
    let report = parse_value("").unwrap_err();
    match report.current_context() {
        Context::Parse(ParseError::InvalidFormat) => {}
        other => panic!("unexpected context: {}", other.message()),
    }
    assert_eq!(report.attachments().len(), 0);
}

#[test]
fn test_parse_value_rejects_non_digits() {
    let report = parse_value("abc").unwrap_err();
    match report.current_context() {
        Context::Parse(ParseError::InvalidFormat) => {}
        other => panic!("unexpected context: {}", other.message()),
    }
    assert_eq!(report.attachments()[0], "Input: abc");
}

#[test]
fn test_parse_value_rejects_overflow() {
    let report = parse_value("4294967296").unwrap_err();
    match report.current_context() {
        Context::Parse(ParseError::MissingField(f)) => assert_eq!(f, "value"),
        other => panic!("unexpected context: {}", other.message()),
    }
}

#[test]
fn test_parse_experiment_accepts_number() {
    let (value, doubled) = parse_experiment("10").unwrap();
    assert_eq!(value, 10);
    assert_eq!(doubled, 20);
}

#[test]
fn test_parse_experiment_accepts_leading_plus() {
    // u64 parsing accepts one optional leading plus sign
    let (value, doubled) = parse_experiment("+10").unwrap();
    assert_eq!(value, 10);
    assert_eq!(doubled, 20);
    assert!(parse_experiment("+").is_err());
    assert!(parse_experiment("++1").is_err());
}

#[test]
fn test_start_experiments_accepts_leading_plus() {
    let ids: Vec<usize> = vec![0];
    let descriptions: Vec<&str> = vec!["+10"];
    let results = start_experiments(&ids, &descriptions).unwrap();
    assert_eq!(results, vec![200]);
}

#[test]
fn test_parse_value_rejects_leading_plus() {
    // parse_value pre-checks that every character is a digit, so a signed
    // number is an invalid format there
    let report = parse_value("+5").unwrap_err();
    match report.current_context() {
        Context::Parse(ParseError::InvalidFormat) => {}
        other => panic!("unexpected context: {}", other.message()),
    }
    assert_eq!(report.attachments()[0], "Input: +5");
}

#[test]
fn test_parse_experiment_rejects_garbage() {
    let report = parse_experiment("oops").unwrap_err();
    assert_eq!(
        report.attachments()[0],
        "\"oops\" could not be parsed as experiment"
    );
    assert_eq!(
        report.current_context().message(),
        "invalid experiment description"
    );
}

#[test]
fn test_start_experiments_success() {
    let ids: Vec<usize> = vec![0, 1];
    let descriptions: Vec<&str> = vec!["3", "4"];
    let results = start_experiments(&ids, &descriptions).unwrap();
    assert_eq!(results, vec![18, 32]);
}

#[test]
fn test_start_experiments_missing_description() {
    let ids: Vec<usize> = vec![5];
    let descriptions: Vec<&str> = vec!["3"];
    let report = start_experiments(&ids, &descriptions).unwrap_err();
    assert_eq!(
        report.attachments()[0],
        "experiment 5 has no valid description"
    );
    assert_eq!(report.attachments()[1], "unable to set up experiments");
    assert_eq!(report.iter_reports().len(), 1);
}

#[test]
fn test_start_experiments_parse_failure_keeps_cause() {
    let ids: Vec<usize> = vec![0, 2];
    let descriptions: Vec<&str> = vec!["10", "20", "oejwofaewjifoaweijafoeijo"];
    let report = start_experiments(&ids, &descriptions).unwrap_err();
    assert_eq!(report.attachments()[0], "unable to set up experiments");
    let nodes = report.iter_reports();
    assert_eq!(nodes.len(), 2);
    assert_eq!(
        nodes[1].attachments()[0],
        "\"oejwofaewjifoaweijafoeijo\" could not be parsed as experiment"
    );
    assert_eq!(nodes[1].attachments()[1], "experiment 2 could not be parsed");
}

#[test]
fn test_run_reports_failure() {
    let report = run().unwrap_err();
    assert_eq!(
        report.current_context().message(),
        "experiment error: could not run experiment"
    );
}

#[test]
fn test_parse_experiment_escapes_like_debug() {
    let description = "say \"hi\"\\now\n\r\tok\0\u{1}\u{1b}\u{7f}";
    let report = parse_experiment(description).unwrap_err();
    assert_eq!(
        report.attachments()[0],
        format!("{description:?} could not be parsed as experiment")
    );
}

#[test]
fn test_run_reports_exact_failure() {
    let report = run().unwrap_err();
    assert_eq!(report.attachments().len(), 1);
    assert_eq!(report.attachments()[0], "unable to set up experiments");
    let nodes = report.iter_reports();
    assert_eq!(nodes.len(), 2);
    assert_eq!(
        nodes[1].attachments()[0],
        "\"oejwofaewjifoaweijafoeijo\" could not be parsed as experiment"
    );
    assert_eq!(nodes[1].attachments()[1], "experiment 2 could not be parsed");
}

#[test]
fn test_read_failure_report_shape() {
    let failure = IoFailure::new(IoErrorKind::NotFound, "No such file or directory (os error 2)");
    let report = errors_lib::parsing::read_failure_report(failure, "/nonexistent/config.txt");
    assert_eq!(report.attachments().len(), 1);
    assert_eq!(report.attachments()[0], "Path: /nonexistent/config.txt");
    assert_eq!(
        report.current_context().message(),
        "No such file or directory (os error 2)"
    );
    assert_eq!(handle_error_logic(&LibReport(report)), 1);
}
