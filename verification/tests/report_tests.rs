use website_checker::numfmt::{parse_u64, u64_to_string};
use website_checker::outcome::{CheckOutcome, CheckStatus, ResultSet};
use website_checker::report::{render_entry, render_report, render_status, sanitize_message};

fn outcome(url: &str, status: CheckStatus, elapsed_ms: u64, timestamp_secs: u64) -> CheckOutcome {
    CheckOutcome { url: url.to_string(), status, elapsed_ms, timestamp_secs }
}

#[test]
fn u64_rendering_exact() {
    assert_eq!(u64_to_string(0), "0");
    assert_eq!(u64_to_string(7), "7");
    assert_eq!(u64_to_string(1234567890), "1234567890");
    assert_eq!(u64_to_string(u64::MAX), "18446744073709551615");
}

#[test]
fn u64_parsing_exact() {
    assert_eq!(parse_u64("0"), Some(0));
    assert_eq!(parse_u64("42"), Some(42));
    assert_eq!(parse_u64("18446744073709551615"), Some(u64::MAX));
    assert_eq!(parse_u64("18446744073709551616"), None);
    assert_eq!(parse_u64(""), None);
    assert_eq!(parse_u64("12x"), None);
    assert_eq!(parse_u64("-3"), None);
}

#[test]
fn sanitizer_replaces_double_quotes() {
    let msg = "say \"hi\" twice \"\"".to_string();
    assert_eq!(sanitize_message(&msg), "say 'hi' twice ''");
    let clean = "no quotes here".to_string();
    assert_eq!(sanitize_message(&clean), "no quotes here");
}

#[test]
fn status_rendering() {
    assert_eq!(render_status(&CheckStatus::Success(200)), "200");
    assert_eq!(
        render_status(&CheckStatus::Failure("bad \"gateway\"".to_string())),
        "\"bad 'gateway'\""
    );
}

#[test]
fn entry_rendering_exact() {
    let entry = render_entry(&outcome("https://a.test", CheckStatus::Success(200), 123, 1700000000));
    let expected = "  {\n    \"url\": \"https://a.test\",\n    \"status\": 200,\n    \"response_time_ms\": 123,\n    \"timestamp\": 1700000000\n  }";
    assert_eq!(entry, expected);
}

#[test]
fn report_rendering_exact() {
    let mut results = ResultSet::new();
    results.append(outcome("https://a.test", CheckStatus::Success(200), 5, 10));
    results.append(outcome("https://b.test", CheckStatus::Failure("timed out".to_string()), 7, 11));
    let report = render_report(&results);
    let expected = "[\n  {\n    \"url\": \"https://a.test\",\n    \"status\": 200,\n    \"response_time_ms\": 5,\n    \"timestamp\": 10\n  },\n  {\n    \"url\": \"https://b.test\",\n    \"status\": \"timed out\",\n    \"response_time_ms\": 7,\n    \"timestamp\": 11\n  }\n]";
    assert_eq!(report, expected);
}

#[test]
fn empty_report_is_valid_json() {
    let results = ResultSet::new();
    let report = render_report(&results);
    assert_eq!(report, "[\n]");
    let value: serde_json::Value = serde_json::from_str(&report).expect("valid JSON");
    assert_eq!(value.as_array().expect("array").len(), 0);
}

#[test]
fn report_round_trip_preserves_entries() {
    // Parsing the produced JSON yields one object per outcome, with an
    // integer status exactly for the Success entries.
    let mut results = ResultSet::new();
    results.append(outcome("https://a.test", CheckStatus::Success(200), 12, 100));
    results.append(outcome("http://down.test", CheckStatus::Failure("dns \"oops\"".to_string()), 350, 101));
    results.append(outcome("https://b.test", CheckStatus::Success(503), 9, 102));
    let report = render_report(&results);
    let value: serde_json::Value = serde_json::from_str(&report).expect("valid JSON");
    let array = value.as_array().expect("array");
    assert_eq!(array.len(), results.len());
    assert!(array[0]["status"].is_i64() || array[0]["status"].is_u64());
    assert!(array[1]["status"].is_string());
    assert!(array[2]["status"].is_i64() || array[2]["status"].is_u64());
    assert_eq!(array[0]["status"].as_u64(), Some(200));
    assert_eq!(array[1]["status"].as_str(), Some("dns 'oops'"));
    assert_eq!(array[0]["url"].as_str(), Some("https://a.test"));
    assert_eq!(array[1]["response_time_ms"].as_u64(), Some(350));
    assert_eq!(array[2]["timestamp"].as_u64(), Some(102));
}

#[test]
fn two_successes_render_two_integer_statuses() {
    let mut results = ResultSet::new();
    results.append(outcome("https://a.test", CheckStatus::Success(200), 1, 2));
    results.append(outcome("https://b.test", CheckStatus::Success(200), 3, 4));
    let report = render_report(&results);
    let value: serde_json::Value = serde_json::from_str(&report).expect("valid JSON");
    let array = value.as_array().expect("array");
    assert_eq!(array.len(), 2);
    for item in array {
        assert_eq!(item["status"].as_u64(), Some(200));
    }
}
