use website_checker::config::{build_config, parse_args, ConfigError};

fn args(tokens: &[&str]) -> Vec<String> {
    tokens.iter().map(|t| t.to_string()).collect()
}

#[test]
fn empty_job_source_is_a_configuration_error() {
    // No URLs at all: rejected before any worker could start.
    let parsed = parse_args(&args(&[])).expect("no tokens is fine to parse");
    let result = build_config(parsed, None);
    assert_eq!(result.err(), Some(ConfigError::NoUrls));
}

#[test]
fn defaults_apply_when_options_are_absent() {
    let parsed = parse_args(&args(&["http://x.test"])).expect("parses");
    let config = build_config(parsed, None).expect("builds");
    assert_eq!(config.urls, vec!["http://x.test".to_string()]);
    assert!(config.workers >= 1);
    assert_eq!(config.timeout_secs, 5);
    assert_eq!(config.retries, 0);
}

#[test]
fn options_override_defaults() {
    let parsed = parse_args(&args(&[
        "--workers", "4", "--timeout", "2", "--retries", "3", "http://x.test",
    ]))
    .expect("parses");
    let config = build_config(parsed, None).expect("builds");
    assert_eq!(config.workers, 4);
    assert_eq!(config.timeout_secs, 2);
    assert_eq!(config.retries, 3);
}

#[test]
fn unknown_option_is_rejected_with_its_name() {
    let err = parse_args(&args(&["--frobnicate", "http://x.test"])).unwrap_err();
    assert_eq!(err, ConfigError::UnknownOption("--frobnicate".to_string()));
    assert_eq!(err.message(), "Unknown argument: --frobnicate");
}

#[test]
fn zero_workers_is_invalid() {
    let err = parse_args(&args(&["--workers", "0", "http://x.test"])).unwrap_err();
    assert_eq!(err, ConfigError::InvalidWorkers);
}

#[test]
fn non_numeric_retries_is_invalid() {
    let err = parse_args(&args(&["--retries", "many", "http://x.test"])).unwrap_err();
    assert_eq!(err, ConfigError::InvalidRetries);
}

#[test]
fn trailing_option_without_value_is_rejected() {
    let err = parse_args(&args(&["http://x.test", "--timeout"])).unwrap_err();
    assert_eq!(err, ConfigError::MissingTimeoutValue);
    let err = parse_args(&args(&["--file"])).unwrap_err();
    assert_eq!(err, ConfigError::MissingFileValue);
}

#[test]
fn single_dash_token_is_a_url() {
    let parsed = parse_args(&args(&["-x"])).expect("parses");
    assert_eq!(parsed.urls, vec!["-x".to_string()]);
}

#[test]
fn file_lines_are_trimmed_and_filtered() {
    let parsed = parse_args(&args(&["--file", "jobs.txt"])).expect("parses");
    assert_eq!(parsed.file_path, Some("jobs.txt".to_string()));
    let lines = vec![
        "  http://a.test  ".to_string(),
        "".to_string(),
        "   ".to_string(),
        "# a comment".to_string(),
        "http://b.test".to_string(),
    ];
    let config = build_config(parsed, Some(&lines)).expect("builds");
    assert_eq!(config.urls, vec!["http://a.test".to_string(), "http://b.test".to_string()]);
}

#[test]
fn positional_urls_come_before_file_urls() {
    let parsed = parse_args(&args(&["http://cli.test", "--file", "jobs.txt"])).expect("parses");
    let lines = vec!["http://file.test".to_string()];
    let config = build_config(parsed, Some(&lines)).expect("builds");
    assert_eq!(config.urls, vec!["http://cli.test".to_string(), "http://file.test".to_string()]);
}

#[test]
fn error_messages_match_their_variants() {
    assert_eq!(ConfigError::NoUrls.message(), "No URLs provided. Use --file or provide URLs as arguments.");
    assert_eq!(ConfigError::InvalidWorkers.message(), "Invalid --workers value");
    assert_eq!(ConfigError::MissingFileValue.message(), "Expected file path after --file");
}
