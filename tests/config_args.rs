use site_pulse::config::parse_args;

fn strings(items: &[&str]) -> Vec<String> {
    items.iter().map(|s| s.to_string()).collect()
}

#[test]
fn test_parse_args_valid() {
    let args = strings(&[
        "program_name",
        "--workers",
        "4",
        "--timeout",
        "10",
        "--retries",
        "3",
        "https://example.com",
    ]);
    let result = parse_args(&args, 8);
    assert!(result.is_ok());
    let config = result.unwrap();
    assert_eq!(config.workers, 4);
    assert_eq!(config.timeout_secs, 10);
    assert_eq!(config.retries, 3);
    assert_eq!(config.urls.len(), 1);
    assert_eq!(config.urls[0], "https://example.com");
}

#[test]
fn test_parse_args_missing_url() {
    let args = strings(&["program_name", "--workers", "4"]);
    let result = parse_args(&args, 8);
    assert!(result.is_err());
}

#[test]
fn no_file_and_no_url_is_a_startup_error() {
    let result = parse_args(&strings(&["prog", "--timeout", "2"]), 2);
    assert_eq!(
        result.err().unwrap(),
        "Please specify --file <path> or one or more URLs."
    );
}

#[test]
fn defaults_apply_when_flags_are_absent() {
    let c = parse_args(&strings(&["prog", "a.test", "b.test"]), 6).unwrap();
    assert_eq!(c.workers, 6);
    assert_eq!(c.timeout_secs, 5);
    assert_eq!(c.retries, 3);
    assert_eq!(c.urls, strings(&["a.test", "b.test"]));
    assert!(c.file.is_none());
}

#[test]
fn file_flag_alone_is_enough() {
    let c = parse_args(&strings(&["prog", "--file", "list.txt"]), 1).unwrap();
    assert_eq!(c.file.as_deref(), Some("list.txt"));
    assert!(c.urls.is_empty());
}

#[test]
fn flag_without_value_is_refused() {
    let r = parse_args(&strings(&["prog", "x.test", "--retries"]), 1);
    assert_eq!(r.err().unwrap(), "Missing value after --retries");
}

#[test]
fn unparseable_number_is_refused() {
    let r = parse_args(&strings(&["prog", "--workers", "many", "x.test"]), 1);
    assert_eq!(r.err().unwrap(), "Invalid value for --workers");
    let r = parse_args(&strings(&["prog", "--timeout", "-1", "x.test"]), 1);
    assert_eq!(r.err().unwrap(), "Invalid value for --timeout");
}

#[test]
fn unknown_flag_is_refused() {
    let r = parse_args(&strings(&["prog", "--verbose", "x.test"]), 1);
    assert_eq!(r.err().unwrap(), "Unknown flag: --verbose");
}
