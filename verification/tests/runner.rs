use pgcopydb::args::help_args;
use pgcopydb::runner::{diagnostic_record, diagnostic_records, run_outcome};

#[test]
fn zero_exit_returns_decoded_primary_output() {
    let r = run_outcome(true, b"usage: ...".to_vec());
    assert_eq!(r.unwrap(), "usage: ...");
}

#[test]
fn zero_exit_with_empty_output_returns_empty_string() {
    let r = run_outcome(true, Vec::new());
    assert_eq!(r.unwrap(), "");
}

#[test]
fn invalid_bytes_are_decoded_with_replacement() {
    let r = run_outcome(true, vec![0x61, 0xff, 0x62]);
    assert_eq!(r.unwrap(), "a\u{fffd}b");
}

#[test]
fn nonzero_exit_fails_with_captured_output() {
    let r = run_outcome(false, b"partial".to_vec());
    let failure = r.unwrap_err();
    assert_eq!(failure.output, "partial");
}

#[test]
fn failure_message_carries_the_output() {
    let failure = run_outcome(false, b"partial".to_vec()).unwrap_err();
    assert_eq!(failure.message(), "pgcopydb command failed: stdout: partial");
}

#[test]
fn diagnostic_record_applies_tag_prefix() {
    let r = diagnostic_record(&"reading table data".to_string());
    assert_eq!(r, "[pgcopydb cli]: reading table data");
}

#[test]
fn diagnostic_records_keep_order_and_count() {
    let lines = vec!["one".to_string(), "two".to_string()];
    let records = diagnostic_records(&lines);
    assert_eq!(
        records,
        vec![
            "[pgcopydb cli]: one".to_string(),
            "[pgcopydb cli]: two".to_string(),
        ]
    );
}

#[test]
fn help_run_returns_usage_text() {
    // The external tool, given ["help"], writes its usage text to primary
    // output and exits with status zero: the call returns that text.
    assert_eq!(help_args(), vec!["help".to_string()]);
    let r = run_outcome(true, b"usage: ...".to_vec());
    assert_eq!(r.unwrap(), "usage: ...");
}

#[test]
fn failed_run_logs_diagnostics_and_fails_with_partial_output() {
    // The external tool exits with status one after writing "partial" to
    // primary output and two lines to its diagnostic stream: both lines are
    // logged, in order, and the failure payload is exactly "partial".
    let lines = vec!["starting".to_string(), "giving up".to_string()];
    let records = diagnostic_records(&lines);
    assert_eq!(records.len(), 2);
    assert_eq!(records[0], "[pgcopydb cli]: starting");
    assert_eq!(records[1], "[pgcopydb cli]: giving up");
    let failure = run_outcome(false, b"partial".to_vec()).unwrap_err();
    assert_eq!(failure.output, "partial");
}
