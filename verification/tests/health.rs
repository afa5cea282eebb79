use db_healthcheck::health::{check_health, HealthResult, ProbeOutcome, PROBE_TIMEOUT_SECS};

#[test]
fn completed_probe_is_a_success() {
    let result = check_health(ProbeOutcome::Completed);
    assert!(matches!(result, HealthResult::Success));
    assert!(result.is_success());
    assert_eq!(result.message(), None);
}

#[test]
fn failed_probe_names_the_underlying_error() {
    let result = check_health(ProbeOutcome::Failed("NotFound".to_string()));
    match &result {
        HealthResult::Failure(message) => assert_eq!(message, "❌ DB error: NotFound"),
        _ => panic!("a failed probe must be reported as a failure"),
    }
    assert!(!result.is_success());
    assert_eq!(result.message(), Some("❌ DB error: NotFound"));
}

#[test]
fn timed_out_probe_names_the_timeout() {
    let result = check_health(ProbeOutcome::TimedOut("deadline has elapsed".to_string()));
    match &result {
        HealthResult::Timeout(message) => {
            assert_eq!(message, "❌ DB check timeout: deadline has elapsed")
        }
        _ => panic!("a probe that ran out of time must be reported as a timeout"),
    }
    assert!(!result.is_success());
    assert_eq!(result.message(), Some("❌ DB check timeout: deadline has elapsed"));
}

#[test]
fn failure_with_empty_detail_still_has_a_message() {
    let result = check_health(ProbeOutcome::Failed(String::new()));
    assert_eq!(result.message(), Some("❌ DB error: "));
    let result = check_health(ProbeOutcome::TimedOut(String::new()));
    assert_eq!(result.message(), Some("❌ DB check timeout: "));
}

#[test]
fn detail_is_kept_as_it_is() {
    let detail = "DatabaseError(Unknown, \"relation \\\"t\\\" does not exist\")\nline two";
    let result = check_health(ProbeOutcome::Failed(detail.to_string()));
    assert_eq!(result.message(), Some(format!("❌ DB error: {}", detail).as_str()));
}

#[test]
fn a_real_query_error_is_reported_by_its_debug_text() {
    let error = diesel::result::Error::NotFound;
    let result = check_health(ProbeOutcome::Failed(format!("{:?}", error)));
    assert_eq!(result.message(), Some("❌ DB error: NotFound"));
    let error = diesel::result::Error::RollbackTransaction;
    let result = check_health(ProbeOutcome::Failed(format!("{:?}", error)));
    assert_eq!(result.message(), Some("❌ DB error: RollbackTransaction"));
}

#[test]
fn probe_timeout_is_ten_seconds() {
    assert_eq!(PROBE_TIMEOUT_SECS, 10);
    assert_eq!(std::time::Duration::from_secs(PROBE_TIMEOUT_SECS).as_millis(), 10_000);
}

#[test]
fn probe_selects_a_constant() {
    assert_eq!(db_healthcheck::PROBE_QUERY, "SELECT 1");
}
