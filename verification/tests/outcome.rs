use talent_fetch::outcome::classify_status;
use talent_fetch::outcome::outcome_of_event;
use talent_fetch::outcome::FetchEvent;
use talent_fetch::outcome::FetchOutcome;
use talent_fetch::outcome::StatusClass;

#[test]
fn test_classify_status_success_range() {
    assert_eq!(classify_status(200), StatusClass::Success);
    assert_eq!(classify_status(204), StatusClass::Success);
    assert_eq!(classify_status(299), StatusClass::Success);
}

#[test]
fn test_classify_status_500_is_no_data() {
    assert_eq!(classify_status(500), StatusClass::NoData);
}

#[test]
fn test_classify_status_other_is_anomaly() {
    assert_eq!(classify_status(199), StatusClass::Anomaly);
    assert_eq!(classify_status(300), StatusClass::Anomaly);
    assert_eq!(classify_status(404), StatusClass::Anomaly);
    assert_eq!(classify_status(502), StatusClass::Anomaly);
}

#[test]
fn test_status_500_yields_not_found_not_failed() {
    // 500 is not a success, so the I/O layer reports the status itself and the
    // outcome is the benign NotFound, never Failed.
    assert_ne!(classify_status(500), StatusClass::Success);
    let outcome = outcome_of_event(FetchEvent::Status(500));
    assert_eq!(outcome, FetchOutcome::NotFound);
}

#[test]
fn test_unreadable_body_yields_failed() {
    let outcome = outcome_of_event(FetchEvent::BodyUnreadable(
        "Failed to read response body".to_string(),
    ));
    assert_eq!(
        outcome,
        FetchOutcome::Failed("Failed to read response body".to_string())
    );
}

#[test]
fn test_gate_failure_yields_failed() {
    let outcome = outcome_of_event(FetchEvent::GateClosed(
        "Failed to acquire semaphore permit".to_string(),
    ));
    assert_eq!(
        outcome,
        FetchOutcome::Failed("Failed to acquire semaphore permit".to_string())
    );
}

#[test]
fn test_transport_failure_yields_not_found() {
    let outcome = outcome_of_event(FetchEvent::Transport("connection refused".to_string()));
    assert_eq!(outcome, FetchOutcome::NotFound);
}

#[test]
fn test_anomalous_status_yields_not_found() {
    assert_eq!(outcome_of_event(FetchEvent::Status(404)), FetchOutcome::NotFound);
    assert_eq!(outcome_of_event(FetchEvent::Status(301)), FetchOutcome::NotFound);
}

#[test]
fn test_body_with_link_yields_found() {
    let html = r#"<html><body>
        <a href="https://www.wowhead.com/talent-calc/blizzard/shaman/ele/EEE9">Build</a>
        </body></html>"#;
    let outcome = outcome_of_event(FetchEvent::Body(html.to_string()));
    assert_eq!(outcome, FetchOutcome::Found("shaman/ele/EEE9".to_string()));
}

#[test]
fn test_body_without_link_yields_not_found() {
    let outcome = outcome_of_event(FetchEvent::Body("<html><body>nothing</body></html>".to_string()));
    assert_eq!(outcome, FetchOutcome::NotFound);
}
