use kraken_collector::health::{
    restart_alert_json, restart_outcome, FlowStatus, HealthMonitor, RestartObservation, StepStatus,
};

#[test]
fn breach_fires_only_after_timeout_elapses() {
    let m = HealthMonitor::new(0, 30_000);
    assert!(!m.breach(0));
    assert!(!m.breach(30_000));
    assert!(m.breach(30_001));
}

#[test]
fn data_arrival_postpones_breach() {
    let mut m = HealthMonitor::new(0, 30_000);
    m.record_data(20_000);
    assert!(!m.breach(50_000));
    assert!(m.breach(50_001));
}

#[test]
fn last_data_timestamp_never_moves_backwards() {
    let mut m = HealthMonitor::new(0, 30_000);
    m.record_data(50_000);
    m.record_data(40_000);
    assert_eq!(m.last_data_ms(), 50_000);
}

// Scenario: with no data at all, a breach seen at one tick does not repeat
// on the following ticks inside the next timeout window, because the
// timestamp is reset after the attempt regardless of its outcome.
#[test]
fn restart_attempt_resets_window_whatever_the_outcome() {
    let mut m = HealthMonitor::new(0, 30_000);
    assert!(m.breach(40_000));
    m.reset_after_attempt(40_000);
    assert_eq!(m.last_data_ms(), 40_000);
    assert!(!m.breach(50_000));
    assert!(!m.breach(70_000));
    assert!(m.breach(70_001));
}

#[test]
fn failed_stop_leaves_start_and_monitor_pending() {
    let r = restart_outcome(
        RestartObservation::StopFailed("device busy".to_string()),
        "2024-01-01T00:00:00Z".to_string(),
    );
    assert_eq!(r.status, FlowStatus::Error);
    assert_eq!(r.steps.stop, StepStatus::Error);
    assert_eq!(r.steps.start, StepStatus::Pending);
    assert_eq!(r.steps.monitor, StepStatus::Pending);
    assert_eq!(r.message, "Router stop failed: device busy");
    assert_eq!(r.timestamp, "2024-01-01T00:00:00Z");
}

#[test]
fn failed_start_keeps_successful_stop_visible() {
    let r = restart_outcome(
        RestartObservation::StartFailed("no reply".to_string()),
        "2024-01-01T00:00:01Z".to_string(),
    );
    assert_eq!(r.status, FlowStatus::Error);
    assert_eq!(r.steps.stop, StepStatus::Success);
    assert_eq!(r.steps.start, StepStatus::Error);
    assert_eq!(r.steps.monitor, StepStatus::Pending);
    assert_eq!(r.message, "Router start failed: no reply");
}

#[test]
fn completed_flow_marks_every_step_successful() {
    let r = restart_outcome(RestartObservation::Completed, "2024-01-01T00:00:02Z".to_string());
    assert_eq!(r.status, FlowStatus::Success);
    assert_eq!(r.steps.stop, StepStatus::Success);
    assert_eq!(r.steps.start, StepStatus::Success);
    assert_eq!(r.steps.monitor, StepStatus::Success);
    assert_eq!(r.message, "Router restarted successfully");
}

#[test]
fn failed_setup_leaves_every_step_pending() {
    let r = restart_outcome(
        RestartObservation::SetupFailed("binary missing".to_string()),
        "2024-01-01T00:00:03Z".to_string(),
    );
    assert_eq!(r.status, FlowStatus::Error);
    assert_eq!(r.steps.stop, StepStatus::Pending);
    assert_eq!(r.steps.start, StepStatus::Pending);
    assert_eq!(r.steps.monitor, StepStatus::Pending);
    assert_eq!(r.message, "Failed to create device controller: binary missing");
}

#[test]
fn alert_payload_frames_a_completed_flow() {
    let r = restart_outcome(RestartObservation::Completed, "2024-01-01T00:00:02Z".to_string());
    let json = restart_alert_json(&r);
    assert_eq!(
        json,
        "{\"status\":\"success\",\"timestamp\":\"2024-01-01T00:00:02Z\",\
         \"steps\":{\"stop\":\"success\",\"start\":\"success\",\"monitor\":\"success\"},\
         \"message\":\"Router restarted successfully\"}"
    );
}

#[test]
fn alert_payload_escapes_the_failure_message() {
    let r = restart_outcome(
        RestartObservation::StopFailed("said \"no\"".to_string()),
        "t".to_string(),
    );
    let json = restart_alert_json(&r);
    assert_eq!(
        json,
        "{\"status\":\"error\",\"timestamp\":\"t\",\
         \"steps\":{\"stop\":\"error\",\"start\":\"pending\",\"monitor\":\"pending\"},\
         \"message\":\"Router stop failed: said \\\"no\\\"\"}"
    );
}
