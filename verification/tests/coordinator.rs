use kraken_collector::collectors::bjig::handle_broker_reply;
use kraken_collector::collectors::grpc::ForwardResponse;
use kraken_collector::coordinator::{ActionCoordinator, EntryDecision, SubmitOutcome};

fn command_bytes(text: &str) -> Vec<u8> {
    text.as_bytes().to_vec()
}

#[test]
fn fresh_coordinator_is_idle() {
    let c = ActionCoordinator::new(30_000, 10);
    assert!(!c.is_in_progress());
    assert_eq!(c.pending_count(), 0);
    assert_eq!(c.last_action_at_ms(), None);
}

#[test]
fn first_trigger_is_queued() {
    let mut c = ActionCoordinator::new(30_000, 10);
    let outcome = c.submit_payload(command_bytes("{\"cmd\":\"x\"}"), 1_000);
    assert_eq!(outcome, SubmitOutcome::Queued);
    assert!(c.is_in_progress());
    assert_eq!(c.pending_count(), 1);
    assert_eq!(c.last_action_at_ms(), None);
}

#[test]
fn trigger_while_in_progress_is_rejected_busy() {
    let mut c = ActionCoordinator::new(30_000, 10);
    assert_eq!(c.submit_payload(command_bytes("a"), 1_000), SubmitOutcome::Queued);
    let second = c.submit_payload(command_bytes("b"), 1_001);
    assert_eq!(second, SubmitOutcome::RejectedBusy);
    assert_eq!(c.pending_count(), 1);
    assert!(c.is_in_progress());
}

#[test]
fn decoded_command_reaches_consumer_verbatim() {
    let mut c = ActionCoordinator::new(0, 10);
    assert_eq!(c.submit_payload(command_bytes("hello"), 5), SubmitOutcome::Queued);
    let cmd = c.take_command();
    assert_eq!(cmd.as_deref(), Some("hello"));
    assert_eq!(c.pending_count(), 0);
}

#[test]
fn malformed_payload_is_rejected_and_releases() {
    let mut c = ActionCoordinator::new(30_000, 10);
    let outcome = c.submit_payload(vec![0xff, 0xfe, 0x00], 2_000);
    assert_eq!(outcome, SubmitOutcome::RejectedMalformed);
    assert!(!c.is_in_progress());
    assert_eq!(c.pending_count(), 0);
    assert_eq!(c.last_action_at_ms(), Some(2_000));
}

#[test]
fn entry_decision_reports_busy_and_cooldown() {
    let mut c = ActionCoordinator::new(30_000, 10);
    assert_eq!(c.entry_decision(0), EntryDecision::Proceed);
    assert_eq!(c.submit_payload(command_bytes("a"), 0), SubmitOutcome::Queued);
    assert_eq!(c.entry_decision(1), EntryDecision::Busy);
    assert!(c.take_command().is_some());
    c.handle_pause_result(true, 5);
    c.complete_bracket(10);
    assert_eq!(c.entry_decision(11), EntryDecision::CoolingDown);
    assert_eq!(c.entry_decision(30_010), EntryDecision::Proceed);
}

#[test]
fn pause_failure_abandons_bracket_and_releases() {
    let mut c = ActionCoordinator::new(30_000, 10);
    assert_eq!(c.submit_payload(command_bytes("a"), 0), SubmitOutcome::Queued);
    assert!(c.take_command().is_some());
    let proceed = c.handle_pause_result(false, 7);
    assert!(!proceed);
    assert!(!c.is_in_progress());
    assert_eq!(c.last_action_at_ms(), Some(7));
}

// Scenario: the device sends data, the broker replies with a command for
// this adapter, the coordinator is idle and out of cooldown, and the
// pause/execute/resume bracket runs to completion in that order.
#[test]
fn action_command_runs_full_bracket() {
    let mut c = ActionCoordinator::new(30_000, 10);
    let reply = ForwardResponse {
        collector_name: "bjig".to_string(),
        content_type: "application/json".to_string(),
        metadata: "{}".to_string(),
        payload: command_bytes("{\"op\":\"reset\"}"),
    };

    let outcome = handle_broker_reply(&mut c, &reply, "bjig", "bjig", 50_000);
    assert_eq!(outcome, Some(SubmitOutcome::Queued));
    assert!(c.is_in_progress());

    // The single consumer takes the command, pauses, executes, resumes.
    let cmd = c.take_command();
    assert_eq!(cmd.as_deref(), Some("{\"op\":\"reset\"}"));
    let proceed = c.handle_pause_result(true, 50_100);
    assert!(proceed);
    assert!(c.is_in_progress());
    c.complete_bracket(50_200);

    assert!(!c.is_in_progress());
    assert_eq!(c.last_action_at_ms(), Some(50_200));
    assert_eq!(c.pending_count(), 0);
}

// Scenario: two triggers arrive 50 ms apart under a 30 s cooldown. The
// first is accepted and completes; the second lands in the cooldown window,
// is rejected, and changes nothing.
#[test]
fn second_trigger_within_cooldown_is_rejected() {
    let mut c = ActionCoordinator::new(30_000, 10);
    assert_eq!(c.submit_payload(command_bytes("first"), 100_000), SubmitOutcome::Queued);
    assert!(c.take_command().is_some());
    assert!(c.handle_pause_result(true, 100_005));
    c.complete_bracket(100_010);

    let second = c.submit_payload(command_bytes("second"), 100_060);
    assert_eq!(second, SubmitOutcome::RejectedCooldown);
    assert!(!c.is_in_progress());
    assert_eq!(c.pending_count(), 0);
    assert_eq!(c.last_action_at_ms(), Some(100_010));
}

#[test]
fn trigger_after_cooldown_elapses_is_accepted() {
    let mut c = ActionCoordinator::new(30_000, 10);
    assert_eq!(c.submit_payload(command_bytes("first"), 100_000), SubmitOutcome::Queued);
    assert!(c.take_command().is_some());
    assert!(c.handle_pause_result(true, 100_005));
    c.complete_bracket(100_010);

    let second = c.submit_payload(command_bytes("second"), 130_010);
    assert_eq!(second, SubmitOutcome::Queued);
}

// Scenario: ten commands pile up while the consumer is stalled — each one
// slipped past the entry check before any reached the queue — and the
// eleventh finds the queue full: it is turned away and the coordinator is
// released at once, with the action clock stamped.
#[test]
fn eleventh_trigger_on_full_queue_is_rejected_and_releases() {
    let mut c = ActionCoordinator::new(30_000, 10);
    for i in 0..10 {
        let queued = c.enqueue_command(format!("cmd-{}", i), 1_000 + i);
        assert!(queued);
    }
    assert_eq!(c.pending_count(), 10);
    assert!(c.is_in_progress());

    let queued = c.enqueue_command("cmd-10".to_string(), 2_000);
    assert!(!queued);
    assert!(!c.is_in_progress());
    assert_eq!(c.pending_count(), 10);
    assert_eq!(c.last_action_at_ms(), Some(2_000));
}

#[test]
fn full_queue_turns_a_raw_trigger_away() {
    // With no cooldown, a release by the queue-full path leaves the entry
    // check open, so the next raw trigger reaches the full queue itself.
    let mut c = ActionCoordinator::new(0, 2);
    assert!(c.enqueue_command("a".to_string(), 0));
    assert!(c.enqueue_command("b".to_string(), 1));
    assert!(!c.enqueue_command("c".to_string(), 2));
    assert!(!c.is_in_progress());

    let outcome = c.submit_payload(command_bytes("d"), 3);
    assert_eq!(outcome, SubmitOutcome::QueueFull);
    assert!(!c.is_in_progress());
    assert_eq!(c.pending_count(), 2);
    assert_eq!(c.last_action_at_ms(), Some(3));
}

#[test]
fn replies_for_other_adapters_leave_coordinator_alone() {
    let mut c = ActionCoordinator::new(30_000, 10);
    let reply = ForwardResponse {
        collector_name: "tcp".to_string(),
        content_type: "application/json".to_string(),
        metadata: "{}".to_string(),
        payload: command_bytes("x"),
    };
    let outcome = handle_broker_reply(&mut c, &reply, "bjig", "bjig", 1_000);
    assert_eq!(outcome, None);
    assert!(!c.is_in_progress());
    assert_eq!(c.pending_count(), 0);
}

#[test]
fn empty_reply_payload_is_a_plain_acknowledgment() {
    let mut c = ActionCoordinator::new(30_000, 10);
    let reply = ForwardResponse {
        collector_name: "bjig".to_string(),
        content_type: "application/json".to_string(),
        metadata: "{}".to_string(),
        payload: Vec::new(),
    };
    let outcome = handle_broker_reply(&mut c, &reply, "bjig", "bjig", 1_000);
    assert_eq!(outcome, None);
    assert!(!c.is_in_progress());
}
