//! Health monitor and restart flow: a periodic liveness check over the
//! shared "last data seen" timestamp, and the fixed stop → wait → start →
//! wait recovery sequence it drives when the device falls silent.
//!
//! The monitor decides; the caller performs the device calls and the settle
//! waits between them, and reports what it observed. Whatever the outcome,
//! the timestamp is reset after an attempt, so a broken device is retried at
//! most once per timeout window rather than on every tick.

use vstd::prelude::*;
use vstd::string::StringExecFns;

use crate::json::{append_json_quoted, json_quoted};

verus! {

/// Mathematical state of the monitor: the view of [`HealthMonitor`].
#[verifier::ext_equal]
pub ghost struct HealthModel {
    /// When data was last seen, in milliseconds on the caller's clock.
    pub last_data: int,
    /// Longest tolerated silence before a restart attempt, in milliseconds.
    pub timeout: int,
}

/// Whether the silence at `now` has outlived the timeout.
pub open spec fn breached(m: HealthModel, now: int) -> bool {
    now > m.last_data + m.timeout
}

/// The monitor after a restart attempt at `now`: the timestamp is reset
/// whatever the attempt's outcome was.
pub open spec fn after_attempt(m: HealthModel, now: int) -> HealthModel {
    HealthModel { last_data: now, timeout: m.timeout }
}

/// Liveness check over the shared last-data timestamp.
pub struct HealthMonitor {
    last_data_ms: u64,
    timeout_ms: u64,
}

impl View for HealthMonitor {
    type V = HealthModel;

    closed spec fn view(&self) -> HealthModel {
        HealthModel { last_data: self.last_data_ms as int, timeout: self.timeout_ms as int }
    }
}

impl HealthMonitor {
    /// A fresh monitor that counts silence from `now_ms`.
    pub fn new(now_ms: u64, timeout_ms: u64) -> (m: HealthMonitor)
        ensures
            m@ == (HealthModel { last_data: now_ms as int, timeout: timeout_ms as int }),
    {
        HealthMonitor { last_data_ms: now_ms, timeout_ms }
    }

    /// A successful data arrival at `now_ms`. The timestamp never moves
    /// backwards, so it stays monotonically non-decreasing even if arrivals
    /// are reported out of order.
    pub fn record_data(&mut self, now_ms: u64)
        ensures
            final(self)@.timeout == old(self)@.timeout,
            final(self)@.last_data == if now_ms as int > old(self)@.last_data {
                now_ms as int
            } else {
                old(self)@.last_data
            },
    {
        if now_ms > self.last_data_ms {
            self.last_data_ms = now_ms;
        }
    }

    /// The periodic tick's test: has the silence outlived the timeout?
    pub fn breach(&self, now_ms: u64) -> (r: bool)
        ensures
            r == breached(self@, now_ms as int),
    {
        (now_ms as u128) > (self.last_data_ms as u128) + (self.timeout_ms as u128)
    }

    /// A restart attempt finished at `now_ms`: reset the timestamp whatever
    /// the outcome, so the flow is not re-triggered on every following tick.
    pub fn reset_after_attempt(&mut self, now_ms: u64)
        ensures
            final(self)@ == after_attempt(old(self)@, now_ms as int),
    {
        self.last_data_ms = now_ms;
    }

    /// When data was last seen, in milliseconds.
    pub fn last_data_ms(&self) -> (t: u64)
        ensures
            t as int == self@.last_data,
    {
        self.last_data_ms
    }
}

/// After a restart attempt at `t`, no tick within one full timeout window
/// sees a breach again: a silent device fires at most one attempt per
/// window, never a storm of back-to-back attempts.
pub proof fn lemma_no_restart_storm(m: HealthModel, t: int, u: int)
    requires
        t <= u <= t + m.timeout,
    ensures
        !breached(after_attempt(m, t), u),
{
}

/// A tick at `now` drives a restart attempt exactly when the silence has
/// outlived the timeout.
pub proof fn lemma_breach_boundary(m: HealthModel, now: int)
    ensures
        breached(m, now) <==> now - m.last_data > m.timeout,
{
}

/// Status of one step of the restart flow. Steps start out pending and are
/// retained even when the flow returns early, so partial progress stays
/// visible to the operator.
#[derive(Debug, Clone, Copy, PartialEq, Eq, Structural)]
pub enum StepStatus {
    /// The step was never reached.
    Pending,
    /// The step completed.
    Success,
    /// The step failed; the flow stopped here.
    Error,
}

/// Overall verdict of one restart attempt.
#[derive(Debug, Clone, Copy, PartialEq, Eq, Structural)]
pub enum FlowStatus {
    /// Stop and start both succeeded and the monitor is back up.
    Success,
    /// Some step failed; the failing step is marked in the steps.
    Error,
}

/// Per-step record of one restart attempt.
#[derive(Debug, Clone, Copy, PartialEq, Eq, Structural)]
pub struct RestartSteps {
    /// Stopping the device or router.
    pub stop: StepStatus,
    /// Starting it again.
    pub start: StepStatus,
    /// The monitor coming back up after the settle wait.
    pub monitor: StepStatus,
}

/// What the caller observed while driving the device through the flow. The
/// flow stops at the first failure, so later steps carry no observation.
#[derive(Debug, Clone, PartialEq, Eq)]
pub enum RestartObservation {
    /// The device controller could not even be created; the detail says why.
    SetupFailed(String),
    /// The stop call failed or reported failure; nothing further was tried.
    StopFailed(String),
    /// Stop succeeded, the settle wait passed, but the start call failed.
    StartFailed(String),
    /// Stop and start both succeeded and the second settle wait passed.
    Completed,
}

/// Result of one restart attempt, forwarded verbatim to the broker as an
/// alert payload.
#[derive(Debug, Clone, PartialEq, Eq)]
pub struct RestartFlowResult {
    /// Overall verdict.
    pub status: FlowStatus,
    /// Per-step progress, retained even on early return.
    pub steps: RestartSteps,
    /// Human-readable account of the attempt.
    pub message: String,
    /// When the attempt finished, as text supplied by the caller.
    pub timestamp: String,
}

/// Builds the record of one restart attempt from what the caller observed.
///
/// A failed stop leaves start and monitor pending; a failed start leaves
/// monitor pending and stop marked successful; a completed flow marks all
/// three steps successful. Only a completed flow reports overall success.
pub fn restart_outcome(obs: RestartObservation, timestamp: String) -> (r: RestartFlowResult)
    ensures
        r.timestamp == timestamp,
        obs matches RestartObservation::SetupFailed(d) ==> {
            &&& r.status == FlowStatus::Error
            &&& r.steps == (RestartSteps {
                stop: StepStatus::Pending,
                start: StepStatus::Pending,
                monitor: StepStatus::Pending,
            })
            &&& r.message@ == "Failed to create device controller: "@ + d@
        },
        obs matches RestartObservation::StopFailed(d) ==> {
            &&& r.status == FlowStatus::Error
            &&& r.steps == (RestartSteps {
                stop: StepStatus::Error,
                start: StepStatus::Pending,
                monitor: StepStatus::Pending,
            })
            &&& r.message@ == "Router stop failed: "@ + d@
        },
        obs matches RestartObservation::StartFailed(d) ==> {
            &&& r.status == FlowStatus::Error
            &&& r.steps == (RestartSteps {
                stop: StepStatus::Success,
                start: StepStatus::Error,
                monitor: StepStatus::Pending,
            })
            &&& r.message@ == "Router start failed: "@ + d@
        },
        obs == RestartObservation::Completed ==> {
            &&& r.status == FlowStatus::Success
            &&& r.steps == (RestartSteps {
                stop: StepStatus::Success,
                start: StepStatus::Success,
                monitor: StepStatus::Success,
            })
            &&& r.message@ == "Router restarted successfully"@
        },
{
    match obs {
        RestartObservation::SetupFailed(d) => {
            let mut message = String::from_str("Failed to create device controller: ");
            message.append(d.as_str());
            RestartFlowResult {
                status: FlowStatus::Error,
                steps: RestartSteps {
                    stop: StepStatus::Pending,
                    start: StepStatus::Pending,
                    monitor: StepStatus::Pending,
                },
                message,
                timestamp,
            }
        },
        RestartObservation::StopFailed(d) => {
            let mut message = String::from_str("Router stop failed: ");
            message.append(d.as_str());
            RestartFlowResult {
                status: FlowStatus::Error,
                steps: RestartSteps {
                    stop: StepStatus::Error,
                    start: StepStatus::Pending,
                    monitor: StepStatus::Pending,
                },
                message,
                timestamp,
            }
        },
        RestartObservation::StartFailed(d) => {
            let mut message = String::from_str("Router start failed: ");
            message.append(d.as_str());
            RestartFlowResult {
                status: FlowStatus::Error,
                steps: RestartSteps {
                    stop: StepStatus::Success,
                    start: StepStatus::Error,
                    monitor: StepStatus::Pending,
                },
                message,
                timestamp,
            }
        },
        RestartObservation::Completed => {
            RestartFlowResult {
                status: FlowStatus::Success,
                steps: RestartSteps {
                    stop: StepStatus::Success,
                    start: StepStatus::Success,
                    monitor: StepStatus::Success,
                },
                message: String::from_str("Router restarted successfully"),
                timestamp,
            }
        },
    }
}

/// The wire word for an attempt's overall verdict.
pub open spec fn spec_status_text(s: FlowStatus) -> Seq<char> {
    match s {
        FlowStatus::Success => "success"@,
        FlowStatus::Error => "error"@,
    }
}

/// The wire word for one step's status.
pub open spec fn spec_step_text(s: StepStatus) -> Seq<char> {
    match s {
        StepStatus::Pending => "pending"@,
        StepStatus::Success => "success"@,
        StepStatus::Error => "error"@,
    }
}

/// The wire word for an attempt's overall verdict.
pub fn status_text(s: FlowStatus) -> (r: &'static str)
    ensures
        r@ == spec_status_text(s),
{
    match s {
        FlowStatus::Success => "success",
        FlowStatus::Error => "error",
    }
}

/// The wire word for one step's status.
pub fn step_text(s: StepStatus) -> (r: &'static str)
    ensures
        r@ == spec_step_text(s),
{
    match s {
        StepStatus::Pending => "pending",
        StepStatus::Success => "success",
        StepStatus::Error => "error",
    }
}

/// The alert payload for one restart attempt: status, timestamp, the three
/// step marks, and the message, as one JSON object.
pub open spec fn spec_alert_json(r: RestartFlowResult) -> Seq<char> {
    "{\"status\":\""@ + spec_status_text(r.status) + "\",\"timestamp\":"@ + json_quoted(
        r.timestamp@,
    ) + ",\"steps\":{\"stop\":\""@ + spec_step_text(r.steps.stop) + "\",\"start\":\""@
        + spec_step_text(r.steps.start) + "\",\"monitor\":\""@ + spec_step_text(r.steps.monitor)
        + "\"},\"message\":"@ + json_quoted(r.message@) + "}"@
}

/// Frames one restart attempt as the alert payload sent to the broker.
pub fn restart_alert_json(r: &RestartFlowResult) -> (out: String)
    ensures
        out@ == spec_alert_json(*r),
{
    let mut out = String::from_str("{\"status\":\"");
    out.append(status_text(r.status));
    out.append("\",\"timestamp\":");
    append_json_quoted(&mut out, r.timestamp.as_str());
    out.append(",\"steps\":{\"stop\":\"");
    out.append(step_text(r.steps.stop));
    out.append("\",\"start\":\"");
    out.append(step_text(r.steps.start));
    out.append("\",\"monitor\":\"");
    out.append(step_text(r.steps.monitor));
    out.append("\"},\"message\":");
    append_json_quoted(&mut out, r.message.as_str());
    out.append("}");
    proof {
        assert(out@ =~= spec_alert_json(*r));
    }
    out
}

} // verus!
