//! Device-control adapter: streams sensor lines from a controlled device to
//! the broker and turns actionable replies into device commands.
//!
//! This is the one adapter that owns an action coordinator and a health
//! monitor. Its data path forwards each line with a `data` metadata tag,
//! routes the broker's reply, and presents action commands to the
//! coordinator; its consumer runs the pause/execute/resume bracket; its
//! monitor tick drives the restart flow and reports the attempt with an
//! `alert` metadata tag. The device calls themselves (start, stop, pause,
//! resume) and the settle waits are transport work done by the surrounding
//! process against the decisions made here.

use vstd::prelude::*;
use vstd::string::StringExecFns;

use crate::collectors::{Collector, CollectorFactory};
use crate::collectors::grpc::{copy_payload, ForwardRequest, ForwardResponse};
use crate::config::CollectorCfg;
use crate::coordinator::{submit_step, ActionCoordinator, SubmitOutcome};
use crate::router::{route_response, spec_route_response, RouteAction};

verus! {

/// The metadata tag sent with ordinary sensor data.
pub open spec fn spec_data_metadata() -> Seq<char> {
    "{\"bjig\":\"data\"}"@
}

/// The metadata tag sent with a restart alert.
pub open spec fn spec_alert_metadata() -> Seq<char> {
    "{\"bjig\":\"alert\"}"@
}

/// The metadata for one forwarded message: the `alert` tag for restart
/// reports, the `data` tag for everything else.
pub fn bjig_metadata(alert: bool) -> (r: String)
    ensures
        !alert ==> r@ == spec_data_metadata(),
        alert ==> r@ == spec_alert_metadata(),
{
    if alert {
        String::from_str("{\"bjig\":\"alert\"}")
    } else {
        String::from_str("{\"bjig\":\"data\"}")
    }
}

/// The forward call for one sensor line or one restart alert.
pub fn bjig_forward_request(alert: bool, payload: Vec<u8>) -> (r: ForwardRequest)
    ensures
        r.collector_name@ == "bjig"@,
        r.content_type@ == "application/json"@,
        !alert ==> r.metadata@ == spec_data_metadata(),
        alert ==> r.metadata@ == spec_alert_metadata(),
        r.payload == payload,
{
    ForwardRequest {
        collector_name: String::from_str("bjig"),
        content_type: String::from_str("application/json"),
        metadata: bjig_metadata(alert),
        payload,
    }
}

/// The data path's handling of one broker reply at `now_ms`: a reply the
/// router reads as an action command is presented to the coordinator as a
/// trigger carrying the reply's payload, and the coordinator's verdict is
/// returned; any other reply leaves the coordinator untouched.
pub fn handle_broker_reply(
    coordinator: &mut ActionCoordinator,
    resp: &ForwardResponse,
    own_name: &str,
    transport_kind: &str,
    now_ms: u64,
) -> (o: Option<SubmitOutcome>)
    ensures
        ({
            let action = spec_route_response(*resp, own_name@, transport_kind@);
            &&& (o is Some) == (action == RouteAction::ActionCommand)
            &&& action == RouteAction::ActionCommand ==> {
                &&& final(coordinator)@ == submit_step(
                    old(coordinator)@,
                    resp.payload@,
                    now_ms as int,
                ).0
                &&& o.unwrap() == submit_step(old(coordinator)@, resp.payload@, now_ms as int).1
            }
            &&& action != RouteAction::ActionCommand ==> final(coordinator)@ == old(coordinator)@
        }),
{
    match route_response(resp, own_name, transport_kind) {
        RouteAction::ActionCommand => {
            let payload = copy_payload(&resp.payload);
            Some(coordinator.submit_payload(payload, now_ms))
        },
        RouteAction::Echo => None,
        RouteAction::NoAction => None,
    }
}

/// The device-control adapter.
pub struct Bjig {
    pub config: CollectorCfg,
}

/// Builds the device-control adapter from a captured configuration.
pub struct BjigFactory {
    pub config: CollectorCfg,
}

impl BjigFactory {
    /// Captures the configuration the adapter will run with.
    pub fn new(config: CollectorCfg) -> (f: Self)
        ensures
            f.config == config,
    {
        Self { config }
    }
}

impl CollectorFactory for BjigFactory {
    type Created = Bjig;

    open spec fn spec_created_name(&self) -> Seq<char> {
        "bjig"@
    }

    open spec fn spec_created_enabled(&self) -> bool {
        self.config.bjig.enable
    }

    fn create(&self) -> (c: Bjig) {
        Bjig { config: self.config.clone() }
    }
}

impl Collector for Bjig {
    open spec fn spec_name(&self) -> Seq<char> {
        "bjig"@
    }

    open spec fn spec_enabled(&self) -> bool {
        self.config.bjig.enable
    }

    fn name(&self) -> (r: &'static str) {
        "bjig"
    }

    fn is_enable(&self) -> (r: bool) {
        self.config.bjig.enable
    }
}

} // verus!
