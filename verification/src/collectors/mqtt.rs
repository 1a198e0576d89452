//! MQTT adapter: runs an embedded MQTT broker, subscribes to the configured
//! topic, and forwards every published message to the central broker.
//!
//! The embedded broker, its link and the receive loop are transport work
//! done by the surrounding process; the per-message forward contract stands
//! here.

use vstd::prelude::*;
use vstd::string::StringExecFns;

use crate::collectors::{Collector, CollectorFactory};
use crate::collectors::grpc::ForwardRequest;
use crate::config::CollectorCfg;

verus! {

/// The forward call for one message published on the subscribed topic.
pub fn mqtt_forward_request(payload: Vec<u8>) -> (r: ForwardRequest)
    ensures
        r.collector_name@ == "mqtt"@,
        r.content_type@ == "application/json"@,
        r.metadata@ == "{}"@,
        r.payload == payload,
{
    ForwardRequest {
        collector_name: String::from_str("mqtt"),
        content_type: String::from_str("application/json"),
        metadata: String::from_str("{}"),
        payload,
    }
}

/// The MQTT adapter.
pub struct Mqtt {
    pub config: CollectorCfg,
}

/// Builds the MQTT adapter from a captured configuration.
pub struct MqttFactory {
    pub config: CollectorCfg,
}

impl MqttFactory {
    /// Captures the configuration the adapter will run with.
    pub fn new(config: CollectorCfg) -> (f: Self)
        ensures
            f.config == config,
    {
        Self { config }
    }
}

impl CollectorFactory for MqttFactory {
    type Created = Mqtt;

    open spec fn spec_created_name(&self) -> Seq<char> {
        "mqtt"@
    }

    open spec fn spec_created_enabled(&self) -> bool {
        self.config.mqtt.enable
    }

    fn create(&self) -> (c: Mqtt) {
        Mqtt { config: self.config.clone() }
    }
}

impl Collector for Mqtt {
    open spec fn spec_name(&self) -> Seq<char> {
        "mqtt"@
    }

    open spec fn spec_enabled(&self) -> bool {
        self.config.mqtt.enable
    }

    fn name(&self) -> (r: &'static str) {
        "mqtt"
    }

    fn is_enable(&self) -> (r: bool) {
        self.config.mqtt.enable
    }
}

} // verus!
