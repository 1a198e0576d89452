//! Serial-port adapter: forwards every chunk read from the configured
//! serial device to the broker, tagged with the device's name.
//!
//! Opening the port and reading from it are transport work done by the
//! surrounding process; the per-chunk forward contract stands here.

use vstd::prelude::*;
use vstd::string::StringExecFns;

use crate::collectors::{Collector, CollectorFactory};
use crate::collectors::grpc::ForwardRequest;
use crate::config::CollectorCfg;
use crate::json::{json_object1, json_object1_string};

verus! {

/// The metadata for one forwarded chunk: the device's name under the
/// `device_name` key.
pub fn serial_metadata(device_name: &str) -> (r: String)
    ensures
        r@ == json_object1("device_name"@, device_name@),
{
    json_object1_string("device_name", device_name)
}

/// The forward call for one chunk read from the serial device.
pub fn serial_forward_request(device_name: &str, payload: Vec<u8>) -> (r: ForwardRequest)
    ensures
        r.collector_name@ == "serial"@,
        r.content_type@ == "application/octet-stream"@,
        r.metadata@ == json_object1("device_name"@, device_name@),
        r.payload == payload,
{
    ForwardRequest {
        collector_name: String::from_str("serial"),
        content_type: String::from_str("application/octet-stream"),
        metadata: serial_metadata(device_name),
        payload,
    }
}

/// The serial-port adapter.
pub struct Serial {
    pub config: CollectorCfg,
}

/// Builds the serial adapter from a captured configuration.
pub struct SerialFactory {
    pub config: CollectorCfg,
}

impl SerialFactory {
    /// Captures the configuration the adapter will run with.
    pub fn new(config: CollectorCfg) -> (f: Self)
        ensures
            f.config == config,
    {
        Self { config }
    }
}

impl CollectorFactory for SerialFactory {
    type Created = Serial;

    open spec fn spec_created_name(&self) -> Seq<char> {
        "serial"@
    }

    open spec fn spec_created_enabled(&self) -> bool {
        self.config.serial.enable
    }

    fn create(&self) -> (c: Serial) {
        Serial { config: self.config.clone() }
    }
}

impl Collector for Serial {
    open spec fn spec_name(&self) -> Seq<char> {
        "serial"@
    }

    open spec fn spec_enabled(&self) -> bool {
        self.config.serial.enable
    }

    fn name(&self) -> (r: &'static str) {
        "serial"
    }

    fn is_enable(&self) -> (r: bool) {
        self.config.serial.enable
    }
}

} // verus!
