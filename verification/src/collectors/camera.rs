//! Camera adapter: captures frames on a fixed interval and forwards each
//! decoded frame to the broker, tagged with the image format and the
//! camera's name and index.
//!
//! Querying, opening and reading the camera are transport work done by the
//! surrounding process; the per-frame forward contract stands here.

use vstd::prelude::*;
use vstd::string::StringExecFns;

use crate::collectors::{Collector, CollectorFactory};
use crate::collectors::grpc::ForwardRequest;
use crate::config::CollectorCfg;
use crate::json::{append_json_quoted, json_quoted, push_char};

verus! {

/// The metadata for one forwarded frame: format, camera name and camera
/// index, in that order.
pub open spec fn spec_camera_metadata(
    format: Seq<char>,
    camera_name: Seq<char>,
    camera_index: Seq<char>,
) -> Seq<char> {
    seq!['{'] + json_quoted("format"@) + seq![':'] + json_quoted(format) + seq![','] + json_quoted(
        "camera_name"@,
    ) + seq![':'] + json_quoted(camera_name) + seq![','] + json_quoted("camera_index"@) + seq![':']
        + json_quoted(camera_index) + seq!['}']
}

/// Builds the metadata for one forwarded frame.
pub fn camera_metadata(format: &str, camera_name: &str, camera_index: &str) -> (r: String)
    ensures
        r@ == spec_camera_metadata(format@, camera_name@, camera_index@),
{
    let mut out = String::new();
    push_char(&mut out, '{');
    append_json_quoted(&mut out, "format");
    push_char(&mut out, ':');
    append_json_quoted(&mut out, format);
    push_char(&mut out, ',');
    append_json_quoted(&mut out, "camera_name");
    push_char(&mut out, ':');
    append_json_quoted(&mut out, camera_name);
    push_char(&mut out, ',');
    append_json_quoted(&mut out, "camera_index");
    push_char(&mut out, ':');
    append_json_quoted(&mut out, camera_index);
    push_char(&mut out, '}');
    proof {
        assert(out@ =~= spec_camera_metadata(format@, camera_name@, camera_index@));
    }
    out
}

/// The forward call for one captured frame.
pub fn camera_forward_request(
    format: &str,
    camera_name: &str,
    camera_index: &str,
    payload: Vec<u8>,
) -> (r: ForwardRequest)
    ensures
        r.collector_name@ == "camera"@,
        r.content_type@ == "application/octet-stream"@,
        r.metadata@ == spec_camera_metadata(format@, camera_name@, camera_index@),
        r.payload == payload,
{
    ForwardRequest {
        collector_name: String::from_str("camera"),
        content_type: String::from_str("application/octet-stream"),
        metadata: camera_metadata(format, camera_name, camera_index),
        payload,
    }
}

/// The camera adapter.
pub struct CameraCollector {
    pub config: CollectorCfg,
}

/// Builds the camera adapter from a captured configuration.
pub struct CameraFactory {
    pub config: CollectorCfg,
}

impl CameraFactory {
    /// Captures the configuration the adapter will run with.
    pub fn new(config: CollectorCfg) -> (f: Self)
        ensures
            f.config == config,
    {
        Self { config }
    }
}

impl CollectorFactory for CameraFactory {
    type Created = CameraCollector;

    open spec fn spec_created_name(&self) -> Seq<char> {
        "camera"@
    }

    open spec fn spec_created_enabled(&self) -> bool {
        self.config.camera.enable
    }

    fn create(&self) -> (c: CameraCollector) {
        CameraCollector { config: self.config.clone() }
    }
}

impl Collector for CameraCollector {
    open spec fn spec_name(&self) -> Seq<char> {
        "camera"@
    }

    open spec fn spec_enabled(&self) -> bool {
        self.config.camera.enable
    }

    fn name(&self) -> (r: &'static str) {
        "camera"
    }

    fn is_enable(&self) -> (r: bool) {
        self.config.camera.enable
    }
}

} // verus!
