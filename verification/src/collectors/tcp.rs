//! Raw TCP adapter: forwards every chunk read from a peer to the broker,
//! tagged with the peer's address, and echoes replies that carry the `tcp`
//! routing instruction back over the same connection.
//!
//! The listener and the socket reads and writes are transport work done by
//! the surrounding process; the per-chunk forward contract stands here, and
//! the echo decision is the response router's.

use vstd::prelude::*;
use vstd::string::StringExecFns;

use crate::collectors::{Collector, CollectorFactory};
use crate::collectors::grpc::ForwardRequest;
use crate::config::CollectorCfg;
use crate::json::{json_object1, json_object1_string};

verus! {

/// The metadata for one forwarded chunk: the peer's address under the
/// `peer_addr` key.
pub fn tcp_metadata(peer_addr: &str) -> (r: String)
    ensures
        r@ == json_object1("peer_addr"@, peer_addr@),
{
    json_object1_string("peer_addr", peer_addr)
}

/// The forward call for one chunk read from the peer at `peer_addr`.
pub fn tcp_forward_request(peer_addr: &str, payload: Vec<u8>) -> (r: ForwardRequest)
    ensures
        r.collector_name@ == "tcp"@,
        r.content_type@ == "application/octet-stream"@,
        r.metadata@ == json_object1("peer_addr"@, peer_addr@),
        r.payload == payload,
{
    ForwardRequest {
        collector_name: String::from_str("tcp"),
        content_type: String::from_str("application/octet-stream"),
        metadata: tcp_metadata(peer_addr),
        payload,
    }
}

/// The raw TCP adapter.
pub struct Tcp {
    pub config: CollectorCfg,
}

/// Builds the TCP adapter from a captured configuration.
pub struct TcpFactory {
    pub config: CollectorCfg,
}

impl TcpFactory {
    /// Captures the configuration the adapter will run with.
    pub fn new(config: CollectorCfg) -> (f: Self)
        ensures
            f.config == config,
    {
        Self { config }
    }
}

impl CollectorFactory for TcpFactory {
    type Created = Tcp;

    open spec fn spec_created_name(&self) -> Seq<char> {
        "tcp"@
    }

    open spec fn spec_created_enabled(&self) -> bool {
        self.config.tcp.enable
    }

    fn create(&self) -> (c: Tcp) {
        Tcp { config: self.config.clone() }
    }
}

impl Collector for Tcp {
    open spec fn spec_name(&self) -> Seq<char> {
        "tcp"@
    }

    open spec fn spec_enabled(&self) -> bool {
        self.config.tcp.enable
    }

    fn name(&self) -> (r: &'static str) {
        "tcp"
    }

    fn is_enable(&self) -> (r: bool) {
        self.config.tcp.enable
    }
}

} // verus!
