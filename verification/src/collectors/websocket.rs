//! Websocket adapter: accepts websocket peers, greets each with a fixed
//! hello message, forwards every inbound text or binary message to the
//! broker, and echoes replies addressed to this adapter back to the peer as
//! text or binary according to the reply's content type.
//!
//! The listener, the handshake and the frame I/O are transport work done by
//! the surrounding process; the greeting, the forward contract and the
//! reply-format decision stand here.

use vstd::prelude::*;
use vstd::string::StringExecFns;

use crate::collectors::{Collector, CollectorFactory};
use crate::collectors::grpc::ForwardRequest;
use crate::config::CollectorCfg;
use crate::text::str_eq;

verus! {

/// The greeting sent to every freshly connected peer.
pub fn hello_message() -> (r: &'static str)
    ensures
        r@ == "{\"kraken\": \"hello\"}"@,
{
    "{\"kraken\": \"hello\"}"
}

/// How a reply payload goes back to the peer.
#[derive(Debug, Clone, Copy, PartialEq, Eq, Structural)]
pub enum WsMessageKind {
    /// As a text frame: the reply carries a textual content type.
    Text,
    /// As a binary frame: any other content type.
    Binary,
}

/// The frame kind for a reply of the given content type: text for JSON,
/// plain text and HTML, binary for everything else.
pub open spec fn spec_ws_message_kind(content_type: Seq<char>) -> WsMessageKind {
    if content_type == "application/json"@ || content_type == "text/plain"@ || content_type
        == "text/html"@ {
        WsMessageKind::Text
    } else {
        WsMessageKind::Binary
    }
}

/// Decides the frame kind for a reply of the given content type.
pub fn ws_message_kind(content_type: &str) -> (k: WsMessageKind)
    ensures
        k == spec_ws_message_kind(content_type@),
{
    if str_eq(content_type, "application/json") || str_eq(content_type, "text/plain") || str_eq(
        content_type,
        "text/html",
    ) {
        WsMessageKind::Text
    } else {
        WsMessageKind::Binary
    }
}

/// The forward call for one inbound websocket message: JSON content type
/// for a text frame, an octet stream for a binary one, and no metadata.
pub fn ws_forward_request(is_text: bool, payload: Vec<u8>) -> (r: ForwardRequest)
    ensures
        r.collector_name@ == "websocket"@,
        is_text ==> r.content_type@ == "application/json"@,
        !is_text ==> r.content_type@ == "application/octet-stream"@,
        r.metadata@ == "{}"@,
        r.payload == payload,
{
    ForwardRequest {
        collector_name: String::from_str("websocket"),
        content_type: if is_text {
            String::from_str("application/json")
        } else {
            String::from_str("application/octet-stream")
        },
        metadata: String::from_str("{}"),
        payload,
    }
}

/// The websocket adapter.
pub struct Websocket {
    pub config: CollectorCfg,
}

/// Builds the websocket adapter from a captured configuration.
pub struct WebsocketFactory {
    pub config: CollectorCfg,
}

impl WebsocketFactory {
    /// Captures the configuration the adapter will run with.
    pub fn new(config: CollectorCfg) -> (f: Self)
        ensures
            f.config == config,
    {
        Self { config }
    }
}

impl CollectorFactory for WebsocketFactory {
    type Created = Websocket;

    open spec fn spec_created_name(&self) -> Seq<char> {
        "websocket"@
    }

    open spec fn spec_created_enabled(&self) -> bool {
        self.config.websocket.enable
    }

    fn create(&self) -> (c: Websocket) {
        Websocket { config: self.config.clone() }
    }
}

impl Collector for Websocket {
    open spec fn spec_name(&self) -> Seq<char> {
        "websocket"@
    }

    open spec fn spec_enabled(&self) -> bool {
        self.config.websocket.enable
    }

    fn name(&self) -> (r: &'static str) {
        "websocket"
    }

    fn is_enable(&self) -> (r: bool) {
        self.config.websocket.enable
    }
}

} // verus!
