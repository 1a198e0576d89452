//! The forwarding gateway's data contract: the single request/response
//! exchange every adapter uses to talk to the broker, and the loopback
//! broker used when the system is exercised without a remote endpoint.
//!
//! The wire call itself — one synchronous exchange against the configured
//! endpoint, with no retry — is transport work done by the surrounding
//! process; it hands the reply back as a [`ForwardResponse`] or surfaces the
//! failure as a [`TransportError`].

use vstd::prelude::*;
use vstd::string::StringExecFns;

verus! {

/// One outbound message to the broker.
#[derive(Debug, Clone)]
pub struct ForwardRequest {
    /// Name of the sending adapter; never empty.
    pub collector_name: String,
    /// MIME type of the payload.
    pub content_type: String,
    /// JSON text carrying per-message context; `{}` when there is none.
    pub metadata: String,
    /// The message body; may be empty.
    pub payload: Vec<u8>,
}

/// The broker's reply to one forwarded message.
#[derive(Debug, Clone)]
pub struct ForwardResponse {
    /// Name of the adapter the reply is addressed to.
    pub collector_name: String,
    /// MIME type of the reply payload.
    pub content_type: String,
    /// JSON text; may carry the `response_type` routing instruction.
    pub metadata: String,
    /// The reply body; empty for a plain acknowledgment.
    pub payload: Vec<u8>,
}

/// Why a forward call failed. None of these is retried by the gateway;
/// callers decide.
#[derive(Debug, Clone)]
pub enum TransportError {
    /// The broker endpoint could not be reached.
    Connect(String),
    /// The broker answered with an error status.
    Remote(String),
    /// The request could not be put on the wire.
    Serialize(String),
}

/// Why a forward request was refused before any transport was touched.
#[derive(Debug, Clone, Copy, PartialEq, Eq, Structural)]
pub enum ForwardRequestError {
    /// The sending adapter's name was empty.
    EmptyCollectorName,
}

impl ForwardRequest {
    /// Builds one outbound message. The collector name must not be empty;
    /// the metadata is expected to be JSON text, as the builders in this
    /// crate produce it, with `{}` as the conventional empty value.
    pub fn new(
        collector_name: String,
        content_type: String,
        metadata: String,
        payload: Vec<u8>,
    ) -> (r: Result<ForwardRequest, ForwardRequestError>)
        ensures
            collector_name@.len() > 0 ==> (r matches Ok(q) && q.collector_name == collector_name
                && q.content_type == content_type && q.metadata == metadata && q.payload
                == payload),
            collector_name@.len() == 0 ==> (r matches Err(e) && e
                == ForwardRequestError::EmptyCollectorName),
    {
        if collector_name.as_str().is_empty() {
            Err(ForwardRequestError::EmptyCollectorName)
        } else {
            Ok(ForwardRequest { collector_name, content_type, metadata, payload })
        }
    }
}

/// An owned copy of a payload, byte for byte.
pub fn copy_payload(payload: &Vec<u8>) -> (r: Vec<u8>)
    ensures
        r@ == payload@,
{
    let n = payload.len();
    let mut out: Vec<u8> = Vec::new();
    let mut i: usize = 0;
    while i < n
        invariant
            i <= n,
            n == payload@.len(),
            out@ == payload@.subrange(0, i as int),
        decreases n - i,
    {
        out.push(payload[i]);
        proof {
            assert(out@ =~= payload@.subrange(0, i + 1));
        }
        i = i + 1;
    }
    proof {
        assert(out@ =~= payload@);
    }
    out
}

/// The loopback broker of the test tooling: answers every request with a
/// fixed address and the request's own payload echoed back.
#[derive(Debug, Clone, Copy, PartialEq, Eq, Structural, Default)]
pub struct KrakenBroker {}

impl KrakenBroker {
    /// Answers one forwarded message: the reply carries fixed example
    /// fields and echoes the request's payload unchanged.
    pub fn process_kraken_request(&self, request: ForwardRequest) -> (r: ForwardResponse)
        ensures
            r.collector_name@ == "example_collector"@,
            r.content_type@ == "example_type"@,
            r.metadata@ == "example_metadata"@,
            r.payload == request.payload,
    {
        ForwardResponse {
            collector_name: String::from_str("example_collector"),
            content_type: String::from_str("example_type"),
            metadata: String::from_str("example_metadata"),
            payload: request.payload,
        }
    }
}

} // verus!
