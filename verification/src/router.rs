//! Response router: the pure decision an adapter takes over a broker reply.
//! A reply addressed to the adapter that carries an echo instruction and a
//! payload goes back over the originating connection; one addressed to the
//! adapter with a payload but no instruction is an action command for the
//! coordinator; everything else was a plain sink write.

use vstd::prelude::*;

use crate::collectors::grpc::ForwardResponse;
use crate::text::str_eq;

verus! {

/// What an adapter does with one broker reply.
#[derive(Debug, Clone, Copy, PartialEq, Eq, Structural)]
pub enum RouteAction {
    /// Write the reply payload back over the connection that produced the
    /// triggering request.
    Echo,
    /// Hand the reply payload to the action coordinator as a device command.
    ActionCommand,
    /// Nothing further; the forward call was a pure sink write.
    NoAction,
}

/// The string at `key` in the JSON object `text`, when `text` parses as
/// JSON, holds that key, and the value there is a string; nothing otherwise.
/// A function of the text and key alone.
pub uninterp spec fn json_str_field(text: Seq<char>, key: Seq<char>) -> Option<Seq<char>>;

/// Relies on serde_json::from_str::<Value>, Value::get and Value::as_str:
/// parsing is deterministic, lookup in the parsed object finds the key's
/// value, and as_str gives it exactly when it is a string.
#[verifier::external_body]
fn lookup_json_str_field(text: &str, key: &str) -> (r: Option<String>)
    ensures
        r is Some <==> json_str_field(text@, key@) is Some,
        r is Some ==> r.unwrap()@ == json_str_field(text@, key@).unwrap(),
{
    match serde_json::from_str::<serde_json::Value>(text) {
        Ok(value) => match value.get(key) {
            Some(field) => match field.as_str() {
                Some(s) => Some(s.to_owned()),
                None => None,
            },
            None => None,
        },
        Err(_) => None,
    }
}

/// The metadata key carrying the routing instruction.
pub open spec fn response_type_key() -> Seq<char> {
    "response_type"@
}

/// The view of an optional borrowed instruction string.
pub open spec fn instruction_view(instruction: Option<&str>) -> Option<Seq<char>> {
    match instruction {
        Some(s) => Some(s@),
        None => None,
    }
}

/// Whether the instruction orders an echo for an adapter of the given
/// transport kind: the conventional value `tcp`, or the adapter's own kind.
pub open spec fn echo_instructed(instruction: Option<Seq<char>>, transport: Seq<char>) -> bool {
    instruction == Some("tcp"@) || instruction == Some(transport)
}

/// The routing decision over the already-extracted instruction: echo when
/// the reply is addressed to this adapter, carries a payload, and the
/// instruction orders it; an action command when it is addressed here with
/// a payload and no instruction at all; nothing otherwise — in particular,
/// an instruction naming some other transport means "do not echo".
pub open spec fn decide_route(
    collector: Seq<char>,
    instruction: Option<Seq<char>>,
    payload_len: nat,
    own_name: Seq<char>,
    transport: Seq<char>,
) -> RouteAction {
    if collector == own_name && payload_len > 0 && echo_instructed(instruction, transport) {
        RouteAction::Echo
    } else if collector == own_name && payload_len > 0 && instruction is None {
        RouteAction::ActionCommand
    } else {
        RouteAction::NoAction
    }
}

/// The routing decision over a whole broker reply: the instruction is the
/// `response_type` string of the reply's metadata.
pub open spec fn spec_route_response(
    resp: ForwardResponse,
    own_name: Seq<char>,
    transport: Seq<char>,
) -> RouteAction {
    decide_route(
        resp.collector_name@,
        json_str_field(resp.metadata@, response_type_key()),
        resp.payload@.len(),
        own_name,
        transport,
    )
}

/// Routes a reply whose instruction has already been extracted from the
/// metadata.
pub fn route_with_instruction(
    collector_name: &str,
    instruction: Option<&str>,
    payload_len: usize,
    own_name: &str,
    transport_kind: &str,
) -> (a: RouteAction)
    ensures
        a == decide_route(
            collector_name@,
            instruction_view(instruction),
            payload_len as nat,
            own_name@,
            transport_kind@,
        ),
{
    let addressed_here = str_eq(collector_name, own_name);
    let echo = match instruction {
        Some(s) => str_eq(s, "tcp") || str_eq(s, transport_kind),
        None => false,
    };
    if addressed_here && payload_len > 0 && echo {
        RouteAction::Echo
    } else if addressed_here && payload_len > 0 && instruction.is_none() {
        RouteAction::ActionCommand
    } else {
        RouteAction::NoAction
    }
}

/// Routes one broker reply for the adapter named `own_name` whose transport
/// kind is `transport_kind`.
pub fn route_response(resp: &ForwardResponse, own_name: &str, transport_kind: &str) -> (a:
    RouteAction)
    ensures
        a == spec_route_response(*resp, own_name@, transport_kind@),
{
    let instruction = lookup_json_str_field(resp.metadata.as_str(), "response_type");
    let instruction_ref = match &instruction {
        Some(s) => Some(s.as_str()),
        None => None,
    };
    route_with_instruction(
        resp.collector_name.as_str(),
        instruction_ref,
        resp.payload.len(),
        own_name,
        transport_kind,
    )
}

} // verus!
