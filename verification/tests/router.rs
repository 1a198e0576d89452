use kraken_collector::collectors::grpc::ForwardResponse;
use kraken_collector::router::{route_response, route_with_instruction, RouteAction};

fn reply(collector: &str, metadata: &str, payload: &[u8]) -> ForwardResponse {
    ForwardResponse {
        collector_name: collector.to_string(),
        content_type: "application/octet-stream".to_string(),
        metadata: metadata.to_string(),
        payload: payload.to_vec(),
    }
}

#[test]
fn tcp_instruction_with_payload_echoes() {
    let r = reply("tcp", "{\"response_type\":\"tcp\"}", b"pong");
    assert_eq!(route_response(&r, "tcp", "tcp"), RouteAction::Echo);
}

#[test]
fn mismatched_collector_name_does_nothing() {
    let r = reply("tcp", "{\"response_type\":\"tcp\"}", b"pong");
    assert_eq!(route_response(&r, "websocket", "websocket"), RouteAction::NoAction);
}

#[test]
fn own_transport_kind_also_echoes() {
    let r = reply("websocket", "{\"response_type\":\"websocket\"}", b"pong");
    assert_eq!(route_response(&r, "websocket", "websocket"), RouteAction::Echo);
}

#[test]
fn foreign_instruction_means_no_echo_and_no_action() {
    let r = reply("tcp", "{\"response_type\":\"smtp\"}", b"pong");
    assert_eq!(route_response(&r, "tcp", "tcp"), RouteAction::NoAction);
}

#[test]
fn empty_payload_is_a_sink_write() {
    let r = reply("tcp", "{\"response_type\":\"tcp\"}", b"");
    assert_eq!(route_response(&r, "tcp", "tcp"), RouteAction::NoAction);
}

#[test]
fn no_instruction_with_payload_is_an_action_command() {
    let r = reply("bjig", "{}", b"{\"op\":\"reset\"}");
    assert_eq!(route_response(&r, "bjig", "bjig"), RouteAction::ActionCommand);
}

#[test]
fn non_string_instruction_counts_as_absent() {
    let r = reply("bjig", "{\"response_type\":7}", b"cmd");
    assert_eq!(route_response(&r, "bjig", "bjig"), RouteAction::ActionCommand);
}

#[test]
fn unparseable_metadata_counts_as_absent() {
    let r = reply("bjig", "not json", b"cmd");
    assert_eq!(route_response(&r, "bjig", "bjig"), RouteAction::ActionCommand);
}

#[test]
fn instruction_lookup_reads_the_right_key() {
    // The instruction must come from the `response_type` member, not from
    // anywhere else in the metadata text.
    let r = reply("tcp", "{\"other\":\"tcp\"}", b"pong");
    assert_eq!(route_response(&r, "tcp", "tcp"), RouteAction::ActionCommand);
}

#[test]
fn extracted_instruction_drives_the_same_decision() {
    assert_eq!(
        route_with_instruction("tcp", Some("tcp"), 4, "tcp", "tcp"),
        RouteAction::Echo
    );
    assert_eq!(
        route_with_instruction("tcp", None, 4, "tcp", "tcp"),
        RouteAction::ActionCommand
    );
    assert_eq!(
        route_with_instruction("tcp", Some("xyz"), 4, "tcp", "tcp"),
        RouteAction::NoAction
    );
    assert_eq!(
        route_with_instruction("tcp", Some("tcp"), 0, "tcp", "tcp"),
        RouteAction::NoAction
    );
}
