//! Webhook adapter: a small HTTP endpoint. A GET on the root answers a
//! fixed status body; a POST on the webhook path forwards the request body
//! to the broker and acknowledges; anything else is not found.
//!
//! The HTTP server itself is transport work done by the surrounding process;
//! the request routing and the response bodies stand here.

use vstd::prelude::*;
use vstd::string::StringExecFns;

use crate::collectors::{Collector, CollectorFactory};
use crate::collectors::grpc::ForwardRequest;
use crate::config::CollectorCfg;
use crate::text::str_eq;

verus! {

/// The request method, as far as the routing cares.
#[derive(Debug, Clone, Copy, PartialEq, Eq, Structural)]
pub enum HttpMethod {
    Get,
    Post,
    /// Any other method.
    Other,
}

/// Where one HTTP request goes.
#[derive(Debug, Clone, Copy, PartialEq, Eq, Structural)]
pub enum WebhookRoute {
    /// GET on `/`: answer the fixed status body.
    RootStatus,
    /// POST on `/webhook`: forward the body to the broker and acknowledge.
    ReceiveData,
    /// Anything else: not found.
    NotFound,
}

/// The routing decision for one request.
pub open spec fn spec_webhook_route(method: HttpMethod, path: Seq<char>) -> WebhookRoute {
    if method == HttpMethod::Get && path == "/"@ {
        WebhookRoute::RootStatus
    } else if method == HttpMethod::Post && path == "/webhook"@ {
        WebhookRoute::ReceiveData
    } else {
        WebhookRoute::NotFound
    }
}

/// Routes one HTTP request by method and path.
pub fn webhook_route(method: HttpMethod, path: &str) -> (r: WebhookRoute)
    ensures
        r == spec_webhook_route(method, path@),
{
    match method {
        HttpMethod::Get => {
            if str_eq(path, "/") {
                WebhookRoute::RootStatus
            } else {
                WebhookRoute::NotFound
            }
        },
        HttpMethod::Post => {
            if str_eq(path, "/webhook") {
                WebhookRoute::ReceiveData
            } else {
                WebhookRoute::NotFound
            }
        },
        HttpMethod::Other => WebhookRoute::NotFound,
    }
}

/// The body answered to a GET on the root.
pub fn status_body() -> (r: &'static str)
    ensures
        r@ == "{ \"status\": \"OK\"}"@,
{
    "{ \"status\": \"OK\"}"
}

/// The body acknowledging an accepted POST.
pub fn post_ok_body() -> (r: &'static str)
    ensures
        r@ == "{ \"status\": \"POST_OK\"}"@,
{
    "{ \"status\": \"POST_OK\"}"
}

/// The forward call for one received webhook body.
pub fn webhook_forward_request(payload: Vec<u8>) -> (r: ForwardRequest)
    ensures
        r.collector_name@ == "webhook"@,
        r.content_type@ == "application/json"@,
        r.metadata@ == "{}"@,
        r.payload == payload,
{
    ForwardRequest {
        collector_name: String::from_str("webhook"),
        content_type: String::from_str("application/json"),
        metadata: String::from_str("{}"),
        payload,
    }
}

/// The webhook adapter.
pub struct Webhook {
    pub config: CollectorCfg,
}

/// Builds the webhook adapter from a captured configuration.
pub struct WebhookFactory {
    pub config: CollectorCfg,
}

impl WebhookFactory {
    /// Captures the configuration the adapter will run with.
    pub fn new(config: CollectorCfg) -> (f: Self)
        ensures
            f.config == config,
    {
        Self { config }
    }
}

impl CollectorFactory for WebhookFactory {
    type Created = Webhook;

    open spec fn spec_created_name(&self) -> Seq<char> {
        "webhook"@
    }

    open spec fn spec_created_enabled(&self) -> bool {
        self.config.webhook.enable
    }

    fn create(&self) -> (c: Webhook) {
        Webhook { config: self.config.clone() }
    }
}

impl Collector for Webhook {
    open spec fn spec_name(&self) -> Seq<char> {
        "webhook"@
    }

    open spec fn spec_enabled(&self) -> bool {
        self.config.webhook.enable
    }

    fn name(&self) -> (r: &'static str) {
        "webhook"
    }

    fn is_enable(&self) -> (r: bool) {
        self.config.webhook.enable
    }
}

} // verus!
