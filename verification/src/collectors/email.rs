//! SMTP (inbound email) adapter: accepts mail on an embedded SMTP server,
//! screens senders against an allow-list, bounds message and attachment
//! sizes, and forwards the parsed message to the broker as JSON.
//!
//! The SMTP session, the MIME parsing and the payload serialization are
//! transport work done by the surrounding process; the screening and sizing
//! decisions, with their exact reply codes, stand here.

use vstd::prelude::*;
use vstd::string::StringExecFns;

use crate::collectors::{Collector, CollectorFactory};
use crate::collectors::grpc::ForwardRequest;
use crate::config::CollectorCfg;
use crate::text::{contains_seq, contains_str};

verus! {

/// Whether the sender is acceptable: an empty allow-list lets everyone in,
/// otherwise some allowed entry must occur inside the sender address.
pub open spec fn spec_sender_allowed(from: Seq<char>, allowed: Seq<String>) -> bool {
    allowed.len() == 0 || exists|i: int|
        0 <= i < allowed.len() && contains_seq(from, #[trigger] allowed[i]@)
}

/// Screens one sender address against the configured allow-list.
pub fn check_allowed_sender(from: &str, allowed: &Vec<String>) -> (r: bool)
    ensures
        r == spec_sender_allowed(from@, allowed@),
{
    if allowed.len() == 0 {
        return true;
    }
    let n = allowed.len();
    let mut i: usize = 0;
    while i < n
        invariant
            i <= n,
            n == allowed@.len(),
            forall|j: int| 0 <= j < i ==> !contains_seq(from@, #[trigger] allowed@[j]@),
        decreases n - i,
    {
        if contains_str(from, allowed[i].as_str()) {
            return true;
        }
        i = i + 1;
    }
    false
}

/// The SMTP verdict on a `MAIL FROM` command.
#[derive(Debug, Clone, Copy, PartialEq, Eq, Structural)]
pub enum MailDecision {
    /// The sender may proceed.
    Accept,
    /// Refused with `550 Sender not allowed`.
    RejectUnauthorized,
}

/// Screens a `MAIL FROM` command: rejected exactly when the allow-list is
/// non-empty and no entry occurs in the sender address.
pub fn mail_decision(from: &str, allowed: &Vec<String>) -> (d: MailDecision)
    ensures
        (d == MailDecision::Accept) == spec_sender_allowed(from@, allowed@),
{
    if check_allowed_sender(from, allowed) {
        MailDecision::Accept
    } else {
        MailDecision::RejectUnauthorized
    }
}

/// The SMTP verdict at the end of a message's data.
#[derive(Debug, Clone, Copy, PartialEq, Eq, Structural)]
pub enum DataEndDecision {
    /// Accepted with `250 OK`; the message goes to the worker.
    Accepted,
    /// Refused with `552 Message size exceeds limit`.
    TooLarge,
    /// Refused with `451 Temporary failure, please retry`: the worker could
    /// not take the message.
    QueueUnavailable,
}

/// The reply for a completed message: an oversized message is refused
/// outright; otherwise acceptance follows whether the worker queue took it.
pub fn data_end_decision(size: usize, max_size: usize, queued: bool) -> (d: DataEndDecision)
    ensures
        size > max_size ==> d == DataEndDecision::TooLarge,
        size <= max_size && !queued ==> d == DataEndDecision::QueueUnavailable,
        size <= max_size && queued ==> d == DataEndDecision::Accepted,
{
    if size > max_size {
        DataEndDecision::TooLarge
    } else if !queued {
        DataEndDecision::QueueUnavailable
    } else {
        DataEndDecision::Accepted
    }
}

/// The SMTP reply code for an end-of-data verdict.
pub fn data_end_reply_code(d: DataEndDecision) -> (c: u16)
    ensures
        d == DataEndDecision::Accepted ==> c == 250,
        d == DataEndDecision::TooLarge ==> c == 552,
        d == DataEndDecision::QueueUnavailable ==> c == 451,
{
    match d {
        DataEndDecision::Accepted => 250,
        DataEndDecision::TooLarge => 552,
        DataEndDecision::QueueUnavailable => 451,
    }
}

/// What becomes of one MIME part offered as an attachment.
#[derive(Debug, Clone, Copy, PartialEq, Eq, Structural)]
pub enum AttachmentDecision {
    /// No filename: an inline body part, not an attachment.
    NoFilename,
    /// Larger than the configured bound: skipped.
    TooLarge,
    /// Taken into the payload.
    Take,
}

/// Decides what becomes of one MIME part: parts without a filename are
/// inline bodies, oversized parts are skipped, the rest are taken.
pub fn attachment_decision(filename_len: usize, size: usize, max_size: usize) -> (d:
    AttachmentDecision)
    ensures
        filename_len == 0 ==> d == AttachmentDecision::NoFilename,
        filename_len > 0 && size > max_size ==> d == AttachmentDecision::TooLarge,
        filename_len > 0 && size <= max_size ==> d == AttachmentDecision::Take,
{
    if filename_len == 0 {
        AttachmentDecision::NoFilename
    } else if size > max_size {
        AttachmentDecision::TooLarge
    } else {
        AttachmentDecision::Take
    }
}

/// The positions of the first `text/plain` and the first `text/html` part
/// among the message's MIME parts, given as (mime type, body) pairs.
pub fn select_body_parts(parts: &Vec<(String, String)>) -> (r: (Option<usize>, Option<usize>))
    ensures
        r.0 matches Some(i) ==> 0 <= i < parts@.len() && parts@[i as int].0@ == "text/plain"@ && (
        forall|j: int| 0 <= j < i ==> parts@[j].0@ != "text/plain"@),
        r.0 is None ==> forall|j: int| 0 <= j < parts@.len() ==> parts@[j].0@ != "text/plain"@,
        r.1 matches Some(i) ==> 0 <= i < parts@.len() && parts@[i as int].0@ == "text/html"@ && (
        forall|j: int| 0 <= j < i ==> parts@[j].0@ != "text/html"@),
        r.1 is None ==> forall|j: int| 0 <= j < parts@.len() ==> parts@[j].0@ != "text/html"@,
{
    let n = parts.len();
    let mut text_at: Option<usize> = None;
    let mut html_at: Option<usize> = None;
    let mut i: usize = 0;
    while i < n
        invariant
            i <= n,
            n == parts@.len(),
            text_at matches Some(k) ==> 0 <= k < i && parts@[k as int].0@ == "text/plain"@ && (
            forall|j: int| 0 <= j < k ==> parts@[j].0@ != "text/plain"@),
            text_at is None ==> forall|j: int| 0 <= j < i ==> parts@[j].0@ != "text/plain"@,
            html_at matches Some(k) ==> 0 <= k < i && parts@[k as int].0@ == "text/html"@ && (
            forall|j: int| 0 <= j < k ==> parts@[j].0@ != "text/html"@),
            html_at is None ==> forall|j: int| 0 <= j < i ==> parts@[j].0@ != "text/html"@,
        decreases n - i,
    {
        proof {
            reveal_strlit("text/plain");
            reveal_strlit("text/html");
            assert("text/plain"@[5] == 'p' && "text/html"@[5] == 'h');
            assert("text/plain"@ != "text/html"@);
        }
        if text_at.is_none() && crate::text::str_eq(parts[i].0.as_str(), "text/plain") {
            text_at = Some(i);
        } else if html_at.is_none() && crate::text::str_eq(parts[i].0.as_str(), "text/html") {
            html_at = Some(i);
        }
        i = i + 1;
    }
    (text_at, html_at)
}

/// The forward call for one parsed message, already serialized as JSON.
pub fn email_forward_request(payload: Vec<u8>) -> (r: ForwardRequest)
    ensures
        r.collector_name@ == "email"@,
        r.content_type@ == "application/json"@,
        r.metadata@ == "{}"@,
        r.payload == payload,
{
    ForwardRequest {
        collector_name: String::from_str("email"),
        content_type: String::from_str("application/json"),
        metadata: String::from_str("{}"),
        payload,
    }
}

/// The SMTP adapter.
pub struct Email {
    pub config: CollectorCfg,
}

/// Builds the SMTP adapter from a captured configuration.
pub struct EmailFactory {
    pub config: CollectorCfg,
}

impl EmailFactory {
    /// Captures the configuration the adapter will run with.
    pub fn new(config: CollectorCfg) -> (f: Self)
        ensures
            f.config == config,
    {
        Self { config }
    }
}

impl CollectorFactory for EmailFactory {
    type Created = Email;

    open spec fn spec_created_name(&self) -> Seq<char> {
        "email"@
    }

    open spec fn spec_created_enabled(&self) -> bool {
        self.config.email.enable
    }

    fn create(&self) -> (c: Email) {
        Email { config: self.config.clone() }
    }
}

impl Collector for Email {
    open spec fn spec_name(&self) -> Seq<char> {
        "email"@
    }

    open spec fn spec_enabled(&self) -> bool {
        self.config.email.enable
    }

    fn name(&self) -> (r: &'static str) {
        "email"
    }

    fn is_enable(&self) -> (r: bool) {
        self.config.email.enable
    }
}

} // verus!
