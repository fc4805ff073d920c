//! Per-request orchestration, as decisions from plain values.
//!
//! One inbound request walks a terminal-at-each-exit ladder: missing or
//! invalid signature answers 401; an undecodable body answers 400; an event
//! outside the forwarded subset answers 200 with nothing sent; a forwarded
//! event produces exactly one delivery attempt and answers 200 whatever that
//! attempt's outcome. The surrounding application performs the two pieces of
//! outside work — decoding the body and POSTing downstream — and feeds each
//! result back in; every decision between them is made and proved here.

use vstd::prelude::*;

use crate::card::{build_card_spec, build_lark_card, LarkMessage};
use crate::event::{LinearPayload, PayloadModel};
use crate::json::{message_json, message_to_json};
use crate::sig::{verify_spec, verify_signature};
use crate::text::str_eq;

verus! {

/// The response to an accepted request.
pub const STATUS_OK: u16 = 200;

/// The response to a body that could not be decoded.
pub const STATUS_BAD_REQUEST: u16 = 400;

/// The response to a missing or invalid signature.
pub const STATUS_UNAUTHORIZED: u16 = 401;

/// Whether an event is forwarded: exactly the issue creations and updates.
pub open spec fn should_notify(p: PayloadModel) -> bool {
    p.kind == "Issue"@ && (p.action == "create"@ || p.action == "update"@)
}

/// The filter's verdict on one event.
pub enum Classification {
    /// The event is outside the forwarded subset; nothing is sent.
    Skip,
    /// The event is forwarded as this card.
    Notify(LarkMessage),
}

/// Decides whether an event is forwarded and, if so, builds its card.
pub fn classify(payload: &LinearPayload) -> (c: Classification)
    ensures
        should_notify(payload@) ==> (c matches Classification::Notify(m) && m@ == build_card_spec(
            payload@,
        )),
        !should_notify(payload@) ==> c is Skip,
{
    if str_eq(payload.kind.as_str(), "Issue") && (str_eq(payload.action.as_str(), "create")
        || str_eq(payload.action.as_str(), "update")) {
        Classification::Notify(build_lark_card(payload))
    } else {
        Classification::Skip
    }
}

/// The first decision on a request, before its body is decoded.
#[derive(PartialEq, Eq, Structural)]
pub enum WebhookStep {
    /// Terminal: answer with this status code; the body is never decoded.
    Reject(u16),
    /// The signature is valid: decode the body and go on with [`webhook_plan`].
    NeedsPayload,
}

/// Authenticates a request from the raw body bytes and the presented
/// signature header, before any parsing. A missing header and an invalid
/// signature both answer 401.
pub fn webhook_accept(secret: &str, body: &[u8], signature: Option<&str>) -> (step: WebhookStep)
    ensures
        match signature {
            Some(s) => step == if verify_spec(secret@, body@, s@) {
                WebhookStep::NeedsPayload
            } else {
                WebhookStep::Reject(STATUS_UNAUTHORIZED)
            },
            None => step == WebhookStep::Reject(STATUS_UNAUTHORIZED),
        },
{
    match signature {
        Some(s) => {
            if verify_signature(secret, body, s) {
                WebhookStep::NeedsPayload
            } else {
                WebhookStep::Reject(STATUS_UNAUTHORIZED)
            }
        },
        None => WebhookStep::Reject(STATUS_UNAUTHORIZED),
    }
}

/// The decision on a decoded (or undecodable) body.
pub enum WebhookPlan {
    /// Terminal: answer with this status code; nothing is sent downstream.
    Respond(u16),
    /// Send this JSON body downstream once, then answer 200 whatever the
    /// attempt's outcome.
    Send(String),
}

/// Decides what an authenticated request leads to. An undecodable body
/// answers 400; a skipped event answers 200 with nothing sent; a forwarded
/// event sends exactly its card's wire form.
pub fn webhook_plan(parsed: Option<&LinearPayload>) -> (plan: WebhookPlan)
    ensures
        match parsed {
            None => plan matches WebhookPlan::Respond(code) && code == STATUS_BAD_REQUEST,
            Some(payload) => if should_notify(payload@) {
                plan matches WebhookPlan::Send(body) && body@ == message_json(
                    build_card_spec(payload@),
                )
            } else {
                plan matches WebhookPlan::Respond(code) && code == STATUS_OK
            },
        },
{
    match parsed {
        None => WebhookPlan::Respond(STATUS_BAD_REQUEST),
        Some(payload) => match classify(payload) {
            Classification::Skip => WebhookPlan::Respond(STATUS_OK),
            Classification::Notify(message) => WebhookPlan::Send(message_to_json(&message)),
        },
    }
}

/// The observable outcome of one delivery attempt.
pub enum Outcome {
    /// The POST completed; the downstream status code and response body.
    Sent(u16, String),
    /// The POST failed at transport level; the detail names the error.
    Failed(String),
}

/// Whether a downstream status code counts as a successful delivery.
pub fn is_success_status(code: u16) -> (b: bool)
    ensures
        b == (200 <= code && code < 300),
{
    200 <= code && code < 300
}

/// The response to the inbound caller after a delivery attempt: 200 whatever
/// the outcome was. The inbound sender has no way to react to a downstream
/// failure, and a retry would duplicate an already-accepted event.
pub fn response_after_delivery(_outcome: &Outcome) -> (code: u16)
    ensures
        code == STATUS_OK,
{
    STATUS_OK
}

/// The liveness probe body: fixed, unauthenticated.
pub fn health() -> (r: &'static str)
    ensures
        r@ == "ok"@,
{
    "ok"
}

/// Law: an issue creation is always forwarded.
pub proof fn lemma_issue_create_notifies(p: PayloadModel)
    requires
        p.kind == "Issue"@,
        p.action == "create"@,
    ensures
        should_notify(p),
{
}

/// Law: an event whose kind is not an issue is skipped, whatever its action.
pub proof fn lemma_other_kind_skips(p: PayloadModel)
    requires
        p.kind != "Issue"@,
    ensures
        !should_notify(p),
{
}

/// Law: an action that is neither a creation nor an update is skipped.
pub proof fn lemma_other_action_skips(p: PayloadModel)
    requires
        p.action != "create"@,
        p.action != "update"@,
    ensures
        !should_notify(p),
{
}

} // verus!
