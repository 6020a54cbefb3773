//! The decisions of the webhook endpoint: which reply a request gets, and
//! which event it hands to the queue.
use vstd::prelude::*;
use crate::dispatch::{named_provider, normalize_webhook_payload, provider_named, provider_view};
use crate::event::TransactionEvent;
use crate::json::json_parse;
use crate::signature::{signature_accepted, verify_signature, WebhookSecrets};

verus! {

/// The replies of the webhook endpoint.
#[derive(Debug, Clone, Copy, PartialEq, Eq)]
pub enum WebhookReply {
    /// 200: the event was queued.
    Accepted,
    /// 400: the body could not be normalized.
    BadRequest,
    /// 401: the signature was not accepted.
    Unauthorized,
    /// 500: the event could not be queued.
    InternalError,
}

impl WebhookReply {
    /// The HTTP status code of the reply.
    pub fn status_code(&self) -> (r: u16)
        ensures
            r == (match self {
                WebhookReply::Accepted => 200u16,
                WebhookReply::BadRequest => 400u16,
                WebhookReply::Unauthorized => 401u16,
                WebhookReply::InternalError => 500u16,
            }),
    {
        match self {
            WebhookReply::Accepted => 200,
            WebhookReply::BadRequest => 400,
            WebhookReply::Unauthorized => 401,
            WebhookReply::InternalError => 500,
        }
    }
}

/// What the endpoint does with a request.
#[derive(Debug)]
pub enum WebhookDecision {
    /// Answer at once, queueing nothing.
    Reject(WebhookReply),
    /// Queue the event, then answer by [`reply_after_publish`].
    Publish(TransactionEvent),
}

/// Decides a webhook request for the provider named in its path: a request
/// whose signature is not accepted is refused with `Unauthorized`; one whose
/// body cannot be normalized with `BadRequest`; any other is published as
/// the event that its body normalizes to.
pub fn decide_webhook(provider: &str, body: &str, signature: &str, secrets: &WebhookSecrets) -> (d: WebhookDecision)
    ensures
        !signature_accepted(
            provider@,
            body@,
            signature@,
            secrets.flutterwave@,
            secrets.paystack@,
            secrets.app_env@,
        ) ==> d == WebhookDecision::Reject(WebhookReply::Unauthorized),
        signature_accepted(
            provider@,
            body@,
            signature@,
            secrets.flutterwave@,
            secrets.paystack@,
            secrets.app_env@,
        ) ==> match json_parse(body@) {
            Ok(m) => match provider_named(named_provider(m)) {
                Some(p) => d matches WebhookDecision::Publish(e) && e@ == provider_view(p, m),
                None => d == WebhookDecision::Reject(WebhookReply::BadRequest),
            },
            Err(_) => d == WebhookDecision::Reject(WebhookReply::BadRequest),
        },
{
    if !verify_signature(provider, body, signature, secrets) {
        return WebhookDecision::Reject(WebhookReply::Unauthorized);
    }
    match normalize_webhook_payload(body) {
        Ok(event) => WebhookDecision::Publish(event),
        Err(_) => WebhookDecision::Reject(WebhookReply::BadRequest),
    }
}

/// The reply once the queue has taken the event (`published`) or refused it.
pub fn reply_after_publish(published: bool) -> (r: WebhookReply)
    ensures
        r == (if published {
            WebhookReply::Accepted
        } else {
            WebhookReply::InternalError
        }),
{
    if published {
        WebhookReply::Accepted
    } else {
        WebhookReply::InternalError
    }
}

} // verus!
