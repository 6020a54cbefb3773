use webhook::server::{decide_webhook, reply_after_publish, WebhookDecision, WebhookReply};
use webhook::signature::{signature_header, verify_hmac, verify_signature, WebhookSecrets};

const FOX: &str = "The quick brown fox jumps over the lazy dog";
const FOX_TAG: &str = "f7bc83f430538424b13298e6aa6fb143ef4d59a14946175997479dbc2d1a3cd8";

fn secrets(flutterwave: &str, paystack: &str, app_env: &str) -> WebhookSecrets {
    WebhookSecrets {
        flutterwave: flutterwave.to_string(),
        paystack: paystack.to_string(),
        app_env: app_env.to_string(),
    }
}

#[test]
fn hmac_signature_is_checked_against_the_body() {
    assert!(verify_hmac(FOX, FOX_TAG, "key"));
    assert!(!verify_hmac(FOX, &FOX_TAG.to_uppercase(), "key"));
    assert!(!verify_hmac(FOX, &FOX_TAG[..63], "key"));
    assert!(!verify_hmac("the quick brown fox", FOX_TAG, "key"));
    assert!(!verify_hmac(FOX, FOX_TAG, "other key"));
}

#[test]
fn empty_secret_turns_verification_off() {
    assert!(verify_hmac(FOX, "", ""));
    assert!(verify_hmac("anything", "garbage", ""));
}

#[test]
fn signature_headers_depend_on_the_provider() {
    assert_eq!(signature_header("paystack"), "x-paystack-signature");
    assert_eq!(signature_header("flutterwave"), "verif-hash");
    assert_eq!(signature_header("mtn-momo"), "x-signature");
}

#[test]
fn signatures_use_each_providers_secret() {
    let s = secrets("key", "", "production");
    assert!(verify_signature("flutterwave", FOX, FOX_TAG, &s));
    assert!(!verify_signature("flutterwave", FOX, "bad", &s));
    // Paystack has no secret here, so any signature passes.
    assert!(verify_signature("paystack", FOX, "bad", &s));
    let s = secrets("", "key", "production");
    assert!(verify_signature("paystack", FOX, FOX_TAG, &s));
    assert!(!verify_signature("paystack", FOX, "bad", &s));
}

#[test]
fn unsigned_providers_are_trusted_only_outside_production() {
    assert!(!verify_signature("mtn-momo", "{}", "", &secrets("", "", "production")));
    assert!(verify_signature("mtn-momo", "{}", "", &secrets("", "", "staging")));
    // The comparison with `production` is exact.
    assert!(verify_signature("orange-money", "{}", "", &secrets("", "", "Production")));
}

#[test]
fn webhook_handler_returns_ok_for_flutterwave_payload() {
    let body = r#"
        {
            "provider": "flutterwave",
            "data": {
                "tx_ref": "abc123",
                "status": "SUCCESS",
                "amount": 100.5,
                "payment_type": "PAYMENT",
                "customer": {
                    "id": "user1"
                },
                "meta": {
                    "application_id": "app1"
                }
            }
        }
        "#;
    let decision = decide_webhook("flutterwave", body, "", &secrets("", "", "production"));
    match decision {
        WebhookDecision::Publish(event) => {
            assert_eq!(event.transaction_ref, "abc123");
            assert_eq!(event.application_id, "app1");
        }
        WebhookDecision::Reject(reply) => panic!("rejected with {:?}", reply),
    }
    assert_eq!(reply_after_publish(true).status_code(), 200);
}

#[test]
fn webhook_decisions_refuse_bad_requests() {
    let s = secrets("key", "", "production");
    match decide_webhook("flutterwave", FOX, "bad", &s) {
        WebhookDecision::Reject(reply) => assert_eq!(reply.status_code(), 401),
        WebhookDecision::Publish(_) => panic!("published an unsigned webhook"),
    }
    let open = secrets("", "", "staging");
    match decide_webhook("paystack", "{not json", "", &open) {
        WebhookDecision::Reject(reply) => assert_eq!(reply, WebhookReply::BadRequest),
        WebhookDecision::Publish(_) => panic!("published invalid JSON"),
    }
    match decide_webhook("paystack", r#"{"provider": "stripe"}"#, "", &open) {
        WebhookDecision::Reject(reply) => assert_eq!(reply.status_code(), 400),
        WebhookDecision::Publish(_) => panic!("published an unknown provider"),
    }
    assert_eq!(reply_after_publish(false), WebhookReply::InternalError);
    assert_eq!(reply_after_publish(false).status_code(), 500);
}

#[test]
fn short_signatures_are_refused_when_a_secret_is_set() {
    assert!(!verify_hmac("abc", "", "key"));
    assert!(!verify_signature("paystack", "abc", "", &secrets("", "key", "production")));
}
