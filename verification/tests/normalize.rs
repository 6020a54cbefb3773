use webhook::dispatch::{normalize_provider_payload, normalize_webhook_payload, provider_from_name, Provider};
use webhook::event::{Amount, NormalizeError, TransactionEvent};
use webhook::flutterwave::normalize_flutterwave_payload;
use webhook::mno::{
    normalize_airtel_money_payload, normalize_mtn_momo_payload, normalize_orange_money_payload,
};
use webhook::paystack::normalize_paystack_payload;
use webhook::transaction::normalize_payload;

/// The floating-point amount that an `Amount` stands for.
fn amount_value(amount: &Amount) -> f64 {
    match amount {
        Amount::Number(text) => text.parse::<f64>().unwrap_or(0.0),
        Amount::Text(text) => text.parse::<f64>().unwrap_or(0.0),
        Amount::Missing => 0.0,
    }
}

#[test]
fn test_normalize_payload_basic_fields() {
    let raw = r#"
        {
            "transactionRef": "abc123",
            "userId": "user1",
            "applicationId": "app1",
            "status": "SUCCESS",
            "amount": 100.5,
            "category": "PAYMENT"
        }
        "#;

    let event = normalize_payload(raw).expect("normalize_payload should succeed");

    assert_eq!(amount_value(&event.amount), 100.5);
    assert_eq!(
        event,
        TransactionEvent {
            transaction_ref: "abc123".to_string(),
            user_id: "user1".to_string(),
            application_id: "app1".to_string(),
            status: "SUCCESS".to_string(),
            amount: Amount::Number("100.5".to_string()),
            category: "PAYMENT".to_string(),
            metadata: serde_json::from_str(raw).unwrap()
        }
    );
}

#[test]
fn normalize_paystack_basic_payload() {
    let raw = r#"
        {
          "event": "charge.success",
          "data": {
            "reference": "psk-123",
            "status": "success",
            "amount": 250000,
            "channel": "card",
            "gateway_response": "Approved",
            "customer": {
              "id": "cust-psk-1",
              "email": "user@example.com"
            },
            "meta": {
              "application_id": "ourpocket-app"
            }
          }
        }
        "#;

    let event = normalize_paystack_payload(raw).expect("normalize_paystack_payload should succeed");

    assert_eq!(event.transaction_ref, "psk-123");
    assert_eq!(event.user_id, "cust-psk-1");
    assert_eq!(event.application_id, "ourpocket-app");
    assert_eq!(event.status, "success");
    assert_eq!(amount_value(&event.amount), 250000.0);
    assert_eq!(event.category, "Approved");
}

#[test]
fn normalize_flutterwave_basic_payload() {
    let raw = r#"
        {
          "data": {
            "tx_ref": "flw-123",
            "status": "successful",
            "amount": 5000,
            "payment_type": "card",
            "customer": {
              "id": "cust-1",
              "email": "test@example.com"
            },
            "meta": {
              "application_id": "ourpocket-app"
            }
          }
        }
        "#;

    let event =
        normalize_flutterwave_payload(raw).expect("normalize_flutterwave_payload should succeed");

    assert_eq!(event.transaction_ref, "flw-123");
    assert_eq!(event.user_id, "cust-1");
    assert_eq!(event.application_id, "ourpocket-app");
    assert_eq!(event.status, "successful");
    assert_eq!(amount_value(&event.amount), 5000.0);
    assert_eq!(event.category, "card");
}

#[test]
fn normalize_mtn_momo_basic_payload() {
    let raw = r#"
        {
            "referenceId": "mtn-ref-123",
            "externalId": "ext-456",
            "status": "SUCCESSFUL",
            "amount": "500",
            "payer": {
                "partyId": "+256771234567",
                "partyIdType": "MSISDN"
            },
            "currency": "UGX"
        }
        "#;

    let event = normalize_mtn_momo_payload(raw).expect("should succeed");
    assert_eq!(event.transaction_ref, "mtn-ref-123");
    assert_eq!(event.user_id, "+256771234567");
    assert_eq!(event.status, "success");
    assert_eq!(event.application_id, "mtn-momo");
    assert_eq!(event.category, "mobile_money");
}

#[test]
fn normalize_airtel_money_basic_payload() {
    let raw = r#"
        {
            "transaction": {
                "id": "airtel-tx-789",
                "status": "TS",
                "amount": "1000"
            },
            "subscriber": {
                "msisdn": "+254712345678",
                "country": "KE",
                "currency": "KES"
            }
        }
        "#;

    let event = normalize_airtel_money_payload(raw).expect("should succeed");
    assert_eq!(event.transaction_ref, "airtel-tx-789");
    assert_eq!(event.user_id, "+254712345678");
    assert_eq!(event.status, "success");
    assert_eq!(event.application_id, "airtel-money");
}

#[test]
fn normalize_orange_money_basic_payload() {
    let raw = r#"
        {
            "transaction_id": "orange-tx-001",
            "reference_number": "ref-002",
            "status": "SUCCESS",
            "amount": "5000",
            "msisdn": "+22501234567",
            "currency": "XOF"
        }
        "#;

    let event = normalize_orange_money_payload(raw).expect("should succeed");
    assert_eq!(event.transaction_ref, "orange-tx-001");
    assert_eq!(event.user_id, "+22501234567");
    assert_eq!(event.status, "success");
    assert_eq!(event.application_id, "orange-money");
}

#[test]
fn mobile_money_amounts_are_read_from_text() {
    let mtn = normalize_mtn_momo_payload(r#"{"amount": "500"}"#).unwrap();
    assert_eq!(mtn.amount, Amount::Text("500".to_string()));
    assert_eq!(amount_value(&mtn.amount), 500.0);
    // MTN MoMo also takes a numeric amount; the other operators do not.
    let mtn_number = normalize_mtn_momo_payload(r#"{"amount": 42}"#).unwrap();
    assert_eq!(mtn_number.amount, Amount::Number("42".to_string()));
    let orange_number = normalize_orange_money_payload(r#"{"amount": 42}"#).unwrap();
    assert_eq!(orange_number.amount, Amount::Missing);
    let airtel = normalize_airtel_money_payload(r#"{"transaction": {"amount": "abc"}}"#).unwrap();
    assert_eq!(airtel.amount, Amount::Text("abc".to_string()));
    assert_eq!(amount_value(&airtel.amount), 0.0);
}

#[test]
fn mobile_money_statuses_are_mapped() {
    let cases = [
        ("SUCCESSFUL", "success"),
        ("PENDING", "pending"),
        ("FAILED", "failed"),
        ("successful", "unknown"),
    ];
    for (given, expected) in cases {
        let raw = format!(r#"{{"status": "{given}"}}"#);
        assert_eq!(normalize_mtn_momo_payload(&raw).unwrap().status, expected);
    }
    let cases = [("TS", "success"), ("TF", "failed"), ("TA", "cancelled"), ("TX", "pending")];
    for (given, expected) in cases {
        let raw = format!(r#"{{"transaction": {{"status": "{given}"}}}}"#);
        assert_eq!(normalize_airtel_money_payload(&raw).unwrap().status, expected);
    }
    assert_eq!(normalize_airtel_money_payload("{}").unwrap().status, "pending");
    let cases = [
        ("SUCCESS", "success"),
        ("PENDING", "pending"),
        ("FAILED", "failed"),
        ("CANCELLED", "cancelled"),
        ("REFUNDED", "unknown"),
    ];
    for (given, expected) in cases {
        let raw = format!(r#"{{"status": "{given}"}}"#);
        assert_eq!(normalize_orange_money_payload(&raw).unwrap().status, expected);
    }
    assert_eq!(normalize_mtn_momo_payload("[]").unwrap().status, "unknown");
}

#[test]
fn normalizers_fall_back_to_defaults() {
    let paystack = normalize_paystack_payload("{}").unwrap();
    assert_eq!(paystack.transaction_ref, "");
    assert_eq!(paystack.application_id, "paystack");
    assert_eq!(paystack.category, "PAYSTACK");
    assert_eq!(paystack.amount, Amount::Missing);
    let flutterwave = normalize_flutterwave_payload("{}").unwrap();
    assert_eq!(flutterwave.user_id, "");
    assert_eq!(flutterwave.application_id, "flutterwave");
    assert_eq!(flutterwave.category, "FLUTTERWAVE");
    let mtn = normalize_mtn_momo_payload(r#"{"externalId": "ext-1"}"#).unwrap();
    assert_eq!(mtn.transaction_ref, "ext-1");
    let orange = normalize_orange_money_payload(r#"{"reference_number": "ref-2"}"#).unwrap();
    assert_eq!(orange.transaction_ref, "ref-2");
}

#[test]
fn paystack_reads_fallback_fields() {
    let raw = r#"{"data": {"data": {"reference": "inner"}, "customer": {"email": "a@b.c"}, "channel": "bank", "amount": 12.75}}"#;
    let event = normalize_paystack_payload(raw).unwrap();
    assert_eq!(event.transaction_ref, "inner");
    assert_eq!(event.user_id, "a@b.c");
    assert_eq!(event.application_id, "bank");
    assert_eq!(amount_value(&event.amount), 12.75);
    // Without a `data` member, the payload itself describes the transaction.
    let flat = normalize_paystack_payload(r#"{"reference": "flat-1", "status": "failed"}"#).unwrap();
    assert_eq!(flat.transaction_ref, "flat-1");
    assert_eq!(flat.status, "failed");
}

#[test]
fn flutterwave_numeric_customer_id_is_printed_in_decimal() {
    let raw = r#"{"data": {"txRef": "t-9", "app_id": "direct", "customer": {"id": 18446744073709551615, "email": "x@y.z"}}}"#;
    let event = normalize_flutterwave_payload(raw).unwrap();
    assert_eq!(event.user_id, "18446744073709551615");
    assert_eq!(event.transaction_ref, "t-9");
    assert_eq!(event.application_id, "direct");
    let negative = normalize_flutterwave_payload(r#"{"customer": {"id": -5, "email": "x@y.z"}}"#).unwrap();
    assert_eq!(negative.user_id, "x@y.z");
    let zero = normalize_flutterwave_payload(r#"{"customer": {"id": 0}}"#).unwrap();
    assert_eq!(zero.user_id, "0");
}

#[test]
fn a_null_data_member_hides_the_payload() {
    // `data` is present, so it is what describes the transaction, even as null.
    let event = normalize_paystack_payload(r#"{"data": null, "reference": "outer"}"#).unwrap();
    assert_eq!(event.transaction_ref, "");
}

#[test]
fn metadata_is_the_whole_payload() {
    let raw = r#"{"provider": "paystack", "data": {"reference": "r"}, "extra": [1, 2]}"#;
    let event = normalize_webhook_payload(raw).unwrap();
    let expected: serde_json::Value = serde_json::from_str(raw).unwrap();
    assert_eq!(event.metadata, expected);
}

#[test]
fn invalid_json_is_refused_by_every_normalizer() {
    let raw = "{not json";
    assert!(matches!(normalize_payload(raw), Err(NormalizeError::InvalidJson(_))));
    assert!(matches!(normalize_paystack_payload(raw), Err(NormalizeError::InvalidJson(_))));
    assert!(matches!(normalize_flutterwave_payload(raw), Err(NormalizeError::InvalidJson(_))));
    assert!(matches!(normalize_mtn_momo_payload(raw), Err(NormalizeError::InvalidJson(_))));
    assert!(matches!(normalize_airtel_money_payload(raw), Err(NormalizeError::InvalidJson(_))));
    assert!(matches!(normalize_orange_money_payload(raw), Err(NormalizeError::InvalidJson(_))));
    assert!(matches!(normalize_webhook_payload(raw), Err(NormalizeError::InvalidJson(_))));
    assert!(matches!(normalize_webhook_payload("{} trailing"), Err(NormalizeError::InvalidJson(_))));
}

#[test]
fn webhook_payload_is_routed_by_its_provider() {
    let raw = r#"{"provider": "Flutterwave", "data": {"tx_ref": "abc123", "customer": {"id": "user1"}}}"#;
    let event = normalize_webhook_payload(raw).unwrap();
    assert_eq!(event.transaction_ref, "abc123");
    assert_eq!(event.user_id, "user1");
    assert_eq!(event.application_id, "flutterwave");
    let direct = normalize_flutterwave_payload(raw).unwrap();
    assert_eq!(event, direct);

    let mtn = normalize_webhook_payload(r#"{"provider": "MTN-MOMO", "referenceId": "m1"}"#).unwrap();
    assert_eq!(mtn.application_id, "mtn-momo");
    let airtel = normalize_webhook_payload(r#"{"provider": "airtel-money"}"#).unwrap();
    assert_eq!(airtel.application_id, "airtel-money");
    let orange = normalize_webhook_payload(r#"{"provider": "orange-money"}"#).unwrap();
    assert_eq!(orange.application_id, "orange-money");
    let paystack = normalize_webhook_payload(r#"{"provider": "PAYSTACK"}"#).unwrap();
    assert_eq!(paystack.application_id, "paystack");
}

#[test]
fn unknown_providers_are_refused() {
    assert!(matches!(
        normalize_webhook_payload(r#"{"provider": "stripe"}"#),
        Err(NormalizeError::UnsupportedProvider)
    ));
    assert!(matches!(normalize_webhook_payload("{}"), Err(NormalizeError::UnsupportedProvider)));
    assert!(matches!(
        normalize_webhook_payload(r#"{"provider": 7}"#),
        Err(NormalizeError::UnsupportedProvider)
    ));
}

#[test]
fn providers_are_named_in_lower_case() {
    assert_eq!(provider_from_name("flutterwave"), Some(Provider::Flutterwave));
    assert_eq!(provider_from_name("paystack"), Some(Provider::Paystack));
    assert_eq!(provider_from_name("mtn-momo"), Some(Provider::MtnMomo));
    assert_eq!(provider_from_name("airtel-money"), Some(Provider::AirtelMoney));
    assert_eq!(provider_from_name("orange-money"), Some(Provider::OrangeMoney));
    assert_eq!(provider_from_name("Paystack"), None);
    let event = normalize_provider_payload(Provider::OrangeMoney, r#"{"msisdn": "+225"}"#).unwrap();
    assert_eq!(event.user_id, "+225");
}

#[test]
fn normalize_errors_say_what_went_wrong() {
    let unsupported = normalize_webhook_payload(r#"{"provider": "stripe"}"#).unwrap_err();
    assert_eq!(unsupported.message(), "unsupported provider");
    let invalid = normalize_payload("{not json").unwrap_err();
    assert!(invalid.message().contains("line 1"));
}

#[test]
fn array_members_are_kept_in_metadata() {
    let raw = r#"{"transactionRef": "r", "items": [{"sku": "a"}, 2, [true, null]]}"#;
    let event = normalize_payload(raw).unwrap();
    assert_eq!(event.metadata["items"][0]["sku"], "a");
    assert_eq!(event.metadata["items"][2][0], true);
}
