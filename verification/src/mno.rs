//! Webhooks of mobile network operators: MTN MoMo, Airtel Money and Orange
//! Money.
use vstd::prelude::*;
use crate::event::{AmountView, EventView, NormalizeError, TransactionEvent};
use crate::json::{
    at, at2, json_contents, json_parse, number_text_of, parse_json, str_of, value_as_str,
    value_index, JsonTree,
};
use crate::payload::{amount_from_text, amount_from_text_or_number, text_amount, text_or_number_amount};
use crate::text::{first_of, first_text, opt_text, owned_or, str_eq, text_or};

verus! {

/// The status of an MTN MoMo transaction in the common vocabulary.
pub open spec fn mtn_status(s: Option<Seq<char>>) -> Seq<char> {
    match s {
        Some(t) => if t == "SUCCESSFUL"@ {
            "success"@
        } else if t == "PENDING"@ {
            "pending"@
        } else if t == "FAILED"@ {
            "failed"@
        } else {
            "unknown"@
        },
        None => "unknown"@,
    }
}

/// The status of an Airtel Money transaction in the common vocabulary.
pub open spec fn airtel_status(s: Option<Seq<char>>) -> Seq<char> {
    match s {
        Some(t) => if t == "TS"@ {
            "success"@
        } else if t == "TF"@ {
            "failed"@
        } else if t == "TA"@ {
            "cancelled"@
        } else {
            "pending"@
        },
        None => "pending"@,
    }
}

/// The status of an Orange Money transaction in the common vocabulary.
pub open spec fn orange_status(s: Option<Seq<char>>) -> Seq<char> {
    match s {
        Some(t) => if t == "SUCCESS"@ {
            "success"@
        } else if t == "PENDING"@ {
            "pending"@
        } else if t == "FAILED"@ {
            "failed"@
        } else if t == "CANCELLED"@ {
            "cancelled"@
        } else {
            "unknown"@
        },
        None => "unknown"@,
    }
}

/// The event that an MTN MoMo payload `m` describes.
pub open spec fn mtn_momo_view(m: JsonTree) -> EventView {
    EventView {
        transaction_ref: text_or(
            first_text(str_of(at(m, "referenceId"@)), str_of(at(m, "externalId"@))),
            ""@,
        ),
        user_id: text_or(str_of(at2(m, "payer"@, "partyId"@)), ""@),
        application_id: "mtn-momo"@,
        status: mtn_status(str_of(at(m, "status"@))),
        amount: text_or_number_amount(at(m, "amount"@)),
        category: "mobile_money"@,
        metadata: m,
    }
}

/// The event that an Airtel Money payload `m` describes.
pub open spec fn airtel_money_view(m: JsonTree) -> EventView {
    EventView {
        transaction_ref: text_or(str_of(at2(m, "transaction"@, "id"@)), ""@),
        user_id: text_or(str_of(at2(m, "subscriber"@, "msisdn"@)), ""@),
        application_id: "airtel-money"@,
        status: airtel_status(str_of(at2(m, "transaction"@, "status"@))),
        amount: text_amount(at2(m, "transaction"@, "amount"@)),
        category: "mobile_money"@,
        metadata: m,
    }
}

/// The event that an Orange Money payload `m` describes.
pub open spec fn orange_money_view(m: JsonTree) -> EventView {
    EventView {
        transaction_ref: text_or(
            first_text(str_of(at(m, "transaction_id"@)), str_of(at(m, "reference_number"@))),
            ""@,
        ),
        user_id: text_or(str_of(at(m, "msisdn"@)), ""@),
        application_id: "orange-money"@,
        status: orange_status(str_of(at(m, "status"@))),
        amount: text_amount(at(m, "amount"@)),
        category: "mobile_money"@,
        metadata: m,
    }
}

/// Maps an MTN MoMo status to the common vocabulary.
pub fn map_mtn_status(s: Option<&str>) -> (r: String)
    ensures
        r@ == mtn_status(opt_text(s)),
{
    match s {
        Some(t) => if str_eq(t, "SUCCESSFUL") {
            "success".to_owned()
        } else if str_eq(t, "PENDING") {
            "pending".to_owned()
        } else if str_eq(t, "FAILED") {
            "failed".to_owned()
        } else {
            "unknown".to_owned()
        },
        None => "unknown".to_owned(),
    }
}

/// Maps an Airtel Money status to the common vocabulary.
pub fn map_airtel_status(s: Option<&str>) -> (r: String)
    ensures
        r@ == airtel_status(opt_text(s)),
{
    match s {
        Some(t) => if str_eq(t, "TS") {
            "success".to_owned()
        } else if str_eq(t, "TF") {
            "failed".to_owned()
        } else if str_eq(t, "TA") {
            "cancelled".to_owned()
        } else {
            "pending".to_owned()
        },
        None => "pending".to_owned(),
    }
}

/// Maps an Orange Money status to the common vocabulary.
pub fn map_orange_status(s: Option<&str>) -> (r: String)
    ensures
        r@ == orange_status(opt_text(s)),
{
    match s {
        Some(t) => if str_eq(t, "SUCCESS") {
            "success".to_owned()
        } else if str_eq(t, "PENDING") {
            "pending".to_owned()
        } else if str_eq(t, "FAILED") {
            "failed".to_owned()
        } else if str_eq(t, "CANCELLED") {
            "cancelled".to_owned()
        } else {
            "unknown".to_owned()
        },
        None => "unknown".to_owned(),
    }
}

/// The event that a parsed MTN MoMo payload describes.
pub fn mtn_momo_event(json: serde_json::Value) -> (e: TransactionEvent)
    ensures
        e@ == mtn_momo_view(json_contents(json)),
        e.metadata == json,
{
    let transaction_ref = owned_or(
        first_of(
            value_as_str(value_index(&json, "referenceId")),
            value_as_str(value_index(&json, "externalId")),
        ),
        "",
    );
    let user_id = owned_or(value_as_str(value_index(value_index(&json, "payer"), "partyId")), "");
    let status = map_mtn_status(value_as_str(value_index(&json, "status")));
    let amount = amount_from_text_or_number(value_index(&json, "amount"));
    TransactionEvent {
        transaction_ref,
        user_id,
        application_id: "mtn-momo".to_owned(),
        status,
        amount,
        category: "mobile_money".to_owned(),
        metadata: json,
    }
}

/// The event that a parsed Airtel Money payload describes.
pub fn airtel_money_event(json: serde_json::Value) -> (e: TransactionEvent)
    ensures
        e@ == airtel_money_view(json_contents(json)),
        e.metadata == json,
{
    let transaction = value_index(&json, "transaction");
    let transaction_ref = owned_or(value_as_str(value_index(transaction, "id")), "");
    let user_id = owned_or(value_as_str(value_index(value_index(&json, "subscriber"), "msisdn")), "");
    let status = map_airtel_status(value_as_str(value_index(transaction, "status")));
    let amount = amount_from_text(value_index(transaction, "amount"));
    TransactionEvent {
        transaction_ref,
        user_id,
        application_id: "airtel-money".to_owned(),
        status,
        amount,
        category: "mobile_money".to_owned(),
        metadata: json,
    }
}

/// The event that a parsed Orange Money payload describes.
pub fn orange_money_event(json: serde_json::Value) -> (e: TransactionEvent)
    ensures
        e@ == orange_money_view(json_contents(json)),
        e.metadata == json,
{
    let transaction_ref = owned_or(
        first_of(
            value_as_str(value_index(&json, "transaction_id")),
            value_as_str(value_index(&json, "reference_number")),
        ),
        "",
    );
    let user_id = owned_or(value_as_str(value_index(&json, "msisdn")), "");
    let status = map_orange_status(value_as_str(value_index(&json, "status")));
    let amount = amount_from_text(value_index(&json, "amount"));
    TransactionEvent {
        transaction_ref,
        user_id,
        application_id: "orange-money".to_owned(),
        status,
        amount,
        category: "mobile_money".to_owned(),
        metadata: json,
    }
}

/// Normalizes a raw MTN MoMo webhook body. It fails exactly when the body is
/// not one JSON value.
pub fn normalize_mtn_momo_payload(raw: &str) -> (r: Result<TransactionEvent, NormalizeError>)
    ensures
        r is Ok <==> json_parse(raw@) is Ok,
        r matches Ok(e) ==> e@ == mtn_momo_view(json_parse(raw@)->Ok_0),
        r matches Err(err) ==> err matches NormalizeError::InvalidJson(m) && m@ == json_parse(raw@)->Err_0,
{
    match parse_json(raw) {
        Ok(json) => Ok(mtn_momo_event(json)),
        Err(e) => Err(NormalizeError::InvalidJson(e)),
    }
}

/// Normalizes a raw Airtel Money webhook body. It fails exactly when the
/// body is not one JSON value.
pub fn normalize_airtel_money_payload(raw: &str) -> (r: Result<TransactionEvent, NormalizeError>)
    ensures
        r is Ok <==> json_parse(raw@) is Ok,
        r matches Ok(e) ==> e@ == airtel_money_view(json_parse(raw@)->Ok_0),
        r matches Err(err) ==> err matches NormalizeError::InvalidJson(m) && m@ == json_parse(raw@)->Err_0,
{
    match parse_json(raw) {
        Ok(json) => Ok(airtel_money_event(json)),
        Err(e) => Err(NormalizeError::InvalidJson(e)),
    }
}

/// Normalizes a raw Orange Money webhook body. It fails exactly when the
/// body is not one JSON value.
pub fn normalize_orange_money_payload(raw: &str) -> (r: Result<TransactionEvent, NormalizeError>)
    ensures
        r is Ok <==> json_parse(raw@) is Ok,
        r matches Ok(e) ==> e@ == orange_money_view(json_parse(raw@)->Ok_0),
        r matches Err(err) ==> err matches NormalizeError::InvalidJson(m) && m@ == json_parse(raw@)->Err_0,
{
    match parse_json(raw) {
        Ok(json) => Ok(orange_money_event(json)),
        Err(e) => Err(NormalizeError::InvalidJson(e)),
    }
}

/// Every mobile-money event reports its status in the common vocabulary
/// (`success`, `pending`, `failed`, `cancelled`, `unknown`), is filed under
/// `mobile_money`, and names its operator as its application.
pub proof fn mobile_money_events_are_normalized(m: JsonTree)
    ensures
        mtn_momo_view(m).status == "success"@ || mtn_momo_view(m).status == "pending"@
            || mtn_momo_view(m).status == "failed"@ || mtn_momo_view(m).status == "unknown"@,
        airtel_money_view(m).status == "success"@ || airtel_money_view(m).status == "failed"@
            || airtel_money_view(m).status == "cancelled"@ || airtel_money_view(m).status
            == "pending"@,
        orange_money_view(m).status == "success"@ || orange_money_view(m).status == "pending"@
            || orange_money_view(m).status == "failed"@ || orange_money_view(m).status
            == "cancelled"@ || orange_money_view(m).status == "unknown"@,
        mtn_momo_view(m).category == "mobile_money"@ && mtn_momo_view(m).application_id
            == "mtn-momo"@,
        airtel_money_view(m).category == "mobile_money"@ && airtel_money_view(m).application_id
            == "airtel-money"@,
        orange_money_view(m).category == "mobile_money"@ && orange_money_view(m).application_id
            == "orange-money"@,
{
}

/// Where an MTN MoMo event's fields come from: the reference is
/// `referenceId`, else `externalId`; the customer is `payer.partyId`; the
/// status maps `SUCCESSFUL`, `PENDING` and `FAILED` to `success`, `pending`
/// and `failed`, and anything else to `unknown`; the amount is the text of
/// `amount`, else its number; the application is `mtn-momo`, the category
/// `mobile_money`, and the metadata the payload.
pub proof fn mtn_momo_fields_come_from_the_payload(m: JsonTree)
    ensures
        str_of(at(m, "referenceId"@)) matches Some(t) ==> mtn_momo_view(m).transaction_ref == t,
        str_of(at(m, "referenceId"@)) is None ==> (str_of(at(m, "externalId"@)) matches Some(t) ==> mtn_momo_view(m).transaction_ref == t),
        str_of(at(m, "referenceId"@)) is None && str_of(at(m, "externalId"@)) is None ==> mtn_momo_view(m).transaction_ref == ""@,
        str_of(at2(m, "payer"@, "partyId"@)) matches Some(t) ==> mtn_momo_view(m).user_id == t,
        str_of(at2(m, "payer"@, "partyId"@)) is None ==> mtn_momo_view(m).user_id == ""@,
        str_of(at(m, "status"@)) == Some("SUCCESSFUL"@) ==> mtn_momo_view(m).status == "success"@,
        str_of(at(m, "status"@)) == Some("PENDING"@) ==> mtn_momo_view(m).status == "pending"@,
        str_of(at(m, "status"@)) == Some("FAILED"@) ==> mtn_momo_view(m).status == "failed"@,
        str_of(at(m, "status"@)) != Some("SUCCESSFUL"@) && str_of(at(m, "status"@)) != Some("PENDING"@) && str_of(at(m, "status"@)) != Some("FAILED"@) ==> mtn_momo_view(m).status == "unknown"@,
        str_of(at(m, "amount"@)) matches Some(t) ==> mtn_momo_view(m).amount == AmountView::Text(t),
        str_of(at(m, "amount"@)) is None ==> (number_text_of(at(m, "amount"@)) matches Some(t) ==> mtn_momo_view(m).amount == AmountView::Number(t)),
        str_of(at(m, "amount"@)) is None && number_text_of(at(m, "amount"@)) is None ==> mtn_momo_view(m).amount == AmountView::Missing,
        mtn_momo_view(m).application_id == "mtn-momo"@,
        mtn_momo_view(m).category == "mobile_money"@,
        mtn_momo_view(m).metadata == m,
{
    reveal_strlit("SUCCESSFUL");
    reveal_strlit("PENDING");
    reveal_strlit("FAILED");
    assert("SUCCESSFUL"@.len() == 10 && "PENDING"@.len() == 7 && "FAILED"@.len() == 6);
}

/// Where an Airtel Money event's fields come from: the reference is
/// `transaction.id`; the customer is `subscriber.msisdn`; the status maps
/// `TS`, `TF` and `TA` to `success`, `failed` and `cancelled`, and anything
/// else to `pending`; the amount is the text of `transaction.amount` (a
/// number there is not taken); the application is `airtel-money`, the
/// category `mobile_money`, and the metadata the payload.
pub proof fn airtel_money_fields_come_from_the_payload(m: JsonTree)
    ensures
        str_of(at2(m, "transaction"@, "id"@)) matches Some(t) ==> airtel_money_view(m).transaction_ref == t,
        str_of(at2(m, "transaction"@, "id"@)) is None ==> airtel_money_view(m).transaction_ref == ""@,
        str_of(at2(m, "subscriber"@, "msisdn"@)) matches Some(t) ==> airtel_money_view(m).user_id == t,
        str_of(at2(m, "subscriber"@, "msisdn"@)) is None ==> airtel_money_view(m).user_id == ""@,
        str_of(at2(m, "transaction"@, "status"@)) == Some("TS"@) ==> airtel_money_view(m).status == "success"@,
        str_of(at2(m, "transaction"@, "status"@)) == Some("TF"@) ==> airtel_money_view(m).status == "failed"@,
        str_of(at2(m, "transaction"@, "status"@)) == Some("TA"@) ==> airtel_money_view(m).status == "cancelled"@,
        str_of(at2(m, "transaction"@, "status"@)) != Some("TS"@) && str_of(at2(m, "transaction"@, "status"@)) != Some("TF"@) && str_of(at2(m, "transaction"@, "status"@)) != Some("TA"@) ==> airtel_money_view(m).status == "pending"@,
        str_of(at2(m, "transaction"@, "amount"@)) matches Some(t) ==> airtel_money_view(m).amount == AmountView::Text(t),
        str_of(at2(m, "transaction"@, "amount"@)) is None ==> airtel_money_view(m).amount == AmountView::Missing,
        airtel_money_view(m).application_id == "airtel-money"@,
        airtel_money_view(m).category == "mobile_money"@,
        airtel_money_view(m).metadata == m,
{
    reveal_strlit("TS");
    reveal_strlit("TF");
    reveal_strlit("TA");
    assert("TS"@[1] != "TF"@[1] && "TS"@[1] != "TA"@[1] && "TF"@[1] != "TA"@[1]);
}

/// Where an Orange Money event's fields come from: the reference is
/// `transaction_id`, else `reference_number`; the customer is `msisdn`; the
/// status maps `SUCCESS`, `PENDING`, `FAILED` and `CANCELLED` to `success`,
/// `pending`, `failed` and `cancelled`, and anything else to `unknown`; the
/// amount is the text of the root member `amount` (a number there is not
/// taken); the application is `orange-money`, the category `mobile_money`,
/// and the metadata the payload.
pub proof fn orange_money_fields_come_from_the_payload(m: JsonTree)
    ensures
        str_of(at(m, "transaction_id"@)) matches Some(t) ==> orange_money_view(m).transaction_ref == t,
        str_of(at(m, "transaction_id"@)) is None ==> (str_of(at(m, "reference_number"@)) matches Some(t) ==> orange_money_view(m).transaction_ref == t),
        str_of(at(m, "transaction_id"@)) is None && str_of(at(m, "reference_number"@)) is None ==> orange_money_view(m).transaction_ref == ""@,
        str_of(at(m, "msisdn"@)) matches Some(t) ==> orange_money_view(m).user_id == t,
        str_of(at(m, "msisdn"@)) is None ==> orange_money_view(m).user_id == ""@,
        str_of(at(m, "status"@)) == Some("SUCCESS"@) ==> orange_money_view(m).status == "success"@,
        str_of(at(m, "status"@)) == Some("PENDING"@) ==> orange_money_view(m).status == "pending"@,
        str_of(at(m, "status"@)) == Some("FAILED"@) ==> orange_money_view(m).status == "failed"@,
        str_of(at(m, "status"@)) == Some("CANCELLED"@) ==> orange_money_view(m).status == "cancelled"@,
        str_of(at(m, "status"@)) != Some("SUCCESS"@) && str_of(at(m, "status"@)) != Some("PENDING"@) && str_of(at(m, "status"@)) != Some("FAILED"@) && str_of(at(m, "status"@)) != Some("CANCELLED"@) ==> orange_money_view(m).status == "unknown"@,
        str_of(at(m, "amount"@)) matches Some(t) ==> orange_money_view(m).amount == AmountView::Text(t),
        str_of(at(m, "amount"@)) is None ==> orange_money_view(m).amount == AmountView::Missing,
        orange_money_view(m).application_id == "orange-money"@,
        orange_money_view(m).category == "mobile_money"@,
        orange_money_view(m).metadata == m,
{
    reveal_strlit("SUCCESS");
    reveal_strlit("PENDING");
    reveal_strlit("FAILED");
    reveal_strlit("CANCELLED");
    assert("SUCCESS"@.len() == 7 && "PENDING"@.len() == 7 && "FAILED"@.len() == 6);
    assert("CANCELLED"@.len() == 9 && "SUCCESS"@[0] != "PENDING"@[0]);
}

} // verus!
