//! Paystack webhooks.
use vstd::prelude::*;
use crate::event::{AmountView, EventView, NormalizeError, TransactionEvent};
use crate::payload::{amount_from_number, number_amount, payload_data};
use crate::json::{
    at, at2, child, has_key, json_contents, json_parse, number_text_of, parse_json, str_of,
    value_as_str, value_get, value_index, JsonTree,
};
use crate::text::{first_of, first_text, owned_or, text_or};

verus! {

/// The event that a Paystack payload `m` describes.
pub open spec fn paystack_view(m: JsonTree) -> EventView {
    let d = payload_data(m);
    EventView {
        transaction_ref: text_or(
            first_text(str_of(at(d, "reference"@)), str_of(at2(d, "data"@, "reference"@))),
            ""@,
        ),
        user_id: text_or(
            first_text(str_of(at2(d, "customer"@, "id"@)), str_of(at2(d, "customer"@, "email"@))),
            ""@,
        ),
        application_id: text_or(
            first_text(str_of(at2(d, "meta"@, "application_id"@)), str_of(at(d, "channel"@))),
            "paystack"@,
        ),
        status: text_or(str_of(at(d, "status"@)), ""@),
        amount: number_amount(at(d, "amount"@)),
        category: text_or(str_of(at(d, "gateway_response"@)), "PAYSTACK"@),
        metadata: m,
    }
}

/// The event that a parsed Paystack payload describes; the payload itself
/// becomes the event's metadata.
pub fn paystack_event(json: serde_json::Value) -> (e: TransactionEvent)
    ensures
        e@ == paystack_view(json_contents(json)),
        e.metadata == json,
{
    let data = match value_get(&json, "data") {
        Some(d) => d,
        None => &json,
    };
    let transaction_ref = owned_or(
        first_of(
            value_as_str(value_index(data, "reference")),
            value_as_str(value_index(value_index(data, "data"), "reference")),
        ),
        "",
    );
    let user_id = owned_or(
        first_of(
            value_as_str(value_index(value_index(data, "customer"), "id")),
            value_as_str(value_index(value_index(data, "customer"), "email")),
        ),
        "",
    );
    let application_id = owned_or(
        first_of(
            value_as_str(value_index(value_index(data, "meta"), "application_id")),
            value_as_str(value_index(data, "channel")),
        ),
        "paystack",
    );
    let status = owned_or(value_as_str(value_index(data, "status")), "");
    let amount = amount_from_number(value_index(data, "amount"));
    let category = owned_or(value_as_str(value_index(data, "gateway_response")), "PAYSTACK");
    TransactionEvent {
        transaction_ref,
        user_id,
        application_id,
        status,
        amount,
        category,
        metadata: json,
    }
}

/// Normalizes a raw Paystack webhook body. It fails exactly when the body
/// is not one JSON value.
pub fn normalize_paystack_payload(raw: &str) -> (r: Result<TransactionEvent, NormalizeError>)
    ensures
        r is Ok <==> json_parse(raw@) is Ok,
        r matches Ok(e) ==> e@ == paystack_view(json_parse(raw@)->Ok_0),
        r matches Err(err) ==> err matches NormalizeError::InvalidJson(m) && m@ == json_parse(raw@)->Err_0,
{
    match parse_json(raw) {
        Ok(json) => Ok(paystack_event(json)),
        Err(e) => Err(NormalizeError::InvalidJson(e)),
    }
}

/// Where a Paystack event's fields come from. `d` is the part of the payload
/// that describes the transaction: its member `data` where it has one, else
/// the whole payload. The reference is `d.reference`, else
/// `d.data.reference`; the customer is a textual `d.customer.id`, else
/// `d.customer.email` (a numeric id is not taken); the application is
/// `d.meta.application_id`, else `d.channel`, else `paystack`; the status is
/// `d.status`; the amount is the number `d.amount`; the category is
/// `d.gateway_response`, else `PAYSTACK`; and the metadata is the payload.
pub proof fn paystack_fields_come_from_the_payload(m: JsonTree, d: JsonTree)
    requires
        d == (if has_key(m, "data"@) {
            child(m, "data"@)
        } else {
            m
        }),
    ensures
        str_of(at(d, "reference"@)) matches Some(t) ==> paystack_view(m).transaction_ref == t,
        str_of(at(d, "reference"@)) is None ==> (str_of(at2(d, "data"@, "reference"@)) matches Some(t) ==> paystack_view(m).transaction_ref == t),
        str_of(at(d, "reference"@)) is None && str_of(at2(d, "data"@, "reference"@)) is None ==> paystack_view(m).transaction_ref == ""@,
        str_of(at2(d, "customer"@, "id"@)) matches Some(t) ==> paystack_view(m).user_id == t,
        str_of(at2(d, "customer"@, "id"@)) is None ==> (str_of(at2(d, "customer"@, "email"@)) matches Some(t) ==> paystack_view(m).user_id == t),
        str_of(at2(d, "customer"@, "id"@)) is None && str_of(at2(d, "customer"@, "email"@)) is None ==> paystack_view(m).user_id == ""@,
        str_of(at2(d, "meta"@, "application_id"@)) matches Some(t) ==> paystack_view(m).application_id == t,
        str_of(at2(d, "meta"@, "application_id"@)) is None ==> (str_of(at(d, "channel"@)) matches Some(t) ==> paystack_view(m).application_id == t),
        str_of(at2(d, "meta"@, "application_id"@)) is None && str_of(at(d, "channel"@)) is None ==> paystack_view(m).application_id == "paystack"@,
        str_of(at(d, "status"@)) matches Some(t) ==> paystack_view(m).status == t,
        str_of(at(d, "status"@)) is None ==> paystack_view(m).status == ""@,
        number_text_of(at(d, "amount"@)) matches Some(t) ==> paystack_view(m).amount == AmountView::Number(t),
        number_text_of(at(d, "amount"@)) is None ==> paystack_view(m).amount == AmountView::Missing,
        str_of(at(d, "gateway_response"@)) matches Some(t) ==> paystack_view(m).category == t,
        str_of(at(d, "gateway_response"@)) is None ==> paystack_view(m).category == "PAYSTACK"@,
        paystack_view(m).metadata == m,
{
}

} // verus!
