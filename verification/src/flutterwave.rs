//! Flutterwave webhooks.
use vstd::prelude::*;
use crate::event::{AmountView, EventView, NormalizeError, TransactionEvent};
use crate::json::{
    at, at2, child, decimal, has_key, json_contents, json_parse, number_text_of, parse_json, str_of,
    u64_of, value_as_str, value_as_u64, value_get, value_index, JsonTree,
};
use crate::payload::{amount_from_number, number_amount, payload_data};
use crate::text::{first_of, first_text, owned_or, text_or, u64_to_decimal};

verus! {

/// The customer of a Flutterwave payload: the numeric `customer.id` in
/// decimal, else a textual `customer.id`, else `customer.email`, else empty.
pub open spec fn flutterwave_customer(d: JsonTree) -> Seq<char> {
    let id = at2(d, "customer"@, "id"@);
    match u64_of(id) {
        Some(n) => decimal(n as nat),
        None => text_or(first_text(str_of(id), str_of(at2(d, "customer"@, "email"@))), Seq::empty()),
    }
}

/// The event that a Flutterwave payload `m` describes.
pub open spec fn flutterwave_view(m: JsonTree) -> EventView {
    let d = payload_data(m);
    EventView {
        transaction_ref: text_or(first_text(str_of(at(d, "tx_ref"@)), str_of(at(d, "txRef"@))), ""@),
        user_id: flutterwave_customer(d),
        application_id: text_or(
            first_text(str_of(at(d, "app_id"@)), str_of(at2(d, "meta"@, "application_id"@))),
            "flutterwave"@,
        ),
        status: text_or(str_of(at(d, "status"@)), ""@),
        amount: number_amount(at(d, "amount"@)),
        category: text_or(str_of(at(d, "payment_type"@)), "FLUTTERWAVE"@),
        metadata: m,
    }
}

/// The event that a parsed Flutterwave payload describes; the payload
/// itself becomes the event's metadata.
pub fn flutterwave_event(json: serde_json::Value) -> (e: TransactionEvent)
    ensures
        e@ == flutterwave_view(json_contents(json)),
        e.metadata == json,
{
    let data = match value_get(&json, "data") {
        Some(d) => d,
        None => &json,
    };
    let transaction_ref = owned_or(
        first_of(value_as_str(value_index(data, "tx_ref")), value_as_str(value_index(data, "txRef"))),
        "",
    );
    // The customer id is numeric in Flutterwave's own payloads, textual in others.
    let customer = value_index(data, "customer");
    let id = value_index(customer, "id");
    let user_id = match value_as_u64(id) {
        Some(n) => u64_to_decimal(n),
        None => match first_of(value_as_str(id), value_as_str(value_index(customer, "email"))) {
            Some(t) => t.to_owned(),
            None => String::new(),
        },
    };
    let application_id = owned_or(
        first_of(
            value_as_str(value_index(data, "app_id")),
            value_as_str(value_index(value_index(data, "meta"), "application_id")),
        ),
        "flutterwave",
    );
    let status = owned_or(value_as_str(value_index(data, "status")), "");
    let amount = amount_from_number(value_index(data, "amount"));
    let category = owned_or(value_as_str(value_index(data, "payment_type")), "FLUTTERWAVE");
    TransactionEvent {
        transaction_ref,
        user_id,
        application_id,
        status,
        amount,
        category,
        metadata: json,
    }
}

/// Normalizes a raw Flutterwave webhook body. It fails exactly when the body
/// is not one JSON value.
pub fn normalize_flutterwave_payload(raw: &str) -> (r: Result<TransactionEvent, NormalizeError>)
    ensures
        r is Ok <==> json_parse(raw@) is Ok,
        r matches Ok(e) ==> e@ == flutterwave_view(json_parse(raw@)->Ok_0),
        r matches Err(err) ==> err matches NormalizeError::InvalidJson(m) && m@ == json_parse(raw@)->Err_0,
{
    match parse_json(raw) {
        Ok(json) => Ok(flutterwave_event(json)),
        Err(e) => Err(NormalizeError::InvalidJson(e)),
    }
}

/// Where a Flutterwave event's fields come from. `d` is the part of the
/// payload that describes the transaction: its member `data` where it has
/// one, else the whole payload. The reference is `d.tx_ref`, else
/// `d.txRef`; the customer is a numeric `d.customer.id` in decimal, else a
/// textual one, else `d.customer.email`, else empty; the application is
/// `d.app_id`, else `d.meta.application_id`, else `flutterwave`; the status
/// is `d.status`; the amount is the number `d.amount`; the category is
/// `d.payment_type`, else `FLUTTERWAVE`; and the metadata is the payload.
pub proof fn flutterwave_fields_come_from_the_payload(m: JsonTree, d: JsonTree)
    requires
        d == (if has_key(m, "data"@) {
            child(m, "data"@)
        } else {
            m
        }),
    ensures
        str_of(at(d, "tx_ref"@)) matches Some(t) ==> flutterwave_view(m).transaction_ref == t,
        str_of(at(d, "tx_ref"@)) is None ==> (str_of(at(d, "txRef"@)) matches Some(t) ==> flutterwave_view(m).transaction_ref == t),
        str_of(at(d, "tx_ref"@)) is None && str_of(at(d, "txRef"@)) is None ==> flutterwave_view(m).transaction_ref == ""@,
        u64_of(at2(d, "customer"@, "id"@)) matches Some(n) ==> flutterwave_view(m).user_id == decimal(n as nat),
        u64_of(at2(d, "customer"@, "id"@)) is None ==> (str_of(at2(d, "customer"@, "id"@)) matches Some(t) ==> flutterwave_view(m).user_id == t),
        u64_of(at2(d, "customer"@, "id"@)) is None && str_of(at2(d, "customer"@, "id"@)) is None ==> (str_of(at2(d, "customer"@, "email"@)) matches Some(t) ==> flutterwave_view(m).user_id == t),
        u64_of(at2(d, "customer"@, "id"@)) is None && str_of(at2(d, "customer"@, "id"@)) is None && str_of(at2(d, "customer"@, "email"@)) is None ==> flutterwave_view(m).user_id == Seq::<char>::empty(),
        str_of(at(d, "app_id"@)) matches Some(t) ==> flutterwave_view(m).application_id == t,
        str_of(at(d, "app_id"@)) is None ==> (str_of(at2(d, "meta"@, "application_id"@)) matches Some(t) ==> flutterwave_view(m).application_id == t),
        str_of(at(d, "app_id"@)) is None && str_of(at2(d, "meta"@, "application_id"@)) is None ==> flutterwave_view(m).application_id == "flutterwave"@,
        str_of(at(d, "status"@)) matches Some(t) ==> flutterwave_view(m).status == t,
        str_of(at(d, "status"@)) is None ==> flutterwave_view(m).status == ""@,
        number_text_of(at(d, "amount"@)) matches Some(t) ==> flutterwave_view(m).amount == AmountView::Number(t),
        number_text_of(at(d, "amount"@)) is None ==> flutterwave_view(m).amount == AmountView::Missing,
        str_of(at(d, "payment_type"@)) matches Some(t) ==> flutterwave_view(m).category == t,
        str_of(at(d, "payment_type"@)) is None ==> flutterwave_view(m).category == "FLUTTERWAVE"@,
        flutterwave_view(m).metadata == m,
{
}

} // verus!
