//! Payloads that already use the event's own field names.
use vstd::prelude::*;
use crate::event::{AmountView, EventView, NormalizeError, TransactionEvent};
use crate::json::{
    at, json_contents, json_parse, number_text_of, parse_json, str_of, value_as_str, value_index,
    JsonTree,
};
use crate::payload::{amount_from_number, number_amount};
use crate::text::{owned_or, text_or};

verus! {

/// The event that a payload `m` in the event's own vocabulary describes.
pub open spec fn generic_view(m: JsonTree) -> EventView {
    EventView {
        transaction_ref: text_or(str_of(at(m, "transactionRef"@)), ""@),
        user_id: text_or(str_of(at(m, "userId"@)), ""@),
        application_id: text_or(str_of(at(m, "applicationId"@)), ""@),
        status: text_or(str_of(at(m, "status"@)), ""@),
        amount: number_amount(at(m, "amount"@)),
        category: text_or(str_of(at(m, "category"@)), ""@),
        metadata: m,
    }
}

/// The event that a parsed payload in the event's own vocabulary describes.
pub fn generic_event(json: serde_json::Value) -> (e: TransactionEvent)
    ensures
        e@ == generic_view(json_contents(json)),
        e.metadata == json,
{
    let transaction_ref = owned_or(value_as_str(value_index(&json, "transactionRef")), "");
    let user_id = owned_or(value_as_str(value_index(&json, "userId")), "");
    let application_id = owned_or(value_as_str(value_index(&json, "applicationId")), "");
    let status = owned_or(value_as_str(value_index(&json, "status")), "");
    let amount = amount_from_number(value_index(&json, "amount"));
    let category = owned_or(value_as_str(value_index(&json, "category")), "");
    TransactionEvent {
        transaction_ref,
        user_id,
        application_id,
        status,
        amount,
        category,
        metadata: json,
    }
}

/// Normalizes a raw payload whose fields are named `transactionRef`,
/// `userId`, `applicationId`, `status`, `amount` and `category`. It fails
/// exactly when the body is not one JSON value.
pub fn normalize_payload(raw: &str) -> (r: Result<TransactionEvent, NormalizeError>)
    ensures
        r is Ok <==> json_parse(raw@) is Ok,
        r matches Ok(e) ==> e@ == generic_view(json_parse(raw@)->Ok_0),
        r matches Err(err) ==> err matches NormalizeError::InvalidJson(m) && m@ == json_parse(raw@)->Err_0,
{
    match parse_json(raw) {
        Ok(json) => Ok(generic_event(json)),
        Err(e) => Err(NormalizeError::InvalidJson(e)),
    }
}

/// Where an event in the event's own vocabulary takes its fields from: the
/// root members `transactionRef`, `userId`, `applicationId`, `status` and
/// `category` where they are strings (else empty), the number `amount`
/// (a textual amount is not taken), and the whole payload as metadata.
pub proof fn generic_fields_come_from_the_payload(m: JsonTree)
    ensures
        str_of(at(m, "transactionRef"@)) matches Some(t) ==> generic_view(m).transaction_ref == t,
        str_of(at(m, "transactionRef"@)) is None ==> generic_view(m).transaction_ref == ""@,
        str_of(at(m, "userId"@)) matches Some(t) ==> generic_view(m).user_id == t,
        str_of(at(m, "userId"@)) is None ==> generic_view(m).user_id == ""@,
        str_of(at(m, "applicationId"@)) matches Some(t) ==> generic_view(m).application_id == t,
        str_of(at(m, "applicationId"@)) is None ==> generic_view(m).application_id == ""@,
        str_of(at(m, "status"@)) matches Some(t) ==> generic_view(m).status == t,
        str_of(at(m, "status"@)) is None ==> generic_view(m).status == ""@,
        str_of(at(m, "category"@)) matches Some(t) ==> generic_view(m).category == t,
        str_of(at(m, "category"@)) is None ==> generic_view(m).category == ""@,
        number_text_of(at(m, "amount"@)) matches Some(t) ==> generic_view(m).amount == AmountView::Number(t),
        number_text_of(at(m, "amount"@)) is None ==> generic_view(m).amount == AmountView::Missing,
        generic_view(m).metadata == m,
{
}

} // verus!
