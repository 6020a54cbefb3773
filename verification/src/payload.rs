//! Reading the parts of a payload that several providers share.
use vstd::prelude::*;
use crate::event::{Amount, AmountView};
use crate::json::{
    child, has_key, json_contents, number_text_of, str_of, value_as_str, value_number_text,
    JsonTree,
};

verus! {

/// The part of a payload that describes the transaction: the member `data`
/// where the root has one, else the whole payload.
pub open spec fn payload_data(m: JsonTree) -> JsonTree {
    if has_key(m, "data"@) {
        child(m, "data"@)
    } else {
        m
    }
}

/// The amount of a provider whose amount is a JSON number.
pub open spec fn number_amount(m: JsonTree) -> AmountView {
    match number_text_of(m) {
        Some(t) => AmountView::Number(t),
        None => AmountView::Missing,
    }
}

/// The amount of a provider whose amount is a JSON string.
pub open spec fn text_amount(m: JsonTree) -> AmountView {
    match str_of(m) {
        Some(t) => AmountView::Text(t),
        None => AmountView::Missing,
    }
}

/// The amount of a provider that takes a JSON string, else a JSON number.
pub open spec fn text_or_number_amount(m: JsonTree) -> AmountView {
    match str_of(m) {
        Some(t) => AmountView::Text(t),
        None => number_amount(m),
    }
}

/// The amount of a value whose amount is a JSON number.
pub(crate) fn amount_from_number(v: &serde_json::Value) -> (r: Amount)
    ensures
        r@ == number_amount(json_contents(*v)),
{
    match value_number_text(v) {
        Some(t) => Amount::Number(t),
        None => Amount::Missing,
    }
}

/// The amount of a value whose amount is a JSON string.
pub(crate) fn amount_from_text(v: &serde_json::Value) -> (r: Amount)
    ensures
        r@ == text_amount(json_contents(*v)),
{
    match value_as_str(v) {
        Some(t) => Amount::Text(t.to_owned()),
        None => Amount::Missing,
    }
}

/// The amount of a value whose amount is a JSON string, else a JSON number.
pub(crate) fn amount_from_text_or_number(v: &serde_json::Value) -> (r: Amount)
    ensures
        r@ == text_or_number_amount(json_contents(*v)),
{
    match value_as_str(v) {
        Some(t) => Amount::Text(t.to_owned()),
        None => amount_from_number(v),
    }
}

} // verus!
