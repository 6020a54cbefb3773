//! The normalized transaction event.
use vstd::prelude::*;
use crate::json::{json_contents, JsonTree};

verus! {

/// Where a transaction's amount comes from. The amount itself is a
/// floating-point number, which the caller computes: a `Number` by reading
/// its text as `f64`, a `Text` by reading it as `f64` (`0.0` where it is not
/// one), and `Missing` as `0.0`.
#[derive(Debug, PartialEq, Eq)]
pub enum Amount {
    /// A JSON number, by the text that `serde_json` prints for it.
    Number(String),
    /// A JSON string, to be read as a floating-point number.
    Text(String),
    /// No usable amount in the payload.
    Missing,
}

/// The mathematical view of an [`Amount`].
pub enum AmountView {
    Number(Seq<char>),
    Text(Seq<char>),
    Missing,
}

impl View for Amount {
    type V = AmountView;

    open spec fn view(&self) -> AmountView {
        match self {
            Amount::Number(t) => AmountView::Number(t@),
            Amount::Text(t) => AmountView::Text(t@),
            Amount::Missing => AmountView::Missing,
        }
    }
}

/// A payment event in the one shape that every provider's webhook is
/// brought into.
#[derive(Debug, PartialEq)]
pub struct TransactionEvent {
    pub transaction_ref: String,
    pub user_id: String,
    pub application_id: String,
    pub status: String,
    pub amount: Amount,
    pub category: String,
    /// The whole webhook payload as it was received.
    pub metadata: serde_json::Value,
}

/// The mathematical view of a [`TransactionEvent`].
pub struct EventView {
    pub transaction_ref: Seq<char>,
    pub user_id: Seq<char>,
    pub application_id: Seq<char>,
    pub status: Seq<char>,
    pub amount: AmountView,
    pub category: Seq<char>,
    pub metadata: JsonTree,
}

impl View for TransactionEvent {
    type V = EventView;

    open spec fn view(&self) -> EventView {
        EventView {
            transaction_ref: self.transaction_ref@,
            user_id: self.user_id@,
            application_id: self.application_id@,
            status: self.status@,
            amount: self.amount@,
            category: self.category@,
            metadata: json_contents(self.metadata),
        }
    }
}

/// Why a webhook payload could not be normalized.
#[derive(Debug)]
pub enum NormalizeError {
    /// The payload is not one JSON value; the JSON parser's message says
    /// what went wrong and where.
    InvalidJson(String),
    /// The payload names no provider that is handled.
    UnsupportedProvider,
}

impl NormalizeError {
    /// What went wrong, in words: the JSON error's own text, or
    /// `unsupported provider`.
    pub fn message(&self) -> (r: String)
        ensures
            r@ == (match self {
                NormalizeError::InvalidJson(m) => m@,
                NormalizeError::UnsupportedProvider => "unsupported provider"@,
            }),
    {
        match self {
            NormalizeError::InvalidJson(m) => m.clone(),
            NormalizeError::UnsupportedProvider => "unsupported provider".to_owned(),
        }
    }
}

} // verus!
