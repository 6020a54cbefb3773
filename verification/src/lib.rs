//! Normalization of payment-provider webhooks into one transaction event,
//! the checks on webhook signatures, and the decisions of the worker that
//! delivers events to the backend.

pub mod backoff;
pub mod config;
pub mod dispatch;
pub mod event;
pub mod flutterwave;
pub mod json;
pub mod mno;
pub mod payload;
pub mod paystack;
pub mod server;
pub mod signature;
pub mod text;
pub mod transaction;
pub mod worker;
