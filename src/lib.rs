//! Client-side protocol for submitting a signed transaction to a ledger node
//! and determining its final outcome: classifying node responses, checking
//! broadcast and simulation replies, and deciding each step of the wait for
//! confirmation. The network calls themselves are made by the caller, which
//! hands the replies to these functions.

pub mod types;
pub mod fee;
pub mod classify;
pub mod broadcast;
pub mod poll;
