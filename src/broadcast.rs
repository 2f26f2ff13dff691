use vstd::prelude::*;
use crate::classify::{StatusView, TxStatus, classify, classify_spec};
use crate::types::{GasInfo, SendError, TxResponse};

verus! {

/// What the reply to a broadcast must turn into: a missing response is
/// malformed, a fee rejection or a failure ends the send, and anything else is
/// accepted as in flight.
pub open spec fn broadcast_outcome(reply: Option<TxResponse>, r: Result<TxResponse, SendError>) -> bool {
    match reply {
        None => r matches Err(SendError::MalformedResponse),
        Some(resp) => match classify_spec(resp) {
            StatusView::Success => r == Ok::<TxResponse, SendError>(resp),
            StatusView::Failed => r == Err::<TxResponse, SendError>(
                SendError::TransactionFailed { tx: resp, elapsed_ms: 0 },
            ),
            _ => match r {
                Err(SendError::InsufficientFees { fee_info }) => TxStatus::InsufficientFee(
                    fee_info,
                )@ == classify_spec(resp),
                _ => false,
            },
        },
    }
}

/// Interprets the node's reply to a broadcast. A response that is accepted is
/// provisional: whether it was included is known only after confirmation.
pub fn check_broadcast_response(reply: Option<TxResponse>) -> (r: Result<TxResponse, SendError>)
    ensures
        broadcast_outcome(reply, r),
{
    match reply {
        None => Err(SendError::MalformedResponse),
        Some(resp) => match classify(&resp) {
            TxStatus::InsufficientFee(fee_info) => Err(SendError::InsufficientFees { fee_info }),
            TxStatus::Failed => Err(SendError::TransactionFailed { tx: resp, elapsed_ms: 0 }),
            TxStatus::Success => Ok(resp),
        },
    }
}

/// Interprets the node's reply to a simulation: the gas estimate, which the
/// reply must carry.
pub fn check_simulate_response(gas_info: Option<GasInfo>) -> (r: Result<GasInfo, SendError>)
    ensures
        match gas_info {
            None => r matches Err(SendError::MalformedResponse),
            Some(g) => r == Ok::<GasInfo, SendError>(g),
        },
{
    match gas_info {
        None => Err(SendError::MalformedResponse),
        Some(g) => Ok(g),
    }
}

} // verus!
