use vstd::prelude::*;

verus! {

/// The record a node reports for a transaction: its hash, result code and log.
#[derive(Clone, Debug, PartialEq, Eq)]
pub struct TxResponse {
    pub height: i64,
    pub txhash: String,
    pub codespace: String,
    pub code: u32,
    pub raw_log: String,
    pub gas_wanted: i64,
    pub gas_used: i64,
}

/// Gas estimate returned by a dry-run execution.
#[derive(Clone, Copy, Debug, PartialEq, Eq, Structural)]
pub struct GasInfo {
    pub gas_wanted: u64,
    pub gas_used: u64,
}

/// An amount of one denomination, as read from a node's message.
#[derive(Clone, Debug, PartialEq, Eq)]
pub struct Coin {
    pub amount: u128,
    pub denom: Vec<u8>,
}

/// What a fee rejection tells the caller about the fee or gas that was needed.
#[derive(Clone, Debug, PartialEq, Eq)]
pub enum FeeInfo {
    /// The node asked for a higher fee; `min_fee` is the fee it named, when its
    /// message could be read.
    InsufficientFees { min_fee: Option<Coin> },
    /// Execution ran out of gas after consuming `gas_used`.
    InsufficientGas { gas_used: i64 },
}

/// The status codes of the RPC layer.
#[derive(Clone, Copy, Debug, PartialEq, Eq, Structural)]
pub enum StatusCode {
    Success,
    Cancelled,
    Unknown,
    InvalidArgument,
    DeadlineExceeded,
    NotFound,
    AlreadyExists,
    PermissionDenied,
    ResourceExhausted,
    FailedPrecondition,
    Aborted,
    OutOfRange,
    Unimplemented,
    Internal,
    Unavailable,
    DataLoss,
    Unauthenticated,
}

/// Errors of broadcasting, simulating and confirming a transaction.
#[derive(Clone, Debug, PartialEq, Eq)]
pub enum SendError {
    /// The connection to the node failed.
    Transport { message: String },
    /// The node answered a request with a non-success status.
    Request { code: StatusCode, message: String },
    /// The node's reply lacked a payload that the request requires.
    MalformedResponse,
    /// The node refused the transaction because its fee or gas was too low.
    InsufficientFees { fee_info: FeeInfo },
    /// The transaction failed, or was not confirmed in time; carries the last
    /// known response and the time waited, in milliseconds.
    TransactionFailed { tx: TxResponse, elapsed_ms: u64 },
}

} // verus!
