use vstd::prelude::*;
use vstd::string::StringExecFns;
use vstd::utf8::encode_utf8;
use crate::fee::{coin_view, parse_required_fee, required_fee};
use crate::types::{FeeInfo, TxResponse};

verus! {

/// Result code of a transaction that executed successfully.
pub const CODE_OK: u32 = 0;

/// Code of the SDK's root codespace for a transaction that ran out of gas.
pub const CODE_OUT_OF_GAS: u32 = 11;

/// Code of the SDK's root codespace for a fee below the node's minimum.
pub const CODE_INSUFFICIENT_FEE: u32 = 13;

/// How a node's response is to be read.
#[derive(Clone, Debug, PartialEq, Eq)]
pub enum TxStatus {
    Success,
    Failed,
    InsufficientFee(FeeInfo),
}

/// The mathematical value of a `TxStatus`.
pub enum StatusView {
    Success,
    Failed,
    InsufficientFees { min_fee: Option<(nat, Seq<u8>)> },
    InsufficientGas { gas_used: i64 },
}

impl TxStatus {
    pub open spec fn view(&self) -> StatusView {
        match self {
            TxStatus::Success => StatusView::Success,
            TxStatus::Failed => StatusView::Failed,
            TxStatus::InsufficientFee(FeeInfo::InsufficientFees { min_fee }) => {
                StatusView::InsufficientFees { min_fee: coin_view(*min_fee) }
            },
            TxStatus::InsufficientFee(FeeInfo::InsufficientGas { gas_used }) => {
                StatusView::InsufficientGas { gas_used: *gas_used }
            },
        }
    }
}

/// The name of the SDK's root codespace.
pub open spec fn sdk_codespace() -> Seq<char> {
    seq!['s', 'd', 'k']
}

/// The node refused the transaction over its fee or gas.
pub open spec fn is_fee_rejection(r: TxResponse) -> bool {
    r.codespace@ == sdk_codespace() && (r.code == CODE_INSUFFICIENT_FEE || r.code
        == CODE_OUT_OF_GAS)
}

/// The classification of a response: a fee rejection first, then the result code.
pub open spec fn classify_spec(r: TxResponse) -> StatusView {
    if is_fee_rejection(r) {
        if r.code == CODE_INSUFFICIENT_FEE {
            StatusView::InsufficientFees { min_fee: required_fee(encode_utf8(r.raw_log@)) }
        } else {
            StatusView::InsufficientGas { gas_used: r.gas_used }
        }
    } else if r.code == CODE_OK {
        StatusView::Success
    } else {
        StatusView::Failed
    }
}

/// Reads the fee or gas that a fee rejection asks for, if `response` is one.
pub fn fee_rejection(response: &TxResponse) -> (r: Option<FeeInfo>)
    ensures
        match r {
            None => !is_fee_rejection(*response),
            Some(info) => is_fee_rejection(*response) && TxStatus::InsufficientFee(info)@
                == classify_spec(*response),
        },
{
    let sdk = String::from_str("sdk");
    proof {
        reveal_strlit("sdk");
    }
    assert(sdk@ =~= sdk_codespace());
    if response.codespace != sdk {
        return None;
    }
    if response.code == CODE_INSUFFICIENT_FEE {
        let min_fee = parse_required_fee(response.raw_log.as_str().as_bytes());
        Some(FeeInfo::InsufficientFees { min_fee })
    } else if response.code == CODE_OUT_OF_GAS {
        Some(FeeInfo::InsufficientGas { gas_used: response.gas_used })
    } else {
        None
    }
}

/// Classifies a node's response: a fee rejection takes precedence, then result
/// code zero is success and any other code is failure.
pub fn classify(response: &TxResponse) -> (r: TxStatus)
    ensures
        r@ == classify_spec(*response),
{
    match fee_rejection(response) {
        Some(info) => TxStatus::InsufficientFee(info),
        None => {
            if response.code == CODE_OK {
                TxStatus::Success
            } else {
                TxStatus::Failed
            }
        },
    }
}

/// Without a fee rejection, code zero classifies as success and any other code
/// as failure; a fee rejection classifies as such whatever the code.
pub proof fn lemma_classify_by_code(r: TxResponse)
    ensures
        !is_fee_rejection(r) && r.code == CODE_OK ==> classify_spec(r) is Success,
        !is_fee_rejection(r) && r.code != CODE_OK ==> classify_spec(r) is Failed,
        is_fee_rejection(r) ==> classify_spec(r) is InsufficientFees || classify_spec(
            r,
        ) is InsufficientGas,
{
}

/// Classifying the same response twice gives the same outcome.
pub proof fn lemma_classify_idempotent(response: TxResponse, first: TxStatus, second: TxStatus)
    requires
        first@ == classify_spec(response),
        second@ == classify_spec(response),
    ensures
        first@ == second@,
{
}

} // verus!
