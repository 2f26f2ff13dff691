use deep_space::broadcast::{check_broadcast_response, check_simulate_response};
use deep_space::poll::{status_is_absent, PollState, PollStep, QueryResult, POLL_INTERVAL_MS};
use deep_space::types::{Coin, FeeInfo, GasInfo, SendError, StatusCode, TxResponse};

fn response(code: u32, hash: &str) -> TxResponse {
    TxResponse {
        height: 0,
        txhash: hash.to_string(),
        codespace: String::new(),
        code,
        raw_log: String::new(),
        gas_wanted: 0,
        gas_used: 0,
    }
}

fn not_found() -> QueryResult {
    Err(SendError::Request { code: StatusCode::NotFound, message: "tx not found".to_string() })
}

/// Runs a whole wait against scripted query results on a clock that advances
/// only while pausing. Returns the result, the queries made, and the time
/// that had passed at the end.
fn run_wait(
    provisional: TxResponse,
    timeout_ms: u64,
    mut stub: impl FnMut(usize) -> QueryResult,
) -> (Result<TxResponse, SendError>, usize, u64) {
    let mut now: u64 = 0;
    let mut queries: usize = 0;
    let mut state = PollState::new(provisional, timeout_ms);
    loop {
        if !state.within_budget(now) {
            return (Err(state.timed_out()), queries, now);
        }
        assert_eq!(state.txhash(), "ABC");
        let q = stub(queries);
        queries += 1;
        match state.observe(now, q) {
            PollStep::Continue(s) => {
                state = s;
                now += POLL_INTERVAL_MS;
            }
            PollStep::Finished(r) => return (r, queries, now),
        }
    }
}

#[test]
fn broadcast_accepts_code_zero() {
    let r = check_broadcast_response(Some(response(0, "ABC")));
    assert_eq!(r, Ok(response(0, "ABC")));
}

#[test]
fn broadcast_without_response_is_malformed() {
    assert_eq!(check_broadcast_response(None), Err(SendError::MalformedResponse));
}

#[test]
fn broadcast_failure_has_zero_elapsed() {
    let r = check_broadcast_response(Some(response(5, "ABC")));
    assert_eq!(r, Err(SendError::TransactionFailed { tx: response(5, "ABC"), elapsed_ms: 0 }));
}

#[test]
fn broadcast_fee_rejection() {
    let mut resp = response(13, "ABC");
    resp.codespace = "sdk".to_string();
    resp.raw_log = "insufficient fees; got: 1uatom required: 25uatom: insufficient fee".to_string();
    let r = check_broadcast_response(Some(resp));
    assert_eq!(
        r,
        Err(SendError::InsufficientFees {
            fee_info: FeeInfo::InsufficientFees {
                min_fee: Some(Coin { amount: 25, denom: b"uatom".to_vec() }),
            },
        })
    );
}

#[test]
fn simulate_returns_gas_info() {
    let g = GasInfo { gas_wanted: 10, gas_used: 7 };
    assert_eq!(check_simulate_response(Some(g)), Ok(g));
    assert_eq!(check_simulate_response(None), Err(SendError::MalformedResponse));
}

#[test]
fn absent_status_codes() {
    assert!(status_is_absent(StatusCode::NotFound));
    assert!(status_is_absent(StatusCode::Unknown));
    assert!(status_is_absent(StatusCode::InvalidArgument));
    assert!(!status_is_absent(StatusCode::PermissionDenied));
    assert!(!status_is_absent(StatusCode::Unavailable));
}

#[test]
fn wait_never_found_times_out() {
    let (r, queries, now) = run_wait(response(0, "ABC"), 3500, |_| not_found());
    assert_eq!(
        r,
        Err(SendError::TransactionFailed { tx: response(0, "ABC"), elapsed_ms: 3500 })
    );
    assert!(queries >= 3);
    assert_eq!(now, 4000);
}

#[test]
fn wait_empty_answers_time_out() {
    let (r, queries, _) = run_wait(response(0, "ABC"), 2000, |_| Ok(None));
    assert_eq!(
        r,
        Err(SendError::TransactionFailed { tx: response(0, "ABC"), elapsed_ms: 2000 })
    );
    assert_eq!(queries, 2);
}

#[test]
fn wait_zero_budget_makes_no_query() {
    let (r, queries, _) = run_wait(response(0, "ABC"), 0, |_| Ok(Some(response(0, "ABC"))));
    assert_eq!(r, Err(SendError::TransactionFailed { tx: response(0, "ABC"), elapsed_ms: 0 }));
    assert_eq!(queries, 0);
}

#[test]
fn wait_confirms_on_first_response() {
    let (r, queries, now) = run_wait(response(0, "ABC"), 5000, |_| Ok(Some(response(0, "ABC"))));
    assert_eq!(r, Ok(response(0, "ABC")));
    assert_eq!(queries, 1);
    assert_eq!(now, 0);
}

#[test]
fn wait_returns_failed_execution_as_confirmed() {
    let (r, _, _) = run_wait(response(0, "ABC"), 5000, |_| Ok(Some(response(7, "ABC"))));
    assert_eq!(r, Ok(response(7, "ABC")));
}

#[test]
fn wait_fails_fast_on_fatal_status() {
    let (r, queries, now) = run_wait(response(0, "ABC"), 60000, |_| {
        Err(SendError::Request { code: StatusCode::PermissionDenied, message: String::new() })
    });
    assert_eq!(r, Err(SendError::TransactionFailed { tx: response(0, "ABC"), elapsed_ms: 0 }));
    assert_eq!(queries, 1);
    assert_eq!(now, 0);
}

#[test]
fn wait_passes_other_errors_on() {
    let (r, queries, _) = run_wait(response(0, "ABC"), 60000, |_| {
        Err(SendError::Transport { message: "connection reset".to_string() })
    });
    assert_eq!(r, Err(SendError::Transport { message: "connection reset".to_string() }));
    assert_eq!(queries, 1);
}

#[test]
fn wait_retries_until_found() {
    let (r, queries, now) = run_wait(response(0, "ABC"), 10000, |i| match i {
        0 => not_found(),
        1 => Ok(None),
        2 => Err(SendError::Request { code: StatusCode::Unknown, message: String::new() }),
        3 => Err(SendError::Request { code: StatusCode::InvalidArgument, message: String::new() }),
        _ => Ok(Some(response(0, "ABC"))),
    });
    assert_eq!(r, Ok(response(0, "ABC")));
    assert_eq!(queries, 5);
    assert_eq!(now, 4 * POLL_INTERVAL_MS);
}

#[test]
fn broadcast_then_confirm_after_two_misses() {
    let accepted = check_broadcast_response(Some(response(0, "ABC"))).unwrap();
    assert_eq!(accepted.txhash, "ABC");
    let (r, queries, now) = run_wait(accepted, 3000, |i| {
        if i < 2 {
            not_found()
        } else {
            Ok(Some(response(0, "ABC")))
        }
    });
    assert_eq!(r, Ok(response(0, "ABC")));
    assert_eq!(queries, 3);
    assert_eq!(now, 2000);
}
