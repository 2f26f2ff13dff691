use vstd::prelude::*;
use crate::types::{SendError, StatusCode, TxResponse};

verus! {

/// The fixed pause between two status queries, in milliseconds.
pub const POLL_INTERVAL_MS: u64 = 1000;

/// What one status query returned: a response, no response yet, or an error.
pub type QueryResult = Result<Option<TxResponse>, SendError>;

/// The state of a wait for confirmation: the provisional response of the
/// broadcast, reported if the wait fails, and the budget in milliseconds.
#[derive(Clone, Debug, PartialEq, Eq)]
pub struct PollState {
    pub provisional: TxResponse,
    pub timeout_ms: u64,
}

/// What follows a query: another query after one interval, or the end.
#[derive(Debug, PartialEq, Eq)]
pub enum PollStep {
    Continue(PollState),
    Finished(Result<TxResponse, SendError>),
}

/// The status codes that the query service gives for a transaction it does
/// not hold (yet).
pub open spec fn is_absent_code(c: StatusCode) -> bool {
    c == StatusCode::NotFound || c == StatusCode::Unknown || c == StatusCode::InvalidArgument
}

/// A query result that means the transaction is not visible yet.
pub open spec fn is_not_visible(q: QueryResult) -> bool {
    match q {
        Ok(None) => true,
        Err(SendError::Request { code, .. }) => is_absent_code(code),
        _ => false,
    }
}

/// The failure reported when the wait ends without a terminal response.
pub open spec fn failed_wait(p: PollState, elapsed_ms: u64) -> Result<TxResponse, SendError> {
    Err(SendError::TransactionFailed { tx: p.provisional, elapsed_ms })
}

/// The step taken on a query result observed `elapsed_ms` into the wait.
pub open spec fn observe_spec(p: PollState, elapsed_ms: u64, q: QueryResult) -> PollStep {
    match q {
        Ok(Some(r)) => PollStep::Finished(Ok(r)),
        Ok(None) => PollStep::Continue(p),
        Err(SendError::Request { code, .. }) => {
            if is_absent_code(code) {
                PollStep::Continue(p)
            } else {
                PollStep::Finished(failed_wait(p, elapsed_ms))
            }
        },
        Err(e) => PollStep::Finished(Err(e)),
    }
}

/// Tells whether a status code means that the transaction is not visible yet.
pub fn status_is_absent(c: StatusCode) -> (r: bool)
    ensures
        r == is_absent_code(c),
{
    match c {
        StatusCode::NotFound | StatusCode::Unknown | StatusCode::InvalidArgument => true,
        _ => false,
    }
}

impl PollState {
    /// Starts a wait for `provisional` with a budget of `timeout_ms`.
    pub fn new(provisional: TxResponse, timeout_ms: u64) -> (r: PollState)
        ensures
            r.provisional == provisional,
            r.timeout_ms == timeout_ms,
    {
        PollState { provisional, timeout_ms }
    }

    /// The hash to query.
    pub fn txhash(&self) -> (r: &String)
        ensures
            *r == self.provisional.txhash,
    {
        &self.provisional.txhash
    }

    /// Whether a wait that has lasted `elapsed_ms` may query again.
    pub fn within_budget(&self, elapsed_ms: u64) -> (r: bool)
        ensures
            r == (elapsed_ms < self.timeout_ms),
    {
        elapsed_ms < self.timeout_ms
    }

    /// The failure of a wait whose budget ran out: the provisional response,
    /// with the whole budget as the time waited.
    pub fn timed_out(self) -> (r: SendError)
        ensures
            r == (SendError::TransactionFailed { tx: self.provisional, elapsed_ms: self.timeout_ms }),
    {
        SendError::TransactionFailed { tx: self.provisional, elapsed_ms: self.timeout_ms }
    }

    /// Decides on the result of a query made `elapsed_ms` into the wait. A
    /// response confirms; no response or an absent status asks for another
    /// query; any other status fails with the provisional response; any other
    /// error is passed on unchanged.
    pub fn observe(self, elapsed_ms: u64, q: QueryResult) -> (r: PollStep)
        ensures
            r == observe_spec(self, elapsed_ms, q),
    {
        match q {
            Ok(Some(resp)) => PollStep::Finished(Ok(resp)),
            Ok(None) => PollStep::Continue(self),
            Err(SendError::Request { code, .. }) => {
                if status_is_absent(code) {
                    PollStep::Continue(self)
                } else {
                    PollStep::Finished(
                        Err(SendError::TransactionFailed { tx: self.provisional, elapsed_ms }),
                    )
                }
            },
            Err(e) => PollStep::Finished(Err(e)),
        }
    }
}

/// A whole wait from query `i` on, where query `j` returns `stub(j)` and time
/// advances only by the pause between queries: the final result and the
/// number of queries made.
pub open spec fn wait_run(p: PollState, stub: spec_fn(nat) -> QueryResult, i: nat) -> (
    Result<TxResponse, SendError>,
    nat,
)
    decreases p.timeout_ms + POLL_INTERVAL_MS - i * POLL_INTERVAL_MS,
{
    if i * POLL_INTERVAL_MS >= p.timeout_ms {
        (failed_wait(p, p.timeout_ms), 0)
    } else {
        match observe_spec(p, (i * POLL_INTERVAL_MS) as u64, stub(i)) {
            PollStep::Finished(r) => (r, 1),
            PollStep::Continue(_) => {
                let rest = wait_run(p, stub, i + 1);
                (rest.0, rest.1 + 1)
            },
        }
    }
}

proof fn lemma_absent_run_from(p: PollState, stub: spec_fn(nat) -> QueryResult, i: nat)
    requires
        forall|j: nat| is_not_visible(#[trigger] stub(j)),
    ensures
        wait_run(p, stub, i).0 == failed_wait(p, p.timeout_ms),
        (i + wait_run(p, stub, i).1) * POLL_INTERVAL_MS >= p.timeout_ms,
    decreases p.timeout_ms + POLL_INTERVAL_MS - i * POLL_INTERVAL_MS,
{
    if i * POLL_INTERVAL_MS < p.timeout_ms {
        assert(is_not_visible(stub(i)));
        lemma_absent_run_from(p, stub, i + 1);
    }
}

/// A wait whose queries never see the transaction times out: it fails with
/// the provisional response and the whole budget as the time waited, after
/// at least one query for each full interval of the budget.
pub proof fn lemma_never_visible_times_out(p: PollState, stub: spec_fn(nat) -> QueryResult)
    requires
        forall|j: nat| is_not_visible(#[trigger] stub(j)),
    ensures
        wait_run(p, stub, 0).0 == failed_wait(p, p.timeout_ms),
        wait_run(p, stub, 0).1 * POLL_INTERVAL_MS >= p.timeout_ms,
        wait_run(p, stub, 0).1 >= p.timeout_ms / POLL_INTERVAL_MS,
{
    lemma_absent_run_from(p, stub, 0);
}

/// A wait whose first query returns a response confirms with it at once.
pub proof fn lemma_first_response_confirms(
    p: PollState,
    stub: spec_fn(nat) -> QueryResult,
    resp: TxResponse,
)
    requires
        p.timeout_ms > 0,
        stub(0) == Ok::<Option<TxResponse>, SendError>(Some(resp)),
    ensures
        wait_run(p, stub, 0) == (Ok::<TxResponse, SendError>(resp), 1nat),
{
}

/// A wait whose first query fails with a status other than the absent ones
/// fails at once, with the provisional response, without waiting.
pub proof fn lemma_fatal_status_fails_fast(
    p: PollState,
    stub: spec_fn(nat) -> QueryResult,
    code: StatusCode,
    message: String,
)
    requires
        p.timeout_ms > 0,
        !is_absent_code(code),
        stub(0) == Err::<Option<TxResponse>, SendError>(SendError::Request { code, message }),
    ensures
        wait_run(p, stub, 0) == (failed_wait(p, 0), 1nat),
{
}

proof fn lemma_visible_after_from(
    p: PollState,
    stub: spec_fn(nat) -> QueryResult,
    resp: TxResponse,
    k: nat,
    i: nat,
)
    requires
        i <= k,
        k * POLL_INTERVAL_MS < p.timeout_ms,
        forall|j: nat| j < k ==> is_not_visible(#[trigger] stub(j)),
        stub(k) == Ok::<Option<TxResponse>, SendError>(Some(resp)),
    ensures
        wait_run(p, stub, i) == (Ok::<TxResponse, SendError>(resp), (k - i + 1) as nat),
    decreases k - i,
{
    assert(i * POLL_INTERVAL_MS <= k * POLL_INTERVAL_MS);
    if i < k {
        assert(is_not_visible(stub(i)));
        lemma_visible_after_from(p, stub, resp, k, i + 1);
    }
}

/// A wait whose queries miss the transaction `k` times and then return its
/// response, all within the budget, confirms with that response after `k + 1`
/// queries, pausing one interval after each miss.
pub proof fn lemma_retries_until_visible(
    p: PollState,
    stub: spec_fn(nat) -> QueryResult,
    resp: TxResponse,
    k: nat,
)
    requires
        k * POLL_INTERVAL_MS < p.timeout_ms,
        forall|j: nat| j < k ==> is_not_visible(#[trigger] stub(j)),
        stub(k) == Ok::<Option<TxResponse>, SendError>(Some(resp)),
    ensures
        wait_run(p, stub, 0) == (Ok::<TxResponse, SendError>(resp), k + 1),
{
    lemma_visible_after_from(p, stub, resp, k, 0);
}

} // verus!
