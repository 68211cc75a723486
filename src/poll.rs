use vstd::prelude::*;

verus! {

/// The error a chain context raises when a transaction got no response in
/// time.
pub trait InjectNoTxResponseError {
    type TxHash;

    type Error;

    fn tx_no_response_error(tx_hash: &Self::TxHash) -> Self::Error;
}

/// How long to wait for a transaction's inclusion, and how long to sleep
/// between two queries; both in milliseconds.
pub trait HasPollTimeout {
    fn poll_timeout(&self) -> u64;

    fn poll_backoff(&self) -> u64;
}

/// What the poller does after one query of a transaction's status.
#[derive(Debug)]
pub enum PollStep<R, E> {
    /// The transaction is included: done, with its response.
    Confirmed(R),
    /// Not included and the timeout has passed.
    NoResponse,
    /// The query failed and the timeout has passed: its error is surfaced.
    Failed(E),
    /// Sleep this many milliseconds, then query again.
    Sleep(u64),
}

/// The poll of one transaction: its timeout and backoff, and the time the
/// poll started, in milliseconds of a clock that does not go back.
#[derive(Clone, Copy, Debug, PartialEq, Eq, Structural)]
pub struct PollTxResponse {
    pub timeout: u64,
    pub backoff: u64,
    pub start: u64,
}

/// Time from `start` to `now`, zero where `now` lies before `start`.
pub open spec fn duration_since(start: u64, now: u64) -> nat {
    if now >= start {
        (now - start) as nat
    } else {
        0
    }
}

impl HasPollTimeout for PollTxResponse {
    fn poll_timeout(&self) -> (r: u64) {
        self.timeout
    }

    fn poll_backoff(&self) -> (r: u64) {
        self.backoff
    }
}

impl PollTxResponse {
    pub fn new(timeout: u64, backoff: u64, start: u64) -> (r: Self)
        ensures
            r == (PollTxResponse { timeout, backoff, start }),
    {
        PollTxResponse { timeout, backoff, start }
    }

    /// The poll goes on after a query at `now` that did not confirm.
    pub open spec fn within_timeout(&self, now: u64) -> bool {
        duration_since(self.start, now) <= self.timeout
    }

    /// The decision after a query made at `now`: a confirmation ends the
    /// poll; "not yet included" and a failed query are treated alike, with a
    /// sleep of the backoff until the timeout has passed, and then the
    /// "no response" error or the query's own error.
    pub fn poll_tx_response<R, E>(&self, now: u64, response: Result<Option<R>, E>) -> (r: PollStep<R, E>)
        ensures
            match response {
                Ok(Some(tx)) => r == PollStep::<R, E>::Confirmed(tx),
                Ok(None) => if self.within_timeout(now) {
                    r == PollStep::<R, E>::Sleep(self.backoff)
                } else {
                    r == PollStep::<R, E>::NoResponse
                },
                Err(e) => if self.within_timeout(now) {
                    r == PollStep::<R, E>::Sleep(self.backoff)
                } else {
                    r == PollStep::<R, E>::Failed(e)
                },
            },
    {
        let elapsed: u64 = if now >= self.start {
            now - self.start
        } else {
            0
        };
        match response {
            Ok(Some(tx)) => PollStep::Confirmed(tx),
            Ok(None) => {
                if elapsed > self.timeout {
                    PollStep::NoResponse
                } else {
                    PollStep::Sleep(self.backoff)
                }
            },
            Err(e) => {
                if elapsed > self.timeout {
                    PollStep::Failed(e)
                } else {
                    PollStep::Sleep(self.backoff)
                }
            },
        }
    }
}

proof fn lemma_query_times_spread(poll: PollTxResponse, times: Seq<u64>, k: int)
    requires
        0 <= k < times.len(),
        times[0] >= poll.start,
        forall|i: int| 0 < i < times.len() ==> #[trigger] times[i] >= times[i - 1] + poll.backoff,
    ensures
        times[k] >= poll.start + k * poll.backoff,
    decreases k,
{
    if k > 0 {
        lemma_query_times_spread(poll, times, k - 1);
        assert(times[k] >= times[k - 1] + poll.backoff);
        assert(k * poll.backoff == (k - 1) * poll.backoff + poll.backoff) by (nonlinear_arith);
    }
}

/// A poll whose queries lie at least the backoff apart makes at most
/// `timeout / backoff + 2` queries: every query but the last was followed by
/// a sleep, so it came no later than the timeout after the start.
pub proof fn lemma_poll_attempts_bounded(poll: PollTxResponse, times: Seq<u64>)
    requires
        poll.backoff > 0,
        times.len() >= 1,
        times[0] >= poll.start,
        forall|i: int| 0 < i < times.len() ==> #[trigger] times[i] >= times[i - 1] + poll.backoff,
        forall|i: int| 0 <= i < times.len() - 1 ==> poll.within_timeout(#[trigger] times[i]),
    ensures
        times.len() <= poll.timeout / poll.backoff + 2,
{
    if times.len() >= 2 {
        let k = times.len() - 2;
        lemma_query_times_spread(poll, times, k);
        assert(poll.within_timeout(times[k]));
        let t = poll.timeout as int;
        let b = poll.backoff as int;
        assert(k * b <= t);
        assert(k <= t / b) by (nonlinear_arith)
            requires
                k * b <= t,
                b > 0,
                k >= 0,
        {
        }
    }
}

} // verus!
