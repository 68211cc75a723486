use crate::poll::duration_since;
use vstd::prelude::*;

verus! {

/// The retry budget of one packet relay: at most `max_attempts` attempts
/// (there is always a first one), at most `max_elapsed` milliseconds from
/// the start, and a sleep of `backoff` milliseconds between two attempts.
#[derive(Clone, Copy, Debug, PartialEq, Eq, Structural)]
pub struct RetryPolicy {
    pub max_attempts: u64,
    pub max_elapsed: u64,
    pub backoff: u64,
}

/// What the retry stage does with a failed attempt.
#[derive(Debug)]
pub enum RetryStep<E> {
    /// Sleep this many milliseconds, then make the next attempt.
    Retry(u64),
    /// The error denotes an expired or frozen client: it is returned as it is.
    Fatal(E),
    /// The budget is spent: the attempts made, the time since the start and
    /// the last error.
    Exhausted { tries: u64, elapsed: u64, last_error: E },
}

/// The kind of a `RetryStep`, without its payload.
#[derive(Clone, Copy, Debug, PartialEq, Eq, Structural)]
pub enum RetryStepKind {
    Retry,
    Fatal,
    Exhausted,
}

impl<E> RetryStep<E> {
    pub open spec fn kind(self) -> RetryStepKind {
        match self {
            RetryStep::Retry(_) => RetryStepKind::Retry,
            RetryStep::Fatal(_) => RetryStepKind::Fatal,
            RetryStep::Exhausted { .. } => RetryStepKind::Exhausted,
        }
    }
}

/// The retry state of one top-level relay invocation: its policy, the time
/// it started and the number of attempts that failed so far.
#[derive(Clone, Copy, Debug, PartialEq, Eq, Structural)]
pub struct RetryRelayer {
    pub policy: RetryPolicy,
    pub start: u64,
    pub attempts: u64,
}

impl RetryRelayer {
    /// A fresh state: no attempt made yet.
    pub fn new(policy: RetryPolicy, start: u64) -> (r: Self)
        ensures
            r == (RetryRelayer { policy, start, attempts: 0 }),
    {
        RetryRelayer { policy, start, attempts: 0 }
    }

    /// The budget is spent once `tries` attempts were made and `elapsed`
    /// milliseconds went by.
    pub open spec fn budget_spent(policy: RetryPolicy, tries: int, elapsed: nat) -> bool {
        tries >= policy.max_attempts || elapsed > policy.max_elapsed
    }

    /// The kind of step taken after an attempt that failed at `now`.
    pub open spec fn step_kind(self, fatal: bool, now: u64) -> RetryStepKind {
        if fatal {
            RetryStepKind::Fatal
        } else if Self::budget_spent(self.policy, self.attempts + 1, duration_since(self.start, now)) {
            RetryStepKind::Exhausted
        } else {
            RetryStepKind::Retry
        }
    }

    /// The state after an attempt that failed.
    pub open spec fn after_failure(self) -> RetryRelayer {
        RetryRelayer { attempts: (self.attempts + 1) as u64, ..self }
    }

    /// Records an attempt that failed at `now` with `error`; `fatal` tells
    /// whether the error denotes an expired or frozen client. A fatal error
    /// is handed back at once; else the attempt is counted, and either the
    /// budget is spent, or the caller sleeps the backoff and tries again.
    pub fn on_failure<E>(&mut self, error: E, fatal: bool, now: u64) -> (r: RetryStep<E>)
        requires
            old(self).attempts < u64::MAX,
        ensures
            *final(self) == old(self).after_failure(),
            r.kind() == old(self).step_kind(fatal, now),
            fatal ==> r == RetryStep::<E>::Fatal(error),
            r.kind() == RetryStepKind::Retry ==> r == RetryStep::<E>::Retry(old(self).policy.backoff),
            r.kind() == RetryStepKind::Exhausted ==> r == (RetryStep::<E>::Exhausted {
                tries: final(self).attempts,
                elapsed: duration_since(old(self).start, now) as u64,
                last_error: error,
            }),
    {
        self.attempts = self.attempts + 1;
        if fatal {
            return RetryStep::Fatal(error);
        }
        let elapsed: u64 = if now >= self.start {
            now - self.start
        } else {
            0
        };
        if self.attempts >= self.policy.max_attempts || elapsed > self.policy.max_elapsed {
            RetryStep::Exhausted { tries: self.attempts, elapsed, last_error: error }
        } else {
            RetryStep::Retry(self.policy.backoff)
        }
    }
}

/// Drives the retry stage over the failures of successive attempts, each a
/// pair of "is fatal" and the time it failed at, until a step other than a
/// retry: the number of attempts made and the kind of the final step. Runs
/// out of failures with `Retry` where every attempt was retried.
pub open spec fn retry_run(state: RetryRelayer, failures: Seq<(bool, u64)>) -> (nat, RetryStepKind)
    decreases failures.len(),
{
    if failures.len() == 0 {
        (0, RetryStepKind::Retry)
    } else {
        let kind = state.step_kind(failures[0].0, failures[0].1);
        if kind == RetryStepKind::Retry {
            let rest = retry_run(state.after_failure(), failures.drop_first());
            (rest.0 + 1, rest.1)
        } else {
            (1, kind)
        }
    }
}

/// An attempt that fails with an expired or frozen client ends the relay:
/// from a fresh state exactly one attempt is made, and no sleep.
pub proof fn lemma_retry_fatal_short_circuit(policy: RetryPolicy, start: u64, failures: Seq<(bool, u64)>)
    requires
        failures.len() >= 1,
        failures[0].0,
    ensures
        retry_run(RetryRelayer { policy, start, attempts: 0 }, failures) == (1nat, RetryStepKind::Fatal),
{
}

proof fn lemma_retry_transient_run(state: RetryRelayer, failures: Seq<(bool, u64)>)
    requires
        state.attempts < state.policy.max_attempts,
        failures.len() >= state.policy.max_attempts - state.attempts,
        forall|i: int| 0 <= i < failures.len() ==> !(#[trigger] failures[i]).0
            && duration_since(state.start, failures[i].1) <= state.policy.max_elapsed,
    ensures
        retry_run(state, failures) == ((state.policy.max_attempts - state.attempts) as nat, RetryStepKind::Exhausted),
    decreases state.policy.max_attempts - state.attempts,
{
    assert(!failures[0].0 && duration_since(state.start, failures[0].1) <= state.policy.max_elapsed);
    if state.attempts + 1 < state.policy.max_attempts {
        let rest = failures.drop_first();
        assert forall|i: int| 0 <= i < rest.len() implies !(#[trigger] rest[i]).0
            && duration_since(state.start, rest[i].1) <= state.policy.max_elapsed by {
            assert(rest[i] == failures[i + 1]);
        }
        lemma_retry_transient_run(state.after_failure(), rest);
    }
}

/// With a budget of `max_attempts` attempts and failures that are all
/// transient and within the time budget, exactly `max_attempts` attempts are
/// made and the run ends exhausted.
pub proof fn lemma_retry_exhaustion(policy: RetryPolicy, start: u64, failures: Seq<(bool, u64)>)
    requires
        policy.max_attempts >= 1,
        failures.len() >= policy.max_attempts,
        forall|i: int| 0 <= i < failures.len() ==> !(#[trigger] failures[i]).0
            && duration_since(start, failures[i].1) <= policy.max_elapsed,
    ensures
        retry_run(RetryRelayer { policy, start, attempts: 0 }, failures) == (policy.max_attempts as nat, RetryStepKind::Exhausted),
{
    lemma_retry_transient_run(RetryRelayer { policy, start, attempts: 0 }, failures);
}

} // verus!
