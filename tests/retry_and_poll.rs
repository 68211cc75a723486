use packet_relay::channel_error::{ChannelError, ChannelErrorDetail, ForeignClientError};
use packet_relay::poll::{HasPollTimeout, PollStep, PollTxResponse};
use packet_relay::retry::{RetryPolicy, RetryRelayer, RetryStep};

fn expired() -> ChannelError {
    ChannelError::new(ChannelErrorDetail::ClientOperation {
        client_id: "07-tendermint-0".to_string(),
        chain_id: "chain-a".to_string(),
        source: ForeignClientError::ExpiredOrFrozen {
            client_id: "07-tendermint-0".to_string(),
            chain_id: "chain-a".to_string(),
            description: "expired".to_string(),
        },
    })
}

fn transient() -> ChannelError {
    ChannelError::new(ChannelErrorDetail::Query { chain_id: "chain-b".to_string() })
}

#[test]
fn expired_or_frozen_detection() {
    assert!(expired().is_expired_or_frozen_error());
    assert!(!transient().is_expired_or_frozen_error());
    let update_failed = ChannelError::new(ChannelErrorDetail::ClientOperation {
        client_id: "c".to_string(),
        chain_id: "x".to_string(),
        source: ForeignClientError::ClientUpdate { chain_id: "x".to_string(), description: "d".to_string() },
    });
    assert!(!update_failed.is_expired_or_frozen_error());
}

#[test]
fn retry_fatal_short_circuit() {
    let policy = RetryPolicy { max_attempts: 5, max_elapsed: 60_000, backoff: 100 };
    let mut retry = RetryRelayer::new(policy, 0);
    let err = expired();
    let fatal = err.is_expired_or_frozen_error();
    match retry.on_failure(err, fatal, 10) {
        RetryStep::Fatal(e) => assert!(e.is_expired_or_frozen_error()),
        other => panic!("expected a fatal step, got {:?}", other),
    }
    assert_eq!(retry.attempts, 1);
}

#[test]
fn retry_exhaustion_after_three_attempts() {
    let policy = RetryPolicy { max_attempts: 3, max_elapsed: 60_000, backoff: 100 };
    let mut retry = RetryRelayer::new(policy, 1_000);
    let mut sleeps = 0;
    let mut attempts = 0;
    let mut now = 1_000;
    let outcome = loop {
        attempts += 1;
        let err = transient();
        let fatal = err.is_expired_or_frozen_error();
        match retry.on_failure(err, fatal, now) {
            RetryStep::Retry(d) => {
                sleeps += 1;
                now += d;
            }
            other => break other,
        }
    };
    assert_eq!(attempts, 3);
    assert_eq!(sleeps, 2);
    match outcome {
        RetryStep::Exhausted { tries, elapsed, last_error } => {
            assert_eq!(tries, 3);
            assert_eq!(elapsed, 200);
            assert!(matches!(last_error.detail, ChannelErrorDetail::Query { .. }));
            let e = ChannelError::max_retry(format!("{:?}", last_error.detail), tries, elapsed);
            assert!(matches!(e.detail, ChannelErrorDetail::MaxRetry { tries: 3, total_delay: 200, .. }));
        }
        other => panic!("expected exhaustion, got {:?}", other),
    }
}

#[test]
fn retry_exhaustion_by_elapsed_time() {
    let policy = RetryPolicy { max_attempts: 10, max_elapsed: 500, backoff: 100 };
    let mut retry = RetryRelayer::new(policy, 0);
    assert!(matches!(retry.on_failure(1u8, false, 500), RetryStep::Retry(100)));
    assert!(matches!(retry.on_failure(2u8, false, 501), RetryStep::Exhausted { tries: 2, elapsed: 501, last_error: 2 }));
}

#[test]
fn retry_with_zero_attempts_still_makes_one() {
    let policy = RetryPolicy { max_attempts: 0, max_elapsed: 500, backoff: 100 };
    let mut retry = RetryRelayer::new(policy, 0);
    assert!(matches!(retry.on_failure(7u8, false, 0), RetryStep::Exhausted { tries: 1, elapsed: 0, last_error: 7 }));
}

#[test]
fn poll_timeout_with_simulated_clock() {
    let poll = PollTxResponse::new(2_000, 500, 0);
    assert_eq!(poll.poll_timeout(), 2_000);
    assert_eq!(poll.poll_backoff(), 500);
    let mut now = 0u64;
    let mut queries = 0u64;
    let outcome: PollStep<u32, String> = loop {
        queries += 1;
        now += 10; // each query takes a little time
        match poll.poll_tx_response(now, Ok(None)) {
            PollStep::Sleep(d) => now += d,
            other => break other,
        }
    };
    assert!(matches!(outcome, PollStep::NoResponse));
    assert!(now >= 2_000);
    assert!(queries >= 2);
    assert!(queries <= 2_000 / 500 + 2);
}

#[test]
fn poll_boundary_is_strict() {
    let poll = PollTxResponse::new(2_000, 500, 100);
    assert!(matches!(poll.poll_tx_response::<u32, String>(2_100, Ok(None)), PollStep::Sleep(500)));
    assert!(matches!(poll.poll_tx_response::<u32, String>(2_101, Ok(None)), PollStep::NoResponse));
    assert!(matches!(poll.poll_tx_response::<u32, String>(50, Ok(None)), PollStep::Sleep(500)));
}

#[test]
fn poll_query_errors_are_retried_until_timeout() {
    let poll = PollTxResponse::new(1_000, 200, 0);
    let early: PollStep<u32, String> = poll.poll_tx_response(300, Err("unreachable".to_string()));
    assert!(matches!(early, PollStep::Sleep(200)));
    let late: PollStep<u32, String> = poll.poll_tx_response(1_500, Err("unreachable".to_string()));
    match late {
        PollStep::Failed(e) => assert_eq!(e, "unreachable"),
        other => panic!("expected the query error, got {:?}", other),
    }
    let recovered: PollStep<u32, String> = poll.poll_tx_response(900, Ok(Some(42)));
    assert!(matches!(recovered, PollStep::Confirmed(42)));
    let after_timeout: PollStep<u32, String> = poll.poll_tx_response(5_000, Ok(Some(43)));
    assert!(matches!(after_timeout, PollStep::Confirmed(43)));
}
