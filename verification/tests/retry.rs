use std::cell::Cell;

use pipeline_core::error::{should_retry_http_error, Error, ErrorKind};
use pipeline_core::retry::{
    backoff_delay_ms, never_retryable, retry_operation, retry_operation_counted, RetryOptions,
};

fn quick_options(max_attempts: u64) -> RetryOptions {
    RetryOptions {
        max_attempts,
        base_delay_ms: 1,
        max_delay_ms: 8,
        max_total_delay_ms: 1_000_000,
    }
}

#[test]
fn always_retryable_error_exhausts_the_attempt_budget() {
    let calls = Cell::new(0u64);
    let options = quick_options(4);
    let (outcome, attempts) = retry_operation_counted(
        |i: u64| -> Result<u32, Error> {
            calls.set(calls.get() + 1);
            Err(Error::message_error(
                ErrorKind::Other,
                format!("attempt {}", i),
            ))
        },
        &options,
        |_e: &Error| true,
    );
    assert_eq!(attempts, 4);
    assert_eq!(calls.get(), 4);
    let err = outcome.expect_err("every attempt fails");
    assert_eq!(err.message, "attempt 3");
}

#[test]
fn non_retryable_error_is_attempted_exactly_once() {
    let calls = Cell::new(0u64);
    let options = quick_options(5);
    let (outcome, attempts) = retry_operation_counted(
        |_i: u64| -> Result<u32, Error> {
            calls.set(calls.get() + 1);
            Err(Error::credential("terminal".to_string()))
        },
        &options,
        |_e: &Error| false,
    );
    assert_eq!(attempts, 1);
    assert_eq!(calls.get(), 1);
    assert!(outcome.is_err());
}

#[test]
fn default_classification_never_retries() {
    let calls = Cell::new(0u64);
    let options = quick_options(5);
    let (outcome, attempts) = retry_operation_counted(
        |_i: u64| -> Result<u32, Error> {
            calls.set(calls.get() + 1);
            Err(Error::message_error(ErrorKind::Io, "flaky".to_string()))
        },
        &options,
        never_retryable,
    );
    assert_eq!(attempts, 1);
    assert_eq!(calls.get(), 1);
    assert!(outcome.is_err());
}

#[test]
fn success_on_a_later_attempt_stops_retrying() {
    let calls = Cell::new(0u64);
    let options = quick_options(5);
    let (outcome, attempts) = retry_operation_counted(
        |i: u64| -> Result<u64, Error> {
            calls.set(calls.get() + 1);
            if i < 2 {
                Err(Error::message_error(ErrorKind::Io, "flaky".to_string()))
            } else {
                Ok(40 + i)
            }
        },
        &options,
        should_retry_http_error,
    );
    assert_eq!(attempts, 3);
    assert_eq!(calls.get(), 3);
    assert_eq!(outcome.expect("third attempt succeeds"), 42);
}

#[test]
fn the_total_delay_budget_cuts_retries_short() {
    let calls = Cell::new(0u64);
    let options = RetryOptions {
        max_attempts: 10,
        base_delay_ms: 100,
        max_delay_ms: 1000,
        max_total_delay_ms: 250,
    };
    // delays prescribed: 100, 200, ... the second delay would push the
    // total to 300 > 250, so the engine stops after the second attempt.
    let (outcome, attempts) = retry_operation_counted(
        |_i: u64| -> Result<u32, Error> {
            calls.set(calls.get() + 1);
            Err(Error::message_error(ErrorKind::Io, "flaky".to_string()))
        },
        &options,
        |_e: &Error| true,
    );
    assert_eq!(attempts, 2);
    assert!(outcome.is_err());
}

#[test]
fn retry_operation_returns_the_last_outcome() {
    let options = quick_options(3);
    let outcome: Result<u32, Error> = retry_operation(
        |_i: u64| Err(Error::message_error(ErrorKind::Io, "down".to_string())),
        &options,
        |_e: &Error| true,
    );
    let err = outcome.expect_err("every attempt fails");
    assert_eq!(err.kind, ErrorKind::Io);

    let options = quick_options(3);
    let outcome: Result<u32, Error> = retry_operation(|_i: u64| Ok(7), &options, never_retryable);
    assert_eq!(outcome.expect("first attempt succeeds"), 7);
}

#[test]
fn backoff_doubles_from_the_base_and_is_capped() {
    let options = RetryOptions {
        max_attempts: 10,
        base_delay_ms: 800,
        max_delay_ms: 5000,
        max_total_delay_ms: 1_000_000,
    };
    assert_eq!(backoff_delay_ms(0, &options), 800);
    assert_eq!(backoff_delay_ms(1, &options), 1600);
    assert_eq!(backoff_delay_ms(2, &options), 3200);
    assert_eq!(backoff_delay_ms(3, &options), 5000);
    assert_eq!(backoff_delay_ms(60, &options), 5000);
}

#[test]
fn default_retry_options_match_the_documented_budget() {
    let options = RetryOptions::default();
    assert_eq!(options.max_attempts, 3);
    assert_eq!(options.base_delay_ms, 800);
    assert_eq!(options.max_delay_ms, 60000);
    assert_eq!(options.max_total_delay_ms, 120000);
}
