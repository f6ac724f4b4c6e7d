//! The retry engine: a generic wrapper that re-invokes a fallible operation
//! while a pluggable predicate classifies the failure as transient and the
//! attempt budget (attempt count and total prescribed backoff) is not
//! exhausted.
//!
//! The engine is a higher-order function over the operation and the
//! predicate, so the same engine re-drives the remainder of an HTTP policy
//! chain and re-attempts a stateful protocol receive.  The engine never
//! swallows a terminal error: the error returned is the one from the last
//! attempt, verbatim.

use vstd::prelude::*;
use crate::error::Error;

verus! {

/// Default attempt budget.
pub const DEFAULT_MAX_ATTEMPTS: u64 = 3;

/// Default first backoff delay, in milliseconds.
pub const DEFAULT_BASE_DELAY_MS: u64 = 800;

/// Default cap on a single backoff delay, in milliseconds.
pub const DEFAULT_MAX_DELAY_MS: u64 = 60000;

/// Default cap on the total prescribed backoff, in milliseconds.
pub const DEFAULT_MAX_TOTAL_DELAY_MS: u64 = 120000;

/// The retry budget and backoff parameters.
#[derive(Clone, Copy, Debug, PartialEq, Eq, Structural)]
pub struct RetryOptions {
    /// How many attempts are made in all, first attempt included.
    pub max_attempts: u64,
    /// The backoff prescribed after the first failed attempt, in
    /// milliseconds; later delays double it up to `max_delay_ms`.
    pub base_delay_ms: u64,
    /// The cap on any single backoff delay, in milliseconds.
    pub max_delay_ms: u64,
    /// The cap on the total backoff prescribed across one operation, in
    /// milliseconds; when the next delay would exceed it, the engine gives
    /// up instead.
    pub max_total_delay_ms: u64,
}

impl Default for RetryOptions {
    /// The documented default budget.
    fn default() -> (r: RetryOptions)
        ensures
            r.max_attempts == DEFAULT_MAX_ATTEMPTS,
            r.base_delay_ms == DEFAULT_BASE_DELAY_MS,
            r.max_delay_ms == DEFAULT_MAX_DELAY_MS,
            r.max_total_delay_ms == DEFAULT_MAX_TOTAL_DELAY_MS,
    {
        RetryOptions {
            max_attempts: DEFAULT_MAX_ATTEMPTS,
            base_delay_ms: DEFAULT_BASE_DELAY_MS,
            max_delay_ms: DEFAULT_MAX_DELAY_MS,
            max_total_delay_ms: DEFAULT_MAX_TOTAL_DELAY_MS,
        }
    }
}

/// Two to the `k`.
pub open spec fn pow2(k: nat) -> nat
    decreases k,
{
    if k == 0 {
        1
    } else {
        2 * pow2((k - 1) as nat)
    }
}

/// The smaller of two naturals.
pub open spec fn min_nat(a: nat, b: nat) -> nat {
    if a <= b {
        a
    } else {
        b
    }
}

/// The backoff prescribed after the attempt with the given zero-based
/// index: exponential in the index, capped by `max_delay_ms`; the exponent
/// itself saturates so the spec stays finite.
pub open spec fn backoff_delay(attempt: nat, o: RetryOptions) -> nat {
    min_nat(o.max_delay_ms as nat, o.base_delay_ms as nat * pow2(min_nat(attempt, 30)))
}

/// The total backoff prescribed after the first `k` failed attempts.
pub open spec fn total_backoff(k: nat, o: RetryOptions) -> nat
    decreases k,
{
    if k == 0 {
        0
    } else {
        total_backoff((k - 1) as nat, o) + backoff_delay((k - 1) as nat, o)
    }
}

/// The total prescribed backoff only grows with the attempt count.
pub proof fn lemma_total_backoff_monotone(j: nat, k: nat, o: RetryOptions)
    requires
        j <= k,
    ensures
        total_backoff(j, o) <= total_backoff(k, o),
    decreases k,
{
    if j < k {
        lemma_total_backoff_monotone(j, (k - 1) as nat, o);
    }
}

/// Computes the backoff prescribed after an attempt: doubling from the base
/// delay, capped by the configured maximum.
pub fn backoff_delay_ms(attempt: u64, options: &RetryOptions) -> (r: u64)
    ensures
        r as nat == backoff_delay(attempt as nat, *options),
{
    let exp: u64 = if attempt > 30 {
        30
    } else {
        attempt
    };
    let mut d: u64 = if options.base_delay_ms > options.max_delay_ms {
        options.max_delay_ms
    } else {
        options.base_delay_ms
    };
    let mut k: u64 = 0;
    proof {
        assert(pow2(0) == 1);
        assert(options.base_delay_ms as nat * 1 == options.base_delay_ms as nat);
    }
    while k < exp
        invariant
            k <= exp,
            exp <= 30,
            d as nat == min_nat(
                options.max_delay_ms as nat,
                options.base_delay_ms as nat * pow2(k as nat),
            ),
        decreases exp - k,
    {
        proof {
            let m = options.max_delay_ms as nat;
            let x = options.base_delay_ms as nat;
            let p = pow2(k as nat);
            assert(pow2((k + 1) as nat) == 2 * p);
            assert(x * (2 * p) == 2 * (x * p)) by (nonlinear_arith);
        }
        if d > options.max_delay_ms / 2 {
            d = options.max_delay_ms;
        } else {
            d = d * 2;
        }
        k += 1;
    }
    d
}

/// The engine's generic driver, also reporting how many attempts it made.
///
/// The operation is handed the zero-based attempt index and is invoked at
/// least once.  After a failure the predicate is consulted; only while it
/// classifies the failure as transient, more attempts remain in the budget,
/// and the next prescribed backoff still fits the total-delay budget is the
/// operation re-invoked.  The result — and in particular the terminal
/// error — is the one from the last attempt, verbatim.
///
/// Two bounded-retry laws are part of the contract: when the predicate
/// rejects every failure, exactly one attempt is made; and when every
/// outcome of the operation is a failure, every failure is classified as
/// transient, and the total-delay budget does not bind, exactly
/// `max_attempts` attempts are made and the failure of the last one is
/// returned.
pub fn retry_operation_counted<T, F: Fn(u64) -> Result<T, Error>, P: Fn(&Error) -> bool>(
    operation: F,
    options: &RetryOptions,
    is_retryable: P,
) -> (r: (Result<T, Error>, u64))
    requires
        options.max_attempts >= 1,
        forall|i: u64| #[trigger] call_requires(operation, (i,)),
        forall|e: &Error| #[trigger] call_requires(is_retryable, (e,)),
    ensures
        1 <= r.1 <= options.max_attempts,
        r.0 matches Ok(v) ==> call_ensures(operation, ((r.1 - 1) as u64,), Ok(v)),
        r.0 matches Err(e) ==> call_ensures(operation, ((r.1 - 1) as u64,), Err(e)),
        (forall|e: &Error, b: bool| #[trigger] call_ensures(is_retryable, (e,), b) ==> !b) ==> r.1
            == 1,
        ((forall|i: u64, res: Result<T, Error>| #[trigger] call_ensures(operation, (i,), res)
            ==> res is Err) && (forall|e: &Error, b: bool|
            #[trigger] call_ensures(is_retryable, (e,), b) ==> b) && total_backoff(
            (options.max_attempts - 1) as nat,
            *options,
        ) <= options.max_total_delay_ms) ==> (r.1 == options.max_attempts && r.0 is Err),
{
    let ghost never = forall|e: &Error, b: bool| #[trigger] call_ensures(is_retryable, (e,), b)
        ==> !b;
    let ghost always_err = forall|i: u64, res: Result<T, Error>|
        #[trigger] call_ensures(operation, (i,), res) ==> res is Err;
    let ghost always_retry = forall|e: &Error, b: bool|
        #[trigger] call_ensures(is_retryable, (e,), b) ==> b;
    let ghost budget_slack = total_backoff((options.max_attempts - 1) as nat, *options)
        <= options.max_total_delay_ms;
    let mut attempt: u64 = 0;
    let mut accumulated: u64 = 0;
    loop
        invariant
            options.max_attempts >= 1,
            forall|i: u64| #[trigger] call_requires(operation, (i,)),
            forall|e: &Error| #[trigger] call_requires(is_retryable, (e,)),
            attempt < options.max_attempts,
            accumulated <= options.max_total_delay_ms,
            accumulated as nat == total_backoff(attempt as nat, *options),
            never == (forall|e: &Error, b: bool| #[trigger] call_ensures(is_retryable, (e,), b)
                ==> !b),
            always_err == (forall|i: u64, res: Result<T, Error>|
                #[trigger] call_ensures(operation, (i,), res) ==> res is Err),
            always_retry == (forall|e: &Error, b: bool|
                #[trigger] call_ensures(is_retryable, (e,), b) ==> b),
            budget_slack == (total_backoff((options.max_attempts - 1) as nat, *options)
                <= options.max_total_delay_ms),
            never ==> attempt == 0,
        decreases options.max_attempts - attempt,
    {
        let res = operation(attempt);
        attempt = attempt + 1;
        match res {
            Ok(v) => {
                return (Ok(v), attempt);
            },
            Err(e) => {
                if attempt == options.max_attempts {
                    return (Err(e), attempt);
                }
                let retry = is_retryable(&e);
                if !retry {
                    return (Err(e), attempt);
                }
                let delay = backoff_delay_ms(attempt - 1, options);
                if delay > options.max_total_delay_ms - accumulated {
                    proof {
                        if always_err && always_retry && budget_slack {
                            lemma_total_backoff_monotone(
                                attempt as nat,
                                (options.max_attempts - 1) as nat,
                                *options,
                            );
                        }
                    }
                    return (Err(e), attempt);
                }
                accumulated = accumulated + delay;
            },
        }
    }
}

/// The engine as the callers use it: re-invokes the operation while the
/// predicate classifies the failure as transient and the budget is not
/// exhausted, and returns the last outcome.
pub fn retry_operation<T, F: Fn(u64) -> Result<T, Error>, P: Fn(&Error) -> bool>(
    operation: F,
    options: &RetryOptions,
    is_retryable: P,
) -> (r: Result<T, Error>)
    requires
        options.max_attempts >= 1,
        forall|i: u64| #[trigger] call_requires(operation, (i,)),
        forall|e: &Error| #[trigger] call_requires(is_retryable, (e,)),
    ensures
        r matches Ok(v) ==> exists|i: u64|
            i < options.max_attempts && #[trigger] call_ensures(operation, (i,), Ok(v)),
        r matches Err(e) ==> exists|i: u64|
            i < options.max_attempts && #[trigger] call_ensures(operation, (i,), Err(e)),
{
    let (outcome, count) = retry_operation_counted(operation, options, is_retryable);
    proof {
        let i: u64 = (count - 1) as u64;
        assert(outcome matches Ok(v) ==> i < options.max_attempts && call_ensures(
            operation,
            (i,),
            Ok(v),
        ));
        assert(outcome matches Err(e) ==> i < options.max_attempts && call_ensures(
            operation,
            (i,),
            Err(e),
        ));
    }
    outcome
}

/// The default classification when no predicate is supplied: nothing is
/// retried.
pub fn never_retryable(e: &Error) -> (r: bool)
    ensures
        !r,
{
    let _ = e;
    false
}

} // verus!
