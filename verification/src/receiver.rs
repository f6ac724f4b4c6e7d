//! The recoverable receiver: the retry engine applied to a stateful
//! protocol session instead of a stateless call.
//!
//! Each physical attempt re-establishes the underlying session as a side
//! effect of the retried closure — the closure, not the engine, owns
//! recovery — so the decision logic here works on the event each attempt
//! reports back: a delivery, a failure, or a locally synthesized deadline.
//! The receiver is receive-only: every other protocol operation fails fast
//! and loudly instead of silently doing nothing.

use vstd::prelude::*;
use crate::error::{receive_error_is_retryable, Error, ErrorKind};
use crate::http::Url;
use crate::retry::backoff_delay_ms;
use crate::retry::RetryOptions;

verus! {

/// A delivery handed up by the protocol: the model keeps its payload.
#[derive(Debug)]
pub struct AmqpDelivery {
    /// The delivery payload.
    pub payload: Vec<u8>,
}

/// The source address a receiver attaches to.
#[derive(Debug)]
pub struct AmqpSource {
    /// The source address.
    pub address: String,
}

/// Receiver configuration.
#[derive(Debug)]
pub struct AmqpReceiverOptions {
    /// Whether deliveries are accepted automatically on receipt.
    pub auto_accept: bool,
}

/// How receive credit is issued to the peer.
#[derive(Clone, Copy, Debug, PartialEq, Eq, Structural)]
pub enum ReceiverCreditMode {
    /// Credit is replenished automatically.
    Auto,
    /// Credit is issued manually by the caller.
    Manual,
}

/// The shared connection manager the receiver recovers through; it owns
/// the retry budget every receive operation runs under.
#[derive(Debug)]
pub struct RecoverableConnection {
    /// The retry budget for operations on this connection.
    pub retry_options: RetryOptions,
}

/// What one physical receive attempt reported back.  The attempt has
/// already raced the protocol operation against the configured deadline:
/// whichever completed first determined the event.
#[derive(Debug)]
pub enum ReceiveEvent {
    /// The protocol operation completed with a delivery.
    Delivery(AmqpDelivery),
    /// The protocol operation completed with a failure.
    Failed(Error),
    /// The deadline won the race; the operation's own result is abandoned.
    TimedOut,
}

/// Maps one attempt's event to the attempt's outcome.  A deadline becomes
/// the distinct, locally synthesized I/O "timed out" error, which the
/// receive classification then treats like any other failure shape.
pub fn resolve_receive_event(event: ReceiveEvent) -> (r: Result<AmqpDelivery, Error>)
    ensures
        event matches ReceiveEvent::Delivery(d) ==> (r is Ok && r->Ok_0 == d),
        event matches ReceiveEvent::Failed(e) ==> (r is Err && r->Err_0 == e),
        event is TimedOut ==> (r is Err && r->Err_0.kind == ErrorKind::Io && r->Err_0.timed_out
            && !receive_error_is_retryable(r->Err_0)),
{
    match event {
        ReceiveEvent::Delivery(d) => Ok(d),
        ReceiveEvent::Failed(e) => Err(e),
        ReceiveEvent::TimedOut => Err(Error::deadline("receive operation timed out".to_owned())),
    }
}

/// A receive-only adapter over a recoverable connection.
#[derive(Debug)]
pub struct RecoverableReceiver {
    /// The connection manager attempts recover through.
    pub recoverable_connection: RecoverableConnection,
    /// The URL of the source being received from.
    pub source_url: Url,
    /// The message source attached on each recovery.
    pub message_source: AmqpSource,
    /// The options each recovered receiver is attached with.
    pub receiver_options: AmqpReceiverOptions,
    /// The receive deadline, in milliseconds, if one is configured.
    pub timeout: Option<u64>,
}

impl RecoverableReceiver {
    /// A receiver over a connection, a source, and an optional deadline.
    pub fn new(
        recoverable_connection: RecoverableConnection,
        receiver_options: AmqpReceiverOptions,
        message_source: AmqpSource,
        source_url: Url,
        timeout: Option<u64>,
    ) -> (r: RecoverableReceiver)
        ensures
            r.recoverable_connection == recoverable_connection,
            r.receiver_options == receiver_options,
            r.message_source.address@ == message_source.address@,
            r.source_url.base@ == source_url.base@,
            r.source_url.query@ == source_url.query@,
            r.timeout == timeout,
    {
        RecoverableReceiver {
            source_url,
            recoverable_connection,
            receiver_options,
            message_source,
            timeout,
        }
    }

    /// Decides whether a failed receive is worth a fresh attempt: only a
    /// protocol-transport failure whose nested cause decodes to a known
    /// transient fault; any other shape — unknown cause, different
    /// top-level category, missing cause — is terminal.
    pub fn should_retry_receive_operation(e: &Error) -> (r: bool)
        ensures
            r == receive_error_is_retryable(*e),
    {
        match e.kind {
            ErrorKind::Amqp => {
                match &e.source {
                    Some(amqp_error) => crate::error::should_retry_amqp_error(amqp_error),
                    None => false,
                }
            },
            _ => false,
        }
    }

    /// Receives one delivery, re-attempting on transient protocol
    /// failures within the connection's retry budget.  Each attempt's
    /// outside work — recovering the session and racing the protocol
    /// receive against the deadline — is the supplied closure's; this
    /// driver owns the decisions.  The outcome is the last attempt's,
    /// verbatim: a delivery some attempt produced, a failure some attempt
    /// reported, or the synthesized deadline error.
    pub fn receive_delivery<F: Fn(u64) -> ReceiveEvent>(&self, attempts: F) -> (r: Result<
        AmqpDelivery,
        Error,
    >)
        requires
            self.recoverable_connection.retry_options.max_attempts >= 1,
            forall|i: u64| #[trigger] call_requires(attempts, (i,)),
        ensures
            r is Ok ==> exists|i: u64|
                i < self.recoverable_connection.retry_options.max_attempts && #[trigger]
                call_ensures(attempts, (i,), ReceiveEvent::Delivery(r->Ok_0)),
            r is Err ==> exists|i: u64|
                #![trigger call_ensures(attempts, (i,), ReceiveEvent::Failed(r->Err_0))]
                #![trigger call_ensures(attempts, (i,), ReceiveEvent::TimedOut)]
                i < self.recoverable_connection.retry_options.max_attempts && (call_ensures(
                    attempts,
                    (i,),
                    ReceiveEvent::Failed(r->Err_0),
                ) || (call_ensures(attempts, (i,), ReceiveEvent::TimedOut) && r->Err_0.kind
                    == ErrorKind::Io && r->Err_0.timed_out)),
    {
        let options = &self.recoverable_connection.retry_options;
        let mut attempt: u64 = 0;
        let mut accumulated: u64 = 0;
        loop
            invariant
                options == self.recoverable_connection.retry_options,
                options.max_attempts >= 1,
                attempt < options.max_attempts,
                accumulated <= options.max_total_delay_ms,
                forall|i: u64| #[trigger] call_requires(attempts, (i,)),
            decreases options.max_attempts - attempt,
        {
            let event = attempts(attempt);
            let ghost gev = event;
            let ghost gi = attempt;
            let res = resolve_receive_event(event);
            attempt = attempt + 1;
            match res {
                Ok(d) => {
                    return Ok(d);
                },
                Err(e) => {
                    proof {
                        if gev is TimedOut {
                            assert(gev == ReceiveEvent::TimedOut);
                            assert(call_ensures(attempts, (gi,), ReceiveEvent::TimedOut));
                        }
                        if gev is Failed {
                            assert(gev == ReceiveEvent::Failed(e));
                            assert(call_ensures(attempts, (gi,), ReceiveEvent::Failed(e)));
                        }
                    }
                    if attempt == options.max_attempts {
                        return Err(e);
                    }
                    let retry = Self::should_retry_receive_operation(&e);
                    if !retry {
                        return Err(e);
                    }
                    let delay = backoff_delay_ms(attempt - 1, options);
                    if delay > options.max_total_delay_ms - accumulated {
                        return Err(e);
                    }
                    accumulated = accumulated + delay;
                },
            }
        }
    }

    /// The receive-only adapter does not support attaching by hand.
    pub fn attach(&self) -> (r: Result<(), Error>)
        ensures
            r is Err && r->Err_0.kind == ErrorKind::Unsupported,
    {
        Err(Error::unsupported("receiver does not support the attach operation".to_owned()))
    }

    /// The receive-only adapter does not support detaching by hand.
    pub fn detach(self) -> (r: Result<(), Error>)
        ensures
            r is Err && r->Err_0.kind == ErrorKind::Unsupported,
    {
        Err(Error::unsupported("receiver does not support the detach operation".to_owned()))
    }

    /// The receive-only adapter does not support changing credit mode.
    pub fn set_credit_mode(&self, _mode: ReceiverCreditMode) -> (r: Result<(), Error>)
        ensures
            r is Err && r->Err_0.kind == ErrorKind::Unsupported,
    {
        Err(
            Error::unsupported(
                "receiver does not support the set_credit_mode operation".to_owned(),
            ),
        )
    }

    /// The receive-only adapter does not support reading credit mode.
    pub fn credit_mode(&self) -> (r: Result<ReceiverCreditMode, Error>)
        ensures
            r is Err && r->Err_0.kind == ErrorKind::Unsupported,
    {
        Err(Error::unsupported("receiver does not support the credit_mode operation".to_owned()))
    }

    /// The receive-only adapter does not support accepting deliveries.
    pub fn accept_delivery(&self, _delivery: &AmqpDelivery) -> (r: Result<(), Error>)
        ensures
            r is Err && r->Err_0.kind == ErrorKind::Unsupported,
    {
        Err(
            Error::unsupported(
                "receiver does not support the accept_delivery operation".to_owned(),
            ),
        )
    }

    /// The receive-only adapter does not support rejecting deliveries.
    pub fn reject_delivery(&self, _delivery: &AmqpDelivery) -> (r: Result<(), Error>)
        ensures
            r is Err && r->Err_0.kind == ErrorKind::Unsupported,
    {
        Err(
            Error::unsupported(
                "receiver does not support the reject_delivery operation".to_owned(),
            ),
        )
    }

    /// The receive-only adapter does not support releasing deliveries.
    pub fn release_delivery(&self, _delivery: &AmqpDelivery) -> (r: Result<(), Error>)
        ensures
            r is Err && r->Err_0.kind == ErrorKind::Unsupported,
    {
        Err(
            Error::unsupported(
                "receiver does not support the release_delivery operation".to_owned(),
            ),
        )
    }
}

} // verus!
