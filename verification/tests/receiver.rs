use std::cell::Cell;

use pipeline_core::error::{AmqpError, AmqpErrorCondition, AmqpErrorKind, Error, ErrorKind};
use pipeline_core::http::Url;
use pipeline_core::receiver::{
    AmqpDelivery, AmqpReceiverOptions, AmqpSource, ReceiveEvent, ReceiverCreditMode,
    RecoverableConnection, RecoverableReceiver,
};
use pipeline_core::retry::RetryOptions;

fn test_receiver(max_attempts: u64) -> RecoverableReceiver {
    RecoverableReceiver::new(
        RecoverableConnection {
            retry_options: RetryOptions {
                max_attempts,
                base_delay_ms: 1,
                max_delay_ms: 2,
                max_total_delay_ms: 1_000_000,
            },
        },
        AmqpReceiverOptions { auto_accept: false },
        AmqpSource {
            address: "amqps://host/hub/ConsumerGroups/$Default/Partitions/0".to_string(),
        },
        Url::from_parts("amqps://host/hub".to_string(), String::new()),
        Some(5_000),
    )
}

fn dropped_connection_error() -> Error {
    Error::amqp(
        "connection dropped".to_string(),
        Some(AmqpError {
            kind: AmqpErrorKind::ConnectionDropped,
        }),
    )
}

#[test]
fn transient_protocol_failures_are_retried_to_the_budget() {
    let receiver = test_receiver(3);
    let calls = Cell::new(0u64);
    let outcome = receiver.receive_delivery(|_i: u64| {
        calls.set(calls.get() + 1);
        ReceiveEvent::Failed(dropped_connection_error())
    });
    assert_eq!(calls.get(), 3);
    let err = outcome.expect_err("every attempt fails");
    assert_eq!(err.kind, ErrorKind::Amqp);
}

#[test]
fn a_delivery_stops_the_retrying() {
    let receiver = test_receiver(5);
    let calls = Cell::new(0u64);
    let outcome = receiver.receive_delivery(|i: u64| {
        calls.set(calls.get() + 1);
        if i < 2 {
            ReceiveEvent::Failed(dropped_connection_error())
        } else {
            ReceiveEvent::Delivery(AmqpDelivery {
                payload: vec![1, 2, 3],
            })
        }
    });
    assert_eq!(calls.get(), 3);
    assert_eq!(outcome.expect("third attempt delivers").payload, vec![1, 2, 3]);
}

#[test]
fn an_unclassified_failure_is_terminal() {
    let receiver = test_receiver(5);
    let calls = Cell::new(0u64);

    // An unknown nested cause is terminal even though the category matches.
    let outcome = receiver.receive_delivery(|_i: u64| {
        calls.set(calls.get() + 1);
        ReceiveEvent::Failed(Error::amqp(
            "odd".to_string(),
            Some(AmqpError {
                kind: AmqpErrorKind::UnknownError,
            }),
        ))
    });
    assert_eq!(calls.get(), 1);
    assert!(outcome.is_err());

    // A missing nested cause is terminal.
    calls.set(0);
    let outcome = receiver.receive_delivery(|_i: u64| {
        calls.set(calls.get() + 1);
        ReceiveEvent::Failed(Error::amqp("bare".to_string(), None))
    });
    assert_eq!(calls.get(), 1);
    assert!(outcome.is_err());

    // A different top-level category is terminal.
    calls.set(0);
    let outcome = receiver.receive_delivery(|_i: u64| {
        calls.set(calls.get() + 1);
        ReceiveEvent::Failed(Error::credential("nope".to_string()))
    });
    assert_eq!(calls.get(), 1);
    assert!(outcome.is_err());
}

#[test]
fn a_deadline_is_surfaced_as_a_timed_out_io_error() {
    let receiver = test_receiver(4);
    let calls = Cell::new(0u64);
    let outcome = receiver.receive_delivery(|_i: u64| {
        calls.set(calls.get() + 1);
        ReceiveEvent::TimedOut
    });
    // The synthesized deadline error is not protocol-transient, so one
    // attempt suffices.
    assert_eq!(calls.get(), 1);
    let err = outcome.expect_err("the deadline won the race");
    assert_eq!(err.kind, ErrorKind::Io);
    assert!(err.timed_out);
}

#[test]
fn classification_of_nested_protocol_causes() {
    let retryable = [
        AmqpErrorKind::ConnectionDropped,
        AmqpErrorKind::LinkStateError,
        AmqpErrorKind::TransportImplementationError,
        AmqpErrorKind::ManagementStatusCode(503),
        AmqpErrorKind::ManagementStatusCode(408),
        AmqpErrorKind::ManagementStatusCode(429),
        AmqpErrorKind::DescribedError(AmqpErrorCondition::ConnectionForced),
        AmqpErrorKind::DescribedError(AmqpErrorCondition::ResourceLimitExceeded),
    ];
    for kind in retryable {
        let e = Error::amqp("e".to_string(), Some(AmqpError { kind }));
        assert!(RecoverableReceiver::should_retry_receive_operation(&e));
    }
    let terminal = [
        AmqpErrorKind::UnknownError,
        AmqpErrorKind::ManagementStatusCode(404),
        AmqpErrorKind::DescribedError(AmqpErrorCondition::NotAllowed),
        AmqpErrorKind::DescribedError(AmqpErrorCondition::DecodeError),
    ];
    for kind in terminal {
        let e = Error::amqp("e".to_string(), Some(AmqpError { kind }));
        assert!(!RecoverableReceiver::should_retry_receive_operation(&e));
    }
    assert!(!RecoverableReceiver::should_retry_receive_operation(
        &Error::amqp("e".to_string(), None)
    ));
    assert!(!RecoverableReceiver::should_retry_receive_operation(
        &Error::deadline("e".to_string())
    ));
}

#[test]
fn unsupported_operations_fail_fast() {
    let receiver = test_receiver(1);
    let delivery = AmqpDelivery { payload: vec![] };
    assert_eq!(
        receiver.attach().expect_err("unsupported").kind,
        ErrorKind::Unsupported
    );
    assert_eq!(
        receiver
            .set_credit_mode(ReceiverCreditMode::Auto)
            .expect_err("unsupported")
            .kind,
        ErrorKind::Unsupported
    );
    assert_eq!(
        receiver.credit_mode().expect_err("unsupported").kind,
        ErrorKind::Unsupported
    );
    assert_eq!(
        receiver
            .accept_delivery(&delivery)
            .expect_err("unsupported")
            .kind,
        ErrorKind::Unsupported
    );
    assert_eq!(
        receiver
            .reject_delivery(&delivery)
            .expect_err("unsupported")
            .kind,
        ErrorKind::Unsupported
    );
    assert_eq!(
        receiver
            .release_delivery(&delivery)
            .expect_err("unsupported")
            .kind,
        ErrorKind::Unsupported
    );
    assert_eq!(
        receiver.detach().expect_err("unsupported").kind,
        ErrorKind::Unsupported
    );
}
