use pipeline_core::error::{
    should_retry_amqp_error, should_retry_http_error, AmqpError, AmqpErrorCondition,
    AmqpErrorKind, Error, ErrorKind,
};
use pipeline_core::http::Headers;

#[test]
fn http_classification_retries_transport_and_transient_statuses() {
    assert!(should_retry_http_error(&Error::message_error(
        ErrorKind::Io,
        "socket closed".to_string()
    )));
    assert!(should_retry_http_error(&Error::deadline("late".to_string())));
    for status in [408u16, 429, 500, 502, 599] {
        assert!(should_retry_http_error(&Error::http_response(
            status,
            "transient".to_string()
        )));
    }
    for status in [200u16, 301, 400, 403, 404, 600] {
        assert!(!should_retry_http_error(&Error::http_response(
            status,
            "terminal".to_string()
        )));
    }
    assert!(!should_retry_http_error(&Error::credential(
        "terminal".to_string()
    )));
    assert!(!should_retry_http_error(&Error::amqp(
        "wrong domain".to_string(),
        Some(AmqpError {
            kind: AmqpErrorKind::ConnectionDropped
        })
    )));
}

#[test]
fn amqp_classification_follows_the_nested_cause() {
    assert!(should_retry_amqp_error(&AmqpError {
        kind: AmqpErrorKind::ManagementStatusCode(500)
    }));
    assert!(!should_retry_amqp_error(&AmqpError {
        kind: AmqpErrorKind::ManagementStatusCode(400)
    }));
    assert!(should_retry_amqp_error(&AmqpError {
        kind: AmqpErrorKind::DescribedError(AmqpErrorCondition::LinkDetachForced)
    }));
    assert!(!should_retry_amqp_error(&AmqpError {
        kind: AmqpErrorKind::DescribedError(AmqpErrorCondition::InternalError)
    }));
    assert!(!should_retry_amqp_error(&AmqpError {
        kind: AmqpErrorKind::UnknownError
    }));
}

#[test]
fn setting_a_header_replaces_every_entry_under_the_name() {
    let mut headers = Headers::new();
    headers.set("accept".to_string(), "text/plain".to_string());
    headers.set("x-try".to_string(), "1".to_string());
    headers.set("accept".to_string(), "application/json".to_string());
    assert_eq!(headers.len(), 2);
    assert_eq!(
        headers.get(&"accept".to_string()).unwrap(),
        "application/json"
    );
    assert_eq!(headers.get(&"x-try".to_string()).unwrap(), "1");
    assert!(headers.get(&"missing".to_string()).is_none());
}
