//! Error taxonomy and retry classification.
//!
//! Errors carry a category (`ErrorKind`), a human-readable message, and —
//! for protocol-transport failures — an optional nested protocol cause.
//! Classification of an error as transient (safe to retry) looks only at the
//! category and the nested cause, never at the message.

use vstd::prelude::*;

verus! {

/// Category of a failure, the first thing retry classification looks at.
#[derive(Clone, Copy, Debug, PartialEq, Eq, Structural)]
pub enum ErrorKind {
    /// A protocol-transport (AMQP) failure; the sole category whose nested
    /// cause may make it retryable.
    Amqp,
    /// A local I/O failure, including locally synthesized deadlines.
    Io,
    /// A non-success status from an HTTP endpoint.
    HttpResponse,
    /// Credential acquisition failed; always terminal.
    Credential,
    /// A response body could not be decoded.
    DataConversion,
    /// An operation the adapter does not support; fails fast and loudly.
    Unsupported,
    /// Anything else; treated as terminal.
    Other,
}

/// Condition code carried by a described protocol error.
#[derive(Clone, Copy, Debug, PartialEq, Eq, Structural)]
pub enum AmqpErrorCondition {
    ConnectionForced,
    ConnectionFramingError,
    LinkDetachForced,
    ResourceLimitExceeded,
    NotAllowed,
    InternalError,
    IllegalState,
    DecodeError,
}

/// Shape of a nested protocol-level failure.
#[derive(Clone, Copy, Debug, PartialEq, Eq, Structural)]
pub enum AmqpErrorKind {
    /// Status code returned by a management operation.
    ManagementStatusCode(u16),
    /// A described error with a condition code.
    DescribedError(AmqpErrorCondition),
    /// The transport implementation failed.
    TransportImplementationError,
    /// The underlying connection was dropped.
    ConnectionDropped,
    /// The link entered an unusable state.
    LinkStateError,
    /// An unrecognized protocol failure.
    UnknownError,
}

/// A protocol-level failure nested inside a transport error.
#[derive(Clone, Copy, Debug, PartialEq, Eq, Structural)]
pub struct AmqpError {
    pub kind: AmqpErrorKind,
}

/// Whether a nested protocol failure decodes to a known transient fault.
pub open spec fn amqp_error_is_transient(e: AmqpError) -> bool {
    match e.kind {
        AmqpErrorKind::ManagementStatusCode(code) => code == 408 || code == 429 || (500 <= code
            && code <= 599),
        AmqpErrorKind::DescribedError(cond) => cond == AmqpErrorCondition::ConnectionForced
            || cond == AmqpErrorCondition::ConnectionFramingError
            || cond == AmqpErrorCondition::LinkDetachForced
            || cond == AmqpErrorCondition::ResourceLimitExceeded,
        AmqpErrorKind::TransportImplementationError => true,
        AmqpErrorKind::ConnectionDropped => true,
        AmqpErrorKind::LinkStateError => true,
        AmqpErrorKind::UnknownError => false,
    }
}

/// Decides whether a nested protocol failure is a known transient fault.
pub fn should_retry_amqp_error(e: &AmqpError) -> (r: bool)
    ensures
        r == amqp_error_is_transient(*e),
{
    match e.kind {
        AmqpErrorKind::ManagementStatusCode(code) => code == 408 || code == 429 || (500 <= code
            && code <= 599),
        AmqpErrorKind::DescribedError(cond) => matches!(
            cond,
            AmqpErrorCondition::ConnectionForced
            | AmqpErrorCondition::ConnectionFramingError
            | AmqpErrorCondition::LinkDetachForced
            | AmqpErrorCondition::ResourceLimitExceeded
        ),
        AmqpErrorKind::TransportImplementationError => true,
        AmqpErrorKind::ConnectionDropped => true,
        AmqpErrorKind::LinkStateError => true,
        AmqpErrorKind::UnknownError => false,
    }
}

/// A failure surfaced by the pipeline, the retry engine, or a credential.
#[derive(Clone, Debug)]
pub struct Error {
    /// The category of this failure.
    pub kind: ErrorKind,
    /// Human-readable description; classification never reads it.
    pub message: String,
    /// Nested protocol cause, present only for some `Amqp` failures.
    pub source: Option<AmqpError>,
    /// HTTP status, present only for `HttpResponse` failures.
    pub status: Option<u16>,
    /// True only for an `Io` failure synthesized by a local deadline.
    pub timed_out: bool,
}

impl Error {
    /// A failure with a category and a message, and no nested cause.
    pub fn message_error(kind: ErrorKind, message: String) -> (r: Error)
        ensures
            r.kind == kind,
            r.message@ == message@,
            r.source is None,
            r.status is None,
            !r.timed_out,
    {
        Error { kind, message, source: None, status: None, timed_out: false }
    }

    /// A terminal credential failure.
    pub fn credential(message: String) -> (r: Error)
        ensures
            r.kind == ErrorKind::Credential,
            r.message@ == message@,
            r.source is None,
            r.status is None,
            !r.timed_out,
    {
        Error::message_error(ErrorKind::Credential, message)
    }

    /// A protocol-transport failure carrying its nested protocol cause.
    pub fn amqp(message: String, source: Option<AmqpError>) -> (r: Error)
        ensures
            r.kind == ErrorKind::Amqp,
            r.message@ == message@,
            r.source == source,
            !r.timed_out,
    {
        Error { kind: ErrorKind::Amqp, message, source, status: None, timed_out: false }
    }

    /// The locally synthesized deadline failure: a distinct I/O "timed out"
    /// error, recognizable by `timed_out`.
    pub fn deadline(message: String) -> (r: Error)
        ensures
            r.kind == ErrorKind::Io,
            r.message@ == message@,
            r.source is None,
            r.timed_out,
    {
        Error { kind: ErrorKind::Io, message, source: None, status: None, timed_out: true }
    }

    /// A non-success status from an HTTP endpoint.
    pub fn http_response(status: u16, message: String) -> (r: Error)
        ensures
            r.kind == ErrorKind::HttpResponse,
            r.message@ == message@,
            r.status == Some(status),
            r.source is None,
            !r.timed_out,
    {
        Error { kind: ErrorKind::HttpResponse, message, source: None, status: Some(status), timed_out: false }
    }

    /// The failure returned by every protocol operation the receive-only
    /// adapter does not support.
    pub fn unsupported(message: String) -> (r: Error)
        ensures
            r.kind == ErrorKind::Unsupported,
            r.message@ == message@,
            r.source is None,
            !r.timed_out,
    {
        Error::message_error(ErrorKind::Unsupported, message)
    }
}

/// Whether a receive failure is worth a fresh attempt: only a
/// protocol-transport failure whose nested cause decodes to a known
/// transient fault.  Any other shape — unknown cause, different top-level
/// category, missing cause — is terminal.
pub open spec fn receive_error_is_retryable(e: Error) -> bool {
    e.kind == ErrorKind::Amqp && match e.source {
        Some(cause) => amqp_error_is_transient(cause),
        None => false,
    }
}

/// Whether an HTTP pipeline failure is worth a fresh attempt: transport
/// failures (local I/O, deadlines included) and the conventionally transient
/// response statuses.
pub open spec fn http_error_is_retryable(e: Error) -> bool {
    ||| e.kind == ErrorKind::Io
    ||| (e.kind == ErrorKind::HttpResponse && match e.status {
        Some(code) => code == 408 || code == 429 || (500 <= code && code <= 599),
        None => false,
    })
}

/// Decides whether an HTTP pipeline failure is transient.
pub fn should_retry_http_error(e: &Error) -> (r: bool)
    ensures
        r == http_error_is_retryable(*e),
{
    match e.kind {
        ErrorKind::Io => true,
        ErrorKind::HttpResponse => match e.status {
            Some(code) => code == 408 || code == 429 || (500 <= code && code <= 599),
            None => false,
        },
        _ => false,
    }
}

} // verus!
