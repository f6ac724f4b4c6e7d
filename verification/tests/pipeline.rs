use pipeline_core::error::Error;
use pipeline_core::http::{ClientRequestId, Context, Headers, Method, RawResponse, Request, Url};
use pipeline_core::pipeline::{ClientOptions, Pipeline, Transport};
use pipeline_core::policies::{ClientRequestIdPolicy, Policy, UserAgentOptions};

struct MockHttpClient<F: Fn(&Request) -> Result<RawResponse, Error>> {
    callback: F,
}

impl<F: Fn(&Request) -> Result<RawResponse, Error>> Transport for MockHttpClient<F> {
    fn execute(&mut self, request: &Request) -> Result<RawResponse, Error> {
        (self.callback)(request)
    }
}

fn ok_response() -> Result<RawResponse, Error> {
    Ok(RawResponse::from_bytes(200, Headers::new(), Vec::new()))
}

#[test]
fn pipeline_with_custom_client_request_id_policy() {
    const CUSTOM_HEADER_NAME: &str = "x-custom-request-id";
    const CLIENT_REQUEST_ID: &str = "custom-request-id";

    let mut ctx = Context::new();
    ctx.insert(ClientRequestId::new(CLIENT_REQUEST_ID.to_string()));

    let mut transport = MockHttpClient {
        callback: |req: &Request| {
            let header_value = req
                .headers
                .get(&CUSTOM_HEADER_NAME.to_string())
                .expect("Custom header should be present");
            assert_eq!(
                header_value.as_str(),
                CLIENT_REQUEST_ID,
                "Custom header value should match the client request ID"
            );
            ok_response()
        },
    };

    let per_call_policies: Vec<Policy> = vec![Policy::ClientRequestId(
        ClientRequestIdPolicy::with_header_name(CUSTOM_HEADER_NAME),
    )];
    let per_retry_policies: Vec<Policy> = vec![];

    let pipeline = Pipeline::new(
        Some("test-crate"),
        Some("1.0.0"),
        ClientOptions::default(),
        per_call_policies,
        per_retry_policies,
    );

    let mut request = Request::new(
        Url::from_parts("https://example.com".to_string(), String::new()),
        Method::Get,
    );

    pipeline
        .send(&mut transport, &ctx, &mut request)
        .expect("Pipeline execution failed");
}

#[test]
fn pipeline_without_client_request_id_policy() {
    const CLIENT_REQUEST_ID: &str = "default-request-id";

    let mut ctx = Context::new();
    ctx.insert(ClientRequestId::new(CLIENT_REQUEST_ID.to_string()));

    let mut transport = MockHttpClient {
        callback: |req: &Request| {
            let header_value = req
                .headers
                .get(&"x-ms-client-request-id".to_string())
                .expect("Default header should be present");
            assert_eq!(
                header_value.as_str(),
                CLIENT_REQUEST_ID,
                "Default header value should match the client request ID"
            );
            ok_response()
        },
    };

    let per_call_policies: Vec<Policy> = vec![];
    let per_retry_policies: Vec<Policy> = vec![];

    let pipeline = Pipeline::new(
        Some("test-crate"),
        Some("1.0.0"),
        ClientOptions::default(),
        per_call_policies,
        per_retry_policies,
    );

    let mut request = Request::new(
        Url::from_parts("https://example.com".to_string(), String::new()),
        Method::Get,
    );

    pipeline
        .send(&mut transport, &ctx, &mut request)
        .expect("Pipeline execution failed");
}

#[test]
fn pipeline_with_user_agent_enabled_default() {
    let ctx = Context::new();

    let mut transport = MockHttpClient {
        callback: |req: &Request| {
            let user_agent = req
                .headers
                .get(&"user-agent".to_string())
                .expect("User-Agent header should be present by default");
            assert!(
                user_agent.starts_with("azsdk-rust-test-crate/1.0.0 "),
                "User-Agent header should start with expected prefix, got: {}",
                user_agent
            );
            ok_response()
        },
    };

    let per_call_policies: Vec<Policy> = vec![];
    let per_retry_policies: Vec<Policy> = vec![];

    let pipeline = Pipeline::new(
        Some("test-crate"),
        Some("1.0.0"),
        ClientOptions::default(),
        per_call_policies,
        per_retry_policies,
    );

    let mut request = Request::new(
        Url::from_parts("https://example.com".to_string(), String::new()),
        Method::Get,
    );

    pipeline
        .send(&mut transport, &ctx, &mut request)
        .expect("Pipeline execution failed");
}

#[test]
fn pipeline_generates_a_correlation_id_when_none_is_supplied() {
    let ctx = Context::new();

    let mut transport = MockHttpClient {
        callback: |req: &Request| {
            let id = req
                .headers
                .get(&"x-ms-client-request-id".to_string())
                .expect("a correlation id is generated");
            assert_eq!(id.len(), 36, "hyphenated UUID form");
            let bytes = id.as_bytes();
            for i in [8usize, 13, 18, 23] {
                assert_eq!(bytes[i], b'-', "hyphen at position {}", i);
            }
            ok_response()
        },
    };

    let per_call_policies: Vec<Policy> = vec![];
    let per_retry_policies: Vec<Policy> = vec![];

    let pipeline = Pipeline::new(
        Some("test-crate"),
        Some("1.0.0"),
        ClientOptions::default(),
        per_call_policies,
        per_retry_policies,
    );

    let mut request = Request::new(
        Url::from_parts("https://example.com".to_string(), String::new()),
        Method::Get,
    );

    pipeline
        .send(&mut transport, &ctx, &mut request)
        .expect("Pipeline execution failed");
}

#[test]
fn a_transient_transport_failure_is_retried_within_budget() {
    let ctx = Context::new();

    // A mutable counter through &mut self needs no interior mutability.
    struct FlakyTransport {
        attempts: u32,
    }

    impl Transport for FlakyTransport {
        fn execute(&mut self, _request: &Request) -> Result<RawResponse, Error> {
            self.attempts += 1;
            if self.attempts < 3 {
                Err(Error::http_response(503, "busy".to_string()))
            } else {
                Ok(RawResponse::from_bytes(200, Headers::new(), Vec::new()))
            }
        }
    }

    let options = ClientOptions {
        user_agent: None,
        retry: Some(pipeline_core::retry::RetryOptions {
            max_attempts: 5,
            base_delay_ms: 1,
            max_delay_ms: 2,
            max_total_delay_ms: 1_000_000,
        }),
    };
    let pipeline = Pipeline::new(Some("test-crate"), Some("1.0.0"), options, vec![], vec![]);

    let mut transport = FlakyTransport { attempts: 0 };
    let mut request = Request::new(
        Url::from_parts("https://example.com".to_string(), String::new()),
        Method::Get,
    );
    pipeline
        .send(&mut transport, &ctx, &mut request)
        .expect("the third attempt succeeds");
    assert_eq!(transport.attempts, 3);

    let mut transport = FlakyTransport { attempts: 100 };
    let mut request = Request::new(
        Url::from_parts("https://example.com".to_string(), String::new()),
        Method::Get,
    );
    pipeline
        .send(&mut transport, &ctx, &mut request)
        .expect("an immediate success makes one attempt");
    assert_eq!(transport.attempts, 101);
}

#[test]
fn a_terminal_transport_failure_is_not_retried() {
    let ctx = Context::new();

    struct RefusingTransport {
        attempts: u32,
    }

    impl Transport for RefusingTransport {
        fn execute(&mut self, _request: &Request) -> Result<RawResponse, Error> {
            self.attempts += 1;
            Err(Error::http_response(403, "forbidden".to_string()))
        }
    }

    let pipeline = Pipeline::new(
        Some("test-crate"),
        Some("1.0.0"),
        ClientOptions::default(),
        vec![],
        vec![],
    );
    let mut transport = RefusingTransport { attempts: 0 };
    let mut request = Request::new(
        Url::from_parts("https://example.com".to_string(), String::new()),
        Method::Get,
    );
    let err = pipeline
        .send(&mut transport, &ctx, &mut request)
        .expect_err("forbidden is terminal");
    assert_eq!(err.status, Some(403));
    assert_eq!(transport.attempts, 1);
}

#[test]
fn pipeline_with_user_agent_disabled() {
    let ctx = Context::new();

    let mut transport = MockHttpClient {
        callback: |req: &Request| {
            let user_agent = req.headers.get(&"user-agent".to_string());
            assert!(
                user_agent.is_none(),
                "User-Agent header should not be present when disabled"
            );
            ok_response()
        },
    };

    let user_agent = UserAgentOptions {
        disabled: true,
        ..Default::default()
    };
    let options = ClientOptions {
        user_agent: Some(user_agent),
        ..Default::default()
    };

    let per_call_policies: Vec<Policy> = vec![];
    let per_retry_policies: Vec<Policy> = vec![];

    let pipeline = Pipeline::new(
        Some("test-crate"),
        Some("1.0.0"),
        options,
        per_call_policies,
        per_retry_policies,
    );

    let mut request = Request::new(
        Url::from_parts("https://example.com".to_string(), String::new()),
        Method::Get,
    );

    pipeline
        .send(&mut transport, &ctx, &mut request)
        .expect("Pipeline execution failed");
}
