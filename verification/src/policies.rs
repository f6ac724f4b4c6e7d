//! The concrete policies and the policy capability itself.
//!
//! A policy is one stage of request middleware: it may inspect and rewrite
//! the request on the way down, and the chain is re-driven past the retry
//! stage on a transient failure.  Policies are plain values of one enum, so
//! a pipeline can hold an ordered, immutable list of them and dispatch
//! without inheritance; each policy's effect on the request is stated
//! exactly, over the request model.

use vstd::prelude::*;
use vstd::string::StrSliceExecFns;
use vstd::string::StringExecFns;
use crate::http::{headers_with, Context, Request};

verus! {

/// The kind of a policy: two policies of the same kind are never registered
/// twice within one segment.
#[derive(Clone, Copy, Debug, PartialEq, Eq, Structural)]
pub enum PolicyKind {
    /// Stamps a correlation id header on the request.
    ClientRequestId,
    /// Stamps the identity (user agent) header on the request.
    UserAgent,
    /// Prepends a shared-access token to the request's query string.
    SasToken,
}

/// The abstract state of a request: what the policy contracts speak of.
pub struct RequestModel {
    /// The request method.
    pub method: crate::http::Method,
    /// The URL part before the query string.
    pub url_base: Seq<char>,
    /// The query string.
    pub query: Seq<char>,
    /// The header list.
    pub headers: Seq<(Seq<char>, Seq<char>)>,
    /// The body bytes.
    pub body: Seq<u8>,
}

impl View for Request {
    type V = RequestModel;

    open spec fn view(&self) -> RequestModel {
        RequestModel {
            method: self.method,
            url_base: self.url.base@,
            query: self.url.query@,
            headers: self.headers.model(),
            body: self.body@,
        }
    }
}

/// The correlation id a request ends up carrying: the caller-supplied one
/// when the context holds it, else the freshly generated fallback.
pub open spec fn correlation_value(ctx: Context, generated: Seq<char>) -> Seq<char> {
    match ctx.client_request_id {
        Some(id) => id.value@,
        None => generated,
    }
}

/// Stamps a correlation id header on the request: the caller-supplied id
/// when present, else a generated one.
#[derive(Debug)]
pub struct ClientRequestIdPolicy {
    /// The header name this policy writes.
    pub header_name: String,
}

impl Clone for ClientRequestIdPolicy {
    /// A copy writing the same header name.
    fn clone(&self) -> (r: ClientRequestIdPolicy)
        ensures
            r.header_name@ == self.header_name@,
    {
        ClientRequestIdPolicy { header_name: self.header_name.clone() }
    }
}

impl Default for ClientRequestIdPolicy {
    /// The policy writing the conventional correlation header.
    fn default() -> (r: ClientRequestIdPolicy)
        ensures
            r.header_name@ == "x-ms-client-request-id"@,
    {
        ClientRequestIdPolicy { header_name: "x-ms-client-request-id".to_owned() }
    }
}

impl ClientRequestIdPolicy {
    /// A policy writing a custom header name.
    pub fn with_header_name(name: &str) -> (r: ClientRequestIdPolicy)
        ensures
            r.header_name@ == name@,
    {
        ClientRequestIdPolicy { header_name: name.to_owned() }
    }

    /// Stamps the correlation header: the context's id when present, else
    /// the generated fallback handed in by the pipeline.
    pub fn send(&self, ctx: &Context, request: &mut Request, generated_id: &String)
        ensures
            final(request)@.headers == headers_with(
                old(request)@.headers,
                self.header_name@,
                correlation_value(*ctx, generated_id@),
            ),
            final(request)@.method == old(request)@.method,
            final(request)@.url_base == old(request)@.url_base,
            final(request)@.query == old(request)@.query,
            final(request)@.body == old(request)@.body,
    {
        let value: String = match &ctx.client_request_id {
            Some(id) => id.value.clone(),
            None => generated_id.clone(),
        };
        request.insert_header(self.header_name.clone(), value);
    }
}

/// Options steering the identity (user agent) policy.
#[derive(Debug)]
pub struct UserAgentOptions {
    /// An application id to front the identity string with, if any.
    pub application_id: Option<String>,
    /// When true, no identity header is stamped at all.
    pub disabled: bool,
}

impl Default for UserAgentOptions {
    /// Telemetry on, with no application id.
    fn default() -> (r: UserAgentOptions)
        ensures
            r.application_id is None,
            !r.disabled,
    {
        UserAgentOptions { application_id: None, disabled: false }
    }
}

/// The identity string stamped for a crate name and version, optionally
/// fronted by an application id.
pub open spec fn user_agent_string(
    crate_name: Seq<char>,
    crate_version: Seq<char>,
    application_id: Option<Seq<char>>,
) -> Seq<char> {
    let core = "azsdk-rust-"@ + crate_name + "/"@ + crate_version + " (rust)"@;
    match application_id {
        Some(app) => app + " "@ + core,
        None => core,
    }
}

/// Stamps the identity header on the request.
#[derive(Debug)]
pub struct UserAgentPolicy {
    /// The full identity string this policy writes.
    pub agent: String,
}

impl Clone for UserAgentPolicy {
    /// A copy writing the same identity string.
    fn clone(&self) -> (r: UserAgentPolicy)
        ensures
            r.agent@ == self.agent@,
    {
        UserAgentPolicy { agent: self.agent.clone() }
    }
}

impl UserAgentPolicy {
    /// Builds the policy for a crate name and version; an absent name or
    /// version falls back to "unknown".
    pub fn new(
        crate_name: Option<&str>,
        crate_version: Option<&str>,
        options: &UserAgentOptions,
    ) -> (r: UserAgentPolicy)
        ensures
            r.agent@ == user_agent_string(
                match crate_name {
                    Some(n) => n@,
                    None => "unknown"@,
                },
                match crate_version {
                    Some(v) => v@,
                    None => "unknown"@,
                },
                match options.application_id {
                    Some(app) => Some(app@),
                    None => None,
                },
            ),
    {
        let name: &str = match crate_name {
            Some(n) => n,
            None => "unknown",
        };
        let version: &str = match crate_version {
            Some(v) => v,
            None => "unknown",
        };
        let core: String = "azsdk-rust-".to_owned().concat(name).concat("/").concat(
            version,
        ).concat(" (rust)");
        let agent: String = match &options.application_id {
            Some(app) => app.clone().concat(" ").concat(core.as_str()),
            None => core,
        };
        UserAgentPolicy { agent }
    }

    /// Stamps the identity header.
    pub fn send(&self, request: &mut Request)
        ensures
            final(request)@.headers == headers_with(
                old(request)@.headers,
                "user-agent"@,
                self.agent@,
            ),
            final(request)@.method == old(request)@.method,
            final(request)@.url_base == old(request)@.url_base,
            final(request)@.query == old(request)@.query,
            final(request)@.body == old(request)@.body,
    {
        request.insert_header("user-agent".to_owned(), self.agent.clone());
    }
}

/// The query string after the shared-access token is prepended: the token
/// alone when the query was empty, else the token, an ampersand, and the
/// old query.
pub open spec fn sas_query(token: Seq<char>, query: Seq<char>) -> Seq<char> {
    if query.len() == 0 {
        token
    } else {
        token + "&"@ + query
    }
}

/// Pure request-mutation policy: prepends its fixed shared-access token to
/// the request's query string, then the chain continues unconditionally.
#[derive(Debug)]
pub struct SasTokenCredentialPolicy {
    token: String,
}

impl Clone for SasTokenCredentialPolicy {
    /// A copy carrying the same token.
    fn clone(&self) -> (r: SasTokenCredentialPolicy)
        ensures
            r.spec_token() == self.spec_token(),
    {
        SasTokenCredentialPolicy { token: self.token.clone() }
    }
}

impl SasTokenCredentialPolicy {
    /// The token this policy prepends.
    pub closed spec fn spec_token(&self) -> Seq<char> {
        self.token@
    }

    /// Creates a new policy with the provided shared-access token.
    pub fn new(token: String) -> (r: SasTokenCredentialPolicy)
        ensures
            r.spec_token() == token@,
    {
        SasTokenCredentialPolicy { token }
    }

    /// Returns the shared-access token.
    pub fn token(&self) -> (r: &str)
        ensures
            r@ == self.spec_token(),
    {
        self.token.as_str()
    }

    /// Prepends the token to the request's query string.
    pub fn send(&self, _ctx: &Context, request: &mut Request)
        ensures
            final(request)@.query == sas_query(self.spec_token(), old(request)@.query),
            final(request)@.method == old(request)@.method,
            final(request)@.url_base == old(request)@.url_base,
            final(request)@.headers == old(request)@.headers,
            final(request)@.body == old(request)@.body,
    {
        let query: String = if request.url.query.as_str().is_empty() {
            self.token.clone()
        } else {
            self.token.clone().concat("&").concat(request.url.query.as_str())
        };
        request.set_url_query(query);
    }
}

/// Creates a new shared-access token policy for authentication, ready to
/// register with a pipeline segment.
pub fn create_sas_token_policy(token: String) -> (r: Policy)
    ensures
        r matches Policy::SasToken(p) && p.spec_token() == token@,
{
    Policy::SasToken(SasTokenCredentialPolicy::new(token))
}

/// One stage of request middleware, as a plain value.
#[derive(Debug)]
pub enum Policy {
    /// A correlation id policy.
    ClientRequestId(ClientRequestIdPolicy),
    /// An identity (user agent) policy.
    UserAgent(UserAgentPolicy),
    /// A shared-access token policy.
    SasToken(SasTokenCredentialPolicy),
}

impl Clone for Policy {
    /// A copy with the same kind and configuration.
    fn clone(&self) -> (r: Policy)
        ensures
            policy_model(r) == policy_model(*self),
    {
        match self {
            Policy::ClientRequestId(p) => Policy::ClientRequestId(p.clone()),
            Policy::UserAgent(p) => Policy::UserAgent(p.clone()),
            Policy::SasToken(p) => Policy::SasToken(p.clone()),
        }
    }
}

/// The abstract configuration of a policy: its kind and the one string its
/// effect depends on.
pub ghost enum PolicyModel {
    /// A correlation id policy and its header name.
    ClientRequestId { header_name: Seq<char> },
    /// An identity policy and its identity string.
    UserAgent { agent: Seq<char> },
    /// A shared-access token policy and its token.
    SasToken { token: Seq<char> },
}

/// The abstract configuration of a policy value.
pub open spec fn policy_model(p: Policy) -> PolicyModel {
    match p {
        Policy::ClientRequestId(c) => PolicyModel::ClientRequestId { header_name: c.header_name@ },
        Policy::UserAgent(u) => PolicyModel::UserAgent { agent: u.agent@ },
        Policy::SasToken(s) => PolicyModel::SasToken { token: s.spec_token() },
    }
}

/// The kind of a policy value.
pub open spec fn spec_kind(p: Policy) -> PolicyKind {
    match p {
        Policy::ClientRequestId(_) => PolicyKind::ClientRequestId,
        Policy::UserAgent(_) => PolicyKind::UserAgent,
        Policy::SasToken(_) => PolicyKind::SasToken,
    }
}

impl Policy {
    /// The kind of this policy.
    pub fn kind(&self) -> (r: PolicyKind)
        ensures
            r == spec_kind(*self),
    {
        match self {
            Policy::ClientRequestId(_) => PolicyKind::ClientRequestId,
            Policy::UserAgent(_) => PolicyKind::UserAgent,
            Policy::SasToken(_) => PolicyKind::SasToken,
        }
    }

    /// Applies this policy's request mutation; the pipeline then continues
    /// with the rest of the chain.
    pub fn send(&self, ctx: &Context, request: &mut Request, generated_id: &String)
        ensures
            final(request)@ == apply_policy(policy_model(*self), *ctx, old(request)@, generated_id@),
    {
        match self {
            Policy::ClientRequestId(p) => p.send(ctx, request, generated_id),
            Policy::UserAgent(p) => p.send(request),
            Policy::SasToken(p) => p.send(ctx, request),
        }
    }
}

/// The request model after one policy has run, given the context and the
/// generated correlation fallback.
pub open spec fn apply_policy(
    p: PolicyModel,
    ctx: Context,
    r: RequestModel,
    generated: Seq<char>,
) -> RequestModel {
    match p {
        PolicyModel::ClientRequestId { header_name } => RequestModel {
            headers: headers_with(r.headers, header_name, correlation_value(ctx, generated)),
            ..r
        },
        PolicyModel::UserAgent { agent } => RequestModel {
            headers: headers_with(r.headers, "user-agent"@, agent),
            ..r
        },
        PolicyModel::SasToken { token } => RequestModel { query: sas_query(token, r.query), ..r },
    }
}

} // verus!
