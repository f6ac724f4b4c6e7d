//! The execution pipeline: an ordered, immutable policy chain in two
//! segments — per-call, run once per logical operation, and per-retry, run
//! once per physical attempt — with the retry stage between them and the
//! injectable transport at the end.
//!
//! A pipeline follows a precise flow: per-call policies run in registration
//! order, then every attempt re-runs the per-retry policies and hands the
//! request to the transport; a transient transport failure within budget
//! re-drives only the per-retry segment.

use vstd::prelude::*;
use crate::error::{should_retry_http_error, Error};
use crate::http::{headers_count, headers_lookup, Context, RawResponse, Request};
use crate::policies::{
    apply_policy,
    correlation_value,
    policy_model,
    spec_kind,
    user_agent_string,
    ClientRequestIdPolicy,
    Policy,
    PolicyKind,
    PolicyModel,
    RequestModel,
    UserAgentOptions,
    UserAgentPolicy,
};
use crate::retry::{backoff_delay_ms, RetryOptions};

verus! {

/// Client-wide configuration a pipeline is built from.
#[derive(Debug)]
pub struct ClientOptions {
    /// Identity (user agent) options; absent means the defaults.
    pub user_agent: Option<UserAgentOptions>,
    /// Retry budget; absent means the defaults.
    pub retry: Option<RetryOptions>,
}

impl Default for ClientOptions {
    /// Default identity and retry behavior.
    fn default() -> (r: ClientOptions)
        ensures
            r.user_agent is None,
            r.retry is None,
    {
        ClientOptions { user_agent: None, retry: None }
    }
}

/// The injectable transport: the pipeline's sole means of producing a real
/// response.  Implementations live outside the library (a real network
/// stack, or a mock for tests), so nothing is assumed of the outcome.
pub trait Transport {
    /// Executes the fully prepared request and produces the raw response.
    fn execute(&mut self, request: &Request) -> Result<RawResponse, Error>;
}

/// Whether a policy list holds a policy of a kind.
pub open spec fn contains_kind(s: Seq<Policy>, k: PolicyKind) -> bool {
    exists|i: int| 0 <= i < s.len() && spec_kind(#[trigger] s[i]) == k
}

/// The list after an idempotent registration: unchanged when a policy of
/// the same kind is already present, else the policy lands at the end.
pub open spec fn push_unique_spec(s: Seq<Policy>, p: Policy) -> Seq<Policy> {
    if contains_kind(s, spec_kind(p)) {
        s
    } else {
        s.push(p)
    }
}

/// Registers a policy in a segment unless one of the same kind is already
/// present; adding a duplicate kind is a no-op, not an error.
pub fn push_unique(policies: &mut Vec<Policy>, policy: Policy)
    ensures
        final(policies)@ == push_unique_spec(old(policies)@, policy),
{
    let k = policy.kind();
    let mut i: usize = 0;
    while i < policies.len()
        invariant
            i <= policies.len(),
            k == spec_kind(policy),
            forall|j: int| 0 <= j < i ==> spec_kind(#[trigger] policies@[j]) != k,
            policies@ == old(policies)@,
        decreases policies.len() - i,
    {
        if policies[i].kind() == k {
            return ;
        }
        i += 1;
    }
    assert(!contains_kind(policies@, k));
    policies.push(policy);
}

/// Registering a second policy of a kind already present leaves the
/// segment unchanged: registration is idempotent.
pub proof fn lemma_push_unique_idempotent(s: Seq<Policy>, p: Policy, q: Policy)
    requires
        spec_kind(q) == spec_kind(p),
    ensures
        push_unique_spec(push_unique_spec(s, p), q) == push_unique_spec(s, p),
{
    let s1 = push_unique_spec(s, p);
    if contains_kind(s, spec_kind(p)) {
        assert(contains_kind(s1, spec_kind(q)));
    } else {
        assert(spec_kind(s.push(p)[s.len() as int]) == spec_kind(q));
        assert(contains_kind(s1, spec_kind(q)));
    }
}

/// The abstract configurations of a policy list, in order.
pub open spec fn policies_model(s: Seq<Policy>) -> Seq<PolicyModel> {
    s.map_values(|p: Policy| policy_model(p))
}

/// The request model after a policy list has run, front to back.
pub open spec fn apply_policies(
    ps: Seq<PolicyModel>,
    ctx: Context,
    r: RequestModel,
    generated: Seq<char>,
) -> RequestModel
    decreases ps.len(),
{
    if ps.len() == 0 {
        r
    } else {
        apply_policies(ps.skip(1), ctx, apply_policy(ps[0], ctx, r, generated), generated)
    }
}

/// The request model after the per-retry segment has run `k` times over.
pub open spec fn retried(
    ps: Seq<PolicyModel>,
    ctx: Context,
    r: RequestModel,
    generated: Seq<char>,
    k: nat,
) -> RequestModel
    decreases k,
{
    if k == 0 {
        r
    } else {
        retried(ps, ctx, apply_policies(ps, ctx, r, generated), generated, (k - 1) as nat)
    }
}

/// One more round of the per-retry segment lands on the outside of the
/// iteration.
pub proof fn lemma_retried_snoc(
    ps: Seq<PolicyModel>,
    ctx: Context,
    r: RequestModel,
    generated: Seq<char>,
    k: nat,
)
    ensures
        retried(ps, ctx, r, generated, k + 1) == apply_policies(
            ps,
            ctx,
            retried(ps, ctx, r, generated, k),
            generated,
        ),
    decreases k,
{
    if k == 0 {
        assert(retried(ps, ctx, r, generated, 0) == r);
        assert(retried(ps, ctx, apply_policies(ps, ctx, r, generated), generated, 0)
            == apply_policies(ps, ctx, r, generated));
    } else {
        lemma_retried_snoc(ps, ctx, apply_policies(ps, ctx, r, generated), generated, (k - 1) as nat);
    }
}

/// The kind of an abstract policy configuration.
pub open spec fn model_kind(p: PolicyModel) -> PolicyKind {
    match p {
        PolicyModel::ClientRequestId { .. } => PolicyKind::ClientRequestId,
        PolicyModel::UserAgent { .. } => PolicyKind::UserAgent,
        PolicyModel::SasToken { .. } => PolicyKind::SasToken,
    }
}

/// Whether an abstract policy list holds a policy of a kind.
pub open spec fn model_contains_kind(s: Seq<PolicyModel>, k: PolicyKind) -> bool {
    exists|i: int| 0 <= i < s.len() && model_kind(#[trigger] s[i]) == k
}

/// A policy list holds a kind exactly when its abstract configurations do.
pub proof fn lemma_contains_kind_model(s: Seq<Policy>, k: PolicyKind)
    ensures
        contains_kind(s, k) == model_contains_kind(policies_model(s), k),
{
    if contains_kind(s, k) {
        let i = choose|i: int| 0 <= i < s.len() && spec_kind(#[trigger] s[i]) == k;
        assert(model_kind(policies_model(s)[i]) == k);
    }
    if model_contains_kind(policies_model(s), k) {
        let i = choose|i: int|
            0 <= i < policies_model(s).len() && model_kind(#[trigger] policies_model(s)[i]) == k;
        assert(spec_kind(s[i]) == k);
    }
}

/// The abstract per-call segment a pipeline assembles: the caller-supplied
/// list; then, unless one of that kind is already present, the default
/// correlation policy; then, when telemetry is enabled and no identity
/// policy is present yet, the identity policy with the given string.
pub open spec fn assembled_per_call(
    user: Seq<PolicyModel>,
    disabled: bool,
    agent: Seq<char>,
) -> Seq<PolicyModel> {
    let with_crid = if model_contains_kind(user, PolicyKind::ClientRequestId) {
        user
    } else {
        user.push(PolicyModel::ClientRequestId { header_name: "x-ms-client-request-id"@ })
    };
    if !disabled && !model_contains_kind(with_crid, PolicyKind::UserAgent) {
        with_crid.push(PolicyModel::UserAgent { agent })
    } else {
        with_crid
    }
}

/// An idempotent registration seen at the abstract level: the kinds decide,
/// and the configuration pushed is the policy's own.
pub proof fn lemma_push_unique_model(s: Seq<Policy>, p: Policy)
    ensures
        model_kind(policy_model(p)) == spec_kind(p),
        policies_model(push_unique_spec(s, p)) == if model_contains_kind(
            policies_model(s),
            spec_kind(p),
        ) {
            policies_model(s)
        } else {
            policies_model(s).push(policy_model(p))
        },
{
    lemma_contains_kind_model(s, spec_kind(p));
    if !contains_kind(s, spec_kind(p)) {
        assert(policies_model(s.push(p)) =~= policies_model(s).push(policy_model(p)));
    }
}

/// The retry options a pipeline runs with: the caller's where given, the
/// defaults otherwise, with the attempt budget floored at one attempt.
pub open spec fn effective_retry(opt: Option<RetryOptions>) -> RetryOptions {
    let o = match opt {
        Some(o) => o,
        None => RetryOptions {
            max_attempts: crate::retry::DEFAULT_MAX_ATTEMPTS,
            base_delay_ms: crate::retry::DEFAULT_BASE_DELAY_MS,
            max_delay_ms: crate::retry::DEFAULT_MAX_DELAY_MS,
            max_total_delay_ms: crate::retry::DEFAULT_MAX_TOTAL_DELAY_MS,
        },
    };
    if o.max_attempts == 0 {
        RetryOptions { max_attempts: 1, ..o }
    } else {
        o
    }
}

/// The execution pipeline.  It is immutable once constructed: the two
/// segments cannot change, and every `send` drives the same chain.
#[derive(Debug)]
pub struct Pipeline {
    /// The per-call segment, run once per logical operation.
    pub per_call_policies: Vec<Policy>,
    /// The per-retry segment, run once per physical attempt.
    pub per_retry_policies: Vec<Policy>,
    /// The retry budget the interposed retry stage enforces.
    pub retry_options: RetryOptions,
}

impl Pipeline {
    /// Creates a new pipeline given the client library crate name and
    /// version, along with user-specified and client library-specified
    /// policies.  A default correlation policy is appended unless one of
    /// that kind is present, and, when telemetry is enabled, an identity
    /// policy built from the supplied name and version.
    pub fn new(
        crate_name: Option<&str>,
        crate_version: Option<&str>,
        options: ClientOptions,
        per_call_policies: Vec<Policy>,
        per_try_policies: Vec<Policy>,
    ) -> (r: Pipeline)
        ensures
            policies_model(r.per_call_policies@) == assembled_per_call(
                policies_model(per_call_policies@),
                match options.user_agent {
                    Some(u) => u.disabled,
                    None => false,
                },
                user_agent_string(
                    match crate_name {
                        Some(n) => n@,
                        None => "unknown"@,
                    },
                    match crate_version {
                        Some(v) => v@,
                        None => "unknown"@,
                    },
                    match options.user_agent {
                        Some(u) => match u.application_id {
                            Some(a) => Some(a@),
                            None => None,
                        },
                        None => None,
                    },
                ),
            ),
            r.per_retry_policies@ == per_try_policies@,
            r.retry_options == effective_retry(options.retry),
            r.retry_options.max_attempts >= 1,
    {
        let ghost orig = per_call_policies@;
        let mut per_call_policies = per_call_policies;
        let default_crid = ClientRequestIdPolicy::default();
        push_unique(&mut per_call_policies, Policy::ClientRequestId(default_crid));
        proof {
            lemma_push_unique_model(orig, Policy::ClientRequestId(default_crid));
        }
        let ghost stage1 = per_call_policies@;
        let ua = match options.user_agent {
            Some(u) => u,
            None => UserAgentOptions::default(),
        };
        if !ua.disabled {
            let telemetry_policy = UserAgentPolicy::new(crate_name, crate_version, &ua);
            push_unique(&mut per_call_policies, Policy::UserAgent(telemetry_policy));
            proof {
                lemma_push_unique_model(stage1, Policy::UserAgent(telemetry_policy));
            }
        }
        let retry_options = match options.retry {
            Some(o) => o,
            None => RetryOptions::default(),
        };
        let retry_options = if retry_options.max_attempts == 0 {
            RetryOptions { max_attempts: 1, ..retry_options }
        } else {
            retry_options
        };
        Pipeline { per_call_policies, per_retry_policies: per_try_policies, retry_options }
    }

    /// Sends a request down the chain: the per-call segment runs once, then
    /// every attempt re-runs the per-retry segment and hands the request to
    /// the transport; a transient failure within budget earns a fresh
    /// attempt, and the error of the last attempt is surfaced verbatim.
    ///
    /// On return the request carries the per-call effects exactly once and
    /// the per-retry effects once per attempt made; the correlation
    /// fallback `gen` is a fresh 36-character generated id.
    pub fn send<T: Transport>(
        &self,
        transport: &mut T,
        ctx: &Context,
        request: &mut Request,
    ) -> (r: Result<RawResponse, Error>)
        requires
            self.retry_options.max_attempts >= 1,
        ensures
            exists|gen: Seq<char>, k: nat|
                #![trigger retried(
                    policies_model(self.per_retry_policies@),
                    *ctx,
                    apply_policies(
                        policies_model(self.per_call_policies@),
                        *ctx,
                        old(request)@,
                        gen,
                    ),
                    gen,
                    k,
                )]
                1 <= k <= self.retry_options.max_attempts && gen.len() == 36 && final(request)@
                    == retried(
                    policies_model(self.per_retry_policies@),
                    *ctx,
                    apply_policies(
                        policies_model(self.per_call_policies@),
                        *ctx,
                        old(request)@,
                        gen,
                    ),
                    gen,
                    k,
                ),
    {
        let generated = new_request_id();
        let ghost gen = generated@;
        let ghost pcm = policies_model(self.per_call_policies@);
        let ghost prm = policies_model(self.per_retry_policies@);
        let ghost req0 = (*request)@;
        proof {
            assert(pcm.skip(0) =~= pcm);
        }
        let mut i: usize = 0;
        while i < self.per_call_policies.len()
            invariant
                i <= self.per_call_policies.len(),
                pcm == policies_model(self.per_call_policies@),
                gen == generated@,
                apply_policies(pcm.skip(i as int), *ctx, (*request)@, gen) == apply_policies(
                    pcm,
                    *ctx,
                    req0,
                    gen,
                ),
            decreases self.per_call_policies.len() - i,
        {
            proof {
                assert(pcm.skip(i as int)[0] == policy_model(self.per_call_policies@[i as int]));
                assert(pcm.skip(i as int).skip(1) =~= pcm.skip(i + 1));
            }
            self.per_call_policies[i].send(ctx, request, &generated);
            i += 1;
        }
        proof {
            assert(pcm.skip(pcm.len() as int) =~= Seq::<PolicyModel>::empty());
        }
        let ghost base = (*request)@;
        let mut attempt: u64 = 0;
        let mut accumulated: u64 = 0;
        loop
            invariant
                self.retry_options.max_attempts >= 1,
                attempt < self.retry_options.max_attempts,
                accumulated <= self.retry_options.max_total_delay_ms,
                prm == policies_model(self.per_retry_policies@),
                gen == generated@,
                gen.len() == 36,
                base == apply_policies(pcm, *ctx, req0, gen),
                pcm == policies_model(self.per_call_policies@),
                req0 == old(request)@,
                (*request)@ == retried(prm, *ctx, base, gen, attempt as nat),
            decreases self.retry_options.max_attempts - attempt,
        {
            let ghost rbase = (*request)@;
            proof {
                assert(prm.skip(0) =~= prm);
            }
            let mut j: usize = 0;
            while j < self.per_retry_policies.len()
                invariant
                    j <= self.per_retry_policies.len(),
                    prm == policies_model(self.per_retry_policies@),
                    gen == generated@,
                    apply_policies(prm.skip(j as int), *ctx, (*request)@, gen) == apply_policies(
                        prm,
                        *ctx,
                        rbase,
                        gen,
                    ),
                decreases self.per_retry_policies.len() - j,
            {
                proof {
                    assert(prm.skip(j as int)[0] == policy_model(
                        self.per_retry_policies@[j as int],
                    ));
                    assert(prm.skip(j as int).skip(1) =~= prm.skip(j + 1));
                }
                self.per_retry_policies[j].send(ctx, request, &generated);
                j += 1;
            }
            proof {
                assert(prm.skip(prm.len() as int) =~= Seq::<PolicyModel>::empty());
                lemma_retried_snoc(prm, *ctx, base, gen, attempt as nat);
            }
            let res = transport.execute(request);
            attempt = attempt + 1;
            match res {
                Ok(response) => {
                    proof {
                        assert((*request)@ == retried(prm, *ctx, base, gen, attempt as nat));
                    }
                    return Ok(response);
                },
                Err(e) => {
                    if attempt == self.retry_options.max_attempts {
                        return Err(e);
                    }
                    let retry = should_retry_http_error(&e);
                    if !retry {
                        return Err(e);
                    }
                    let delay = backoff_delay_ms(attempt - 1, &self.retry_options);
                    if delay > self.retry_options.max_total_delay_ms - accumulated {
                        return Err(e);
                    }
                    accumulated = accumulated + delay;
                },
            }
        }
    }
}

/// Relies on uuid::Uuid::new_v4, rendered in the standard hyphenated form:
/// a fresh random request id of 36 characters.  Nothing more is assumed of
/// a random value.
#[verifier::external_body]
pub(crate) fn new_request_id() -> (r: String)
    ensures
        r@.len() == 36,
{
    uuid::Uuid::new_v4().to_string()
}

/// Whether a policy writes the header with the given name.
pub open spec fn sets_header(p: PolicyModel, name: Seq<char>) -> bool {
    match p {
        PolicyModel::ClientRequestId { header_name } => header_name == name,
        PolicyModel::UserAgent { .. } => name == "user-agent"@,
        PolicyModel::SasToken { .. } => false,
    }
}

/// The value a policy writes under a header it sets.
pub open spec fn written_value(p: PolicyModel, ctx: Context, generated: Seq<char>) -> Seq<char> {
    match p {
        PolicyModel::ClientRequestId { .. } => correlation_value(ctx, generated),
        PolicyModel::UserAgent { agent } => agent,
        PolicyModel::SasToken { .. } => Seq::empty(),
    }
}

/// A chain in which no policy writes a header name leaves that name's
/// lookup and count untouched.
pub proof fn lemma_chain_frame(
    ps: Seq<PolicyModel>,
    ctx: Context,
    r: RequestModel,
    generated: Seq<char>,
    name: Seq<char>,
)
    requires
        forall|i: int| 0 <= i < ps.len() ==> !sets_header(#[trigger] ps[i], name),
    ensures
        headers_lookup(apply_policies(ps, ctx, r, generated).headers, name) == headers_lookup(
            r.headers,
            name,
        ),
        headers_count(apply_policies(ps, ctx, r, generated).headers, name) == headers_count(
            r.headers,
            name,
        ),
    decreases ps.len(),
{
    if ps.len() > 0 {
        let r1 = apply_policy(ps[0], ctx, r, generated);
        match ps[0] {
            PolicyModel::ClientRequestId { header_name } => {
                crate::http::lemma_headers_with_frame(
                    r.headers,
                    header_name,
                    correlation_value(ctx, generated),
                    name,
                );
            },
            PolicyModel::UserAgent { agent } => {
                crate::http::lemma_headers_with_frame(r.headers, "user-agent"@, agent, name);
            },
            PolicyModel::SasToken { .. } => {},
        }
        assert(forall|i: int|
            0 <= i < ps.skip(1).len() ==> !sets_header(#[trigger] ps.skip(1)[i], name));
        lemma_chain_frame(ps.skip(1), ctx, r1, generated, name);
    }
}

/// When position `j` is the last policy in the chain to write a name, the
/// chain leaves exactly one header under that name, carrying the value
/// policy `j` writes.
pub proof fn lemma_chain_last_setter(
    ps: Seq<PolicyModel>,
    ctx: Context,
    r: RequestModel,
    generated: Seq<char>,
    name: Seq<char>,
    j: int,
)
    requires
        0 <= j < ps.len(),
        sets_header(ps[j], name),
        forall|i: int| j < i < ps.len() ==> !sets_header(#[trigger] ps[i], name),
    ensures
        headers_lookup(apply_policies(ps, ctx, r, generated).headers, name) == Some(
            written_value(ps[j], ctx, generated),
        ),
        headers_count(apply_policies(ps, ctx, r, generated).headers, name) == 1,
    decreases ps.len(),
{
    let r1 = apply_policy(ps[0], ctx, r, generated);
    if j == 0 {
        match ps[0] {
            PolicyModel::ClientRequestId { header_name } => {
                crate::http::lemma_headers_with(
                    r.headers,
                    header_name,
                    correlation_value(ctx, generated),
                );
            },
            PolicyModel::UserAgent { agent } => {
                crate::http::lemma_headers_with(r.headers, "user-agent"@, agent);
            },
            PolicyModel::SasToken { .. } => {},
        }
        assert(forall|i: int|
            0 <= i < ps.skip(1).len() ==> !sets_header(#[trigger] ps.skip(1)[i], name));
        lemma_chain_frame(ps.skip(1), ctx, r1, generated, name);
    } else {
        assert(ps.skip(1)[j - 1] == ps[j]);
        assert(forall|i: int|
            j - 1 < i < ps.skip(1).len() ==> !sets_header(#[trigger] ps.skip(1)[i], name));
        lemma_chain_last_setter(ps.skip(1), ctx, r1, generated, name, j - 1);
    }
}

/// Re-running a chain that never writes a name any number of times leaves
/// that name's lookup and count untouched.
pub proof fn lemma_retried_frame(
    ps: Seq<PolicyModel>,
    ctx: Context,
    r: RequestModel,
    generated: Seq<char>,
    k: nat,
    name: Seq<char>,
)
    requires
        forall|i: int| 0 <= i < ps.len() ==> !sets_header(#[trigger] ps[i], name),
    ensures
        headers_lookup(retried(ps, ctx, r, generated, k).headers, name) == headers_lookup(
            r.headers,
            name,
        ),
        headers_count(retried(ps, ctx, r, generated, k).headers, name) == headers_count(
            r.headers,
            name,
        ),
    decreases k,
{
    if k > 0 {
        lemma_chain_frame(ps, ctx, r, generated, name);
        lemma_retried_frame(
            ps,
            ctx,
            apply_policies(ps, ctx, r, generated),
            generated,
            (k - 1) as nat,
            name,
        );
    }
}

/// The two fixed header names the assembled policies write are distinct.
proof fn lemma_fixed_names_distinct()
    ensures
        "x-ms-client-request-id"@ != "user-agent"@,
{
    reveal_strlit("x-ms-client-request-id");
    reveal_strlit("user-agent");
    assert("x-ms-client-request-id"@.len() == 22);
    assert("user-agent"@.len() == 10);
}

/// Override precedence: through a pipeline whose caller registered a
/// correlation policy `X` — the only policy writing `X`'s header name —
/// the request leaving the chain carries exactly one header under that
/// name, and its value is the caller-supplied correlation id, never the
/// generated fallback.
pub proof fn lemma_correlation_override(
    user: Seq<PolicyModel>,
    pr: Seq<PolicyModel>,
    disabled: bool,
    agent: Seq<char>,
    ctx: Context,
    r0: RequestModel,
    generated: Seq<char>,
    k: nat,
    j: int,
    name: Seq<char>,
)
    requires
        0 <= j < user.len(),
        user[j] matches PolicyModel::ClientRequestId { header_name } && header_name == name,
        forall|i: int| 0 <= i < user.len() && i != j ==> !sets_header(#[trigger] user[i], name),
        name != "user-agent"@,
        forall|i: int| 0 <= i < pr.len() ==> !sets_header(#[trigger] pr[i], name),
        ctx.client_request_id matches Some(id),
    ensures
        ({
            let sent = retried(
                pr,
                ctx,
                apply_policies(assembled_per_call(user, disabled, agent), ctx, r0, generated),
                generated,
                k,
            );
            &&& headers_lookup(sent.headers, name) == Some(
                ctx.client_request_id->Some_0.value@,
            )
            &&& headers_count(sent.headers, name) == 1
        }),
{
    let pc = assembled_per_call(user, disabled, agent);
    assert(model_kind(user[j]) == PolicyKind::ClientRequestId);
    assert(model_contains_kind(user, PolicyKind::ClientRequestId));
    assert(forall|i: int| j < i < pc.len() ==> !sets_header(#[trigger] pc[i], name));
    lemma_chain_last_setter(pc, ctx, r0, generated, name, j);
    lemma_retried_frame(pr, ctx, apply_policies(pc, ctx, r0, generated), generated, k, name);
}

/// Fallback: through a pipeline with no correlation policy registered, the
/// request leaving the chain carries exactly one header under the
/// conventional correlation name; its value is the caller-supplied id when
/// the context holds one, else the generated fallback.
pub proof fn lemma_correlation_fallback(
    user: Seq<PolicyModel>,
    pr: Seq<PolicyModel>,
    disabled: bool,
    agent: Seq<char>,
    ctx: Context,
    r0: RequestModel,
    generated: Seq<char>,
    k: nat,
)
    requires
        !model_contains_kind(user, PolicyKind::ClientRequestId),
        forall|i: int| 0 <= i < pr.len() ==> !sets_header(#[trigger] pr[i], "x-ms-client-request-id"@),
    ensures
        ({
            let sent = retried(
                pr,
                ctx,
                apply_policies(assembled_per_call(user, disabled, agent), ctx, r0, generated),
                generated,
                k,
            );
            &&& headers_lookup(sent.headers, "x-ms-client-request-id"@) == Some(
                correlation_value(ctx, generated),
            )
            &&& headers_count(sent.headers, "x-ms-client-request-id"@) == 1
        }),
{
    let dn = "x-ms-client-request-id"@;
    let pc = assembled_per_call(user, disabled, agent);
    let with_crid = user.push(PolicyModel::ClientRequestId { header_name: dn });
    let j = user.len() as int;
    lemma_fixed_names_distinct();
    assert(with_crid[j] == PolicyModel::ClientRequestId { header_name: dn });
    assert(sets_header(pc[j], dn));
    assert forall|i: int| j < i < pc.len() implies !sets_header(#[trigger] pc[i], dn) by {
        assert(pc[i] == PolicyModel::UserAgent { agent });
    }
    lemma_chain_last_setter(pc, ctx, r0, generated, dn, j);
    lemma_retried_frame(pr, ctx, apply_policies(pc, ctx, r0, generated), generated, k, dn);
}

/// Toggle correctness, telemetry on: through a pipeline with telemetry
/// enabled and no other policy writing the identity header, the request
/// leaving the chain carries exactly one identity header, with the
/// assembled identity string.
pub proof fn lemma_identity_enabled(
    user: Seq<PolicyModel>,
    pr: Seq<PolicyModel>,
    agent: Seq<char>,
    ctx: Context,
    r0: RequestModel,
    generated: Seq<char>,
    k: nat,
)
    requires
        !model_contains_kind(user, PolicyKind::UserAgent),
        forall|i: int| 0 <= i < user.len() ==> !sets_header(#[trigger] user[i], "user-agent"@),
        forall|i: int| 0 <= i < pr.len() ==> !sets_header(#[trigger] pr[i], "user-agent"@),
    ensures
        ({
            let sent = retried(
                pr,
                ctx,
                apply_policies(assembled_per_call(user, false, agent), ctx, r0, generated),
                generated,
                k,
            );
            &&& headers_lookup(sent.headers, "user-agent"@) == Some(agent)
            &&& headers_count(sent.headers, "user-agent"@) == 1
        }),
{
    let un = "user-agent"@;
    let pc = assembled_per_call(user, false, agent);
    lemma_fixed_names_distinct();
    let with_crid = if model_contains_kind(user, PolicyKind::ClientRequestId) {
        user
    } else {
        user.push(PolicyModel::ClientRequestId { header_name: "x-ms-client-request-id"@ })
    };
    assert forall|i: int| 0 <= i < with_crid.len() implies model_kind(#[trigger] with_crid[i])
        != PolicyKind::UserAgent by {
        if i < user.len() {
            assert(with_crid[i] == user[i]);
        }
    }
    assert(!model_contains_kind(with_crid, PolicyKind::UserAgent));
    let j = with_crid.len() as int;
    assert(pc == with_crid.push(PolicyModel::UserAgent { agent }));
    assert(sets_header(pc[j], un));
    lemma_chain_last_setter(pc, ctx, r0, generated, un, j);
    lemma_retried_frame(pr, ctx, apply_policies(pc, ctx, r0, generated), generated, k, un);
}

/// Toggle correctness, telemetry off: through a pipeline with telemetry
/// disabled and no policy writing the identity header, a request that
/// carried no identity header leaves the chain still carrying none.
pub proof fn lemma_identity_disabled(
    user: Seq<PolicyModel>,
    pr: Seq<PolicyModel>,
    agent: Seq<char>,
    ctx: Context,
    r0: RequestModel,
    generated: Seq<char>,
    k: nat,
)
    requires
        forall|i: int| 0 <= i < user.len() ==> !sets_header(#[trigger] user[i], "user-agent"@),
        forall|i: int| 0 <= i < pr.len() ==> !sets_header(#[trigger] pr[i], "user-agent"@),
        headers_lookup(r0.headers, "user-agent"@) is None,
    ensures
        headers_lookup(
            retried(
                pr,
                ctx,
                apply_policies(assembled_per_call(user, true, agent), ctx, r0, generated),
                generated,
                k,
            ).headers,
            "user-agent"@,
        ) is None,
{
    let un = "user-agent"@;
    let pc = assembled_per_call(user, true, agent);
    lemma_fixed_names_distinct();
    assert forall|i: int| 0 <= i < pc.len() implies !sets_header(#[trigger] pc[i], un) by {
        if i < user.len() {
            assert(pc[i] == user[i]);
        } else {
            assert(pc[i] == PolicyModel::ClientRequestId {
                header_name: "x-ms-client-request-id"@,
            });
        }
    }
    lemma_chain_frame(pc, ctx, r0, generated, un);
    lemma_retried_frame(pr, ctx, apply_policies(pc, ctx, r0, generated), generated, k, un);
}

} // verus!
