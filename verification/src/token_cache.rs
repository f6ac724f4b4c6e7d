//! The token cache: memoizes a previously obtained credential until near
//! expiry, refreshing it proactively through a caller-supplied fetch
//! boundary, and coalescing concurrent refreshes into a single flight.
//!
//! The cache itself is sequential, verified logic; the single-flight guard
//! is the decision component a concurrent wrapper consults so that callers
//! arriving during a refresh await the one in-flight fetch instead of each
//! triggering their own.

use vstd::prelude::*;
use crate::error::{Error, ErrorKind};

verus! {

/// How long before expiry a cached token is refreshed proactively, in
/// seconds.
pub const REFRESH_WINDOW_SECS: u64 = 300;

/// An access token: the secret and the instant it expires, in seconds.
#[derive(Debug)]
pub struct AccessToken {
    /// The token secret.
    pub token: String,
    /// Expiry instant, as seconds of unix time.
    pub expires_on: u64,
}

impl Clone for AccessToken {
    /// A copy with the same secret and expiry.
    fn clone(&self) -> (r: AccessToken)
        ensures
            r.token@ == self.token@,
            r.expires_on == self.expires_on,
    {
        AccessToken { token: self.token.clone(), expires_on: self.expires_on }
    }
}

impl AccessToken {
    /// A token from its secret and expiry instant.
    pub fn new(token: String, expires_on: u64) -> (r: AccessToken)
        ensures
            r.token@ == token@,
            r.expires_on == expires_on,
    {
        AccessToken { token, expires_on }
    }
}

/// Whether a cached token may still be served: its expiry is strictly in
/// the future, by more than the refresh window.
pub open spec fn token_fresh(t: AccessToken, now: u64) -> bool {
    t.expires_on > now && t.expires_on - now > REFRESH_WINDOW_SECS
}

/// Whether the cache holds a token it may serve at this instant.
pub open spec fn cache_hit(entry: Option<AccessToken>, now: u64) -> bool {
    entry is Some && token_fresh(entry->0, now)
}

/// The cache: at most one entry per credential instance.  An entry is
/// replaced, never mutated in place, and a failed refresh leaves the
/// previous entry untouched.
#[derive(Debug)]
pub struct TokenCache {
    /// The cached entry, if any.
    pub entry: Option<AccessToken>,
}

impl TokenCache {
    /// An empty cache.
    pub fn new() -> (r: TokenCache)
        ensures
            r.entry is None,
    {
        TokenCache { entry: None }
    }

    /// Serves the cached token when it is present and not yet within the
    /// refresh window of its expiry; otherwise invokes the supplied fetch
    /// boundary, stores its result, and returns it.  Exactly one scope must
    /// be supplied; a fetch failure propagates and the previous entry, if
    /// any, is left untouched.
    pub fn get_token<F: Fn(&Vec<String>) -> Result<AccessToken, Error>>(
        &mut self,
        scopes: &Vec<String>,
        now: u64,
        fetch: F,
    ) -> (r: Result<AccessToken, Error>)
        requires
            forall|s: &Vec<String>| #[trigger] call_requires(fetch, (s,)),
        ensures
            scopes@.len() != 1 ==> (r is Err && r->Err_0.kind == ErrorKind::Credential
                && final(self).entry == old(self).entry),
            (scopes@.len() == 1 && cache_hit(old(self).entry, now)) ==> (r is Ok
                && r->Ok_0.token@ == old(self).entry->0.token@ && r->Ok_0.expires_on == old(self).entry->0.expires_on && r->Ok_0.expires_on > now && final(self).entry == old(self).entry),
            (scopes@.len() == 1 && !cache_hit(old(self).entry, now) && r is Ok) ==> (exists|
                f: AccessToken,
            |
                #[trigger] call_ensures(fetch, (scopes,), Result::<AccessToken, Error>::Ok(f))
                    && r->Ok_0.token@ == f.token@ && r->Ok_0.expires_on == f.expires_on && final(self).entry is Some && final(self).entry->0.token@ == f.token@ && final(self).entry->0.expires_on == f.expires_on),
            (scopes@.len() == 1 && !cache_hit(old(self).entry, now) && r is Err) ==> (final(self).entry == old(self).entry && call_ensures(
                fetch,
                (scopes,),
                Result::<AccessToken, Error>::Err(r->Err_0),
            )),
    {
        if scopes.len() != 1 {
            return Err(
                Error::credential(
                    "only one scope is supported for IMDS authentication".to_owned(),
                ),
            );
        }
        match &self.entry {
            Some(t) => {
                let still_valid = t.expires_on > now && t.expires_on - now > REFRESH_WINDOW_SECS;
                if still_valid {
                    return Ok(t.clone());
                }
            },
            None => {},
        }
        let fetched = fetch(scopes);
        match fetched {
            Ok(token) => {
                let served = token.clone();
                self.entry = Some(token);
                Ok(served)
            },
            Err(e) => Err(e),
        }
    }
}

/// What the single-flight guard tells one arriving call to do.
#[derive(Clone, Copy, Debug, PartialEq, Eq, Structural)]
pub enum CallAction {
    /// Serve the cached token; it is fresh.
    ServeCached,
    /// A refresh is already in flight: await its result.
    AwaitInFlight,
    /// Nothing is in flight: this caller starts the one fetch.
    StartFetch,
}

/// The single-flight transition: given whether a fetch is in flight and
/// whether the cache holds a fresh token, the state after one arriving
/// call and what that call does.
pub open spec fn flight_step(in_flight: bool, cache_fresh: bool) -> (bool, CallAction) {
    if cache_fresh {
        (in_flight, CallAction::ServeCached)
    } else if in_flight {
        (in_flight, CallAction::AwaitInFlight)
    } else {
        (true, CallAction::StartFetch)
    }
}

/// How many of `calls` consecutive arrivals — all before the first result
/// is available, so none sees a fresh cache — are told to start a fetch.
pub open spec fn fetch_starts(in_flight: bool, calls: nat) -> nat
    decreases calls,
{
    if calls == 0 {
        0
    } else {
        let stepped = flight_step(in_flight, false);
        (if stepped.1 is StartFetch {
            1nat
        } else {
            0nat
        }) + fetch_starts(stepped.0, (calls - 1) as nat)
    }
}

/// Once a fetch is in flight, no later arrival starts another.
pub proof fn lemma_no_second_fetch(calls: nat)
    ensures
        fetch_starts(true, calls) == 0,
    decreases calls,
{
    if calls > 0 {
        lemma_no_second_fetch((calls - 1) as nat);
    }
}

/// Single flight: for any number of calls arriving before the first
/// result is available, exactly one fetch is started.
pub proof fn lemma_single_flight(calls: nat)
    requires
        calls >= 1,
    ensures
        fetch_starts(false, calls) == 1,
{
    lemma_no_second_fetch((calls - 1) as nat);
}

/// Cache hit: an arrival that sees a fresh cache is served from it and
/// starts nothing, whatever is in flight.
pub proof fn lemma_cache_hit_serves(in_flight: bool)
    ensures
        flight_step(in_flight, true).1 == CallAction::ServeCached,
        flight_step(in_flight, true).0 == in_flight,
{
}

/// The single-flight guard a concurrent wrapper consults around the cache.
#[derive(Debug)]
pub struct SingleFlight {
    /// Whether a fetch is currently in flight.
    pub in_flight: bool,
}

impl SingleFlight {
    /// A guard with nothing in flight.
    pub fn new() -> (r: SingleFlight)
        ensures
            !r.in_flight,
    {
        SingleFlight { in_flight: false }
    }

    /// Decides what one arriving call does, and records a started fetch.
    pub fn on_call(&mut self, cache_fresh: bool) -> (r: CallAction)
        ensures
            (final(self).in_flight, r) == flight_step(old(self).in_flight, cache_fresh),
    {
        if cache_fresh {
            CallAction::ServeCached
        } else if self.in_flight {
            CallAction::AwaitInFlight
        } else {
            self.in_flight = true;
            CallAction::StartFetch
        }
    }

    /// Records that the in-flight fetch delivered its result.
    pub fn on_fetch_complete(&mut self)
        ensures
            !final(self).in_flight,
    {
        self.in_flight = false;
    }
}

} // verus!
