//! The request pipeline: rate limiting, validation, cache lookup, upstream
//! dispatch preparation, error normalization and the cache-write decision.
//! The network call itself happens between `prepare` and `finish`; every
//! decision around it is made here.

use vstd::prelude::*;
use crate::error::ApiError;
use crate::canonical::cache_key_spec;
use crate::middleware::{rate_limit, validate_request, counter_of, RATE_LIMIT_THRESHOLD,
    RATE_LIMIT_WINDOW_SECS};
use crate::params::ParamSet;
use crate::signing::{HashAlgorithm, signature_of};
use crate::store::{TtlStore, live_lookup, dec_string_of};
use crate::utils::{parse_lastfm_error, lastfm_error_view};
use crate::validation::{rule_for, rule_satisfied};

verus! {

/// How long a successful response stays cached, in seconds.
pub const CACHE_TTL_SECS: u64 = 3600;

/// The cross-request state of the proxy: the response cache and the
/// rate-limit counters, each in its own store namespace.
pub struct ProxyState {
    pub cache: TtlStore,
    pub rate: TtlStore,
}

impl ProxyState {
    /// Both stores are well-formed.
    pub open spec fn wf(&self) -> bool {
        self.cache.wf() && self.rate.wf()
    }

    /// A proxy with empty stores.
    pub fn new() -> (r: ProxyState)
        ensures
            r.wf(),
            r.cache@ == Map::<Seq<char>, (Seq<char>, u64)>::empty(),
            r.rate@ == Map::<Seq<char>, (Seq<char>, u64)>::empty(),
    {
        ProxyState { cache: TtlStore::new(), rate: TtlStore::new() }
    }
}

/// What the pipeline decides before any upstream call.
pub enum RequestPlan {
    /// The request is refused before any upstream work.
    Reject(ApiError),
    /// A live cached body answers the request.
    ServeFromCache(String),
    /// The upstream must be called; a success is cached under this key.
    Fetch(String),
}

/// Everything that runs before the upstream call, in order: the rate limit
/// is consumed first, then the inbound signature and the parameters are
/// validated, then the cache is consulted. A validation failure leaves the
/// cache untouched, but the rate allowance is already spent.
pub fn prepare_request(
    state: &mut ProxyState,
    client_ip: &str,
    method_name: &str,
    params: &ParamSet,
    provided_sig: Option<&String>,
    signing_key: &str,
    now: u64,
) -> (r: RequestPlan)
    requires
        old(state).wf(),
        params.wf(),
        now + RATE_LIMIT_WINDOW_SECS <= u64::MAX,
    ensures
        final(state).wf(),
        ({
            let key = "rate_limit:"@ + client_ip@;
            let count = counter_of(old(state).rate@, key, now);
            let rate_ok = count < RATE_LIMIT_THRESHOLD;
            let sig_ok = provided_sig is None || provided_sig->Some_0@ == signature_of(
                params@,
                signing_key@,
                HashAlgorithm::SHA256,
            );
            let rule_ok = rule_for(method_name@) is Some && rule_satisfied(
                rule_for(method_name@)->Some_0,
                params@,
            );
            let ckey = cache_key_spec(method_name@, params@);
            &&& final(state).cache@ == old(state).cache@
            &&& final(state).rate@ == if rate_ok {
                old(state).rate@.insert(
                    key,
                    (
                        dec_string_of((count + 1) as nat),
                        (now + RATE_LIMIT_WINDOW_SECS) as u64,
                    ),
                )
            } else {
                old(state).rate@
            }
            &&& match r {
                RequestPlan::Reject(e) => {
                    &&& !(rate_ok && sig_ok && rule_ok)
                    &&& !rate_ok ==> e.error == 29 && e.message@
                        == "Rate limit exceeded - Your IP has made too many requests in a short period"@
                    &&& rate_ok && !sig_ok ==> e.error == 13 && e.message@
                        == "Invalid method signature supplied"@
                    &&& rate_ok && sig_ok && !rule_ok ==> e.error == 6 && e.message@
                        == "Invalid parameters - "@ + crate::middleware::invalid_params_message(
                        method_name@,
                    )
                },
                RequestPlan::ServeFromCache(body) => {
                    &&& rate_ok && sig_ok && rule_ok
                    &&& live_lookup(old(state).cache@, ckey, now) == Some(body@)
                },
                RequestPlan::Fetch(ck) => {
                    &&& rate_ok && sig_ok && rule_ok
                    &&& ck@ == ckey
                    &&& live_lookup(old(state).cache@, ckey, now) is None
                },
            }
        }),
{
    match rate_limit(&mut state.rate, client_ip, now) {
        Ok(()) => (),
        Err(e) => {
            return RequestPlan::Reject(e);
        },
    }
    match validate_request(provided_sig, params, signing_key, method_name) {
        Ok(()) => (),
        Err(e) => {
            return RequestPlan::Reject(e);
        },
    }
    let cache_key = params.cache_key(method_name);
    match state.cache.get(cache_key.as_str(), now) {
        Some(body) => RequestPlan::ServeFromCache(body),
        None => RequestPlan::Fetch(cache_key),
    }
}

/// Everything that runs after the upstream call: a missing body means the
/// upstream was unreachable or failing; a body carrying the upstream error
/// shape is normalized and never cached; a clean body is returned, and
/// cached only when the route allows caching.
pub fn finish_request(
    state: &mut ProxyState,
    cache_key: &str,
    body: Option<String>,
    cacheable: bool,
    now: u64,
) -> (r: Result<String, ApiError>)
    requires
        old(state).wf(),
        now + CACHE_TTL_SECS <= u64::MAX,
    ensures
        final(state).wf(),
        final(state).rate@ == old(state).rate@,
        match body {
            None => {
                &&& r is Err
                &&& r->Err_0.error == 11
                &&& r->Err_0.message@
                    == "Service Offline - This service is temporarily offline. Try again later."@
                &&& final(state).cache@ == old(state).cache@
            },
            Some(b) => match lastfm_error_view(b@) {
                Some((code, message)) => {
                    &&& r is Err
                    &&& r->Err_0.error == code
                    &&& r->Err_0.message@ == message
                    &&& final(state).cache@ == old(state).cache@
                },
                None => {
                    &&& r is Ok
                    &&& r->Ok_0@ == b@
                    &&& final(state).cache@ == if cacheable {
                        old(state).cache@.insert(
                            cache_key@,
                            (b@, (now + CACHE_TTL_SECS) as u64),
                        )
                    } else {
                        old(state).cache@
                    }
                },
            },
        },
{
    let b = match body {
        Some(b) => b,
        None => {
            return Err(ApiError::service_offline());
        },
    };
    match parse_lastfm_error(b.as_str()) {
        Some(e) => Err(e),
        None => {
            if cacheable {
                state.cache.set(cache_key, b.as_str(), CACHE_TTL_SECS, now);
            }
            Ok(b)
        },
    }
}

/// The parameter mapping after the proxy signs a privileged call: with the
/// method name joined in, the legacy signature computed over that mapping
/// is attached, and the method name is taken back out. A request that
/// already carries a signature is left as it is.
pub open spec fn auth_signed_view(
    pm: Map<Seq<char>, Seq<char>>,
    method: Seq<char>,
    secret: Seq<char>,
) -> Map<Seq<char>, Seq<char>> {
    if pm.contains_key("api_sig"@) {
        pm
    } else {
        let with_method = pm.insert("method"@, method);
        with_method.insert(
            "api_sig"@,
            signature_of(with_method, secret, HashAlgorithm::MD5),
        ).remove("method"@)
    }
}

/// Attach the server-computed legacy signature to the parameters of a
/// privileged call.
pub fn signed_params(params: ParamSet, method_name: &str, api_secret: &str) -> (r: ParamSet)
    requires
        params.wf(),
    ensures
        r.wf(),
        r@ == auth_signed_view(params@, method_name@, api_secret@),
{
    if params.contains_key("api_sig") {
        return params;
    }
    let mut p = params;
    p.insert("method", method_name);
    let api_sig = crate::utils::sign_request_md5(&p, api_secret);
    p.insert("api_sig", api_sig.as_str());
    p.remove("method");
    p
}

} // verus!
