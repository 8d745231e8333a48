//! Request middleware: the per-client fixed-window rate limiter, inbound
//! signature validation, parameter validation against the rule table, and
//! the response headers shared by every route.

use vstd::prelude::*;
use crate::error::{ApiError, ApiResult};
use crate::params::{ParamSet, entries_view};
use crate::models::rate_limit_key;
use crate::signing::{HashAlgorithm, signature_of};
use crate::store::{TtlStore, live_lookup, all_digits, dec_value, dec_string_of, parse_u32,
    u32_to_string, lemma_dec_round_trip};
use crate::validation::{rule_for, rule_satisfied, rule_missing_message};

verus! {

/// Requests allowed per client per window.
pub const RATE_LIMIT_THRESHOLD: u32 = 100;

/// The window length in seconds.
pub const RATE_LIMIT_WINDOW_SECS: u64 = 60;

/// The client's current request count as the limiter reads it: the live
/// counter value under the client's key, zero when absent, expired, or not
/// a decimal number that fits.
pub open spec fn counter_of(
    m: Map<Seq<char>, (Seq<char>, u64)>,
    key: Seq<char>,
    now: u64,
) -> nat {
    match live_lookup(m, key, now) {
        Some(v) => if v.len() > 0 && all_digits(v) && dec_value(v) <= u32::MAX {
            dec_value(v)
        } else {
            0
        },
        None => 0,
    }
}

/// Check and consume one unit of the client's rate allowance. At the
/// threshold the request is refused and the store is untouched; below it
/// the counter is rewritten as one more, with a fresh window.
pub fn rate_limit(store: &mut TtlStore, client_ip: &str, now: u64) -> (r: ApiResult<()>)
    requires
        old(store).wf(),
        now + RATE_LIMIT_WINDOW_SECS <= u64::MAX,
    ensures
        final(store).wf(),
        ({
            let key = "rate_limit:"@ + client_ip@;
            let count = counter_of(old(store)@, key, now);
            if count >= RATE_LIMIT_THRESHOLD {
                &&& r is Err
                &&& r->Err_0.error == 29
                &&& r->Err_0.message@
                    == "Rate limit exceeded - Your IP has made too many requests in a short period"@
                &&& final(store)@ == old(store)@
            } else {
                &&& r is Ok
                &&& final(store)@ == old(store)@.insert(
                    key,
                    (
                        dec_string_of((count + 1) as nat),
                        (now + RATE_LIMIT_WINDOW_SECS) as u64,
                    ),
                )
            }
        }),
{
    let key = rate_limit_key(client_ip);
    let ghost count = counter_of(store@, key@, now);
    let current: u32 = match store.get(key.as_str(), now) {
        Some(text) => match parse_u32(text.as_str()) {
            Some(n) => n,
            None => 0,
        },
        None => 0,
    };
    proof {
        assert(current == count);
    }
    if current >= RATE_LIMIT_THRESHOLD {
        return Err(ApiError::rate_limit_exceeded());
    }
    let next = current + 1;
    let rendered = u32_to_string(next);
    store.set(key.as_str(), rendered.as_str(), RATE_LIMIT_WINDOW_SECS, now);
    Ok(())
}

/// A counter written by a successful rate-limit step reads back as its
/// value until the window's expiry instant, and as zero from then on.
pub proof fn lemma_rate_counter_after_increment(
    m: Map<Seq<char>, (Seq<char>, u64)>,
    key: Seq<char>,
    n: u32,
    expiry: u64,
    later: u64,
)
    ensures
        counter_of(m.insert(key, (dec_string_of(n as nat), expiry)), key, later) == if later
            < expiry {
            n as nat
        } else {
            0
        },
{
    lemma_dec_round_trip(n as nat);
}

/// One client's rate-limit step never changes what another client's
/// counter reads.
pub proof fn lemma_rate_counter_isolated(
    m: Map<Seq<char>, (Seq<char>, u64)>,
    key1: Seq<char>,
    key2: Seq<char>,
    entry: (Seq<char>, u64),
    now: u64,
)
    requires
        key1 != key2,
    ensures
        counter_of(m.insert(key1, entry), key2, now) == counter_of(m, key2, now),
{
}

/// The message of a failed parameter validation, before the error-code
/// prefix is attached.
pub open spec fn invalid_params_message(m: Seq<char>) -> Seq<char> {
    match rule_for(m) {
        Some(rule) => rule_missing_message(rule),
        None => "Unknown method: "@ + m,
    }
}

/// Validate parameters for a method, reporting failures as the normalized
/// error with code 6.
pub fn validate_method_params(method: &str, params: &ParamSet) -> (r: ApiResult<()>)
    requires
        params.wf(),
    ensures
        match r {
            Ok(()) => rule_for(method@) is Some && rule_satisfied(rule_for(method@)->Some_0, params@),
            Err(e) => {
                &&& !(rule_for(method@) is Some && rule_satisfied(rule_for(method@)->Some_0, params@))
                &&& e.error == 6
                &&& e.message@ == "Invalid parameters - "@ + invalid_params_message(method@)
            },
        },
{
    match crate::validation::validate_method_params(method, params) {
        Ok(()) => Ok(()),
        Err(msg) => Err(ApiError::invalid_parameters(msg.as_str())),
    }
}

/// Validate an inbound request signature. A request without a signature
/// passes; one with a signature passes exactly when it equals the
/// strengthened signature of the parameters under the signing key.
pub fn validate_signature(
    provided: Option<&String>,
    params: &ParamSet,
    signing_key: &str,
) -> (r: ApiResult<()>)
    requires
        params.wf(),
    ensures
        match r {
            Ok(()) => provided is None || provided->Some_0@ == signature_of(
                params@,
                signing_key@,
                HashAlgorithm::SHA256,
            ),
            Err(e) => {
                &&& provided is Some
                &&& provided->Some_0@ != signature_of(
                    params@,
                    signing_key@,
                    HashAlgorithm::SHA256,
                )
                &&& e.error == 13
                &&& e.message@ == "Invalid method signature supplied"@
            },
        },
{
    match provided {
        None => Ok(()),
        Some(signature) => {
            let expected = crate::models::sign_request(params, signing_key);
            if signature.as_str().to_owned() == expected {
                Ok(())
            } else {
                Err(ApiError::invalid_signature())
            }
        },
    }
}

/// Validate a request: the inbound signature first, then the method's
/// required parameters. Both checks run before any network activity.
pub fn validate_request(
    provided_sig: Option<&String>,
    params: &ParamSet,
    signing_key: &str,
    method_name: &str,
) -> (r: ApiResult<()>)
    requires
        params.wf(),
    ensures
        match r {
            Ok(()) => {
                &&& provided_sig is None || provided_sig->Some_0@ == signature_of(
                    params@,
                    signing_key@,
                    HashAlgorithm::SHA256,
                )
                &&& rule_for(method_name@) is Some
                &&& rule_satisfied(rule_for(method_name@)->Some_0, params@)
            },
            Err(e) => {
                let sig_ok = provided_sig is None || provided_sig->Some_0@ == signature_of(
                    params@,
                    signing_key@,
                    HashAlgorithm::SHA256,
                );
                let rule_ok = rule_for(method_name@) is Some && rule_satisfied(
                    rule_for(method_name@)->Some_0,
                    params@,
                );
                &&& !(sig_ok && rule_ok)
                &&& !sig_ok ==> e.error == 13 && e.message@
                    == "Invalid method signature supplied"@
                &&& sig_ok ==> !rule_ok && e.error == 6 && e.message@ == "Invalid parameters - "@
                    + invalid_params_message(method_name@)
            },
        },
{
    match validate_signature(provided_sig, params, signing_key) {
        Ok(()) => validate_method_params(method_name, params),
        Err(e) => Err(e),
    }
}

/// The response headers every route attaches for cross-origin access.
pub open spec fn cors_pairs() -> Seq<(Seq<char>, Seq<char>)> {
    seq![
        ("Access-Control-Allow-Origin"@, "*"@),
        ("Access-Control-Allow-Methods"@, "GET, OPTIONS"@),
        ("Access-Control-Allow-Headers"@, "Content-Type, X-Request-Signature"@),
        ("Access-Control-Max-Age"@, "86400"@),
    ]
}

/// Append the cross-origin response headers.
pub fn add_cors_headers(headers: &mut Vec<(String, String)>)
    ensures
        entries_view(final(headers)@) == entries_view(old(headers)@) + cors_pairs(),
{
    headers.push(("Access-Control-Allow-Origin".to_owned(), "*".to_owned()));
    headers.push(("Access-Control-Allow-Methods".to_owned(), "GET, OPTIONS".to_owned()));
    headers.push(
        (
            "Access-Control-Allow-Headers".to_owned(),
            "Content-Type, X-Request-Signature".to_owned(),
        ),
    );
    headers.push(("Access-Control-Max-Age".to_owned(), "86400".to_owned()));
    proof {
        assert(entries_view(headers@) =~= entries_view(old(headers)@) + cors_pairs());
    }
}

} // verus!
