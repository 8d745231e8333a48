//! Keys and signatures derived from request data: cache keys, rate-limit
//! keys, and the inbound-request signature.

use vstd::prelude::*;
use crate::params::ParamSet;
use crate::canonical::cache_key_spec;
use crate::signing::{HashAlgorithm, signature_of};

verus! {

/// Cache key derivation for a request against a method.
pub trait CacheKey {
    /// Whether the receiver is fit for key derivation.
    spec fn key_source_wf(&self) -> bool;

    /// The key the receiver derives for a method.
    spec fn cache_key_view(&self, method: Seq<char>) -> Seq<char>;

    /// Derive the cache key for a method.
    fn cache_key(&self, method: &str) -> (r: String)
        requires
            self.key_source_wf(),
        ensures
            r@ == self.cache_key_view(method@),
    ;
}

impl CacheKey for ParamSet {
    open spec fn key_source_wf(&self) -> bool {
        self.wf()
    }

    open spec fn cache_key_view(&self, method: Seq<char>) -> Seq<char> {
        cache_key_spec(method, self@)
    }

    fn cache_key(&self, method: &str) -> (r: String) {
        ParamSet::cache_key(self, method)
    }
}

/// The rate-limit counter key of a client: `rate_limit:<client>`.
pub fn rate_limit_key(ip: &str) -> (r: String)
    ensures
        r@ == "rate_limit:"@ + ip@,
{
    let mut out = String::new();
    out.append("rate_limit:");
    out.append(ip);
    out
}

/// The strengthened inbound-request signature of a parameter set under a
/// shared secret.
pub fn sign_request(params: &ParamSet, secret: &str) -> (r: String)
    requires
        params.wf(),
    ensures
        r@ == signature_of(params@, secret@, HashAlgorithm::SHA256),
        r@.len() == 64,
{
    crate::signing::sign_request(params, secret, HashAlgorithm::SHA256)
}

} // verus!
