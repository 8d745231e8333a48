//! Request signing: a keyed digest over the canonical parameter string.
//! Two algorithms serve two purposes: the legacy digest matches the upstream
//! service's own signing scheme; the stronger digest authenticates inbound
//! requests from trusted callers.

use vstd::prelude::*;
use crate::params::ParamSet;
use crate::canonical::{signature_base, signature_base_spec};
use sha2::Digest;

verus! {

/// The hex rendering of the 128-bit legacy digest of a string's bytes.
pub uninterp spec fn md5_hex_of(s: Seq<char>) -> Seq<char>;

/// The hex rendering of the 256-bit digest of a string's bytes.
pub uninterp spec fn sha256_hex_of(s: Seq<char>) -> Seq<char>;

/// Relies on md5::compute and the LowerHex rendering of its digest: the
/// 128-bit digest of the string's bytes as 32 lowercase hex characters,
/// a function of the input alone.
#[verifier::external_body]
fn md5_hex(s: &str) -> (r: String)
    ensures
        r@ == md5_hex_of(s@),
        r@.len() == 32,
{
    format!("{:x}", md5::compute(s.as_bytes()))
}

/// Relies on sha2::Sha256 and hex::encode: the 256-bit digest of the
/// string's bytes as 64 lowercase hex characters, a function of the input
/// alone.
#[verifier::external_body]
fn sha256_hex(s: &str) -> (r: String)
    ensures
        r@ == sha256_hex_of(s@),
        r@.len() == 64,
{
    let mut hasher = sha2::Sha256::new();
    hasher.update(s.as_bytes());
    hex::encode(hasher.finalize())
}

/// Supported hash algorithms for signing.
#[derive(Clone, Copy, PartialEq, Eq, Structural)]
pub enum HashAlgorithm {
    MD5,
    SHA256,
}

/// The signature of a parameter mapping under a shared secret: the digest of
/// the canonical parameter string with the secret appended.
pub open spec fn signature_of(
    pm: Map<Seq<char>, Seq<char>>,
    secret: Seq<char>,
    algorithm: HashAlgorithm,
) -> Seq<char> {
    match algorithm {
        HashAlgorithm::MD5 => md5_hex_of(signature_base_spec(pm, secret)),
        HashAlgorithm::SHA256 => sha256_hex_of(signature_base_spec(pm, secret)),
    }
}

/// The length of a signature's hex rendering, by algorithm.
pub open spec fn signature_len(algorithm: HashAlgorithm) -> int {
    match algorithm {
        HashAlgorithm::MD5 => 32,
        HashAlgorithm::SHA256 => 64,
    }
}

/// The signature binds to the caller's credential: a parameter set that
/// carries `api_key` keeps it among the canonical pairs the signature
/// digests, while `api_sig`, `format` and `callback` never appear there.
pub proof fn lemma_signature_includes_api_key(pm: Map<Seq<char>, Seq<char>>)
    requires
        pm.dom().finite(),
        pm.contains_key("api_key"@),
    ensures
        crate::params::has_key(
            crate::canonical::canonical_pairs(pm, crate::canonical::ExclusionSet::Signature),
            "api_key"@,
        ),
        forall|i: int|
            0 <= i < crate::canonical::canonical_pairs(
                pm,
                crate::canonical::ExclusionSet::Signature,
            ).len() ==> !crate::canonical::excluded_by(
                crate::canonical::ExclusionSet::Signature,
                (#[trigger] crate::canonical::canonical_pairs(
                    pm,
                    crate::canonical::ExclusionSet::Signature,
                )[i]).0,
            ),
{
    reveal_strlit("api_key");
    reveal_strlit("api_sig");
    reveal_strlit("format");
    reveal_strlit("callback");
    assert("api_key"@[4] != "api_sig"@[4]);
    assert("api_key"@ != "api_sig"@);
    assert("api_key"@.len() != "format"@.len());
    assert("api_key"@.len() != "callback"@.len());
    assert(!crate::canonical::excluded_by(
        crate::canonical::ExclusionSet::Signature,
        "api_key"@,
    ));
    crate::canonical::lemma_canonical_pairs_ensures(
        pm,
        crate::canonical::ExclusionSet::Signature,
    );
}

/// Sign request parameters with the specified algorithm. The signature
/// depends only on the parameter mapping, never on insertion order.
pub fn sign_request(params: &ParamSet, secret: &str, algorithm: HashAlgorithm) -> (r: String)
    requires
        params.wf(),
    ensures
        r@ == signature_of(params@, secret@, algorithm),
        r@.len() == signature_len(algorithm),
{
    let base = signature_base(params, secret);
    match algorithm {
        HashAlgorithm::MD5 => md5_hex(base.as_str()),
        HashAlgorithm::SHA256 => sha256_hex(base.as_str()),
    }
}

} // verus!
