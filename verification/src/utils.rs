//! Request plumbing around the pipeline: client identification, query
//! parsing, upstream URL construction, and translation of upstream error
//! bodies into the normalized error shape.

use vstd::prelude::*;
use crate::error::ApiError;
use crate::lex::str_eq;
use crate::params::{ParamSet, map_of, entries_view};

verus! {

/// The client identifier of a request: the connecting address when the
/// edge reports one, else the forwarded address, else `unknown`.
pub fn get_client_ip(connecting_ip: Option<String>, forwarded_for: Option<String>) -> (r: String)
    ensures
        r@ == match connecting_ip {
            Some(ip) => ip@,
            None => match forwarded_for {
                Some(ip) => ip@,
                None => "unknown"@,
            },
        },
{
    match connecting_ip {
        Some(ip) => ip,
        None => match forwarded_for {
            Some(ip) => ip,
            None => "unknown".to_owned(),
        },
    }
}

/// The decoded query pairs of a URL, in order; nothing when the text is
/// not a URL.
pub uninterp spec fn url_query_pairs_of(u: Seq<char>) -> Option<Seq<(Seq<char>, Seq<char>)>>;

/// The views of an optional pair list.
pub open spec fn opt_entries_view(r: Option<Vec<(String, String)>>) -> Option<
    Seq<(Seq<char>, Seq<char>)>,
> {
    match r {
        Some(ps) => Some(entries_view(ps@)),
        None => None,
    }
}

/// Relies on url::Url::parse and Url::query_pairs: the percent-decoded
/// query pairs of the URL, in order; nothing when the text does not parse
/// as a URL. A function of the text alone.
#[verifier::external_body]
fn url_query_pairs(u: &str) -> (r: Option<Vec<(String, String)>>)
    ensures
        opt_entries_view(r) == url_query_pairs_of(u@),
{
    match url::Url::parse(u) {
        Ok(parsed) => Some(
            parsed.query_pairs().map(|(k, v)| (k.into_owned(), v.into_owned())).collect(),
        ),
        Err(_) => None,
    }
}

/// Parse the query parameters of a request URL into a parameter set.
/// A pair repeated in the query keeps its last value, as map insertion
/// does.
pub fn parse_query_params(url: &str) -> (r: Option<ParamSet>)
    ensures
        match r {
            Some(params) => {
                &&& params.wf()
                &&& url_query_pairs_of(url@) is Some
                &&& params@ == map_of(url_query_pairs_of(url@)->Some_0)
            },
            None => url_query_pairs_of(url@) is None,
        },
{
    let pairs = match url_query_pairs(url) {
        Some(ps) => ps,
        None => {
            return None;
        },
    };
    let ghost pv = entries_view(pairs@);
    let mut params = ParamSet::new();
    proof {
        assert(pv.take(0) =~= Seq::<(Seq<char>, Seq<char>)>::empty());
    }
    let n = pairs.len();
    let mut i: usize = 0;
    while i < n
        invariant
            0 <= i <= n,
            n == pairs@.len(),
            pv == entries_view(pairs@),
            params.wf(),
            params@ == map_of(pv.take(i as int)),
        decreases n - i,
    {
        params.insert(pairs[i].0.as_str(), pairs[i].1.as_str());
        proof {
            assert(pv.take(i as int + 1).drop_last() =~= pv.take(i as int));
            assert(pv.take(i as int + 1).last() == pv[i as int]);
            assert(pv[i as int].0 == pairs@[i as int].0@);
            assert(pv[i as int].1 == pairs@[i as int].1@);
        }
        i = i + 1;
    }
    proof {
        assert(pv.take(n as int) =~= pv);
    }
    Some(params)
}

/// A base URL with query pairs appended, percent-encoded; nothing when the
/// base does not parse as a URL.
pub uninterp spec fn url_with_query_of(base: Seq<char>, pairs: Seq<(Seq<char>, Seq<char>)>) -> Option<
    Seq<char>,
>;

/// The view of an optional string.
pub open spec fn opt_string_view(r: Option<String>) -> Option<Seq<char>> {
    match r {
        Some(s) => Some(s@),
        None => None,
    }
}

/// Relies on url::Url::parse, Url::query_pairs_mut and
/// form_urlencoded::Serializer::append_pair: the base URL with the pairs
/// appended to its query, each percent-encoded; nothing when the base does
/// not parse. A function of the arguments alone.
#[verifier::external_body]
fn url_with_query(base: &str, pairs: &Vec<(String, String)>) -> (r: Option<String>)
    ensures
        opt_string_view(r) == url_with_query_of(base@, entries_view(pairs@)),
{
    let mut u = match url::Url::parse(base) {
        Ok(u) => u,
        Err(_) => return None,
    };
    {
        let mut q = u.query_pairs_mut();
        for p in pairs.iter() {
            q.append_pair(&p.0, &p.1);
        }
    }
    Some(u.as_str().to_string())
}

/// A query name the upstream URL builder reserves for itself.
pub open spec fn reserved_upstream_name(k: Seq<char>) -> bool {
    k == "method"@ || k == "api_key"@ || k == "format"@
}

/// Whether a pair survives into the upstream query.
pub open spec fn keep_pred() -> spec_fn((Seq<char>, Seq<char>)) -> bool {
    |p: (Seq<char>, Seq<char>)| !reserved_upstream_name(p.0)
}

/// The query pairs of an upstream request: the method, the proxy's own
/// key, the JSON format selector, then every caller parameter that does
/// not collide with those three, in stored order.
pub open spec fn lastfm_query_pairs(
    method: Seq<char>,
    pairs: Seq<(Seq<char>, Seq<char>)>,
    api_key: Seq<char>,
) -> Seq<(Seq<char>, Seq<char>)> {
    seq![("method"@, method), ("api_key"@, api_key), ("format"@, "json"@)] + pairs.filter(
        keep_pred(),
    )
}

/// Build the upstream API URL for a method call: the base URL carrying the
/// method, the API key, `format=json`, and the caller's other parameters.
pub fn build_lastfm_url(
    base_url: &str,
    method: &str,
    params: &ParamSet,
    api_key: &str,
) -> (r: Option<String>)
    ensures
        opt_string_view(r) == url_with_query_of(
            base_url@,
            lastfm_query_pairs(method@, params.pairs(), api_key@),
        ),
{
    let ghost goal = lastfm_query_pairs(method@, params.pairs(), api_key@);
    let ghost pred = keep_pred();
    let mut pairs: Vec<(String, String)> = Vec::new();
    pairs.push(("method".to_owned(), method.to_owned()));
    pairs.push(("api_key".to_owned(), api_key.to_owned()));
    pairs.push(("format".to_owned(), "json".to_owned()));
    let ghost fixed = seq![("method"@, method@), ("api_key"@, api_key@), ("format"@, "json"@)];
    proof {
        reveal(Seq::filter);
        assert(Seq::<(Seq<char>, Seq<char>)>::empty().filter(pred) =~= Seq::<
            (Seq<char>, Seq<char>),
        >::empty());
        assert(params.pairs().take(0) =~= Seq::<(Seq<char>, Seq<char>)>::empty());
        assert(entries_view(pairs@) =~= fixed + params.pairs().take(0).filter(pred));
    }
    let src = params.entries();
    let ghost sp = params.pairs();
    let n = src.len();
    let mut i: usize = 0;
    while i < n
        invariant
            0 <= i <= n,
            n == src@.len(),
            entries_view(src@) == sp,
            pred == keep_pred(),
            entries_view(pairs@) == fixed + sp.take(i as int).filter(pred),
        decreases n - i,
    {
        let keep = !(str_eq(src[i].0.as_str(), "method") || str_eq(src[i].0.as_str(), "api_key")
            || str_eq(src[i].0.as_str(), "format"));
        proof {
            reveal(Seq::filter);
            assert(sp[i as int].0 == src@[i as int].0@);
            assert(sp[i as int].1 == src@[i as int].1@);
            assert(sp.take(i as int + 1).drop_last() =~= sp.take(i as int));
            assert(sp.take(i as int + 1).last() == sp[i as int]);
            assert(pred(sp[i as int]) == !reserved_upstream_name(sp[i as int].0));
            assert(keep == pred(sp[i as int]));
        }
        let ghost before = entries_view(pairs@);
        if keep {
            pairs.push((src[i].0.clone(), src[i].1.clone()));
            proof {
                reveal(Seq::filter);
                let prev = sp.take(i as int).filter(pred);
                assert(sp.take(i as int + 1).drop_last().filter(pred) == prev);
                assert(pred(sp.take(i as int + 1).last()));
                assert(sp.take(i as int + 1).filter(pred) == prev.push(sp[i as int]));
                assert(entries_view(pairs@) =~= before.push((sp[i as int].0, sp[i as int].1)));
                assert(before.push((sp[i as int].0, sp[i as int].1)) =~= fixed + prev.push(
                    sp[i as int],
                ));
                assert(entries_view(pairs@) =~= fixed + sp.take(i as int + 1).filter(pred));
            }
        } else {
            proof {
                reveal(Seq::filter);
                let prev = sp.take(i as int).filter(pred);
                assert(sp.take(i as int + 1).drop_last().filter(pred) == prev);
                assert(!pred(sp.take(i as int + 1).last()));
                assert(sp.take(i as int + 1).filter(pred) == prev);
                assert(entries_view(pairs@) =~= fixed + sp.take(i as int + 1).filter(pred));
            }
        }
        i = i + 1;
    }
    proof {
        assert(sp.take(n as int) =~= sp);
        assert(entries_view(pairs@) =~= goal);
    }
    url_with_query(base_url, &pairs)
}

/// The top-level `error` number of a JSON body, with the `message` string
/// when one is present; nothing when the body is not JSON or carries no
/// numeric `error` field.
pub uninterp spec fn json_error_of(body: Seq<char>) -> Option<(u64, Option<Seq<char>>)>;

/// The views of optionally extracted error fields.
pub open spec fn error_fields_view(r: Option<(u64, Option<String>)>) -> Option<
    (u64, Option<Seq<char>>),
> {
    match r {
        None => None,
        Some((code, message)) => Some(
            (
                code,
                match message {
                    None => None,
                    Some(m) => Some(m@),
                },
            ),
        ),
    }
}

/// Relies on serde_json::from_str, Value::get, Value::as_u64 and
/// Value::as_str: the JSON body's top-level `error` number with its
/// `message` string when present. A function of the body alone.
#[verifier::external_body]
fn json_error_fields(body: &str) -> (r: Option<(u64, Option<String>)>)
    ensures
        error_fields_view(r) == json_error_of(body@),
{
    let v: serde_json::Value = match serde_json::from_str(body) {
        Ok(v) => v,
        Err(_) => return None,
    };
    let code = match v.get("error").and_then(|e| e.as_u64()) {
        Some(c) => c,
        None => return None,
    };
    let message = v.get("message").and_then(|m| m.as_str()).map(|s| s.to_string());
    Some((code, message))
}

/// The normalized form of an upstream error body: the reported code
/// narrowed to the error-code space, and the reported message, or a fixed
/// text when the body carries none.
pub open spec fn lastfm_error_view(body: Seq<char>) -> Option<(u32, Seq<char>)> {
    match json_error_of(body) {
        None => None,
        Some((code, message)) => Some(
            (
                code as u32,
                match message {
                    Some(m) => m,
                    None => "Unknown error"@,
                },
            ),
        ),
    }
}

/// The normalized error built from extracted upstream error fields.
pub fn translate_error_fields(code: u64, message: Option<&String>) -> (r: ApiError)
    ensures
        r.error == code as u32,
        r.message@ == match message {
            Some(m) => m@,
            None => "Unknown error"@,
        },
{
    let narrowed = #[verifier::truncate] (code as u32);
    match message {
        Some(m) => ApiError::new(narrowed, m.as_str()),
        None => ApiError::new(narrowed, "Unknown error"),
    }
}

/// Read an upstream response body for the upstream error shape, and
/// normalize it when present.
pub fn parse_lastfm_error(response_body: &str) -> (r: Option<ApiError>)
    ensures
        match r {
            Some(e) => lastfm_error_view(response_body@) == Some((e.error, e.message@)),
            None => lastfm_error_view(response_body@) is None,
        },
{
    match json_error_fields(response_body) {
        Some((code, message)) => Some(translate_error_fields(code, message.as_ref())),
        None => None,
    }
}

/// Sign request parameters with the legacy digest, as the upstream
/// service's authenticated methods require.
pub fn sign_request_md5(params: &ParamSet, secret: &str) -> (r: String)
    requires
        params.wf(),
    ensures
        r@ == crate::signing::signature_of(params@, secret@, crate::signing::HashAlgorithm::MD5),
        r@.len() == 32,
{
    crate::signing::sign_request(params, secret, crate::signing::HashAlgorithm::MD5)
}

} // verus!
