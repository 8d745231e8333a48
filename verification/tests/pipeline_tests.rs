use lastfm_proxy_worker::error::ApiError;
use lastfm_proxy_worker::handlers::{finish_request, prepare_request, signed_params, ProxyState,
    RequestPlan};
use lastfm_proxy_worker::middleware::{add_cors_headers, rate_limit, validate_signature};
use lastfm_proxy_worker::models::sign_request;
use lastfm_proxy_worker::params::ParamSet;
use lastfm_proxy_worker::store::TtlStore;
use lastfm_proxy_worker::utils::{build_lastfm_url, get_client_ip, parse_lastfm_error,
    parse_query_params};

#[test]
fn test_rate_limiter_window() {
    let mut store = TtlStore::new();
    let now: u64 = 1000;

    // 100 sequential requests from the same client within one window succeed
    for _ in 0..100 {
        assert!(rate_limit(&mut store, "203.0.113.9", now).is_ok());
    }

    // the 101st fails with the rate-limit error
    let err = rate_limit(&mut store, "203.0.113.9", now).unwrap_err();
    assert_eq!(err.error, 29);

    // a different client is not affected
    assert!(rate_limit(&mut store, "203.0.113.10", now).is_ok());

    // after the window elapses, a request succeeds again with a fresh count
    let later = now + 60;
    assert!(rate_limit(&mut store, "203.0.113.9", later).is_ok());
    let err = rate_limit(&mut store, "203.0.113.9", later);
    assert!(err.is_ok());
}

#[test]
fn test_cache_round_trip() {
    let mut store = TtlStore::new();
    let now: u64 = 50;

    // writing body B under key K then reading K returns B before TTL expiry
    store.set("k", "body-b", 10, now);
    assert_eq!(store.get("k", now).as_deref(), Some("body-b"));
    assert_eq!(store.get("k", now + 9).as_deref(), Some("body-b"));

    // and returns absent after TTL expiry (simulated clock)
    assert_eq!(store.get("k", now + 10), None);
    assert_eq!(store.get("k", now + 1000), None);

    // an unrelated key is always absent
    assert_eq!(store.get("other", now), None);

    // a later write under the same key wins
    store.set("k", "body-c", 10, now);
    assert_eq!(store.get("k", now).as_deref(), Some("body-c"));
}

#[test]
fn test_upstream_error_translation() {
    // upstream error shape is translated to the normalized error
    let err = parse_lastfm_error("{\"error\":29,\"message\":\"Rate limit exceeded\"}").unwrap();
    assert_eq!(err.error, 29);
    assert_eq!(err.message, "Rate limit exceeded");

    // an error without a message gets the fixed text
    let err = parse_lastfm_error("{\"error\":6}").unwrap();
    assert_eq!(err.error, 6);
    assert_eq!(err.message, "Unknown error");

    // a clean body or a non-JSON body is no error
    assert!(parse_lastfm_error("{\"artist\":{\"name\":\"Cher\"}}").is_none());
    assert!(parse_lastfm_error("not json").is_none());
    assert!(parse_lastfm_error("{\"error\":\"not a number\"}").is_none());
}

#[test]
fn test_error_response_never_cached() {
    let mut state = ProxyState::new();
    let now: u64 = 0;

    // an upstream error body is translated and never written to cache
    let out = finish_request(
        &mut state,
        "lastfm:artist.getInfo:artist=x",
        Some("{\"error\":29,\"message\":\"Rate limit exceeded\"}".to_string()),
        true,
        now,
    );
    let err = out.unwrap_err();
    assert_eq!(err.error, 29);
    assert_eq!(err.message, "Rate limit exceeded");
    assert_eq!(state.cache.get("lastfm:artist.getInfo:artist=x", now), None);

    // a missing body is a service-offline fault
    let out = finish_request(&mut state, "k", None, true, now);
    assert_eq!(out.unwrap_err().error, 11);

    // a clean body is returned and cached for an hour
    let out = finish_request(&mut state, "k", Some("{\"ok\":true}".to_string()), true, now);
    assert_eq!(out.unwrap(), "{\"ok\":true}");
    assert_eq!(state.cache.get("k", now + 3599).as_deref(), Some("{\"ok\":true}"));
    assert_eq!(state.cache.get("k", now + 3600), None);

    // an authenticated response is never cached
    let out = finish_request(&mut state, "k2", Some("{\"ok\":true}".to_string()), false, now);
    assert!(out.is_ok());
    assert_eq!(state.cache.get("k2", now), None);
}

#[test]
fn test_pipeline_end_to_end() {
    let mut state = ProxyState::new();
    let now: u64 = 100;

    let mut params = ParamSet::new();
    params.insert("artist", "The Beatles");
    params.insert("api_key", "k");
    params.insert("format", "json");

    // first pass: no cached entry, so the upstream must be called
    let plan = prepare_request(&mut state, "1.2.3.4", "artist.getInfo", &params, None, "sk", now);
    let cache_key = match plan {
        RequestPlan::Fetch(key) => key,
        _ => panic!("expected a fetch plan"),
    };
    assert_eq!(cache_key, "lastfm:artist.getInfo:artist=The Beatles");

    let out = finish_request(
        &mut state,
        cache_key.as_str(),
        Some("{\"artist\":{}}".to_string()),
        true,
        now,
    );
    assert_eq!(out.unwrap(), "{\"artist\":{}}");

    // second pass: the cached body short-circuits the upstream path
    let plan = prepare_request(&mut state, "1.2.3.4", "artist.getInfo", &params, None, "sk", now);
    match plan {
        RequestPlan::ServeFromCache(body) => assert_eq!(body, "{\"artist\":{}}"),
        _ => panic!("expected a cache hit"),
    }

    // an invalid request is rejected before any upstream work
    let empty = ParamSet::new();
    let plan = prepare_request(&mut state, "1.2.3.4", "artist.getInfo", &empty, None, "sk", now);
    match plan {
        RequestPlan::Reject(e) => assert_eq!(e.error, 6),
        _ => panic!("expected a rejection"),
    }

    // an unknown method is rejected before any network activity
    let plan = prepare_request(&mut state, "1.2.3.4", "nope.nope", &empty, None, "sk", now);
    match plan {
        RequestPlan::Reject(e) => assert_eq!(e.error, 6),
        _ => panic!("expected a rejection"),
    }
}

#[test]
fn test_pipeline_rate_limit_rejection() {
    let mut state = ProxyState::new();
    let now: u64 = 0;
    let params = ParamSet::new();

    for _ in 0..100 {
        let plan =
            prepare_request(&mut state, "9.9.9.9", "chart.getTopArtists", &params, None, "sk", now);
        assert!(matches!(plan, RequestPlan::Fetch(_)));
    }
    let plan =
        prepare_request(&mut state, "9.9.9.9", "chart.getTopArtists", &params, None, "sk", now);
    match plan {
        RequestPlan::Reject(e) => assert_eq!(e.error, 29),
        _ => panic!("expected a rate-limit rejection"),
    }
}

#[test]
fn test_inbound_signature_check() {
    let mut params = ParamSet::new();
    params.insert("artist", "Cher");

    // no signature header: public access passes
    assert!(validate_signature(None, &params, "signing-key").is_ok());

    // the correct strengthened signature passes
    let good = sign_request(&params, "signing-key");
    assert!(validate_signature(Some(&good), &params, "signing-key").is_ok());

    // a wrong signature is rejected with the signature error
    let bad = "0".repeat(64);
    let err = validate_signature(Some(&bad), &params, "signing-key").unwrap_err();
    assert_eq!(err.error, 13);

    // rejection happens in the pipeline before the cache or the upstream
    let mut state = ProxyState::new();
    let plan =
        prepare_request(&mut state, "1.1.1.1", "artist.getCorrection", &params, Some(&bad),
            "signing-key", 0);
    match plan {
        RequestPlan::Reject(e) => assert_eq!(e.error, 13),
        _ => panic!("expected a signature rejection"),
    }
}

#[test]
fn test_signed_params_injection() {
    let mut params = ParamSet::new();
    params.insert("token", "tok");
    params.insert("api_key", "k");

    let signed = signed_params(params, "auth.getSession", "secret");
    let sig = signed.get("api_sig").unwrap().clone();
    assert_eq!(sig.len(), 32); // the legacy digest, hex-rendered
    assert!(!signed.contains_key("method"));
    assert_eq!(signed.get("token").unwrap(), "tok");

    // a request that already carries a signature is left alone
    let mut presigned = ParamSet::new();
    presigned.insert("api_sig", "existing");
    let kept = signed_params(presigned, "auth.getSession", "secret");
    assert_eq!(kept.get("api_sig").unwrap(), "existing");
}

#[test]
fn test_build_lastfm_url_shape() {
    let mut params = ParamSet::new();
    params.insert("artist", "The Beatles");
    params.insert("format", "json");

    let url = build_lastfm_url("https://ws.audioscrobbler.com/2.0/", "artist.getInfo", &params,
        "key123")
        .unwrap();
    assert_eq!(
        url,
        "https://ws.audioscrobbler.com/2.0/?method=artist.getInfo&api_key=key123&format=json&artist=The+Beatles"
    );

    // an unparsable base yields nothing
    assert!(build_lastfm_url("not a url", "artist.getInfo", &params, "k").is_none());
}

#[test]
fn test_parse_query_params_decodes() {
    let params =
        parse_query_params("https://example.com/artist/getInfo?artist=The+Beatles&lang=en&x=%41")
            .unwrap();
    assert_eq!(params.get("artist").unwrap(), "The Beatles");
    assert_eq!(params.get("lang").unwrap(), "en");
    assert_eq!(params.get("x").unwrap(), "A");
    assert!(params.get("absent").is_none());

    assert!(parse_query_params("::not a url::").is_none());
}

#[test]
fn test_get_client_ip_fallbacks() {
    assert_eq!(
        get_client_ip(Some("1.2.3.4".to_string()), Some("5.6.7.8".to_string())),
        "1.2.3.4"
    );
    assert_eq!(get_client_ip(None, Some("5.6.7.8".to_string())), "5.6.7.8");
    assert_eq!(get_client_ip(None, None), "unknown");
}

#[test]
fn test_cors_headers_appended() {
    let mut headers: Vec<(String, String)> = vec![("Content-Type".to_string(),
        "application/json".to_string())];
    add_cors_headers(&mut headers);
    assert_eq!(headers.len(), 5);
    assert_eq!(headers[1].0, "Access-Control-Allow-Origin");
    assert_eq!(headers[1].1, "*");
    assert_eq!(headers[2].1, "GET, OPTIONS");
    assert_eq!(headers[3].1, "Content-Type, X-Request-Signature");
    assert_eq!(headers[4].1, "86400");
}

#[test]
fn test_api_error_messages() {
    let e = ApiError::invalid_parameters("details here");
    assert_eq!(e.message, "Invalid parameters - details here");
    assert_eq!(
        ApiError::invalid_signature().message,
        "Invalid method signature supplied"
    );
    assert_eq!(ApiError::new(42, "custom").error, 42);
    assert_eq!(ApiError::new(42, "custom").message, "custom");
}
