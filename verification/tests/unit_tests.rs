use lastfm_proxy_worker::models::{rate_limit_key, sign_request, CacheKey};
use lastfm_proxy_worker::params::ParamSet;
use lastfm_proxy_worker::store::{parse_u32, u32_to_string};

#[test]
fn test_cache_key_generation() {
    let mut params = ParamSet::new();
    params.insert("artist", "The Beatles");
    params.insert("api_key", "test_key");
    params.insert("format", "json");

    let cache_key = params.cache_key("artist.getInfo");

    // Should exclude api_key and format from cache key
    assert_eq!(cache_key, "lastfm:artist.getInfo:artist=The Beatles");
}

#[test]
fn test_cache_key_sorting() {
    let mut params = ParamSet::new();
    params.insert("track", "Hey Jude");
    params.insert("artist", "The Beatles");
    params.insert("autocorrect", "1");

    let cache_key = params.cache_key("track.getInfo");

    // Parameters should be sorted alphabetically
    assert_eq!(
        cache_key,
        "lastfm:track.getInfo:artist=The Beatles&autocorrect=1&track=Hey Jude"
    );
}

#[test]
fn test_request_signing() {
    let mut params = ParamSet::new();
    params.insert("method", "auth.getSession");
    params.insert("token", "test_token");
    params.insert("api_key", "test_api_key");

    let signature = sign_request(&params, "test_secret");

    // The signature should be deterministic
    assert!(!signature.is_empty());
    assert_eq!(signature.len(), 64); // SHA256 produces 64 hex characters
}

#[test]
fn test_signature_excludes_certain_params() {
    let mut params1 = ParamSet::new();
    params1.insert("artist", "Radiohead");
    params1.insert("track", "Creep");
    params1.insert("api_sig", "should_be_ignored");
    params1.insert("format", "json");
    params1.insert("callback", "myCallback");

    let mut params2 = ParamSet::new();
    params2.insert("artist", "Radiohead");
    params2.insert("track", "Creep");

    let sig1 = sign_request(&params1, "secret");
    let sig2 = sign_request(&params2, "secret");

    // Signatures should be the same as api_sig, format, and callback are excluded
    assert_eq!(sig1, sig2);
}

#[test]
fn test_rate_limit_key() {
    let key = rate_limit_key("192.168.1.1");
    assert_eq!(key, "rate_limit:192.168.1.1");
}

#[test]
fn test_request_signing_known_value() {
    let mut params = ParamSet::new();
    params.insert("method", "auth.getSession");
    params.insert("token", "test_token");
    params.insert("api_key", "test_api_key");

    // SHA-256 of "api_keytest_api_keymethodauth.getSessiontokentest_token" + "test_secret"
    let signature = sign_request(&params, "test_secret");
    assert_eq!(
        signature,
        "389d76831c7d9b1e684dd1cb62ae183c8dafe99c7ee5e60f85684a94c158bcb0"
    );
}

#[test]
fn test_request_signing_md5_known_value() {
    let mut params = ParamSet::new();
    params.insert("artist", "Cher");
    params.insert("track", "Believe");

    // MD5 of "artistChertrackBelieve" + "mysecret"
    let signature = lastfm_proxy_worker::utils::sign_request_md5(&params, "mysecret");
    assert_eq!(signature, "9844b51740cfa0e8d0fe5b0d7637c881");
}

#[test]
fn test_signing_order_independent() {
    let mut params1 = ParamSet::new();
    params1.insert("b", "2");
    params1.insert("a", "1");
    params1.insert("c", "3");

    let mut params2 = ParamSet::new();
    params2.insert("c", "3");
    params2.insert("a", "1");
    params2.insert("b", "2");

    assert_eq!(sign_request(&params1, "s"), sign_request(&params2, "s"));
    assert_eq!(
        params1.cache_key("chart.getTopArtists"),
        params2.cache_key("chart.getTopArtists")
    );
}

#[test]
fn test_cache_key_empty_params() {
    let params = ParamSet::new();
    assert_eq!(params.cache_key("chart.getTopArtists"), "lastfm:chart.getTopArtists:");
}

#[test]
fn test_param_set_insert_overwrites() {
    let mut params = ParamSet::new();
    params.insert("artist", "Cher");
    params.insert("artist", "Queen");
    assert_eq!(params.get("artist").unwrap(), "Queen");
    assert_eq!(params.len(), 1);
    params.remove("artist");
    assert!(!params.contains_key("artist"));
    assert!(params.is_empty());
}

#[test]
fn test_counter_parse_boundaries() {
    assert_eq!(parse_u32("0"), Some(0));
    assert_eq!(parse_u32("007"), Some(7));
    assert_eq!(parse_u32("4294967295"), Some(u32::MAX));
    assert_eq!(parse_u32("4294967296"), None);
    assert_eq!(parse_u32(""), None);
    assert_eq!(parse_u32("12a"), None);
    assert_eq!(parse_u32("-1"), None);

    assert_eq!(u32_to_string(0), "0");
    assert_eq!(u32_to_string(7), "7");
    assert_eq!(u32_to_string(4294967295), "4294967295");
}
