use lastfm_proxy_worker::error::ApiError;
use lastfm_proxy_worker::middleware::validate_method_params;
use lastfm_proxy_worker::params::ParamSet;

#[test]
fn test_artist_get_correction_validation() {
    let mut params = ParamSet::new();

    // Should fail without artist parameter
    let result = validate_method_params("artist.getCorrection", &params);
    assert!(result.is_err());

    // Should succeed with artist parameter
    params.insert("artist", "The Beatles");
    let result = validate_method_params("artist.getCorrection", &params);
    assert!(result.is_ok());
}

#[test]
fn test_artist_get_info_validation() {
    let mut params = ParamSet::new();

    // Should fail without artist or mbid
    let result = validate_method_params("artist.getInfo", &params);
    assert!(result.is_err());

    // Should succeed with artist
    params.insert("artist", "Radiohead");
    let result = validate_method_params("artist.getInfo", &params);
    assert!(result.is_ok());

    // Should also succeed with just mbid
    let mut params2 = ParamSet::new();
    params2.insert("mbid", "a74b1b7f-71a5-4011-9441-d0b5e4122711");
    let result = validate_method_params("artist.getInfo", &params2);
    assert!(result.is_ok());
}

#[test]
fn test_album_validation() {
    let mut params = ParamSet::new();

    // Album.getInfo should fail without (artist and album) or mbid
    let result = validate_method_params("album.getInfo", &params);
    assert!(result.is_err());

    // Should fail with just artist
    params.insert("artist", "Pink Floyd");
    let result = validate_method_params("album.getInfo", &params);
    assert!(result.is_err());

    // Should succeed with artist and album
    params.insert("album", "The Wall");
    let result = validate_method_params("album.getInfo", &params);
    assert!(result.is_ok());

    // Album.search should only need album
    let mut search_params = ParamSet::new();
    let result = validate_method_params("album.search", &search_params);
    assert!(result.is_err());

    search_params.insert("album", "Abbey Road");
    let result = validate_method_params("album.search", &search_params);
    assert!(result.is_ok());
}

#[test]
fn test_track_validation() {
    let mut params = ParamSet::new();

    // track.getCorrection needs both artist and track
    let result = validate_method_params("track.getCorrection", &params);
    assert!(result.is_err());

    params.insert("artist", "Nirvana");
    let result = validate_method_params("track.getCorrection", &params);
    assert!(result.is_err());

    params.insert("track", "Smells Like Teen Spirit");
    let result = validate_method_params("track.getCorrection", &params);
    assert!(result.is_ok());

    // track.search only needs track
    let mut search_params = ParamSet::new();
    search_params.insert("track", "Bohemian Rhapsody");
    let result = validate_method_params("track.search", &search_params);
    assert!(result.is_ok());
}

#[test]
fn test_geo_validation() {
    let mut params = ParamSet::new();

    // geo methods need country
    let result = validate_method_params("geo.getTopArtists", &params);
    assert!(result.is_err());

    params.insert("country", "United Kingdom");
    let result = validate_method_params("geo.getTopArtists", &params);
    assert!(result.is_ok());

    let result = validate_method_params("geo.getTopTracks", &params);
    assert!(result.is_ok());
}

#[test]
fn test_user_validation() {
    let mut params = ParamSet::new();

    // Most user methods need user parameter
    let result = validate_method_params("user.getTopArtists", &params);
    assert!(result.is_err());

    params.insert("user", "rj");
    let result = validate_method_params("user.getTopArtists", &params);
    assert!(result.is_ok());

    // user.getInfo doesn't require user parameter (optional)
    let empty_params = ParamSet::new();
    let result = validate_method_params("user.getInfo", &empty_params);
    assert!(result.is_ok());

    // user.getPersonalTags needs user, tag, and taggingtype
    let mut personal_params = ParamSet::new();
    personal_params.insert("user", "test");
    let result = validate_method_params("user.getPersonalTags", &personal_params);
    assert!(result.is_err());

    personal_params.insert("tag", "rock");
    let result = validate_method_params("user.getPersonalTags", &personal_params);
    assert!(result.is_err());

    personal_params.insert("taggingtype", "artist");
    let result = validate_method_params("user.getPersonalTags", &personal_params);
    assert!(result.is_ok());
}

#[test]
fn test_chart_validation() {
    // Chart methods don't require any parameters
    let params = ParamSet::new();

    let result = validate_method_params("chart.getTopArtists", &params);
    assert!(result.is_ok());

    let result = validate_method_params("chart.getTopTags", &params);
    assert!(result.is_ok());

    let result = validate_method_params("chart.getTopTracks", &params);
    assert!(result.is_ok());
}

#[test]
fn test_tag_validation() {
    let mut params = ParamSet::new();

    // Most tag methods need tag parameter
    let result = validate_method_params("tag.getInfo", &params);
    assert!(result.is_err());

    params.insert("tag", "electronic");
    let result = validate_method_params("tag.getInfo", &params);
    assert!(result.is_ok());

    // tag.getTopTags doesn't need any parameters
    let empty_params = ParamSet::new();
    let result = validate_method_params("tag.getTopTags", &empty_params);
    assert!(result.is_ok());
}

#[test]
fn test_unknown_method() {
    let params = ParamSet::new();
    let result = validate_method_params("unknown.method", &params);
    assert!(result.is_err());
}

#[test]
fn test_api_error_codes() {
    let error = ApiError::invalid_parameters("Missing artist");
    assert_eq!(error.error, 6);

    let error = ApiError::invalid_api_key();
    assert_eq!(error.error, 10);

    let error = ApiError::service_offline();
    assert_eq!(error.error, 11);

    let error = ApiError::invalid_signature();
    assert_eq!(error.error, 13);

    let error = ApiError::temporary_error();
    assert_eq!(error.error, 16);

    let error = ApiError::rate_limit_exceeded();
    assert_eq!(error.error, 29);
}

#[test]
fn test_validation_error_messages() {
    let params = ParamSet::new();

    let err = validate_method_params("artist.getCorrection", &params).unwrap_err();
    assert_eq!(err.error, 6);
    assert_eq!(
        err.message,
        "Invalid parameters - Missing required parameter: artist"
    );

    let err = validate_method_params("artist.getInfo", &params).unwrap_err();
    assert_eq!(
        err.message,
        "Invalid parameters - Missing required parameter: artist or mbid"
    );

    let err = validate_method_params("album.getInfo", &params).unwrap_err();
    assert_eq!(
        err.message,
        "Invalid parameters - Missing required parameters: (artist and album) or mbid"
    );

    let err = validate_method_params("track.getCorrection", &params).unwrap_err();
    assert_eq!(
        err.message,
        "Invalid parameters - Missing required parameters: artist and track"
    );

    let err = validate_method_params("user.getPersonalTags", &params).unwrap_err();
    assert_eq!(
        err.message,
        "Invalid parameters - Missing required parameters: user, tag, and taggingtype"
    );

    let err = validate_method_params("auth.getMobileSession", &params).unwrap_err();
    assert_eq!(
        err.message,
        "Invalid parameters - Missing required parameters: username and password"
    );

    let err = validate_method_params("unknown.method", &params).unwrap_err();
    assert_eq!(err.message, "Invalid parameters - Unknown method: unknown.method");
}

#[test]
fn test_auth_method_validation() {
    let mut params = ParamSet::new();
    assert!(validate_method_params("auth.getSession", &params).is_err());
    params.insert("token", "tok");
    assert!(validate_method_params("auth.getSession", &params).is_ok());

    let mut mobile = ParamSet::new();
    mobile.insert("username", "u");
    assert!(validate_method_params("auth.getMobileSession", &mobile).is_err());
    mobile.insert("password", "p");
    assert!(validate_method_params("auth.getMobileSession", &mobile).is_ok());
}

#[test]
fn test_empty_value_counts_as_present() {
    let mut params = ParamSet::new();
    params.insert("artist", "");
    assert!(validate_method_params("artist.getCorrection", &params).is_ok());
}
