use lastfm_proxy_worker::api::{build_cache_key, check_response_error, extract_method};
use lastfm_proxy_worker::args::{get_flag, get_optional_arg, get_required_arg, CommandArgs,
    DeployCommand};
use lastfm_proxy_worker::auth::{generate_auth_url, AuthStatus, Session};
use lastfm_proxy_worker::cli_error::{CliError, CliResult};
use lastfm_proxy_worker::config::{CliConfig, ConfigField};
use lastfm_proxy_worker::params::ParamSet;

#[test]
fn test_build_cache_key() {
    let mut params = ParamSet::new();
    params.insert("artist", "The Beatles");
    params.insert("api_key", "test_key");
    params.insert("format", "json");

    let cache_key = build_cache_key("artist.getInfo", &params);

    // Should exclude api_key and format
    assert_eq!(cache_key, "lastfm:artist.getInfo:artist=The Beatles");
}

#[test]
fn test_user_top_artists_period_validation() {
    let valid_periods = ["overall", "7day", "1month", "3month", "6month", "12month"];

    for period in &valid_periods {
        // These should all be valid
        assert!(valid_periods.contains(period));
    }

    // Test invalid periods
    let invalid_periods = ["2weeks", "1year", "all", ""];
    for period in &invalid_periods {
        assert!(!valid_periods.contains(period));
    }
}

#[test]
fn test_config_field_conversion() {
    assert_eq!(
        ConfigField::from_string("worker_url"),
        Some(ConfigField::WorkerUrl)
    );
    assert_eq!(ConfigField::from_string("invalid"), None);

    assert_eq!(ConfigField::WorkerUrl.as_str(), "worker_url");
}

#[test]
fn test_config_field_descriptions() {
    assert_eq!(
        ConfigField::WorkerUrl.description(),
        "URL of the Last.fm proxy worker"
    );
    assert_eq!(
        ConfigField::ApiKey.description(),
        "Last.fm API key (optional if using proxy)"
    );
    assert_eq!(
        ConfigField::OutputFormat.description(),
        "Default output format (json, table, pretty, compact)"
    );
}

#[test]
fn test_config_field_all_variants() {
    let fields = vec![
        ConfigField::WorkerUrl,
        ConfigField::ApiKey,
        ConfigField::OutputFormat,
        ConfigField::CacheTtl,
        ConfigField::InteractiveHistorySize,
        ConfigField::ColorOutput,
        ConfigField::RequestTimeoutSecs,
    ];

    for field in fields {
        let str_repr = field.as_str();
        let reconstructed = ConfigField::from_str(str_repr);
        assert!(reconstructed.is_some(), "Failed to reconstruct {:?}", field);
    }
}

#[test]
fn test_config_field_from_str() {
    assert_eq!(ConfigField::from_str("worker_url"), Some(ConfigField::WorkerUrl));
    assert_eq!(ConfigField::from_str("api_key"), Some(ConfigField::ApiKey));
    assert_eq!(ConfigField::from_str("output_format"), Some(ConfigField::OutputFormat));
    assert_eq!(ConfigField::from_str("cache_ttl"), Some(ConfigField::CacheTtl));
    assert_eq!(
        ConfigField::from_str("interactive_history_size"),
        Some(ConfigField::InteractiveHistorySize)
    );
    assert_eq!(ConfigField::from_str("color_output"), Some(ConfigField::ColorOutput));
    assert_eq!(
        ConfigField::from_str("request_timeout_secs"),
        Some(ConfigField::RequestTimeoutSecs)
    );
    assert_eq!(ConfigField::from_str("invalid_field"), None);
}

#[test]
fn test_result_type_alias() {
    fn test_function() -> CliResult<String> {
        Ok("Success".to_string())
    }

    let result = test_function();
    assert!(result.is_ok());
    assert_eq!(result.unwrap(), "Success");
}

#[test]
fn test_config_get_set_roundtrip() {
    let mut config = CliConfig::default();

    assert_eq!(
        config.get_value(ConfigField::WorkerUrl),
        "https://lastfm-proxy-worker.guitaripod.workers.dev"
    );
    assert_eq!(config.get_value(ConfigField::CacheTtl), "3600");
    assert_eq!(config.get_value(ConfigField::OutputFormat), "pretty");
    assert_eq!(config.get_value(ConfigField::ColorOutput), "true");
    assert_eq!(config.get_value(ConfigField::InteractiveHistorySize), "1000");
    assert_eq!(config.get_value(ConfigField::RequestTimeoutSecs), "30");

    config.set_value(ConfigField::WorkerUrl, "https://example.com").unwrap();
    assert_eq!(config.worker_url, "https://example.com");

    config.set_value(ConfigField::CacheTtl, "7200").unwrap();
    assert_eq!(config.cache_ttl, 7200);

    assert!(config.set_value(ConfigField::CacheTtl, "invalid").is_err());
    assert!(config.set_value(ConfigField::OutputFormat, "invalid").is_err());

    config.set_value(ConfigField::OutputFormat, "table").unwrap();
    assert_eq!(config.get_value(ConfigField::OutputFormat), "table");

    config.set_value(ConfigField::ApiKey, "").unwrap();
    assert_eq!(config.get_value(ConfigField::ApiKey), "Not set");
}

#[test]
fn test_config_manager_validation() {
    let manager = lastfm_proxy_worker::config::ConfigManager::new("/home/someone");
    assert_eq!(
        manager.config_path(),
        "/home/someone/.config/lastfm-cli/config.toml"
    );

    let mut config = CliConfig::default();
    assert!(manager.validate(&config).is_ok());

    config.worker_url = String::new();
    let err = manager.validate(&config).unwrap_err();
    assert!(matches!(err, CliError::Validation(_)));

    let mut config2 = CliConfig::default();
    config2.request_timeout_secs = 0;
    assert!(manager.validate(&config2).is_err());

    let mut config3 = CliConfig::default();
    config3.cache_ttl = 0;
    assert!(manager.validate(&config3).is_err());
}

#[test]
fn test_cli_error_codes() {
    assert_eq!(CliError::RateLimit.error_code(), 429);
    assert_eq!(CliError::AuthRequired.error_code(), 401);
    assert_eq!(CliError::not_found("x").error_code(), 404);
    assert_eq!(CliError::validation("x").error_code(), 400);
    assert_eq!(CliError::invalid_argument("x").error_code(), 400);
    assert_eq!(CliError::missing_argument("x").error_code(), 400);
    assert_eq!(CliError::api("x").error_code(), 500);
    assert_eq!(CliError::other("x").error_code(), 500);

    assert!(CliError::RateLimit.is_retryable());
    assert!(CliError::api("x").is_retryable());
    assert!(CliError::cache("x").is_retryable());
    assert!(!CliError::config("x").is_retryable());
}

#[test]
fn test_cli_validate_method_params_errors() {
    let params = ParamSet::new();

    // A single missing parameter becomes a missing-argument error
    let err =
        lastfm_proxy_worker::api::validate_method_params("artist.getCorrection", &params)
            .unwrap_err();
    assert!(matches!(err, CliError::MissingArgument(ref m) if m == "artist"));

    // A group requirement becomes a validation error with the full message
    let err = lastfm_proxy_worker::api::validate_method_params("artist.getInfo", &params)
        .unwrap_err();
    assert!(
        matches!(err, CliError::Validation(ref m) if m == "Missing required parameter: artist or mbid")
    );

    // An unknown method becomes a validation error
    let err = lastfm_proxy_worker::api::validate_method_params("nope.nope", &params)
        .unwrap_err();
    assert!(matches!(err, CliError::Validation(ref m) if m == "Unknown method: nope.nope"));
}

#[test]
fn test_command_args_helpers() {
    let mut args = CommandArgs::new();
    args.named.insert("artist", "Radiohead");
    args.flags.insert("autocorrect", true);
    args.positional.push("OK Computer".to_string());

    assert_eq!(get_required_arg(&args, "artist").unwrap(), "Radiohead");
    assert_eq!(get_required_arg(&args, "album").unwrap(), "OK Computer");
    assert_eq!(get_optional_arg(&args, "limit", Some("30")), "30");
    assert_eq!(get_optional_arg(&args, "artist", None), "Radiohead");
    assert_eq!(get_optional_arg(&args, "missing", None), "");
    assert!(get_flag(&args, "autocorrect"));
    assert!(!get_flag(&args, "verbose"));

    let empty = CommandArgs::new();
    let err = get_required_arg(&empty, "artist").unwrap_err();
    assert!(matches!(err, CliError::MissingArgument(ref m) if m == "artist"));
}

#[test]
fn test_auth_status_and_url() {
    let status = AuthStatus::new(Some(Session {
        username: "rj".to_string(),
        key: "sk".to_string(),
    }));
    assert!(status.authenticated);
    assert_eq!(status.username.as_deref(), Some("rj"));

    let anon = AuthStatus::new(None);
    assert!(!anon.authenticated);
    assert!(anon.username.is_none());

    assert_eq!(
        generate_auth_url("abc"),
        "https://www.last.fm/api/auth/?api_key=abc&cb=http://localhost:41419/auth/callback"
    );
}

#[test]
fn test_deploy_command_identity() {
    let cmd = DeployCommand;
    assert_eq!(cmd.name(), "worker.deploy");
    assert_eq!(cmd.description(), "Deploy the worker to Cloudflare");
    assert!(cmd.validate_args(&CommandArgs::new()).is_ok());
}

#[test]
fn test_extract_method() {
    assert_eq!(extract_method("/artist/getInfo"), "artist.getInfo");
    assert_eq!(extract_method("/album/search"), "album.search");
    assert_eq!(extract_method("track/getSimilar"), "track.getSimilar");
}

#[test]
fn test_check_response_error_mapping() {
    assert!(matches!(
        check_response_error(6, "bad params"),
        CliError::Validation(ref m) if m == "bad params"
    ));
    assert!(matches!(
        check_response_error(10, "x"),
        CliError::Api(ref m) if m == "Invalid API key"
    ));
    assert!(matches!(
        check_response_error(11, "x"),
        CliError::Api(ref m) if m == "Service offline"
    ));
    assert!(matches!(
        check_response_error(13, "x"),
        CliError::Api(ref m) if m == "Invalid signature"
    ));
    assert!(matches!(
        check_response_error(16, "x"),
        CliError::Api(ref m) if m == "Temporary error"
    ));
    assert!(matches!(check_response_error(29, "x"), CliError::RateLimit));
    assert!(matches!(
        check_response_error(999, "strange"),
        CliError::Api(ref m) if m == "strange"
    ));
}
