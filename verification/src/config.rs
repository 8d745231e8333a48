//! The command-line client's configuration: its fields, their string
//! renderings, and the validation the configuration manager applies.
//! Reading and writing the configuration file is the caller's business.

use vstd::prelude::*;
use crate::auth::AuthConfig;
use crate::cli_error::{CliError, CliResult};
use crate::lex::str_eq;
use crate::store::{all_digits, dec_value, dec_string_of, parse_u64};

verus! {

/// How command output is rendered.
#[derive(Debug, Clone, Copy, PartialEq, Eq, Structural)]
pub enum OutputFormat {
    Json,
    Table,
    Pretty,
    Compact,
}

/// The name of an output format.
pub open spec fn format_name(f: OutputFormat) -> Seq<char> {
    match f {
        OutputFormat::Json => "json"@,
        OutputFormat::Table => "table"@,
        OutputFormat::Pretty => "pretty"@,
        OutputFormat::Compact => "compact"@,
    }
}

/// The output format a name denotes, if any.
pub open spec fn format_of(s: Seq<char>) -> Option<OutputFormat> {
    if s == "json"@ {
        Some(OutputFormat::Json)
    } else if s == "table"@ {
        Some(OutputFormat::Table)
    } else if s == "pretty"@ {
        Some(OutputFormat::Pretty)
    } else if s == "compact"@ {
        Some(OutputFormat::Compact)
    } else {
        None
    }
}

/// The command-line client's configuration.
#[derive(Debug, Clone)]
pub struct CliConfig {
    pub worker_url: String,
    pub api_key: Option<String>,
    pub output_format: OutputFormat,
    pub cache_ttl: u64,
    pub interactive_history_size: usize,
    pub color_output: bool,
    pub request_timeout_secs: u64,
    pub auth: AuthConfig,
}

impl Default for CliConfig {
    /// The configuration shipped with the client.
    fn default() -> (r: CliConfig)
        ensures
            r.worker_url@ == "https://lastfm-proxy-worker.guitaripod.workers.dev"@,
            r.api_key matches Some(k) && k@ == "REDACTED_API_KEY"@,
            r.output_format == OutputFormat::Pretty,
            r.cache_ttl == 3600,
            r.interactive_history_size == 1000,
            r.color_output,
            r.request_timeout_secs == 30,
            r.auth.username is None,
            r.auth.session_key is None,
    {
        CliConfig {
            worker_url: "https://lastfm-proxy-worker.guitaripod.workers.dev".to_owned(),
            api_key: Some("REDACTED_API_KEY".to_owned()),
            output_format: OutputFormat::Pretty,
            cache_ttl: 3600,
            interactive_history_size: 1000,
            color_output: true,
            request_timeout_secs: 30,
            auth: AuthConfig { username: None, session_key: None },
        }
    }
}

/// The configuration fields the client exposes by name.
#[derive(Debug, PartialEq, Eq, Structural)]
pub enum ConfigField {
    WorkerUrl,
    ApiKey,
    OutputFormat,
    CacheTtl,
    InteractiveHistorySize,
    ColorOutput,
    RequestTimeoutSecs,
}

/// The name of a configuration field.
pub open spec fn field_name(f: ConfigField) -> Seq<char> {
    match f {
        ConfigField::WorkerUrl => "worker_url"@,
        ConfigField::ApiKey => "api_key"@,
        ConfigField::OutputFormat => "output_format"@,
        ConfigField::CacheTtl => "cache_ttl"@,
        ConfigField::InteractiveHistorySize => "interactive_history_size"@,
        ConfigField::ColorOutput => "color_output"@,
        ConfigField::RequestTimeoutSecs => "request_timeout_secs"@,
    }
}

/// The field a name denotes, if any.
pub open spec fn field_of(s: Seq<char>) -> Option<ConfigField> {
    if s == "worker_url"@ {
        Some(ConfigField::WorkerUrl)
    } else if s == "api_key"@ {
        Some(ConfigField::ApiKey)
    } else if s == "output_format"@ {
        Some(ConfigField::OutputFormat)
    } else if s == "cache_ttl"@ {
        Some(ConfigField::CacheTtl)
    } else if s == "interactive_history_size"@ {
        Some(ConfigField::InteractiveHistorySize)
    } else if s == "color_output"@ {
        Some(ConfigField::ColorOutput)
    } else if s == "request_timeout_secs"@ {
        Some(ConfigField::RequestTimeoutSecs)
    } else {
        None
    }
}

/// What a configuration field means, as shown to the user.
pub open spec fn field_description(f: ConfigField) -> Seq<char> {
    match f {
        ConfigField::WorkerUrl => "URL of the Last.fm proxy worker"@,
        ConfigField::ApiKey => "Last.fm API key (optional if using proxy)"@,
        ConfigField::OutputFormat => "Default output format (json, table, pretty, compact)"@,
        ConfigField::CacheTtl => "Cache time-to-live in seconds"@,
        ConfigField::InteractiveHistorySize => "Number of commands to keep in interactive history"@,
        ConfigField::ColorOutput => "Enable colored output"@,
        ConfigField::RequestTimeoutSecs => "Request timeout in seconds"@,
    }
}

impl ConfigField {
    /// The field's name.
    pub fn as_str(&self) -> (r: &'static str)
        ensures
            r@ == field_name(*self),
    {
        match self {
            ConfigField::WorkerUrl => "worker_url",
            ConfigField::ApiKey => "api_key",
            ConfigField::OutputFormat => "output_format",
            ConfigField::CacheTtl => "cache_ttl",
            ConfigField::InteractiveHistorySize => "interactive_history_size",
            ConfigField::ColorOutput => "color_output",
            ConfigField::RequestTimeoutSecs => "request_timeout_secs",
        }
    }

    /// The field a name denotes, if any.
    pub fn from_string(s: &str) -> (r: Option<ConfigField>)
        ensures
            r == field_of(s@),
    {
        if str_eq(s, "worker_url") {
            Some(ConfigField::WorkerUrl)
        } else if str_eq(s, "api_key") {
            Some(ConfigField::ApiKey)
        } else if str_eq(s, "output_format") {
            Some(ConfigField::OutputFormat)
        } else if str_eq(s, "cache_ttl") {
            Some(ConfigField::CacheTtl)
        } else if str_eq(s, "interactive_history_size") {
            Some(ConfigField::InteractiveHistorySize)
        } else if str_eq(s, "color_output") {
            Some(ConfigField::ColorOutput)
        } else if str_eq(s, "request_timeout_secs") {
            Some(ConfigField::RequestTimeoutSecs)
        } else {
            None
        }
    }

    /// The field a name denotes, if any.
    pub fn from_str(s: &str) -> (r: Option<ConfigField>)
        ensures
            r == field_of(s@),
    {
        Self::from_string(s)
    }

    /// What the field means.
    pub fn description(&self) -> (r: &'static str)
        ensures
            r@ == field_description(*self),
    {
        match self {
            ConfigField::WorkerUrl => "URL of the Last.fm proxy worker",
            ConfigField::ApiKey => "Last.fm API key (optional if using proxy)",
            ConfigField::OutputFormat => "Default output format (json, table, pretty, compact)",
            ConfigField::CacheTtl => "Cache time-to-live in seconds",
            ConfigField::InteractiveHistorySize => "Number of commands to keep in interactive history",
            ConfigField::ColorOutput => "Enable colored output",
            ConfigField::RequestTimeoutSecs => "Request timeout in seconds",
        }
    }
}

/// The string rendering of a configuration field's value.
pub open spec fn field_value_view(c: &CliConfig, f: ConfigField) -> Seq<char> {
    match f {
        ConfigField::WorkerUrl => c.worker_url@,
        ConfigField::ApiKey => match c.api_key {
            Some(k) => k@,
            None => "Not set"@,
        },
        ConfigField::OutputFormat => format_name(c.output_format),
        ConfigField::CacheTtl => dec_string_of(c.cache_ttl as nat),
        ConfigField::InteractiveHistorySize => dec_string_of(c.interactive_history_size as nat),
        ConfigField::ColorOutput => if c.color_output {
            "true"@
        } else {
            "false"@
        },
        ConfigField::RequestTimeoutSecs => dec_string_of(c.request_timeout_secs as nat),
    }
}

/// No field of `b` other than `f` differs from `a`.
pub open spec fn unchanged_except(a: &CliConfig, b: &CliConfig, f: ConfigField) -> bool {
    &&& f != ConfigField::WorkerUrl ==> b.worker_url == a.worker_url
    &&& f != ConfigField::ApiKey ==> b.api_key == a.api_key
    &&& f != ConfigField::OutputFormat ==> b.output_format == a.output_format
    &&& f != ConfigField::CacheTtl ==> b.cache_ttl == a.cache_ttl
    &&& f != ConfigField::InteractiveHistorySize ==> b.interactive_history_size
        == a.interactive_history_size
    &&& f != ConfigField::ColorOutput ==> b.color_output == a.color_output
    &&& f != ConfigField::RequestTimeoutSecs ==> b.request_timeout_secs == a.request_timeout_secs
    &&& b.auth == a.auth
}

impl CliConfig {
    /// The value of a configuration field, rendered as a string.
    pub fn get_value(&self, field: ConfigField) -> (r: String)
        ensures
            r@ == field_value_view(self, field),
    {
        match field {
            ConfigField::WorkerUrl => self.worker_url.clone(),
            ConfigField::ApiKey => match &self.api_key {
                Some(k) => k.clone(),
                None => "Not set".to_owned(),
            },
            ConfigField::OutputFormat => match self.output_format {
                OutputFormat::Json => "json".to_owned(),
                OutputFormat::Table => "table".to_owned(),
                OutputFormat::Pretty => "pretty".to_owned(),
                OutputFormat::Compact => "compact".to_owned(),
            },
            ConfigField::CacheTtl => crate::store::u64_to_string(self.cache_ttl),
            ConfigField::InteractiveHistorySize => crate::store::u64_to_string(
                self.interactive_history_size as u64,
            ),
            ConfigField::ColorOutput => if self.color_output {
                "true".to_owned()
            } else {
                "false".to_owned()
            },
            ConfigField::RequestTimeoutSecs => crate::store::u64_to_string(
                self.request_timeout_secs,
            ),
        }
    }

    /// Set a configuration field from a string. An unreadable value is
    /// refused and leaves the configuration as it was.
    pub fn set_value(&mut self, field: ConfigField, value: &str) -> (r: CliResult<()>)
        ensures
            unchanged_except(old(self), final(self), field),
            match field {
                ConfigField::WorkerUrl => r is Ok && final(self).worker_url@ == value@,
                ConfigField::ApiKey => r is Ok && (if value@ == "Not set"@ || value@.len() == 0 {
                    final(self).api_key is None
                } else {
                    final(self).api_key matches Some(k) && k@ == value@
                }),
                ConfigField::OutputFormat => match format_of(value@) {
                    Some(f) => r is Ok && final(self).output_format == f,
                    None => {
                        &&& r matches Err(CliError::Validation(m)) && m@
                            == "Invalid output format"@
                        &&& final(self).output_format == old(self).output_format
                    },
                },
                ConfigField::CacheTtl => if value@.len() > 0 && all_digits(value@) && dec_value(
                    value@,
                ) <= u64::MAX {
                    r is Ok && final(self).cache_ttl == dec_value(value@)
                } else {
                    &&& r matches Err(CliError::Validation(m)) && m@ == "Invalid cache TTL"@
                    &&& final(self).cache_ttl == old(self).cache_ttl
                },
                ConfigField::InteractiveHistorySize => if value@.len() > 0 && all_digits(value@)
                    && dec_value(value@) <= usize::MAX {
                    r is Ok && final(self).interactive_history_size == dec_value(value@)
                } else {
                    &&& r matches Err(CliError::Validation(m)) && m@ == "Invalid history size"@
                    &&& final(self).interactive_history_size == old(
                        self,
                    ).interactive_history_size
                },
                ConfigField::ColorOutput => if value@ == "true"@ || value@ == "false"@ {
                    r is Ok && final(self).color_output == (value@ == "true"@)
                } else {
                    &&& r matches Err(CliError::Validation(m)) && m@ == "Invalid boolean value"@
                    &&& final(self).color_output == old(self).color_output
                },
                ConfigField::RequestTimeoutSecs => if value@.len() > 0 && all_digits(value@)
                    && dec_value(value@) <= u64::MAX {
                    r is Ok && final(self).request_timeout_secs == dec_value(value@)
                } else {
                    &&& r matches Err(CliError::Validation(m)) && m@ == "Invalid timeout value"@
                    &&& final(self).request_timeout_secs == old(self).request_timeout_secs
                },
            },
    {
        match field {
            ConfigField::WorkerUrl => {
                self.worker_url = value.to_owned();
                Ok(())
            },
            ConfigField::ApiKey => {
                if str_eq(value, "Not set") || value.unicode_len() == 0 {
                    self.api_key = None;
                } else {
                    self.api_key = Some(value.to_owned());
                }
                Ok(())
            },
            ConfigField::OutputFormat => {
                if str_eq(value, "json") {
                    self.output_format = OutputFormat::Json;
                    Ok(())
                } else if str_eq(value, "table") {
                    self.output_format = OutputFormat::Table;
                    Ok(())
                } else if str_eq(value, "pretty") {
                    self.output_format = OutputFormat::Pretty;
                    Ok(())
                } else if str_eq(value, "compact") {
                    self.output_format = OutputFormat::Compact;
                    Ok(())
                } else {
                    Err(CliError::validation("Invalid output format"))
                }
            },
            ConfigField::CacheTtl => match parse_u64(value) {
                Some(n) => {
                    self.cache_ttl = n;
                    Ok(())
                },
                None => Err(CliError::validation("Invalid cache TTL")),
            },
            ConfigField::InteractiveHistorySize => match parse_u64(value) {
                Some(n) => {
                    if n <= usize::MAX as u64 {
                        self.interactive_history_size = n as usize;
                        Ok(())
                    } else {
                        Err(CliError::validation("Invalid history size"))
                    }
                },
                None => Err(CliError::validation("Invalid history size")),
            },
            ConfigField::ColorOutput => {
                if str_eq(value, "true") {
                    self.color_output = true;
                    Ok(())
                } else if str_eq(value, "false") {
                    self.color_output = false;
                    Ok(())
                } else {
                    Err(CliError::validation("Invalid boolean value"))
                }
            },
            ConfigField::RequestTimeoutSecs => match parse_u64(value) {
                Some(n) => {
                    self.request_timeout_secs = n;
                    Ok(())
                },
                None => Err(CliError::validation("Invalid timeout value")),
            },
        }
    }
}

/// Keeps the location of the configuration file and checks configurations
/// before they are stored. Reading and writing the file itself is left to
/// the surrounding program.
pub struct ConfigManager {
    config_path: String,
}

impl ConfigManager {
    /// The path under the configuration file's location.
    pub closed spec fn path(&self) -> Seq<char> {
        self.config_path@
    }

    /// A manager for the configuration file under the given home
    /// directory.
    pub fn new(home_dir: &str) -> (r: ConfigManager)
        ensures
            r.path() == home_dir@ + "/.config/lastfm-cli/config.toml"@,
    {
        let mut config_path = String::new();
        config_path.append(home_dir);
        config_path.append("/.config/lastfm-cli/config.toml");
        ConfigManager { config_path }
    }

    /// The configuration file's location.
    pub fn config_path(&self) -> (r: &String)
        ensures
            r@ == self.path(),
    {
        &self.config_path
    }

    /// Check a configuration: the worker URL may not be empty, and the
    /// timeout and the cache lifetime must be positive.
    pub fn validate(&self, config: &CliConfig) -> (r: CliResult<()>)
        ensures
            match r {
                Ok(()) => config.worker_url@.len() > 0 && config.request_timeout_secs > 0
                    && config.cache_ttl > 0,
                Err(e) => if config.worker_url@.len() == 0 {
                    e matches CliError::Validation(m) && m@ == "Worker URL cannot be empty"@
                } else if config.request_timeout_secs == 0 {
                    e matches CliError::Validation(m) && m@
                        == "Request timeout must be greater than 0"@
                } else {
                    config.cache_ttl == 0 && (e matches CliError::Validation(m) && m@
                        == "Cache TTL must be greater than 0"@)
                },
            },
    {
        if config.worker_url.as_str().unicode_len() == 0 {
            return Err(CliError::validation("Worker URL cannot be empty"));
        }
        if config.request_timeout_secs == 0 {
            return Err(CliError::validation("Request timeout must be greater than 0"));
        }
        if config.cache_ttl == 0 {
            return Err(CliError::validation("Cache TTL must be greater than 0"));
        }
        Ok(())
    }
}

} // verus!
