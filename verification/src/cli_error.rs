//! The command-line client's error type: one variant per failure family,
//! with the status code each maps to on an API surface.

use vstd::prelude::*;

verus! {

/// An error of the command-line client.
#[derive(Debug)]
pub enum CliError {
    Api(String),
    Config(String),
    Validation(String),
    Cache(String),
    Worker(String),
    NotFound(String),
    RateLimit,
    AuthRequired,
    InvalidCommand(String),
    MissingArgument(String),
    InvalidArgument(String),
    Other(String),
}

/// The result type of the command-line client.
pub type CliResult<T> = Result<T, CliError>;

impl CliError {
    /// An API error with a custom message.
    pub fn api(msg: &str) -> (r: CliError)
        ensures
            r matches CliError::Api(m) && m@ == msg@,
    {
        CliError::Api(msg.to_owned())
    }

    /// A configuration error with a custom message.
    pub fn config(msg: &str) -> (r: CliError)
        ensures
            r matches CliError::Config(m) && m@ == msg@,
    {
        CliError::Config(msg.to_owned())
    }

    /// A validation error with a custom message.
    pub fn validation(msg: &str) -> (r: CliError)
        ensures
            r matches CliError::Validation(m) && m@ == msg@,
    {
        CliError::Validation(msg.to_owned())
    }

    /// A cache error with a custom message.
    pub fn cache(msg: &str) -> (r: CliError)
        ensures
            r matches CliError::Cache(m) && m@ == msg@,
    {
        CliError::Cache(msg.to_owned())
    }

    /// A worker error with a custom message.
    pub fn worker(msg: &str) -> (r: CliError)
        ensures
            r matches CliError::Worker(m) && m@ == msg@,
    {
        CliError::Worker(msg.to_owned())
    }

    /// A not-found error with a custom message.
    pub fn not_found(msg: &str) -> (r: CliError)
        ensures
            r matches CliError::NotFound(m) && m@ == msg@,
    {
        CliError::NotFound(msg.to_owned())
    }

    /// An invalid-command error.
    pub fn invalid_command(msg: &str) -> (r: CliError)
        ensures
            r matches CliError::InvalidCommand(m) && m@ == msg@,
    {
        CliError::InvalidCommand(msg.to_owned())
    }

    /// A missing-argument error.
    pub fn missing_argument(arg: &str) -> (r: CliError)
        ensures
            r matches CliError::MissingArgument(m) && m@ == arg@,
    {
        CliError::MissingArgument(arg.to_owned())
    }

    /// An invalid-argument error.
    pub fn invalid_argument(msg: &str) -> (r: CliError)
        ensures
            r matches CliError::InvalidArgument(m) && m@ == msg@,
    {
        CliError::InvalidArgument(msg.to_owned())
    }

    /// A generic error with a custom message.
    pub fn other(msg: &str) -> (r: CliError)
        ensures
            r matches CliError::Other(m) && m@ == msg@,
    {
        CliError::Other(msg.to_owned())
    }

    /// Whether retrying the operation could succeed.
    pub fn is_retryable(&self) -> (r: bool)
        ensures
            r == (self is RateLimit || self is Api || self is Cache),
    {
        match self {
            CliError::RateLimit => true,
            CliError::Api(_) => true,
            CliError::Cache(_) => true,
            _ => false,
        }
    }

    /// The status code the error maps to on an API surface.
    pub fn error_code(&self) -> (r: u32)
        ensures
            r == error_code_of(self),
    {
        match self {
            CliError::RateLimit => 429,
            CliError::AuthRequired => 401,
            CliError::NotFound(_) => 404,
            CliError::Validation(_) => 400,
            CliError::InvalidArgument(_) => 400,
            CliError::MissingArgument(_) => 400,
            _ => 500,
        }
    }
}

/// The status code of each error family.
pub open spec fn error_code_of(e: &CliError) -> u32 {
    match e {
        CliError::RateLimit => 429,
        CliError::AuthRequired => 401,
        CliError::NotFound(_) => 404,
        CliError::Validation(_) => 400,
        CliError::InvalidArgument(_) => 400,
        CliError::MissingArgument(_) => 400,
        _ => 500,
    }
}

} // verus!
