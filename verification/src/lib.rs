//! A credential-hiding proxy core for a music-metadata web API.
//!
//! The library verifies the request-handling pipeline: parameter validation,
//! canonical cache-key derivation, request signing, rate limiting, cache
//! bookkeeping, upstream URL construction and error normalization.

pub mod lex;
pub mod params;
pub mod canonical;
pub mod signing;
pub mod validation;
pub mod error;
pub mod models;
pub mod store;
pub mod middleware;
pub mod utils;
pub mod handlers;
pub mod endpoints;
pub mod cli_error;
pub mod auth;
pub mod config;
pub mod args;
pub mod api;
