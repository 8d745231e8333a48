//! Session data for the command-line client, and the authorization URL the
//! login flow opens.

use vstd::prelude::*;

verus! {

/// A logged-in session: the user and their session key.
#[derive(Debug, Clone)]
pub struct Session {
    pub username: String,
    pub key: String,
}

/// Session data as stored in the configuration file.
#[derive(Debug, Clone)]
pub struct AuthConfig {
    pub username: Option<String>,
    pub session_key: Option<String>,
}

impl Default for AuthConfig {
    /// An empty session: nobody is logged in.
    fn default() -> (r: AuthConfig)
        ensures
            r.username is None,
            r.session_key is None,
    {
        AuthConfig { username: None, session_key: None }
    }
}

/// Whether a session is active, and for whom.
#[derive(Debug)]
pub struct AuthStatus {
    pub authenticated: bool,
    pub username: Option<String>,
}

impl AuthStatus {
    /// The status a session denotes: authenticated with the session's user
    /// when one exists, anonymous otherwise.
    pub fn new(session: Option<Session>) -> (r: AuthStatus)
        ensures
            match session {
                Some(s) => r.authenticated && r.username == Some(s.username),
                None => !r.authenticated && r.username is None,
            },
    {
        match session {
            Some(s) => AuthStatus { authenticated: true, username: Some(s.username) },
            None => AuthStatus { authenticated: false, username: None },
        }
    }
}

/// The URL a user visits to authorize the application, carrying the API
/// key and the local callback address.
pub fn generate_auth_url(api_key: &str) -> (r: String)
    ensures
        r@ == "https://www.last.fm/api/auth/?api_key="@ + api_key@
            + "&cb=http://localhost:41419/auth/callback"@,
{
    let mut out = String::new();
    out.append("https://www.last.fm/api/auth/?api_key=");
    out.append(api_key);
    out.append("&cb=http://localhost:41419/auth/callback");
    out
}

} // verus!
