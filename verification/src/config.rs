//! What the gateway is configured with: the defaults, and what it refuses to start with.

use vstd::prelude::*;
use vstd::string::*;

use crate::text::{denoted, parse_number, same};

verus! {

/// How many requests of an address a window admits, unless configured otherwise.
pub const RATE_LIMIT: u32 = 60;

/// How many seconds a window of the rate limiter lasts, unless configured otherwise.
pub const RATE_WINDOW_SECONDS: u64 = 60;

/// Whether the environment is the one that serves real users.
pub open spec fn is_production(app_env: Seq<char>) -> bool {
    app_env == "production"@ || app_env == "prod"@
}

/// Refuses to start in production without a secret that signs the browser sessions.
pub fn check_session_secret(app_env: &str, session_secret: &str) -> (r: Result<(), String>)
    ensures
        match r {
            Ok(_) => !is_production(app_env@) || session_secret@.len() > 0,
            Err(message) => {
                &&& is_production(app_env@) && session_secret@.len() == 0
                &&& message@
                    == "SESSION_SECRET must be set in production (signs OIDC browser sessions)"@
            },
        },
{
    if (same(app_env, "production") || same(app_env, "prod")) && session_secret.is_empty() {
        return Err(
            "SESSION_SECRET must be set in production (signs OIDC browser sessions)".to_owned(),
        );
    }
    Ok(())
}

/// The configured rate limit; what is not a number of its range counts for the default.
pub fn rate_limit(text: &str) -> (r: u32)
    ensures
        r as nat == (match denoted(text@, u32::MAX as nat) {
            Some(n) => n,
            None => RATE_LIMIT as nat,
        }),
{
    match parse_number(text, 4294967295) {
        Some(n) => n as u32,
        None => RATE_LIMIT,
    }
}

/// The configured window in seconds; what is not a number of its range counts for the default.
pub fn rate_window_seconds(text: &str) -> (r: u64)
    ensures
        r as nat == (match denoted(text@, u64::MAX as nat) {
            Some(n) => n,
            None => RATE_WINDOW_SECONDS as nat,
        }),
{
    match parse_number(text, u64::MAX) {
        Some(n) => n,
        None => RATE_WINDOW_SECONDS,
    }
}

/// The address that the gateway listens on: every interface, at the configured port.
pub fn listen_address(port: &str) -> (r: String)
    ensures
        r@ == "0.0.0.0:"@ + port@,
{
    let mut r = "0.0.0.0:".to_owned();
    r.append(port);
    r
}

/// Production goes by two names, and by no other.
pub proof fn law_production(app_env: Seq<char>)
    ensures
        is_production(app_env) <==> app_env == "production"@ || app_env == "prod"@,
        RATE_LIMIT == 60,
        RATE_WINDOW_SECONDS == 60,
{
}

} // verus!
