//! Service configuration: the listening port and the T3 Chat credentials.

use vstd::prelude::*;
use crate::text::{parse_u16, parse_u16_decimal};

verus! {

/// The settings the service runs with.
#[derive(Clone, Debug)]
pub struct Config {
    pub port: u16,
    pub cookies: String,
    pub convex_session_id: String,
}

/// Why the settings could not be read.
#[derive(Clone, Copy, Debug, PartialEq, Eq)]
pub enum ConfigError {
    /// `PORT` is not a 16-bit decimal number.
    InvalidPort,
    /// `T3_COOKIES` is not set.
    MissingCookies,
    /// `T3_CONVEX_SESSION_ID` is not set.
    MissingSessionId,
}

impl ConfigError {
    /// The message reported for the error.
    pub fn message(&self) -> (m: &'static str)
        ensures
            *self == ConfigError::InvalidPort ==> m@ == "Invalid PORT"@,
            *self == ConfigError::MissingCookies ==> m@ == "T3_COOKIES environment variable required"@,
            *self == ConfigError::MissingSessionId ==> m@
                == "T3_CONVEX_SESSION_ID environment variable required"@,
    {
        match self {
            ConfigError::InvalidPort => "Invalid PORT",
            ConfigError::MissingCookies => "T3_COOKIES environment variable required",
            ConfigError::MissingSessionId => "T3_CONVEX_SESSION_ID environment variable required",
        }
    }
}

/// The text the port is read from: the `PORT` value, or `11434` (Ollama's
/// port) when it is not set.
pub open spec fn port_text(port: Option<Seq<char>>) -> Seq<char> {
    match port {
        Some(p) => p,
        None => "11434"@,
    }
}

/// The view of an optional string.
pub open spec fn opt_view(s: Option<String>) -> Option<Seq<char>> {
    match s {
        Some(t) => Some(t@),
        None => None,
    }
}

impl Config {
    /// Reads the settings from the values of the `PORT`, `T3_COOKIES` and
    /// `T3_CONVEX_SESSION_ID` environment variables (`None` where a variable
    /// is unset).  The port is checked first, then the cookies, then the
    /// session id.
    pub fn from_env(
        port: Option<String>,
        cookies: Option<String>,
        convex_session_id: Option<String>,
    ) -> (r: Result<Config, ConfigError>)
        ensures
            parse_u16(port_text(opt_view(port))) is None ==> r == Err::<Config, ConfigError>(
                ConfigError::InvalidPort,
            ),
            parse_u16(port_text(opt_view(port))) is Some && cookies is None ==> r == Err::<
                Config,
                ConfigError,
            >(ConfigError::MissingCookies),
            parse_u16(port_text(opt_view(port))) is Some && cookies is Some && convex_session_id is None
                ==> r == Err::<Config, ConfigError>(ConfigError::MissingSessionId),
            parse_u16(port_text(opt_view(port))) is Some && cookies is Some && convex_session_id is Some
                ==> r is Ok,
            r matches Ok(c) ==> {
                &&& Some(c.port) == parse_u16(port_text(opt_view(port)))
                &&& Some(c.cookies@) == opt_view(cookies)
                &&& Some(c.convex_session_id@) == opt_view(convex_session_id)
            },
    {
        let text = match port {
            Some(p) => p,
            None => String::from_str("11434"),
        };
        let port = match parse_u16_decimal(text.as_str()) {
            Some(n) => n,
            None => {
                return Err(ConfigError::InvalidPort);
            },
        };
        let cookies = match cookies {
            Some(c) => c,
            None => {
                return Err(ConfigError::MissingCookies);
            },
        };
        let convex_session_id = match convex_session_id {
            Some(s) => s,
            None => {
                return Err(ConfigError::MissingSessionId);
            },
        };
        Ok(Config { port, cookies, convex_session_id })
    }
}

} // verus!
