//! What the server is started with: the gateway's API key and the port.

use vstd::prelude::*;
use crate::directory::text_view;

verus! {

/// `std::num::ParseIntError`, carried as an opaque value.
#[verifier::external_type_specification]
#[verifier::external_body]
pub struct ExParseIntError(std::num::ParseIntError);

/// The settings of a running server.
#[derive(Clone, Debug)]
pub struct ServerConfig {
    pub api_key: String,
    pub port: u16,
}

/// Why the server cannot start.
#[derive(Clone, Copy, Debug, PartialEq, Eq, Structural)]
pub enum StartupError {
    /// The variable that holds the API key is not set.
    MissingApiKey,
}

/// The number that `str::parse::<u16>` reads from a text, `None` where it
/// rejects the text.
pub uninterp spec fn parsed_u16(text: Seq<char>) -> Option<u16>;

/// Calls `str::parse` for a `u16`. Trusted: the outcome is the one named by
/// [`parsed_u16`], a function of the text alone; an error comes exactly
/// where that is `None`.
#[verifier::external_body]
fn parse_u16(text: &str) -> (r: Result<u16, std::num::ParseIntError>)
    ensures
        match r {
            Ok(number) => parsed_u16(text@) == Some(number),
            Err(_) => parsed_u16(text@).is_none(),
        },
{
    text.parse::<u16>()
}

/// The name of the variable that holds the API key.
pub open spec fn api_key_variable_text() -> Seq<char> {
    "RESEND_API_KEY"@
}

/// The port where none is set, or where what is set is no port number.
pub open spec fn default_port() -> u16 {
    8080
}

/// The port for a setting that was parsed, or could not be.
pub open spec fn port_or_default(parsed: Option<u16>) -> u16 {
    match parsed {
        Some(port) => port,
        None => default_port(),
    }
}

/// The port for the value of the port variable, `None` where it is unset.
pub open spec fn port_of(setting: Option<Seq<char>>) -> u16 {
    match setting {
        Some(text) => port_or_default(parsed_u16(text)),
        None => default_port(),
    }
}

/// The name of the variable that holds the API key.
pub fn api_key_variable() -> (r: String)
    ensures
        r@ == api_key_variable_text(),
{
    "RESEND_API_KEY".to_owned()
}

/// The name of the variable that holds the port.
pub fn port_variable() -> (r: String)
    ensures
        r@ == "PORT"@,
{
    "PORT".to_owned()
}

/// The address to listen on: every interface.
pub fn bind_host() -> (r: String)
    ensures
        r@ == "0.0.0.0"@,
{
    "0.0.0.0".to_owned()
}

/// Chooses the port for a setting that was parsed, or could not be.
pub fn choose_port(parsed: Option<u16>) -> (r: u16)
    ensures
        r == port_or_default(parsed),
{
    match parsed {
        Some(port) => port,
        None => 8080,
    }
}

/// Chooses the port for the value of the port variable.
pub fn resolve_port(setting: Option<&str>) -> (r: u16)
    ensures
        r == port_of(
            match setting {
                Some(text) => Some(text@),
                None => None,
            },
        ),
{
    match setting {
        Some(text) => match parse_u16(text) {
            Ok(port) => choose_port(Some(port)),
            Err(_) => choose_port(None),
        },
        None => choose_port(None),
    }
}

/// Settles the server's settings from the values of the two variables. The
/// API key is required; the port is not.
pub fn startup(api_key: Option<String>, port: Option<String>) -> (r: Result<
    ServerConfig,
    StartupError,
>)
    ensures
        match api_key {
            Some(key) => r matches Ok(config) && config.api_key@ == key@ && config.port
                == port_of(text_view(port)),
            None => r == Err::<ServerConfig, StartupError>(StartupError::MissingApiKey),
        },
{
    match api_key {
        Some(key) => {
            let chosen = match &port {
                Some(text) => resolve_port(Some(text.as_str())),
                None => resolve_port(None),
            };
            Ok(ServerConfig { api_key: key, port: chosen })
        },
        None => Err(StartupError::MissingApiKey),
    }
}

impl StartupError {
    /// The error in words: it names the variable that is missing.
    pub fn describe(&self) -> (r: String)
        ensures
            r@ == api_key_variable_text() + " must be set"@,
    {
        match self {
            StartupError::MissingApiKey => api_key_variable().concat(" must be set"),
        }
    }
}

} // verus!
