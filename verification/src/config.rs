//! Startup configuration: the required values are checked up front, so the
//! process fails fast rather than start half-configured.

use vstd::prelude::*;

verus! {

/// The configuration the demo reads at startup.
#[derive(Debug)]
pub struct AppConfig {
    pub port: u16,
    pub foo: String,
}

/// A required configuration value was absent at startup: fatal.
#[derive(PartialEq, Eq, Structural, Clone, Copy, Debug)]
pub enum ConfigError {
    MissingPort,
    MissingFoo,
}

/// Accepts the startup configuration exactly when every required value is
/// present, carrying the values through unchanged; otherwise names the
/// first absent one.
pub fn check_config(port: Option<u16>, foo: Option<String>) -> (r: Result<AppConfig, ConfigError>)
    ensures
        r is Ok <==> (port is Some && foo is Some),
        r matches Ok(c) ==> (port matches Some(p) && c.port == p),
        r matches Ok(c) ==> (foo matches Some(f) && c.foo@ == f@),
        r matches Err(e) ==> ((e is MissingPort) <==> port is None),
{
    match (port, foo) {
        (Some(p), Some(f)) => Ok(AppConfig { port: p, foo: f }),
        (None, _) => Err(ConfigError::MissingPort),
        (Some(_), None) => Err(ConfigError::MissingFoo),
    }
}

} // verus!
