//! Start-up configuration and its one-time validation.

use crate::occupancy::{decay_window_micros, window_micros};
use vstd::prelude::*;

verus! {

/// Configuration values supplied at build time.
pub struct Config {
    pub wifi_ssid: &'static str,
    pub wifi_password: &'static str,
    pub auth_token: &'static str,
    /// Occupancy decay window, in seconds.
    pub pir_delay: u64,
}

/// Why a configuration was refused.
#[derive(Debug, PartialEq, Eq)]
pub enum ConfigError {
    /// The named required field is empty.
    MissingField(&'static str),
}

/// A configuration whose required fields are all present; immutable once made.
pub struct ValidatedConfig {
    pub wifi_ssid: &'static str,
    pub wifi_password: &'static str,
    pub auth_token: &'static str,
    /// Occupancy decay window, in microseconds.
    pub decay_window: u64,
}

/// The error for the first empty required field, in the order network name,
/// network secret, authentication token; `None` when all are present.
pub open spec fn config_error(config: Config) -> Option<ConfigError> {
    if config.wifi_ssid@.len() == 0 {
        Some(ConfigError::MissingField("wifi_ssid"))
    } else if config.wifi_password@.len() == 0 {
        Some(ConfigError::MissingField("wifi_password"))
    } else if config.auth_token@.len() == 0 {
        Some(ConfigError::MissingField("auth_token"))
    } else {
        None
    }
}

/// Checks the required fields and names the first empty one; on success
/// carries the values over with the decay window in microseconds.
pub fn validate_config(config: &Config) -> (r: Result<ValidatedConfig, ConfigError>)
    ensures
        r is Err <==> config_error(*config) is Some,
        r is Err ==> config_error(*config) == Some(r->Err_0),
        r is Ok ==> {
            let v = r->Ok_0;
            &&& v.wifi_ssid == config.wifi_ssid
            &&& v.wifi_password == config.wifi_password
            &&& v.auth_token == config.auth_token
            &&& v.decay_window == window_micros(config.pir_delay)
        },
{
    if config.wifi_ssid.is_empty() {
        return Err(ConfigError::MissingField("wifi_ssid"));
    }
    if config.wifi_password.is_empty() {
        return Err(ConfigError::MissingField("wifi_password"));
    }
    if config.auth_token.is_empty() {
        return Err(ConfigError::MissingField("auth_token"));
    }
    Ok(
        ValidatedConfig {
            wifi_ssid: config.wifi_ssid,
            wifi_password: config.wifi_password,
            auth_token: config.auth_token,
            decay_window: decay_window_micros(config.pir_delay),
        },
    )
}

} // verus!
