//! Start-up: validate the configuration, derive the device identity, and
//! only then build the sensing and reporting components.

use crate::config::{config_error, validate_config, Config, ConfigError, ValidatedConfig};
use crate::identity::{derive_identity, hex_lower};
use crate::monitor::{MonitorState, MotionMonitor, DEFAULT_COOLDOWN};
use crate::occupancy::{window_micros, OccupancyCell};
use crate::reporter::{CyclePhase, Reporter, DEFAULT_PERIOD};
use vstd::prelude::*;

verus! {

/// Everything the running node needs, made once at start-up.
pub struct Pipeline {
    pub config: ValidatedConfig,
    pub cell: OccupancyCell,
    pub monitor: MotionMonitor,
    pub reporter: Reporter,
}

/// Validates `config`; on success derives the identity from
/// `hardware_address` and builds an empty cell, an idle monitor and a
/// reporter waiting for its first period. On failure nothing is built.
pub fn start_pipeline(
    config: &Config,
    hardware_address: &[u8],
    firmware_version: &'static str,
) -> (r: Result<Pipeline, ConfigError>)
    requires
        2 * hardware_address@.len() <= usize::MAX,
    ensures
        r is Err <==> config_error(*config) is Some,
        r is Err ==> config_error(*config) == Some(r->Err_0),
        r is Ok ==> {
            let p = r->Ok_0;
            &&& p.config.wifi_ssid == config.wifi_ssid
            &&& p.config.wifi_password == config.wifi_password
            &&& p.config.auth_token == config.auth_token
            &&& p.config.decay_window == window_micros(config.pir_delay)
            &&& p.cell@ == 0
            &&& p.monitor.state == MonitorState::Idle
            &&& p.monitor.cooldown == DEFAULT_COOLDOWN
            &&& p.reporter.phase == CyclePhase::Sleeping
            &&& p.reporter.sensor_id@ == hex_lower(hardware_address@)
            &&& p.reporter.firmware_version == firmware_version
            &&& p.reporter.auth_token == config.auth_token
            &&& p.reporter.decay_window == window_micros(config.pir_delay)
            &&& p.reporter.period == DEFAULT_PERIOD
            &&& p.reporter.last_outcome is None
        },
{
    let validated = match validate_config(config) {
        Ok(v) => v,
        Err(e) => {
            return Err(e);
        },
    };
    let sensor_id = derive_identity(hardware_address);
    let reporter = Reporter::new(
        sensor_id,
        firmware_version,
        validated.auth_token,
        validated.decay_window,
        DEFAULT_PERIOD,
    );
    Ok(
        Pipeline {
            config: validated,
            cell: OccupancyCell::new(),
            monitor: MotionMonitor::new(DEFAULT_COOLDOWN),
            reporter,
        },
    )
}

} // verus!
