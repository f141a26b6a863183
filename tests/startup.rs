use occupancy_sensor::config::{validate_config, Config, ConfigError};
use occupancy_sensor::monitor::{MonitorState, DEFAULT_COOLDOWN};
use occupancy_sensor::reporter::{CyclePhase, DEFAULT_PERIOD};
use occupancy_sensor::startup::start_pipeline;

fn full() -> Config {
    Config { wifi_ssid: "office", wifi_password: "hunter2", auth_token: "tok", pir_delay: 60 }
}

#[test]
fn empty_ssid_is_missing() {
    let c = Config { wifi_ssid: "", ..full() };
    assert_eq!(validate_config(&c).err(), Some(ConfigError::MissingField("wifi_ssid")));
}

#[test]
fn empty_password_is_missing() {
    let c = Config { wifi_password: "", ..full() };
    assert_eq!(validate_config(&c).err(), Some(ConfigError::MissingField("wifi_password")));
}

#[test]
fn empty_token_is_missing() {
    let c = Config { auth_token: "", ..full() };
    assert_eq!(validate_config(&c).err(), Some(ConfigError::MissingField("auth_token")));
}

#[test]
fn first_empty_field_is_named() {
    let c = Config { wifi_ssid: "", wifi_password: "", auth_token: "", pir_delay: 0 };
    assert_eq!(validate_config(&c).err(), Some(ConfigError::MissingField("wifi_ssid")));
}

#[test]
fn complete_config_is_accepted() {
    let v = validate_config(&full()).ok().unwrap();
    assert_eq!(v.wifi_ssid, "office");
    assert_eq!(v.wifi_password, "hunter2");
    assert_eq!(v.auth_token, "tok");
    assert_eq!(v.decay_window, 60_000_000);
}

#[test]
fn startup_with_empty_secret_builds_nothing() {
    let c = Config { wifi_password: "", ..full() };
    let r = start_pipeline(&c, &[1, 2, 3, 4, 5, 6], "0.1.0");
    assert_eq!(r.err(), Some(ConfigError::MissingField("wifi_password")));
}

#[test]
fn startup_builds_idle_pipeline() {
    let p = start_pipeline(&full(), &[0xde, 0xad, 0xbe, 0xef, 0x00, 0x01], "0.1.0").ok().unwrap();
    assert_eq!(p.cell.read_last_event(), 0);
    assert_eq!(p.monitor.state, MonitorState::Idle);
    assert_eq!(p.monitor.cooldown, DEFAULT_COOLDOWN);
    assert_eq!(p.reporter.phase, CyclePhase::Sleeping);
    assert_eq!(p.reporter.sensor_id, b"deadbeef0001".to_vec());
    assert_eq!(p.reporter.firmware_version, "0.1.0");
    assert_eq!(p.reporter.auth_token, "tok");
    assert_eq!(p.reporter.decay_window, 60_000_000);
    assert_eq!(p.reporter.period, DEFAULT_PERIOD);
    assert_eq!(p.config.decay_window, 60_000_000);
}
