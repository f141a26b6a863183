use occupancy_sensor::identity::{derive_identity, Heartbeat, SensorStatus};

#[test]
fn identity_is_lowercase_hex() {
    let mac: [u8; 6] = [0x28, 0xcd, 0xC1, 0x0a, 0xFF, 0x00];
    let id = derive_identity(&mac);
    assert_eq!(id, b"28cdc10aff00".to_vec());
}

#[test]
fn identity_of_empty_address_is_empty() {
    assert!(derive_identity(&[]).is_empty());
}

#[test]
fn heartbeat_version_defaults_to_unknown() {
    let id = ['0'; 12];
    let h = Heartbeat::new(id, None);
    assert_eq!(h.version, "unknown");
    assert_eq!(h.id, id);
    let h = Heartbeat::new(id, Some("1.2.3"));
    assert_eq!(h.version, "1.2.3");
}

#[test]
fn sensor_status_keeps_fields() {
    let id = ['a', 'b', 'c', 'd', 'e', 'f', '0', '1', '2', '3', '4', '5'];
    let s = SensorStatus::new(id, 3);
    assert_eq!(s.id, id);
    assert_eq!(s.count, 3);
}
