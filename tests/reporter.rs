use occupancy_sensor::occupancy::OccupancyCell;
use occupancy_sensor::reporter::{CycleOutcome, CyclePhase, Reporter, ReporterAction, ReporterEvent, DEFAULT_PERIOD};

fn reporter() -> Reporter {
    Reporter::new(b"28cdc10aff00".to_vec(), "0.1.0", "tok", 60_000_000, DEFAULT_PERIOD)
}

#[test]
fn serialization_failure_skips_network_and_next_cycle_runs() {
    let mut cell = OccupancyCell::new();
    cell.record_event(1_000_000);
    let mut r = reporter();
    assert_eq!(r.start(), ReporterAction::Sleep { micros: 60_000_000 });
    let a = r.handle(&cell, ReporterEvent::PeriodElapsed { now: 31_000_000 });
    assert_eq!(a, ReporterAction::Serialize { occupants: 1 });
    let a = r.handle(&cell, ReporterEvent::SerializeFailed);
    assert_eq!(a, ReporterAction::Sleep { micros: 60_000_000 });
    assert_eq!(r.phase, CyclePhase::Sleeping);
    assert_eq!(r.last_outcome, Some(CycleOutcome::SerializationFailed));
    let a = r.handle(&cell, ReporterEvent::PeriodElapsed { now: 91_000_000 });
    assert_eq!(a, ReporterAction::Serialize { occupants: 0 });
    let a = r.handle(&cell, ReporterEvent::Serialized { len: 80 });
    assert_eq!(a, ReporterAction::Send { body_len: 80 });
}

#[test]
fn full_cycle_delivers() {
    let cell = OccupancyCell::new();
    let mut r = reporter();
    assert_eq!(r.handle(&cell, ReporterEvent::PeriodElapsed { now: 5 }), ReporterAction::Serialize { occupants: 0 });
    assert_eq!(r.handle(&cell, ReporterEvent::Serialized { len: 3 }), ReporterAction::Send { body_len: 3 });
    assert_eq!(r.handle(&cell, ReporterEvent::Sent { status: 200 }), ReporterAction::ReadBody);
    assert_eq!(r.phase, CyclePhase::Receiving { status: 200 });
    assert_eq!(r.handle(&cell, ReporterEvent::BodyRead), ReporterAction::Sleep { micros: DEFAULT_PERIOD });
    assert_eq!(r.last_outcome, Some(CycleOutcome::Delivered));
}

#[test]
fn transport_failure_ends_cycle() {
    let cell = OccupancyCell::new();
    let mut r = reporter();
    r.handle(&cell, ReporterEvent::PeriodElapsed { now: 5 });
    r.handle(&cell, ReporterEvent::Serialized { len: 3 });
    assert_eq!(r.handle(&cell, ReporterEvent::SendFailed), ReporterAction::Sleep { micros: DEFAULT_PERIOD });
    assert_eq!(r.last_outcome, Some(CycleOutcome::TransportFailed));
    assert_eq!(r.handle(&cell, ReporterEvent::PeriodElapsed { now: 6 }), ReporterAction::Serialize { occupants: 0 });
}

#[test]
fn error_status_and_unreadable_body_are_rejected() {
    let cell = OccupancyCell::new();
    let mut r = reporter();
    r.handle(&cell, ReporterEvent::PeriodElapsed { now: 5 });
    r.handle(&cell, ReporterEvent::Serialized { len: 3 });
    r.handle(&cell, ReporterEvent::Sent { status: 500 });
    assert_eq!(r.handle(&cell, ReporterEvent::BodyRead), ReporterAction::Sleep { micros: DEFAULT_PERIOD });
    assert_eq!(r.last_outcome, Some(CycleOutcome::Rejected));
    r.handle(&cell, ReporterEvent::PeriodElapsed { now: 6 });
    r.handle(&cell, ReporterEvent::Serialized { len: 3 });
    r.handle(&cell, ReporterEvent::Sent { status: 204 });
    assert_eq!(r.handle(&cell, ReporterEvent::BodyFailed), ReporterAction::Sleep { micros: DEFAULT_PERIOD });
    assert_eq!(r.last_outcome, Some(CycleOutcome::Rejected));
}

#[test]
fn out_of_phase_events_are_ignored() {
    let cell = OccupancyCell::new();
    let mut r = reporter();
    assert_eq!(r.handle(&cell, ReporterEvent::Sent { status: 200 }), ReporterAction::Ignore);
    assert_eq!(r.handle(&cell, ReporterEvent::SerializeFailed), ReporterAction::Ignore);
    assert_eq!(r.phase, CyclePhase::Sleeping);
    assert_eq!(r.last_outcome, None);
}

#[test]
fn report_carries_identity_and_flag() {
    let r = reporter();
    let rep = r.report(1);
    assert_eq!(rep.sensor_id, b"28cdc10aff00".to_vec());
    assert_eq!(rep.firmware_version, "0.1.0");
    assert_eq!(rep.auth_token, "tok");
    assert_eq!(rep.occupants, 1);
}
