//! Telemetry reporter: once per period, evaluate occupancy, build a report,
//! serialize it, send it and read the answer; any failure ends only the
//! current cycle.

use crate::occupancy::{occupancy_flag, occupied, OccupancyCell};
use vstd::prelude::*;

verus! {

/// Time between reports, in microseconds.
pub const DEFAULT_PERIOD: u64 = 60_000_000;

/// One report: device identity and the occupancy flag (0 or 1).
pub struct SensorReport {
    /// Lowercase hexadecimal hardware address (ASCII).
    pub sensor_id: Vec<u8>,
    pub firmware_version: &'static str,
    pub auth_token: &'static str,
    pub occupants: u8,
}

#[derive(Clone, Copy, Debug, PartialEq, Eq, Structural)]
pub enum CyclePhase {
    /// Waiting for the period to elapse.
    Sleeping,
    /// The report is being serialized.
    Serializing,
    /// The request is in flight.
    Sending,
    /// A response with `status` arrived; its body is being read.
    Receiving { status: u16 },
}

#[derive(Clone, Copy, Debug, PartialEq, Eq, Structural)]
pub enum ReporterEvent {
    /// The period elapsed; the clock reads `now` (microseconds).
    PeriodElapsed { now: u64 },
    /// The report was serialized into `len` bytes.
    Serialized { len: usize },
    /// The report did not fit the wire format or its buffer.
    SerializeFailed,
    /// The request was sent and answered with `status`.
    Sent { status: u16 },
    /// The connection or transport failed, or timed out.
    SendFailed,
    /// The response body was read.
    BodyRead,
    /// The response body could not be read.
    BodyFailed,
}

/// What the task does next.
#[derive(Clone, Copy, Debug, PartialEq, Eq, Structural)]
pub enum ReporterAction {
    /// Wait `micros` microseconds, then signal `PeriodElapsed`.
    Sleep { micros: u64 },
    /// Build the report with this flag and serialize it.
    Serialize { occupants: u8 },
    /// Send the first `body_len` serialized bytes.
    Send { body_len: usize },
    /// Read the response body.
    ReadBody,
    /// The event does not belong to the current phase: nothing to do.
    Ignore,
}

/// How a cycle ended.
#[derive(Clone, Copy, Debug, PartialEq, Eq, Structural)]
pub enum CycleOutcome {
    /// A success status with a readable body.
    Delivered,
    /// Another status, or an unreadable body.
    Rejected,
    SerializationFailed,
    TransportFailed,
}

pub open spec fn is_success_status(status: u16) -> bool {
    200 <= status < 300
}

/// Next phase and action for `event` in `phase`, given the cell's value, the
/// decay window and the period.
pub open spec fn reporter_step(
    phase: CyclePhase,
    event: ReporterEvent,
    last_event: u64,
    decay_window: u64,
    period: u64,
) -> (CyclePhase, ReporterAction) {
    match (phase, event) {
        (CyclePhase::Sleeping, ReporterEvent::PeriodElapsed { now }) => (
            CyclePhase::Serializing,
            ReporterAction::Serialize { occupants: occupancy_flag(now, last_event, decay_window) },
        ),
        (CyclePhase::Serializing, ReporterEvent::Serialized { len }) => (
            CyclePhase::Sending,
            ReporterAction::Send { body_len: len },
        ),
        (CyclePhase::Sending, ReporterEvent::Sent { status }) => (
            CyclePhase::Receiving { status },
            ReporterAction::ReadBody,
        ),
        (CyclePhase::Serializing, ReporterEvent::SerializeFailed)
        | (CyclePhase::Sending, ReporterEvent::SendFailed)
        | (CyclePhase::Receiving { .. }, ReporterEvent::BodyRead)
        | (CyclePhase::Receiving { .. }, ReporterEvent::BodyFailed) => (
            CyclePhase::Sleeping,
            ReporterAction::Sleep { micros: period },
        ),
        _ => (phase, ReporterAction::Ignore),
    }
}

/// How the cycle ends when `event` comes in `phase`, if it ends there.
pub open spec fn step_outcome(phase: CyclePhase, event: ReporterEvent) -> Option<CycleOutcome> {
    match (phase, event) {
        (CyclePhase::Serializing, ReporterEvent::SerializeFailed) => Some(
            CycleOutcome::SerializationFailed,
        ),
        (CyclePhase::Sending, ReporterEvent::SendFailed) => Some(CycleOutcome::TransportFailed),
        (CyclePhase::Receiving { status }, ReporterEvent::BodyRead) => Some(
            if is_success_status(status) {
                CycleOutcome::Delivered
            } else {
                CycleOutcome::Rejected
            },
        ),
        (CyclePhase::Receiving { .. }, ReporterEvent::BodyFailed) => Some(CycleOutcome::Rejected),
        _ => None,
    }
}

pub struct Reporter {
    pub phase: CyclePhase,
    /// Lowercase hexadecimal hardware address (ASCII).
    pub sensor_id: Vec<u8>,
    pub firmware_version: &'static str,
    pub auth_token: &'static str,
    /// Occupancy decay window, in microseconds.
    pub decay_window: u64,
    /// Time between reports, in microseconds.
    pub period: u64,
    /// How the most recent cycle ended, if one has.
    pub last_outcome: Option<CycleOutcome>,
}

impl Reporter {
    /// A reporter waiting for its first period.
    pub fn new(
        sensor_id: Vec<u8>,
        firmware_version: &'static str,
        auth_token: &'static str,
        decay_window: u64,
        period: u64,
    ) -> (r: Reporter)
        ensures
            r.phase == CyclePhase::Sleeping,
            r.sensor_id@ == sensor_id@,
            r.firmware_version == firmware_version,
            r.auth_token == auth_token,
            r.decay_window == decay_window,
            r.period == period,
            r.last_outcome is None,
    {
        Reporter {
            phase: CyclePhase::Sleeping,
            sensor_id,
            firmware_version,
            auth_token,
            decay_window,
            period,
            last_outcome: None,
        }
    }

    /// The first action: wait one full period.
    pub fn start(&self) -> (r: ReporterAction)
        ensures
            r == (ReporterAction::Sleep { micros: self.period }),
    {
        ReporterAction::Sleep { micros: self.period }
    }

    /// The report for this device with the given occupancy flag.
    pub fn report(&self, occupants: u8) -> (r: SensorReport)
        ensures
            r.sensor_id@ == self.sensor_id@,
            r.firmware_version == self.firmware_version,
            r.auth_token == self.auth_token,
            r.occupants == occupants,
    {
        SensorReport {
            sensor_id: self.sensor_id.clone(),
            firmware_version: self.firmware_version,
            auth_token: self.auth_token,
            occupants,
        }
    }

    /// Handles one event of the reporting cycle, reading occupancy from
    /// `cell` when a period elapses; never fails.
    pub fn handle(&mut self, cell: &OccupancyCell, event: ReporterEvent) -> (r: ReporterAction)
        ensures
            (final(self).phase, r) == reporter_step(
                old(self).phase,
                event,
                cell@,
                old(self).decay_window,
                old(self).period,
            ),
            final(self).last_outcome == (match step_outcome(old(self).phase, event) {
                Some(o) => Some(o),
                None => old(self).last_outcome,
            }),
            final(self).sensor_id == old(self).sensor_id,
            final(self).firmware_version == old(self).firmware_version,
            final(self).auth_token == old(self).auth_token,
            final(self).decay_window == old(self).decay_window,
            final(self).period == old(self).period,
    {
        let sleep = ReporterAction::Sleep { micros: self.period };
        match (self.phase, event) {
            (CyclePhase::Sleeping, ReporterEvent::PeriodElapsed { now }) => {
                let last_event = cell.read_last_event();
                let occupants: u8 = if occupied(now, last_event, self.decay_window) {
                    1
                } else {
                    0
                };
                self.phase = CyclePhase::Serializing;
                ReporterAction::Serialize { occupants }
            },
            (CyclePhase::Serializing, ReporterEvent::Serialized { len }) => {
                self.phase = CyclePhase::Sending;
                ReporterAction::Send { body_len: len }
            },
            (CyclePhase::Serializing, ReporterEvent::SerializeFailed) => {
                self.phase = CyclePhase::Sleeping;
                self.last_outcome = Some(CycleOutcome::SerializationFailed);
                sleep
            },
            (CyclePhase::Sending, ReporterEvent::Sent { status }) => {
                self.phase = CyclePhase::Receiving { status };
                ReporterAction::ReadBody
            },
            (CyclePhase::Sending, ReporterEvent::SendFailed) => {
                self.phase = CyclePhase::Sleeping;
                self.last_outcome = Some(CycleOutcome::TransportFailed);
                sleep
            },
            (CyclePhase::Receiving { status }, ReporterEvent::BodyRead) => {
                self.phase = CyclePhase::Sleeping;
                self.last_outcome = Some(
                    if 200 <= status && status < 300 {
                        CycleOutcome::Delivered
                    } else {
                        CycleOutcome::Rejected
                    },
                );
                sleep
            },
            (CyclePhase::Receiving { .. }, ReporterEvent::BodyFailed) => {
                self.phase = CyclePhase::Sleeping;
                self.last_outcome = Some(CycleOutcome::Rejected);
                sleep
            },
            _ => ReporterAction::Ignore,
        }
    }
}

/// A serialization failure ends its cycle with no network call and a wait of
/// one full period; the following cycle then evaluates occupancy afresh and
/// goes on to send as usual.
pub proof fn lemma_serialization_failure_isolated(
    last_event: u64,
    decay_window: u64,
    period: u64,
    now: u64,
    len: usize,
)
    ensures
        reporter_step(
            CyclePhase::Serializing,
            ReporterEvent::SerializeFailed,
            last_event,
            decay_window,
            period,
        ) == (CyclePhase::Sleeping, ReporterAction::Sleep { micros: period }),
        reporter_step(
            CyclePhase::Sleeping,
            ReporterEvent::PeriodElapsed { now },
            last_event,
            decay_window,
            period,
        ) == (
            CyclePhase::Serializing,
            ReporterAction::Serialize { occupants: occupancy_flag(now, last_event, decay_window) },
        ),
        reporter_step(
            CyclePhase::Serializing,
            ReporterEvent::Serialized { len },
            last_event,
            decay_window,
            period,
        ) == (CyclePhase::Sending, ReporterAction::Send { body_len: len }),
{
}

/// No failure stops the reporter: a failure in any phase of a cycle leads
/// back to waiting one full period, from where the next cycle starts.
pub proof fn lemma_failures_end_only_their_cycle(
    status: u16,
    last_event: u64,
    decay_window: u64,
    period: u64,
)
    ensures
        reporter_step(
            CyclePhase::Serializing,
            ReporterEvent::SerializeFailed,
            last_event,
            decay_window,
            period,
        ).0 == CyclePhase::Sleeping,
        reporter_step(
            CyclePhase::Sending,
            ReporterEvent::SendFailed,
            last_event,
            decay_window,
            period,
        ) == (CyclePhase::Sleeping, ReporterAction::Sleep { micros: period }),
        reporter_step(
            CyclePhase::Receiving { status },
            ReporterEvent::BodyFailed,
            last_event,
            decay_window,
            period,
        ) == (CyclePhase::Sleeping, ReporterAction::Sleep { micros: period }),
        reporter_step(
            CyclePhase::Receiving { status },
            ReporterEvent::BodyRead,
            last_event,
            decay_window,
            period,
        ) == (CyclePhase::Sleeping, ReporterAction::Sleep { micros: period }),
{
}

} // verus!
