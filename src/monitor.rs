//! Motion edge monitor: records a motion event on a rising input and then
//! ignores the input until a cooldown ends or the input falls.

use crate::occupancy::OccupancyCell;
use vstd::prelude::*;

verus! {

/// Cooldown after a recorded motion event, in microseconds.
pub const DEFAULT_COOLDOWN: u64 = 5_000_000;

#[derive(Clone, Copy, Debug, PartialEq, Eq, Structural)]
pub enum MonitorState {
    /// Waiting for the input to go active.
    Idle,
    /// Cooldown after an event: active input is ignored.
    Suppressed,
}

#[derive(Clone, Copy, Debug, PartialEq, Eq, Structural)]
pub enum MonitorEvent {
    /// The input went to the active level at `now` (microseconds).
    Rising { now: u64 },
    /// The input returned to the inactive level.
    Fell,
    /// The cooldown ran out.
    CooldownElapsed,
}

/// What the monitor waits for next.
#[derive(Clone, Copy, Debug, PartialEq, Eq, Structural)]
pub enum MonitorWait {
    /// The input going active.
    ForRising,
    /// The input falling, or `micros` microseconds, whichever comes first.
    ForFallOrCooldown { micros: u64 },
}

pub open spec fn monitor_next(state: MonitorState, event: MonitorEvent) -> MonitorState {
    match (state, event) {
        (MonitorState::Idle, MonitorEvent::Rising { .. }) => MonitorState::Suppressed,
        (MonitorState::Idle, _) => MonitorState::Idle,
        (MonitorState::Suppressed, MonitorEvent::Rising { .. }) => MonitorState::Suppressed,
        (MonitorState::Suppressed, _) => MonitorState::Idle,
    }
}

/// The cell's value after `event` in `state`: a rising input while idle
/// records its time; nothing else touches the cell.
pub open spec fn recorded_after(state: MonitorState, event: MonitorEvent, last_event: u64) -> u64 {
    match (state, event) {
        (MonitorState::Idle, MonitorEvent::Rising { now }) => now,
        _ => last_event,
    }
}

pub open spec fn wait_in(state: MonitorState, cooldown: u64) -> MonitorWait {
    match state {
        MonitorState::Idle => MonitorWait::ForRising,
        MonitorState::Suppressed => MonitorWait::ForFallOrCooldown { micros: cooldown },
    }
}

/// State and cell value after handling `events` in order.
pub open spec fn run_monitor(state: MonitorState, last_event: u64, events: Seq<MonitorEvent>) -> (
    MonitorState,
    u64,
)
    decreases events.len(),
{
    if events.len() == 0 {
        (state, last_event)
    } else {
        run_monitor(
            monitor_next(state, events[0]),
            recorded_after(state, events[0], last_event),
            events.drop_first(),
        )
    }
}

pub struct MotionMonitor {
    pub state: MonitorState,
    /// Cooldown length, in microseconds.
    pub cooldown: u64,
}

impl MotionMonitor {
    /// An idle monitor with the given cooldown (microseconds).
    pub fn new(cooldown: u64) -> (r: MotionMonitor)
        ensures
            r.state == MonitorState::Idle,
            r.cooldown == cooldown,
    {
        MotionMonitor { state: MonitorState::Idle, cooldown }
    }

    /// What to wait for in the current state.
    pub fn wait(&self) -> (r: MonitorWait)
        ensures
            r == wait_in(self.state, self.cooldown),
    {
        match self.state {
            MonitorState::Idle => MonitorWait::ForRising,
            MonitorState::Suppressed => MonitorWait::ForFallOrCooldown { micros: self.cooldown },
        }
    }

    /// Handles one input event, recording motion in `cell` on a rising input
    /// while idle, and says what to wait for next.
    pub fn handle(&mut self, cell: &mut OccupancyCell, event: MonitorEvent) -> (r: MonitorWait)
        ensures
            final(self).state == monitor_next(old(self).state, event),
            final(self).cooldown == old(self).cooldown,
            final(cell)@ == recorded_after(old(self).state, event, old(cell)@),
            r == wait_in(final(self).state, final(self).cooldown),
    {
        match (self.state, event) {
            (MonitorState::Idle, MonitorEvent::Rising { now }) => {
                cell.record_event(now);
                self.state = MonitorState::Suppressed;
            },
            (MonitorState::Idle, _) => {},
            (MonitorState::Suppressed, MonitorEvent::Rising { .. }) => {},
            (MonitorState::Suppressed, _) => {
                self.state = MonitorState::Idle;
            },
        }
        self.wait()
    }
}

/// While suppressed, any number of further active inputs leave the monitor
/// suppressed and the recorded time unchanged.
pub proof fn lemma_suppressed_ignores_rising(last_event: u64, events: Seq<MonitorEvent>)
    requires
        forall|i: int| 0 <= i < events.len() ==> (#[trigger] events[i]) is Rising,
    ensures
        run_monitor(MonitorState::Suppressed, last_event, events) == (
            MonitorState::Suppressed,
            last_event,
        ),
    decreases events.len(),
{
    if events.len() > 0 {
        let rest = events.drop_first();
        assert forall|i: int| 0 <= i < rest.len() implies (#[trigger] rest[i]) is Rising by {
            assert(rest[i] == events[i + 1]);
        }
        assert(events[0] is Rising);
        lemma_suppressed_ignores_rising(last_event, rest);
    }
}

/// A rising input at `t` while idle is recorded, and further active inputs
/// right after it record no second time: the monitor stays suppressed with
/// `t` in the cell until a fall or the end of the cooldown.
pub proof fn lemma_no_retrigger_in_cooldown(last_event: u64, t: u64, events: Seq<MonitorEvent>)
    requires
        forall|i: int| 0 <= i < events.len() ==> (#[trigger] events[i]) is Rising,
    ensures
        run_monitor(MonitorState::Idle, last_event, seq![MonitorEvent::Rising { now: t }] + events)
            == (MonitorState::Suppressed, t),
{
    let all = seq![MonitorEvent::Rising { now: t }] + events;
    assert(all[0] == MonitorEvent::Rising { now: t });
    assert(all.drop_first() =~= events);
    lemma_suppressed_ignores_rising(t, events);
}

} // verus!
