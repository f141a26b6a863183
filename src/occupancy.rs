//! The shared last-motion timestamp cell and the occupancy evaluator.

use portable_atomic::{AtomicU64, Ordering};
use vstd::prelude::*;

verus! {

#[verifier::external_type_specification]
#[verifier::external_body]
pub struct ExAtomicU64(portable_atomic::AtomicU64);

/// The value held by an atomic word, when no other party can store into it
/// (the cell keeps its word private and stores only through `&mut`).
pub uninterp spec fn word_value(a: AtomicU64) -> u64;

/// Relies on `portable_atomic::AtomicU64::new`: the new word holds `v`.
#[verifier::external_body]
fn word_new(v: u64) -> (r: AtomicU64)
    ensures
        word_value(r) == v,
{
    AtomicU64::new(v)
}

/// Relies on `portable_atomic::AtomicU64::load`: returns the value held.
#[verifier::external_body]
fn word_load(a: &AtomicU64) -> (r: u64)
    ensures
        r == word_value(*a),
{
    a.load(Ordering::Relaxed)
}

/// Relies on `portable_atomic::AtomicU64::store`: with exclusive access,
/// the word afterwards holds `v`.
#[verifier::external_body]
fn word_store(a: &mut AtomicU64, v: u64)
    ensures
        word_value(*final(a)) == v,
{
    a.store(v, Ordering::Relaxed)
}

/// Single-word holder of the timestamp (microseconds) of the last
/// qualifying motion event; zero means that no motion was ever seen.
pub struct OccupancyCell {
    word: AtomicU64,
}

impl View for OccupancyCell {
    type V = u64;

    closed spec fn view(&self) -> u64 {
        word_value(self.word)
    }
}

impl OccupancyCell {
    /// A cell that has never recorded an event.
    pub fn new() -> (r: OccupancyCell)
        ensures
            r@ == 0,
    {
        OccupancyCell { word: word_new(0) }
    }

    /// Overwrites the stored timestamp with `timestamp`.
    pub fn record_event(&mut self, timestamp: u64)
        ensures
            final(self)@ == timestamp,
    {
        word_store(&mut self.word, timestamp);
    }

    /// The most recently stored timestamp, zero if none was stored.
    pub fn read_last_event(&self) -> (r: u64)
        ensures
            r == self@,
    {
        word_load(&self.word)
    }
}

/// Timestamp of the last motion detection held by `cell`.
pub fn get_last_detection(cell: &OccupancyCell) -> (r: u64)
    ensures
        r == cell@,
{
    cell.read_last_event()
}

/// Occupancy at `now` given the last event time and the decay window, all in
/// microseconds: an event was seen, and less than the window has passed since.
pub open spec fn is_occupied(now: u64, last_event: u64, decay_window: u64) -> bool {
    last_event != 0 && (now as int) - (last_event as int) < decay_window as int
}

/// Evaluates occupancy; a last event later than `now` (a concurrent write)
/// counts as no time elapsed.
pub fn occupied(now: u64, last_event: u64, decay_window: u64) -> (r: bool)
    ensures
        r == is_occupied(now, last_event, decay_window),
{
    if last_event == 0 {
        false
    } else if now >= last_event {
        now - last_event < decay_window
    } else {
        true
    }
}

/// The report's occupancy flag: 1 when occupied, else 0.
pub open spec fn occupancy_flag(now: u64, last_event: u64, decay_window: u64) -> u8 {
    if is_occupied(now, last_event, decay_window) {
        1
    } else {
        0
    }
}

pub const MICROS_PER_SECOND: u64 = 1_000_000;

/// A window in seconds as microseconds, saturating at `u64::MAX`.
pub open spec fn window_micros(secs: u64) -> u64 {
    if secs as int * MICROS_PER_SECOND as int > u64::MAX as int {
        u64::MAX
    } else {
        (secs * MICROS_PER_SECOND) as u64
    }
}

/// Converts a decay window in seconds to microseconds, saturating.
pub fn decay_window_micros(secs: u64) -> (r: u64)
    ensures
        r == window_micros(secs),
{
    if secs > u64::MAX / MICROS_PER_SECOND {
        u64::MAX
    } else {
        secs * MICROS_PER_SECOND
    }
}

/// Widening the decay window never turns an occupied result into an
/// unoccupied one.
pub proof fn lemma_occupied_monotonic_in_window(now: u64, last_event: u64, w1: u64, w2: u64)
    requires
        w1 > 0,
        w2 >= w1,
    ensures
        is_occupied(now, last_event, w1) ==> is_occupied(now, last_event, w2),
{
}

/// A cell that never recorded motion is never occupied.
pub proof fn lemma_never_detected_unoccupied(now: u64, decay_window: u64)
    ensures
        !is_occupied(now, 0, decay_window),
{
}

/// The decay edge is exclusive: an event at `t` counts until just before
/// `t + w` and not at `t + w`; one microsecond after an event (at a time other
/// than zero, which means "never detected") it counts for any window wider
/// than one microsecond; and at the instant of an event it counts for any
/// open window unless the time is zero.
pub proof fn lemma_decay_boundary(t: u64, w: u64)
    requires
        w > 1,
    ensures
        t == 0 ==> !is_occupied(t, t, w),
        t > 1 ==> is_occupied(t, (t - 1) as u64, w),
        t != 0 && t as int + w as int <= u64::MAX as int ==> !is_occupied((t + w) as u64, t, w)
            && is_occupied((t + w - 1) as u64, t, w),
{
}

} // verus!
