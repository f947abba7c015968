//! A simpler per-aircraft tracker: idle or active, the last position, and for
//! towplanes a short window of recent climb rates.

use vstd::prelude::*;

use crate::fixes::Fix;
use crate::time::now_us;
use super::aircraft_state::{seconds_between, whole_seconds_between};
use super::towing::TowingInfo;

verus! {

/// Number of climb rates kept for tow release detection.
pub const CLIMB_HISTORY_LEN: usize = 5;

/// Simplified aircraft state - either idle or active
#[derive(Debug, Clone, Copy, PartialEq, Eq, Structural)]
pub enum AircraftState {
    /// Stationary or moving slowly (< 25 knots)
    Idle,
    /// Moving fast (>= 25 knots) on ground or airborne
    Active,
}

/// Aircraft tracker with simplified state management
pub struct AircraftTracker {
    pub state: AircraftState,
    pub current_flight_id: Option<u128>,
    /// Time of the last update (microseconds since the epoch).
    pub last_update_us: i64,
    /// Last (latitude, longitude) in micro-degrees.
    pub last_position: Option<(i64, i64)>,
    /// Time of the last position (microseconds since the epoch).
    pub last_position_time_us: Option<i64>,
    /// Timestamp of the last processed fix, to detect duplicates.
    pub last_fix_timestamp_us: Option<i64>,
    /// Whether the takeoff runway was inferred.
    pub takeoff_runway_inferred: Option<bool>,
    /// For towplanes: information about the glider being towed (if any)
    pub towing_info: Option<TowingInfo>,
    /// For towplanes: the last climb rates (ft/min, as `f32` bit patterns), oldest first.
    pub climb_rate_history: std::collections::VecDeque<u32>,
}

/// The climb history after recording one more rate: the oldest leaves once five are kept.
pub open spec fn pushed_climb_history(h: Seq<u32>, rate_bits: u32) -> Seq<u32> {
    if h.len() >= CLIMB_HISTORY_LEN {
        h.drop_first().push(rate_bits)
    } else {
        h.push(rate_bits)
    }
}

/// A fix within one whole second of the last processed one is a duplicate.
pub open spec fn duplicate_of(last_fix_timestamp_us: Option<i64>, fix_timestamp_us: i64) -> bool {
    match last_fix_timestamp_us {
        Some(last) => {
            let s = seconds_between(fix_timestamp_us as int, last as int);
            -1 < s < 1
        },
        None => false,
    }
}

impl AircraftTracker {
    /// A tracker in the given state, with nothing seen yet, updated now.
    pub fn new(initial_state: AircraftState) -> (r: Self)
        ensures
            r.state == initial_state,
            r.current_flight_id is None,
            r.last_position is None,
            r.last_position_time_us is None,
            r.last_fix_timestamp_us is None,
            r.takeoff_runway_inferred is None,
            r.towing_info is None,
            r.climb_rate_history@.len() == 0,
    {
        AircraftTracker {
            state: initial_state,
            current_flight_id: None,
            last_update_us: now_us(),
            last_position: None,
            last_position_time_us: None,
            last_fix_timestamp_us: None,
            takeoff_runway_inferred: None,
            towing_info: None,
            climb_rate_history: std::collections::VecDeque::with_capacity(CLIMB_HISTORY_LEN),
        }
    }

    /// Record the position of a fix, and that it was processed now.
    pub fn update_position(&mut self, fix: &Fix)
        ensures
            final(self).last_position == Some((fix.latitude_udeg, fix.longitude_udeg)),
            final(self).last_position_time_us == Some(fix.timestamp_us),
            final(self).last_fix_timestamp_us == Some(fix.timestamp_us),
            final(self).state == old(self).state,
            final(self).current_flight_id == old(self).current_flight_id,
            final(self).takeoff_runway_inferred == old(self).takeoff_runway_inferred,
            final(self).towing_info == old(self).towing_info,
            final(self).climb_rate_history@ == old(self).climb_rate_history@,
    {
        self.last_position = Some((fix.latitude_udeg, fix.longitude_udeg));
        self.last_position_time_us = Some(fix.timestamp_us);
        self.last_fix_timestamp_us = Some(fix.timestamp_us);
        self.last_update_us = now_us();
    }

    /// Check if this fix is a duplicate (within 1 second of the last processed fix)
    pub fn is_duplicate_fix(&self, fix: &Fix) -> (r: bool)
        ensures
            r == duplicate_of(self.last_fix_timestamp_us, fix.timestamp_us),
    {
        match self.last_fix_timestamp_us {
            Some(last) => {
                let s = whole_seconds_between(fix.timestamp_us, last);
                -1 < s && s < 1
            },
            None => false,
        }
    }

    /// Update climb rate history for towplane tow release detection.
    /// Maintains a moving window of the last 5 climb rates.
    pub fn update_climb_rate(&mut self, climb_fpm_bits: u32)
        ensures
            final(self).climb_rate_history@ == pushed_climb_history(
                old(self).climb_rate_history@,
                climb_fpm_bits,
            ),
            final(self).state == old(self).state,
            final(self).current_flight_id == old(self).current_flight_id,
            final(self).last_position == old(self).last_position,
            final(self).last_fix_timestamp_us == old(self).last_fix_timestamp_us,
            final(self).towing_info == old(self).towing_info,
    {
        if self.climb_rate_history.len() >= CLIMB_HISTORY_LEN {
            self.climb_rate_history.pop_front();
        }
        self.climb_rate_history.push_back(climb_fpm_bits);
    }
}

/// Law: the climb history never holds more than five rates, and the newest rate is
/// always the last one.
pub proof fn lemma_climb_history_bounded(h: Seq<u32>, rate_bits: u32)
    requires
        h.len() <= CLIMB_HISTORY_LEN,
    ensures
        pushed_climb_history(h, rate_bits).len() <= CLIMB_HISTORY_LEN,
        pushed_climb_history(h, rate_bits).last() == rate_bits,
{
}

} // verus!
