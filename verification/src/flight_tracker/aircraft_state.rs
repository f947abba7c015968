//! Per-aircraft state: the last fixes seen and the current flight.

use vstd::prelude::*;

use crate::fixes::Fix;
use super::towing::TowingInfo;

verus! {

/// Number of fixes kept in the history.
pub const HISTORY_LEN: usize = 10;

/// Whole seconds from `earlier_us` to `later_us`, truncated toward zero.
pub open spec fn seconds_between(later_us: int, earlier_us: int) -> int {
    let d = later_us - earlier_us;
    if d >= 0 {
        d / 1_000_000
    } else {
        -((-d) / 1_000_000)
    }
}

/// Whole seconds from `earlier_us` to `later_us`, truncated toward zero.
pub fn whole_seconds_between(later_us: i64, earlier_us: i64) -> (r: i64)
    ensures
        r == seconds_between(later_us as int, earlier_us as int),
{
    let d: i128 = later_us as i128 - earlier_us as i128;
    if d >= 0 {
        (d / 1_000_000) as i64
    } else {
        let m: i128 = -d;
        (-(m / 1_000_000)) as i64
    }
}

/// Compact fix data for in-memory state tracking: only the fields needed for flight decisions.
#[derive(Clone, Copy, Debug)]
pub struct CompactFix {
    /// Time of the position (microseconds since the epoch).
    pub timestamp_us: i64,
    /// Time the fix was received (microseconds since the epoch).
    pub received_at_us: i64,
    /// Latitude in micro-degrees.
    pub lat_udeg: i64,
    /// Longitude in micro-degrees.
    pub lng_udeg: i64,
    /// Altitude above mean sea level, in feet.
    pub altitude_msl_ft: Option<i32>,
    /// Altitude above ground level, in feet.
    pub altitude_agl_ft: Option<i32>,
    /// Ground speed in thousandths of a knot.
    pub ground_speed_milliknots: Option<i64>,
    /// Whether the fix was active (see `should_be_active`).
    pub is_active: bool,
}

/// The compact form of a fix.
pub open spec fn compact(fix: Fix, is_active: bool) -> CompactFix {
    CompactFix {
        timestamp_us: fix.timestamp_us,
        received_at_us: fix.received_at_us,
        lat_udeg: fix.latitude_udeg,
        lng_udeg: fix.longitude_udeg,
        altitude_msl_ft: fix.altitude_msl_feet,
        altitude_agl_ft: fix.altitude_agl_feet,
        ground_speed_milliknots: fix.ground_speed_milliknots,
        is_active,
    }
}

impl CompactFix {
    /// Create a CompactFix from a full Fix
    pub fn from_fix(fix: &Fix, is_active: bool) -> (r: Self)
        ensures
            r == compact(*fix, is_active),
    {
        CompactFix {
            timestamp_us: fix.timestamp_us,
            received_at_us: fix.received_at_us,
            lat_udeg: fix.latitude_udeg,
            lng_udeg: fix.longitude_udeg,
            altitude_msl_ft: fix.altitude_msl_feet,
            altitude_agl_ft: fix.altitude_agl_feet,
            ground_speed_milliknots: fix.ground_speed_milliknots,
            is_active,
        }
    }
}

/// Phase of a flight, judged from the recent fixes.
#[derive(Clone, Copy, Debug, PartialEq, Eq, Structural)]
pub enum FlightPhase {
    /// Climbing faster than 300 ft/min.
    Climbing,
    /// Above 10,000 ft without a strong climb or descent.
    Cruising,
    /// Descending faster than 300 ft/min.
    Descending,
    /// Not enough data.
    Unknown,
}

/// Unified aircraft state tracker for any aircraft seen recently.
pub struct AircraftState {
    /// Recent fix history (last 10 fixes, oldest first).
    pub recent_fixes: std::collections::VecDeque<CompactFix>,
    /// Current flight, if the aircraft is flying.
    pub current_flight_id: Option<u128>,
    /// Callsign of the current flight.
    pub current_callsign: Option<String>,
    /// Last timed-out flight.
    pub last_timed_out_flight_id: Option<u128>,
    /// Callsign of the last timed-out flight.
    pub last_timed_out_callsign: Option<String>,
    /// When the last flight timed out (microseconds since the epoch).
    pub last_timed_out_at_us: Option<i64>,
    /// Time of the last update (microseconds since the epoch).
    pub last_update_time_us: i64,
    /// Towplane-specific data.
    pub towing_info: Option<TowingInfo>,
    /// Whether the takeoff runway was inferred.
    pub takeoff_runway_inferred: Option<bool>,
}

/// The history after recording `f`: the oldest fix leaves once ten are kept.
pub open spec fn pushed_history(h: Seq<CompactFix>, f: CompactFix) -> Seq<CompactFix> {
    if h.len() >= HISTORY_LEN {
        h.drop_first().push(f)
    } else {
        h.push(f)
    }
}

/// The `n` fixes before the most recent one are all inactive (and there are that many).
pub open spec fn prior_n_inactive(h: Seq<CompactFix>, n: int) -> bool {
    &&& n + 1 <= h.len()
    &&& forall|k: int| h.len() - 1 - n <= k < h.len() - 1 ==> !(#[trigger] h[k]).is_active
}

/// The five most recent fixes are all inactive.
pub open spec fn last_five_inactive(h: Seq<CompactFix>) -> bool {
    &&& h.len() >= 5
    &&& forall|k: int| h.len() - 5 <= k < h.len() ==> !(#[trigger] h[k]).is_active
}

/// A fix usable for the climb rate: with an altitude, at most 60 whole seconds before `ref_us`.
pub open spec fn climb_sample(f: CompactFix, ref_us: i64) -> bool {
    seconds_between(ref_us as int, f.timestamp_us as int) <= 60 && f.altitude_msl_ft is Some
}

/// Index of the first usable fix at or after `i`.
pub open spec fn first_sample_from(h: Seq<CompactFix>, ref_us: i64, i: int) -> Option<int>
    decreases h.len() - i,
{
    if i < 0 || i >= h.len() {
        None
    } else if climb_sample(h[i], ref_us) {
        Some(i)
    } else {
        first_sample_from(h, ref_us, i + 1)
    }
}

/// Index of the last usable fix before `j`.
pub open spec fn last_sample_before(h: Seq<CompactFix>, ref_us: i64, j: int) -> Option<int>
    decreases j,
{
    if j <= 0 || j > h.len() {
        None
    } else if climb_sample(h[j - 1], ref_us) {
        Some(j - 1)
    } else {
        last_sample_before(h, ref_us, j - 1)
    }
}

/// The altitude change (feet) and the whole seconds between the first and the last fix
/// with altitude that lie within 60 s of the most recent fix, from which the climb rate is
/// computed; none with fewer than two such fixes or when they are less than 5 s apart.
pub open spec fn climb_window(h: Seq<CompactFix>) -> Option<(int, int)> {
    if h.len() == 0 {
        None
    } else {
        let ref_us = h.last().timestamp_us;
        match (first_sample_from(h, ref_us, 0), last_sample_before(h, ref_us, h.len() as int)) {
            (Some(i), Some(j)) => if i < j {
                let dt = seconds_between(h[j].timestamp_us as int, h[i].timestamp_us as int);
                if dt < 5 {
                    None
                } else {
                    Some((h[j].altitude_msl_ft.unwrap() - h[i].altitude_msl_ft.unwrap(), dt))
                }
            } else {
                None
            },
            _ => None,
        }
    }
}

/// Above 10,000 ft with no climb rate, or one under 500 ft/min either way.
pub open spec fn high_and_steady(last: CompactFix, climb: Option<i32>) -> bool {
    match last.altitude_msl_ft {
        Some(alt) => alt > 10_000 && match climb {
            Some(c) => -500 < c < 500,
            None => true,
        },
        None => false,
    }
}

/// Flight phase from the climb rate (ft/min) and the altitude of the most recent fix.
pub open spec fn flight_phase(h: Seq<CompactFix>, climb: Option<i32>) -> FlightPhase {
    if climb matches Some(c) && c > 300 {
        FlightPhase::Climbing
    } else if climb matches Some(c) && c < -300 {
        FlightPhase::Descending
    } else if h.len() > 0 && high_and_steady(h.last(), climb) {
        FlightPhase::Cruising
    } else {
        FlightPhase::Unknown
    }
}

impl AircraftState {
    /// At most ten fixes are kept.
    pub open spec fn wf(&self) -> bool {
        self.recent_fixes@.len() <= HISTORY_LEN
    }

    /// Create a new AircraftState with an initial fix, updated at `now_us`.
    pub fn new(fix: &Fix, is_active: bool, now_us: i64) -> (r: Self)
        ensures
            r.recent_fixes@ == seq![compact(*fix, is_active)],
            r.current_flight_id is None,
            r.current_callsign is None,
            r.last_timed_out_flight_id is None,
            r.last_timed_out_callsign is None,
            r.last_timed_out_at_us is None,
            r.last_update_time_us == now_us,
            r.towing_info is None,
            r.takeoff_runway_inferred is None,
            r.wf(),
    {
        let mut recent_fixes = std::collections::VecDeque::with_capacity(HISTORY_LEN);
        recent_fixes.push_back(CompactFix::from_fix(fix, is_active));
        AircraftState {
            recent_fixes,
            current_flight_id: None,
            current_callsign: None,
            last_timed_out_flight_id: None,
            last_timed_out_callsign: None,
            last_timed_out_at_us: None,
            last_update_time_us: now_us,
            towing_info: None,
            takeoff_runway_inferred: None,
        }
    }

    /// Create a new AircraftState for restoration, dated by the fix's own timestamp.
    pub fn new_for_restore(fix: &Fix, is_active: bool) -> (r: Self)
        ensures
            r.recent_fixes@ == seq![compact(*fix, is_active)],
            r.current_flight_id is None,
            r.current_callsign is None,
            r.last_timed_out_flight_id is None,
            r.last_timed_out_callsign is None,
            r.last_timed_out_at_us is None,
            r.last_update_time_us == fix.timestamp_us,
            r.towing_info is None,
            r.takeoff_runway_inferred is None,
            r.wf(),
    {
        Self::new(fix, is_active, fix.timestamp_us)
    }

    /// Add a new fix to the recent history, updated at `now_us`.
    pub fn add_fix(&mut self, fix: &Fix, is_active: bool, now_us: i64)
        ensures
            final(self).recent_fixes@ == pushed_history(
                old(self).recent_fixes@,
                compact(*fix, is_active),
            ),
            final(self).last_update_time_us == now_us,
            final(self).current_flight_id == old(self).current_flight_id,
            final(self).current_callsign == old(self).current_callsign,
            final(self).last_timed_out_flight_id == old(self).last_timed_out_flight_id,
            final(self).last_timed_out_callsign == old(self).last_timed_out_callsign,
            final(self).last_timed_out_at_us == old(self).last_timed_out_at_us,
            final(self).towing_info == old(self).towing_info,
            final(self).takeoff_runway_inferred == old(self).takeoff_runway_inferred,
    {
        self.last_update_time_us = now_us;
        if self.recent_fixes.len() >= HISTORY_LEN {
            self.recent_fixes.pop_front();
        }
        self.recent_fixes.push_back(CompactFix::from_fix(fix, is_active));
    }

    /// Add a fix during state restoration, dated by the fix's own timestamp.
    pub fn add_fix_for_restore(&mut self, fix: &Fix, is_active: bool)
        ensures
            final(self).recent_fixes@ == pushed_history(
                old(self).recent_fixes@,
                compact(*fix, is_active),
            ),
            final(self).last_update_time_us == fix.timestamp_us,
            final(self).current_flight_id == old(self).current_flight_id,
            final(self).current_callsign == old(self).current_callsign,
            final(self).last_timed_out_flight_id == old(self).last_timed_out_flight_id,
            final(self).last_timed_out_callsign == old(self).last_timed_out_callsign,
            final(self).last_timed_out_at_us == old(self).last_timed_out_at_us,
            final(self).towing_info == old(self).towing_info,
            final(self).takeoff_runway_inferred == old(self).takeoff_runway_inferred,
    {
        self.add_fix(fix, is_active, fix.timestamp_us);
    }

    /// Get the most recent fix
    pub fn last_fix(&self) -> (r: Option<&CompactFix>)
        ensures
            self.recent_fixes@.len() == 0 ==> r is None,
            self.recent_fixes@.len() > 0 ==> r == Some(&self.recent_fixes@.last()),
    {
        let n = self.recent_fixes.len();
        if n == 0 {
            None
        } else {
            Some(&self.recent_fixes[n - 1])
        }
    }

    /// Get the last N fixes (most recent last)
    pub fn last_n_fixes(&self, n: usize) -> (r: Vec<CompactFix>)
        ensures
            n <= self.recent_fixes@.len() ==> r@ == self.recent_fixes@.subrange(
                self.recent_fixes@.len() - n,
                self.recent_fixes@.len() as int,
            ),
            n > self.recent_fixes@.len() ==> r@ == self.recent_fixes@,
    {
        let len = self.recent_fixes.len();
        let start: usize = if n <= len {
            len - n
        } else {
            0
        };
        let mut r: Vec<CompactFix> = Vec::new();
        let mut i: usize = start;
        while i < len
            invariant
                len == self.recent_fixes@.len(),
                start <= i <= len,
                r@ == self.recent_fixes@.subrange(start as int, i as int),
            decreases len - i,
        {
            r.push(self.recent_fixes[i]);
            i = i + 1;
        }
        r
    }

    /// Check if we have 5 consecutive inactive fixes (for landing debounce)
    pub fn has_five_consecutive_inactive(&self) -> (r: bool)
        ensures
            r == last_five_inactive(self.recent_fixes@),
    {
        let len = self.recent_fixes.len();
        if len < 5 {
            return false;
        }
        let mut i: usize = len - 5;
        while i < len
            invariant
                len == self.recent_fixes@.len(),
                len >= 5,
                len - 5 <= i <= len,
                forall|k: int| len - 5 <= k < i ==> !(#[trigger] self.recent_fixes@[k]).is_active,
            decreases len - i,
        {
            if self.recent_fixes[i].is_active {
                return false;
            }
            i = i + 1;
        }
        true
    }

    /// Check if the N fixes BEFORE the current one are all inactive (for takeoff detection).
    /// The most recent fix is skipped; the `n` fixes before it must all be inactive.
    pub fn last_n_inactive(&self, n: usize) -> (r: bool)
        ensures
            r == prior_n_inactive(self.recent_fixes@, n as int),
    {
        let len = self.recent_fixes.len();
        // Need n+1 fixes: the current one (to skip) plus n previous ones to check
        if len <= n {
            return false;
        }
        let mut i: usize = len - 1 - n;
        while i < len - 1
            invariant
                len == self.recent_fixes@.len(),
                n < len,
                len - 1 - n <= i <= len - 1,
                forall|k: int| len - 1 - n <= k < i ==> !(#[trigger] self.recent_fixes@[k]).is_active,
            decreases len - i,
        {
            if self.recent_fixes[i].is_active {
                return false;
            }
            i = i + 1;
        }
        true
    }

    /// The altitude change and whole seconds from which the climb rate is computed: between
    /// the first and last fix with altitude data within the last 60 seconds (see
    /// `climb_window`). The rate itself, the change over the seconds times 60 rounded as a
    /// floating-point value, is computed by the caller.
    pub fn climb_rate_window(&self) -> (r: Option<(i64, i64)>)
        ensures
            r matches Some((change, secs)) ==> climb_window(self.recent_fixes@) == Some(
                (change as int, secs as int),
            ),
            r is None ==> climb_window(self.recent_fixes@) is None,
    {
        let len = self.recent_fixes.len();
        if len == 0 {
            return None;
        }
        let ghost h = self.recent_fixes@;
        let ref_us = self.recent_fixes[len - 1].timestamp_us;
        let mut i: usize = 0;
        while i < len && !self.is_climb_sample(i, ref_us)
            invariant
                len == h.len(),
                h == self.recent_fixes@,
                i <= len,
                first_sample_from(h, ref_us, 0) == first_sample_from(h, ref_us, i as int),
            decreases len - i,
        {
            i = i + 1;
        }
        let mut j: usize = len;
        while j > 0 && !self.is_climb_sample(j - 1, ref_us)
            invariant
                len == h.len(),
                h == self.recent_fixes@,
                j <= len,
                last_sample_before(h, ref_us, len as int) == last_sample_before(
                    h,
                    ref_us,
                    j as int,
                ),
            decreases j,
        {
            j = j - 1;
        }
        if i >= len || j == 0 || i >= j - 1 {
            return None;
        }
        let first = self.recent_fixes[i];
        let last = self.recent_fixes[j - 1];
        let dt = whole_seconds_between(last.timestamp_us, first.timestamp_us);
        if dt < 5 {
            return None;
        }
        let first_alt = match first.altitude_msl_ft {
            Some(a) => a,
            None => {
                return None;
            },
        };
        let last_alt = match last.altitude_msl_ft {
            Some(a) => a,
            None => {
                return None;
            },
        };
        let change: i64 = last_alt as i64 - first_alt as i64;
        Some((change, dt))
    }

    /// Whether the fix at `i` is usable for the climb rate.
    fn is_climb_sample(&self, i: usize, ref_us: i64) -> (r: bool)
        requires
            i < self.recent_fixes@.len(),
        ensures
            r == climb_sample(self.recent_fixes@[i as int], ref_us),
    {
        let f = &self.recent_fixes[i];
        whole_seconds_between(ref_us, f.timestamp_us) <= 60 && f.altitude_msl_ft.is_some()
    }

    /// Determine the flight phase from the climb rate (ft/min, as computed from
    /// `climb_rate_window`) and the altitude of the most recent fix.
    pub fn determine_flight_phase(&self, climb: Option<i32>) -> (r: FlightPhase)
        ensures
            r == flight_phase(self.recent_fixes@, climb),
    {
        if let Some(climb_rate) = climb {
            if climb_rate > 300 {
                return FlightPhase::Climbing;
            }
            if climb_rate < -300 {
                return FlightPhase::Descending;
            }
        }
        if let Some(last) = self.last_fix() {
            if let Some(alt) = last.altitude_msl_ft {
                let gentle = match climb {
                    Some(c) => -500 < c && c < 500,
                    None => true,
                };
                if alt > 10_000 && gentle {
                    return FlightPhase::Cruising;
                }
            }
        }
        FlightPhase::Unknown
    }

    /// Get the timestamp of the last fix
    pub fn last_fix_timestamp(&self) -> (r: Option<i64>)
        ensures
            self.recent_fixes@.len() == 0 ==> r is None,
            self.recent_fixes@.len() > 0 ==> r == Some(self.recent_fixes@.last().timestamp_us),
    {
        match self.last_fix() {
            Some(f) => Some(f.timestamp_us),
            None => None,
        }
    }

    /// Get the timestamp of the second-to-last fix (before the current one)
    pub fn previous_fix_timestamp(&self) -> (r: Option<i64>)
        ensures
            self.recent_fixes@.len() < 2 ==> r is None,
            self.recent_fixes@.len() >= 2 ==> r == Some(
                self.recent_fixes@[self.recent_fixes@.len() - 2].timestamp_us,
            ),
    {
        match self.previous_fix() {
            Some(f) => Some(f.timestamp_us),
            None => None,
        }
    }

    /// Get the last fix before the current one (for gap calculations)
    pub fn previous_fix(&self) -> (r: Option<&CompactFix>)
        ensures
            self.recent_fixes@.len() < 2 ==> r is None,
            self.recent_fixes@.len() >= 2 ==> r == Some(
                &self.recent_fixes@[self.recent_fixes@.len() - 2],
            ),
    {
        let n = self.recent_fixes.len();
        if n >= 2 {
            Some(&self.recent_fixes[n - 2])
        } else {
            None
        }
    }

    /// Get the last known position (latitude, longitude) in micro-degrees
    pub fn last_position(&self) -> (r: Option<(i64, i64)>)
        ensures
            self.recent_fixes@.len() == 0 ==> r is None,
            self.recent_fixes@.len() > 0 ==> r == Some(
                (self.recent_fixes@.last().lat_udeg, self.recent_fixes@.last().lng_udeg),
            ),
    {
        match self.last_fix() {
            Some(f) => Some((f.lat_udeg, f.lng_udeg)),
            None => None,
        }
    }
}

} // verus!

verus! {

/// Recording a fix keeps at most ten fixes, with the new fix last and the others in order.
pub proof fn lemma_history_bounded(h: Seq<CompactFix>, f: CompactFix)
    requires
        h.len() <= HISTORY_LEN,
    ensures
        pushed_history(h, f).len() <= HISTORY_LEN,
        pushed_history(h, f).last() == f,
        h.len() < HISTORY_LEN ==> pushed_history(h, f).len() == h.len() + 1,
        h.len() == HISTORY_LEN ==> pushed_history(h, f).len() == HISTORY_LEN,
        forall|k: int|
            0 <= k < pushed_history(h, f).len() - 1 ==> #[trigger] pushed_history(h, f)[k] == h[h.len()
                + 1 - pushed_history(h, f).len() + k],
{
}

/// Landing needs the five most recent fixes inactive, the current one included; takeoff
/// skips the current fix: five inactive fixes are exactly four inactive before an inactive one.
pub proof fn lemma_landing_vs_takeoff(h: Seq<CompactFix>)
    ensures
        last_five_inactive(h) <==> (prior_n_inactive(h, 4) && !h.last().is_active),
{
    if prior_n_inactive(h, 4) && !h.last().is_active {
        assert forall|k: int| h.len() - 5 <= k < h.len() implies !(#[trigger] h[k]).is_active by {
            if k < h.len() - 1 {
                assert(!h[k].is_active);
            }
        }
    }
}

/// Fewer prior fixes are inactive whenever more are.
pub proof fn lemma_prior_inactive_monotone(h: Seq<CompactFix>, n: int, m: int)
    requires
        0 <= m <= n,
        prior_n_inactive(h, n),
    ensures
        prior_n_inactive(h, m),
{
    assert forall|k: int| h.len() - 1 - m <= k < h.len() - 1 implies !(#[trigger] h[k]).is_active by {
        assert(h.len() - 1 - n <= k);
    }
}

/// Law: the climb rate decides first, whatever the altitude: over 300 ft/min is climbing,
/// under -300 ft/min descending. Cruising needs the latest fix above 10,000 ft MSL with a
/// rate (if any) within 300 ft/min either way; a history without fixes is never cruising.
pub proof fn lemma_climb_rate_decides_phase(h: Seq<CompactFix>, climb: Option<i32>)
    ensures
        climb matches Some(c) && c > 300 ==> flight_phase(h, climb) == FlightPhase::Climbing,
        climb matches Some(c) && c < -300 ==> flight_phase(h, climb) == FlightPhase::Descending,
        flight_phase(h, climb) == FlightPhase::Cruising ==> h.len() > 0,
        flight_phase(h, climb) == FlightPhase::Cruising ==> (h.last().altitude_msl_ft matches Some(
            a,
        ) && a > 10_000),
        flight_phase(h, climb) == FlightPhase::Cruising ==> (climb matches Some(c) ==> -300 <= c
            <= 300),
        flight_phase(h, climb) == FlightPhase::Climbing ==> (climb matches Some(c) && c > 300),
        flight_phase(h, climb) == FlightPhase::Descending ==> (climb matches Some(c) && c < -300),
{
}

/// A climb rate needs two distinct fixes with altitude within the last minute.
pub proof fn lemma_climb_rate_needs_two_samples(h: Seq<CompactFix>)
    requires
        climb_window(h) is Some,
    ensures
        exists|i: int, j: int|
            0 <= i < j < h.len() && climb_sample(#[trigger] h[i], h.last().timestamp_us)
                && climb_sample(#[trigger] h[j], h.last().timestamp_us),
{
    let ref_us = h.last().timestamp_us;
    let i = first_sample_from(h, ref_us, 0).unwrap();
    let j = last_sample_before(h, ref_us, h.len() as int).unwrap();
    lemma_first_sample_found(h, ref_us, 0);
    lemma_last_sample_found(h, ref_us, h.len() as int);
    assert(climb_sample(h[i], ref_us) && climb_sample(h[j], ref_us));
}

proof fn lemma_first_sample_found(h: Seq<CompactFix>, ref_us: i64, i: int)
    ensures
        first_sample_from(h, ref_us, i) matches Some(k) ==> (i <= k < h.len() && climb_sample(
            h[k],
            ref_us,
        )),
    decreases h.len() - i,
{
    if 0 <= i < h.len() && !climb_sample(h[i], ref_us) {
        lemma_first_sample_found(h, ref_us, i + 1);
    }
}

proof fn lemma_last_sample_found(h: Seq<CompactFix>, ref_us: i64, j: int)
    ensures
        last_sample_before(h, ref_us, j) matches Some(k) ==> (0 <= k < j && k < h.len()
            && climb_sample(h[k], ref_us)),
    decreases j,
{
    if 0 < j <= h.len() && !climb_sample(h[j - 1], ref_us) {
        lemma_last_sample_found(h, ref_us, j - 1);
    }
}

/// A fix whose reception is less than one whole second from the most recent fix's timestamp
/// is a duplicate.
pub open spec fn duplicate_of_last(h: Seq<CompactFix>, received_at_us: i64) -> bool {
    h.len() > 0 && seconds_between(received_at_us as int, h.last().timestamp_us as int) == 0
}

impl AircraftState {
    /// Whether a fix received at `received_at_us` duplicates the most recent fix
    /// (less than one second apart).
    pub fn is_duplicate(&self, received_at_us: i64) -> (r: bool)
        ensures
            r == duplicate_of_last(self.recent_fixes@, received_at_us),
    {
        match self.last_fix_timestamp() {
            Some(t) => {
                let d = whole_seconds_between(received_at_us, t);
                -1 < d && d < 1
            },
            None => false,
        }
    }

    /// The aircraft's current flight, when no update came for more than an hour before
    /// `reference_us`.
    pub fn stale_flight(&self, reference_us: i64) -> (r: Option<u128>)
        ensures
            r == (if self.current_flight_id is Some && reference_us - self.last_update_time_us
                > 3_600_000_000 {
                self.current_flight_id
            } else {
                None
            }),
    {
        match self.current_flight_id {
            Some(f) => {
                if reference_us as i128 - self.last_update_time_us as i128 > 3_600_000_000 {
                    Some(f)
                } else {
                    None
                }
            },
            None => None,
        }
    }

    /// Whether the state went without update for more than 18 hours before `reference_us`.
    pub fn is_expired(&self, reference_us: i64) -> (r: bool)
        ensures
            r == (reference_us - self.last_update_time_us > 64_800_000_000),
    {
        reference_us as i128 - self.last_update_time_us as i128 > 64_800_000_000
    }
}


/// The (flight, aircraft) pairs of the aircraft, given as (aircraft, current flight, last
/// update), whose flight got no update for more than an hour before `reference_us`, in
/// the given order; none while no fix was processed yet (`reference_us` zero).
pub open spec fn stale_flights_spec(reference_us: i64, states: Seq<(u128, Option<u128>, i64)>) -> Seq<
    (u128, u128),
>
    decreases states.len(),
{
    if reference_us == 0 || states.len() == 0 {
        Seq::empty()
    } else {
        let prev = stale_flights_spec(reference_us, states.drop_last());
        let (aircraft, flight, last) = states.last();
        match flight {
            Some(f) => if reference_us - last > 3_600_000_000 {
                prev.push((f, aircraft))
            } else {
                prev
            },
            None => prev,
        }
    }
}

/// The aircraft, given as (aircraft, last update), whose state got no update for more
/// than 18 hours before `reference_us`, in the given order; none while no fix was
/// processed yet (`reference_us` zero).
pub open spec fn expired_states_spec(reference_us: i64, states: Seq<(u128, i64)>) -> Seq<u128>
    decreases states.len(),
{
    if reference_us == 0 || states.len() == 0 {
        Seq::empty()
    } else {
        let prev = expired_states_spec(reference_us, states.drop_last());
        let (aircraft, last) = states.last();
        if reference_us - last > 64_800_000_000 {
            prev.push(aircraft)
        } else {
            prev
        }
    }
}

/// The flights to time out: those of the aircraft whose state got no update for more than
/// an hour before the latest fix time `reference_us` (zero while no fix was processed).
pub fn flights_to_timeout(reference_us: i64, states: &Vec<(u128, Option<u128>, i64)>) -> (r: Vec<
    (u128, u128),
>)
    ensures
        r@ == stale_flights_spec(reference_us, states@),
{
    let mut out: Vec<(u128, u128)> = Vec::new();
    if reference_us == 0 {
        return out;
    }
    let mut i: usize = 0;
    while i < states.len()
        invariant
            reference_us != 0,
            i <= states@.len(),
            out@ == stale_flights_spec(reference_us, states@.subrange(0, i as int)),
        decreases states@.len() - i,
    {
        let (aircraft, flight, last) = states[i];
        let ghost sub = states@.subrange(0, i as int + 1);
        proof {
            assert(sub.drop_last() =~= states@.subrange(0, i as int));
            assert(sub.last() == states@[i as int]);
        }
        if let Some(f) = flight {
            if reference_us as i128 - last as i128 > 3_600_000_000 {
                out.push((f, aircraft));
            }
        }
        i = i + 1;
    }
    assert(states@.subrange(0, states@.len() as int) =~= states@);
    out
}

/// The aircraft whose state is dropped: no update for more than 18 hours before the
/// latest fix time `reference_us` (zero while no fix was processed).
pub fn states_to_remove(reference_us: i64, states: &Vec<(u128, i64)>) -> (r: Vec<u128>)
    ensures
        r@ == expired_states_spec(reference_us, states@),
{
    let mut out: Vec<u128> = Vec::new();
    if reference_us == 0 {
        return out;
    }
    let mut i: usize = 0;
    while i < states.len()
        invariant
            reference_us != 0,
            i <= states@.len(),
            out@ == expired_states_spec(reference_us, states@.subrange(0, i as int)),
        decreases states@.len() - i,
    {
        let (aircraft, last) = states[i];
        let ghost sub = states@.subrange(0, i as int + 1);
        proof {
            assert(sub.drop_last() =~= states@.subrange(0, i as int));
            assert(sub.last() == states@[i as int]);
        }
        if reference_us as i128 - last as i128 > 64_800_000_000 {
            out.push(aircraft);
        }
        i = i + 1;
    }
    assert(states@.subrange(0, states@.len() as int) =~= states@);
    out
}

} // verus!
