//! Decisions taken for every incoming fix: whether the aircraft is active,
//! callsign handling, and the flight state machine.

use vstd::prelude::*;

use crate::fixes::Fix;
use crate::text::{normalized, opt_chars, opt_chars_str, trim, trim_spec};

verus! {

/// A change of callsign: both callsigns present after normalisation, and different.
pub open spec fn callsign_change(current: Option<Seq<char>>, fix: Option<Seq<char>>) -> bool {
    match (normalized(current), normalized(fix)) {
        (Some(a), Some(b)) => a != b,
        _ => false,
    }
}

/// The callsign kept after a fix: an existing callsign stays, otherwise the fix's normalised one.
pub open spec fn learned_callsign(current: Option<Seq<char>>, fix: Option<Seq<char>>) -> Option<
    Seq<char>,
> {
    if current is None {
        normalized(fix)
    } else {
        current
    }
}

/// Normalize a callsign: trim whitespace and treat empty strings as None.
pub fn normalize_callsign(callsign: &Option<String>) -> (r: Option<&str>)
    ensures
        opt_chars_str(r) == normalized(opt_chars(*callsign)),
{
    match callsign {
        Some(s) => {
            let t = trim(s.as_str());
            if t.unicode_len() == 0 {
                None
            } else {
                Some(t)
            }
        },
        None => None,
    }
}

/// Determine if a callsign change warrants ending the current flight.
///
/// Returns `true` if the fix has a callsign that differs from the current in-memory callsign.
/// Returns `false` if either callsign is absent (None, empty, or whitespace-only).
pub fn is_callsign_change(current_callsign: &Option<String>, fix_callsign: &Option<String>) -> (r:
    bool)
    ensures
        r == callsign_change(opt_chars(*current_callsign), opt_chars(*fix_callsign)),
{
    match (normalize_callsign(current_callsign), normalize_callsign(fix_callsign)) {
        (Some(current), Some(new)) => !crate::text::str_eq(current, new),
        _ => false,
    }
}

/// Update in-memory callsign when first learned on an existing flight.
///
/// When a flight is created without a callsign, the first fix that carries a non-empty
/// callsign records it so that later changes are detected.
pub fn learn_callsign(current_callsign: &Option<String>, fix_callsign: &Option<String>) -> (r:
    Option<String>)
    ensures
        opt_chars(r) == learned_callsign(opt_chars(*current_callsign), opt_chars(*fix_callsign)),
{
    match current_callsign {
        None => match normalize_callsign(fix_callsign) {
            Some(s) => Some(String::from_str(s)),
            None => None,
        },
        Some(s) => Some(s.clone()),
    }
}

/// Whether a fix shows the aircraft moving or airborne.
///
/// Without any altitude the fix is active at 80 knots or more; otherwise it is active at
/// 25 knots or more, or at 250 ft above ground or more.
pub open spec fn active_by_speed_and_height(fix: Fix) -> bool {
    if fix.altitude_agl_feet is None && fix.altitude_msl_feet is None {
        match fix.ground_speed_milliknots {
            Some(v) => v >= 80_000,
            None => false,
        }
    } else {
        (fix.ground_speed_milliknots matches Some(v) && v >= 25_000) || (
        fix.altitude_agl_feet matches Some(a) && a >= 250)
    }
}

/// Determine if aircraft should be active based on fix data
pub fn should_be_active(fix: &Fix) -> (r: bool)
    ensures
        r == active_by_speed_and_height(*fix),
{
    // Without altitude data, only a fast aircraft counts as active
    if fix.altitude_agl_feet.is_none() && fix.altitude_msl_feet.is_none() {
        let speed_milliknots = match fix.ground_speed_milliknots {
            Some(v) => v,
            None => 0,
        };
        if speed_milliknots < 80_000 {
            return false;
        }
        return true;
    }
    // 25 knots or more means active
    if let Some(speed) = fix.ground_speed_milliknots {
        if speed >= 25_000 {
            return true;
        }
    }
    // 250 ft above ground or more means airborne
    if let Some(agl) = fix.altitude_agl_feet {
        if agl >= 250 {
            return true;
        }
    }
    false
}

} // verus!

verus! {

use crate::flight_tracker::aircraft_state::{
    AircraftState, CompactFix, prior_n_inactive, last_five_inactive, seconds_between,
    whole_seconds_between,
};
use crate::flight_tracker::towing::TowingInfo;

/// Outcome of marking a flight as landed before the next step
/// (`set_preliminary_landing_time`): the flight was ended, it had already ended, or the
/// call failed.
#[derive(Clone, Copy, Debug, PartialEq, Eq, Structural)]
pub enum LandingOutcome {
    /// The flight was active and is now marked as landed.
    Ended,
    /// No flight was updated: it had already timed out or landed.
    AlreadyEnded,
    /// The call failed; the flight is still active.
    Failed,
}

/// Outcome of looking up an active flight of the aircraft in the database.
pub enum ActiveFlightLookup {
    /// An active flight exists, with its callsign.
    Found { flight_id: u128, callsign: Option<String> },
    /// No active flight.
    NotFound,
    /// The lookup failed.
    Failed,
}

/// What the caller observed and hands to the state machine.
pub enum TransitionEvent {
    /// Start processing a fix.
    ///
    /// `covered_too_little` says whether, by the previous fix's speed (over 25 knots), the
    /// aircraft covered less than 30% of the distance expected since the previous fix;
    /// `tow_release` says whether a towplane's climb history shows a tow release.
    Begin { is_towtug: bool, covered_too_little: bool, tow_release: bool },
    /// Result of marking a flight as landed.
    LandingSet(LandingOutcome),
    /// Result of creating a flight: its identifier, or none when creation failed.
    FlightCreated(Option<u128>),
    /// Result of looking up an active flight.
    ActiveFlight(ActiveFlightLookup),
    /// Altitude above ground of the fix, when the elevation is known.
    Agl(Option<i32>),
}

/// What the caller has to do next.
#[derive(Clone, Copy, Debug, PartialEq, Eq, Structural)]
pub enum TransitionAction {
    /// Mark the flight as landed at the fix's reception time; answer with `LandingSet`.
    SetPreliminaryLanding { flight_id: u128 },
    /// Create a flight from the fix (airborne: without takeoff); answer with `FlightCreated`.
    CreateFlight { airborne: bool },
    /// Look up an active flight of the aircraft; answer with `ActiveFlight`.
    LookupActiveFlight,
    /// Compute the fix's altitude above ground; answer with `Agl`.
    ComputeAgl,
    /// Record the tow release of the glider flight at this altitude; processing is done.
    RecordTowRelease { glider_flight_id: u128, altitude_msl_ft: i32 },
    /// Start towing detection for this new towplane flight; processing is done.
    SpawnTowingDetection { flight_id: u128 },
    /// Processing is done.
    Done,
}

/// Where the state machine stands.
pub enum Phase {
    /// Nothing processed yet.
    Start,
    /// Waiting for the landing mark of the current flight before splitting it
    /// (by a callsign change, or by a gap when `by_gap`).
    SplitLanding { flight_id: u128, by_gap: bool },
    /// Waiting for the creation of the flight that follows a split.
    SplitCreate { by_gap: bool },
    /// Waiting for the lookup of an active flight left in the database.
    OrphanLookup,
    /// Waiting for the landing mark of an active flight left in the database.
    OrphanLanding { flight_id: u128, callsign: Option<String> },
    /// Waiting for the altitude above ground to decide on a takeoff.
    TakeoffAgl,
    /// Waiting for the creation of a new flight.
    NewFlight { is_takeoff: bool },
    /// Waiting for the altitude above ground of an inactive fix during a flight.
    LandingAgl { flight_id: u128 },
    /// Waiting for the landing mark of the flight that landed.
    Landing { flight_id: u128 },
    /// Processing is over.
    Finished,
}

/// State machine that decides, for one fix, how flights begin, continue, split and end.
pub struct FixTransition {
    /// Where the machine stands.
    pub phase: Phase,
    /// Whether the fix is active.
    pub is_active: bool,
    /// Whether the aircraft is a towplane.
    pub is_towtug: bool,
    /// Whether the previous fix's speed and the distance since suggest a landing in a gap.
    pub covered_too_little: bool,
    /// Whether a tow release was detected.
    pub tow_release: bool,
    /// Flight whose completion must be run once the fix is stored.
    pub pending_completion: Option<u128>,
}

/// Everything a step may change.
pub struct StepOutcome {
    pub phase: Phase,
    pub is_towtug: bool,
    pub covered_too_little: bool,
    pub tow_release: bool,
    pub pending_completion: Option<u128>,
    pub current_flight_id: Option<u128>,
    pub current_callsign: Option<Seq<char>>,
    pub towing_info: Option<TowingInfo>,
    pub fix_flight_id: Option<u128>,
    pub fix_time_gap_seconds: Option<i32>,
    pub action: TransitionAction,
}

/// The values before the step, unchanged.
pub open spec fn unchanged(m: FixTransition, st: AircraftState, fix: Fix) -> StepOutcome {
    StepOutcome {
        phase: m.phase,
        is_towtug: m.is_towtug,
        covered_too_little: m.covered_too_little,
        tow_release: m.tow_release,
        pending_completion: m.pending_completion,
        current_flight_id: st.current_flight_id,
        current_callsign: opt_chars(st.current_callsign),
        towing_info: st.towing_info,
        fix_flight_id: fix.flight_id,
        fix_time_gap_seconds: fix.time_gap_seconds,
        action: TransitionAction::Done,
    }
}

/// A gap of more than 30 minutes since the previous fix, over which the aircraft covered
/// too little distance for its speed: it must have landed in between.
pub open spec fn gap_suggests_landing(h: Seq<CompactFix>, fix: Fix, covered_too_little: bool) -> bool {
    h.len() >= 2 && seconds_between(fix.received_at_us as int, h[h.len() - 2].timestamp_us as int)
        > 1800 && covered_too_little
}

/// Seconds from the most recent fix's timestamp to the fix's reception, when there is one.
pub open spec fn time_gap(h: Seq<CompactFix>, fix: Fix, previous: Option<i32>) -> Option<i32> {
    if h.len() > 0 {
        Some(seconds_between(fix.received_at_us as int, h.last().timestamp_us as int) as i32)
    } else {
        previous
    }
}

/// After the current flight continues or was split by a gap: a towplane that released its
/// tow drops the towing information and records the release when the fix has an altitude.
pub open spec fn after_tow_check(o: StepOutcome, fix: Fix) -> StepOutcome {
    if o.is_towtug && o.tow_release && o.towing_info is Some {
        let glider = o.towing_info.unwrap().glider_flight_id;
        StepOutcome {
            towing_info: None,
            action: match fix.altitude_msl_feet {
                Some(a) => TransitionAction::RecordTowRelease {
                    glider_flight_id: glider,
                    altitude_msl_ft: a,
                },
                None => TransitionAction::Done,
            },
            phase: Phase::Finished,
            ..o
        }
    } else {
        StepOutcome { action: TransitionAction::Done, phase: Phase::Finished, ..o }
    }
}

/// Adopt an active flight found in the database: the fix and the state take it, with its
/// callsign or else the fix's.
pub open spec fn adopt(o: StepOutcome, flight_id: u128, callsign: Option<String>, fix: Fix) -> StepOutcome {
    StepOutcome {
        fix_flight_id: Some(flight_id),
        current_flight_id: Some(flight_id),
        current_callsign: match callsign {
            Some(c) => Some(c@),
            None => opt_chars(fix.flight_number),
        },
        phase: Phase::Finished,
        action: TransitionAction::Done,
        ..o
    }
}

/// Takeoff or mid-air appearance, once no flight is to be adopted: a transponder fix is a
/// takeoff when the fix before was inactive; otherwise, with four fixes or more, when the
/// three before were inactive; with fewer, the altitude above ground decides.
pub open spec fn decide_takeoff(o: StepOutcome, st: AircraftState, fix: Fix) -> StepOutcome {
    let h = st.recent_fixes@;
    if fix.transponder_data {
        let t = prior_n_inactive(h, 1);
        StepOutcome {
            phase: Phase::NewFlight { is_takeoff: t },
            action: TransitionAction::CreateFlight { airborne: !t },
            ..o
        }
    } else if h.len() >= 4 {
        let t = prior_n_inactive(h, 3);
        StepOutcome {
            phase: Phase::NewFlight { is_takeoff: t },
            action: TransitionAction::CreateFlight { airborne: !t },
            ..o
        }
    } else {
        StepOutcome { phase: Phase::TakeoffAgl, action: TransitionAction::ComputeAgl, ..o }
    }
}

/// Whether the callsign of a flight found in the database fits the fix:
/// only two present and different callsigns conflict.
pub open spec fn callsign_compatible(existing: Option<String>, fix: Option<String>) -> bool {
    match (existing, fix) {
        (Some(a), Some(b)) => a@ == b@,
        _ => true,
    }
}

/// One step of the state machine.
pub open spec fn step_spec(m: FixTransition, st: AircraftState, fix: Fix, ev: TransitionEvent) -> StepOutcome {
    let o = unchanged(m, st, fix);
    let h = st.recent_fixes@;
    match (m.phase, ev) {
        (Phase::Start, TransitionEvent::Begin { is_towtug, covered_too_little, tow_release }) => {
            let o = StepOutcome { is_towtug, covered_too_little, tow_release, ..o };
            match st.current_flight_id {
                Some(f) => if m.is_active {
                    if callsign_change(opt_chars(st.current_callsign), opt_chars(fix.flight_number)) {
                        StepOutcome {
                            phase: Phase::SplitLanding { flight_id: f, by_gap: false },
                            action: TransitionAction::SetPreliminaryLanding { flight_id: f },
                            ..o
                        }
                    } else if gap_suggests_landing(h, fix, covered_too_little) {
                        StepOutcome {
                            phase: Phase::SplitLanding { flight_id: f, by_gap: true },
                            action: TransitionAction::SetPreliminaryLanding { flight_id: f },
                            ..o
                        }
                    } else {
                        after_tow_check(
                            StepOutcome {
                                fix_flight_id: Some(f),
                                current_callsign: learned_callsign(
                                    opt_chars(st.current_callsign),
                                    opt_chars(fix.flight_number),
                                ),
                                fix_time_gap_seconds: time_gap(h, fix, fix.time_gap_seconds),
                                ..o
                            },
                            fix,
                        )
                    }
                } else if fix.transponder_data {
                    StepOutcome {
                        phase: Phase::Landing { flight_id: f },
                        action: TransitionAction::SetPreliminaryLanding { flight_id: f },
                        ..o
                    }
                } else {
                    StepOutcome {
                        phase: Phase::LandingAgl { flight_id: f },
                        action: TransitionAction::ComputeAgl,
                        ..o
                    }
                },
                None => if m.is_active {
                    StepOutcome {
                        phase: Phase::OrphanLookup,
                        action: TransitionAction::LookupActiveFlight,
                        ..o
                    }
                } else {
                    StepOutcome { phase: Phase::Finished, ..o }
                },
            }
        },
        (Phase::SplitLanding { flight_id, by_gap }, TransitionEvent::LandingSet(r)) => match r {
            LandingOutcome::Ended => StepOutcome {
                pending_completion: Some(flight_id),
                phase: Phase::SplitCreate { by_gap },
                action: TransitionAction::CreateFlight { airborne: false },
                ..o
            },
            LandingOutcome::AlreadyEnded => {
                let o2 = StepOutcome { current_flight_id: None, fix_flight_id: None, ..o };
                if by_gap {
                    after_tow_check(o2, fix)
                } else {
                    StepOutcome { phase: Phase::Finished, ..o2 }
                }
            },
            LandingOutcome::Failed => {
                let o2 = StepOutcome { fix_flight_id: Some(flight_id), ..o };
                if by_gap {
                    after_tow_check(o2, fix)
                } else {
                    StepOutcome { phase: Phase::Finished, ..o2 }
                }
            },
        },
        (Phase::SplitCreate { by_gap }, TransitionEvent::FlightCreated(r)) => {
            let o2 = match r {
                Some(id) => StepOutcome {
                    fix_flight_id: Some(id),
                    current_flight_id: Some(id),
                    current_callsign: opt_chars(fix.flight_number),
                    ..o
                },
                None => StepOutcome {
                    fix_flight_id: None,
                    current_flight_id: None,
                    current_callsign: None,
                    ..o
                },
            };
            if by_gap {
                after_tow_check(o2, fix)
            } else {
                StepOutcome { phase: Phase::Finished, ..o2 }
            }
        },
        (Phase::OrphanLookup, TransitionEvent::ActiveFlight(r)) => match r {
            ActiveFlightLookup::Found { flight_id, callsign } => if callsign_compatible(
                callsign,
                fix.flight_number,
            ) {
                adopt(o, flight_id, callsign, fix)
            } else {
                StepOutcome {
                    phase: Phase::OrphanLanding { flight_id, callsign },
                    action: TransitionAction::SetPreliminaryLanding { flight_id },
                    ..o
                }
            },
            _ => decide_takeoff(o, st, fix),
        },
        (Phase::OrphanLanding { flight_id, callsign }, TransitionEvent::LandingSet(r)) => match r {
            LandingOutcome::Ended => decide_takeoff(
                StepOutcome { pending_completion: Some(flight_id), ..o },
                st,
                fix,
            ),
            LandingOutcome::AlreadyEnded => decide_takeoff(o, st, fix),
            LandingOutcome::Failed => adopt(o, flight_id, callsign, fix),
        },
        (Phase::TakeoffAgl, TransitionEvent::Agl(a)) => {
            let t = a matches Some(v) && v < 100;
            StepOutcome {
                phase: Phase::NewFlight { is_takeoff: t },
                action: TransitionAction::CreateFlight { airborne: !t },
                ..o
            }
        },
        (Phase::NewFlight { is_takeoff }, TransitionEvent::FlightCreated(r)) => match r {
            Some(id) => StepOutcome {
                fix_flight_id: Some(id),
                current_flight_id: Some(id),
                current_callsign: opt_chars(fix.flight_number),
                phase: Phase::Finished,
                action: if is_takeoff && m.is_towtug {
                    TransitionAction::SpawnTowingDetection { flight_id: id }
                } else {
                    TransitionAction::Done
                },
                ..o
            },
            None => StepOutcome { fix_flight_id: None, phase: Phase::Finished, ..o },
        },
        (Phase::LandingAgl { flight_id }, TransitionEvent::Agl(a)) => {
            if a matches Some(v) && v >= 250 {
                StepOutcome {
                    fix_flight_id: Some(flight_id),
                    fix_time_gap_seconds: time_gap(h, fix, fix.time_gap_seconds),
                    phase: Phase::Finished,
                    ..o
                }
            } else if last_five_inactive(h) {
                StepOutcome {
                    phase: Phase::Landing { flight_id },
                    action: TransitionAction::SetPreliminaryLanding { flight_id },
                    ..o
                }
            } else {
                StepOutcome { fix_flight_id: Some(flight_id), phase: Phase::Finished, ..o }
            }
        },
        (Phase::Landing { flight_id }, TransitionEvent::LandingSet(r)) => match r {
            LandingOutcome::Ended => StepOutcome {
                fix_flight_id: Some(flight_id),
                pending_completion: Some(flight_id),
                current_flight_id: None,
                phase: Phase::Finished,
                ..o
            },
            LandingOutcome::AlreadyEnded => StepOutcome {
                current_flight_id: None,
                current_callsign: None,
                fix_flight_id: None,
                phase: Phase::Finished,
                ..o
            },
            LandingOutcome::Failed => StepOutcome {
                fix_flight_id: Some(flight_id),
                phase: Phase::Finished,
                ..o
            },
        },
        _ => o,
    }
}

} // verus!

verus! {

/// The values after a step, read from the machine, the state and the fix.
pub open spec fn observed(m: FixTransition, st: AircraftState, fix: Fix, action: TransitionAction) -> StepOutcome {
    StepOutcome {
        phase: m.phase,
        is_towtug: m.is_towtug,
        covered_too_little: m.covered_too_little,
        tow_release: m.tow_release,
        pending_completion: m.pending_completion,
        current_flight_id: st.current_flight_id,
        current_callsign: opt_chars(st.current_callsign),
        towing_info: st.towing_info,
        fix_flight_id: fix.flight_id,
        fix_time_gap_seconds: fix.time_gap_seconds,
        action,
    }
}

/// Whether a fix counts as active: a transponder's own flag, or else speed and height.
pub open spec fn fix_is_active(fix: Fix) -> bool {
    if fix.transponder_data {
        fix.is_active
    } else {
        active_by_speed_and_height(fix)
    }
}

/// The history after a fix is recorded: a new state starts with the fix; an existing state
/// takes it unless it holds only this very fix (same reception time).
pub open spec fn recorded_history(previous: Option<Seq<CompactFix>>, fix: Fix, is_active: bool) -> Seq<CompactFix> {
    match previous {
        None => seq![crate::flight_tracker::aircraft_state::compact(fix, is_active)],
        Some(h) => if h.len() > 1 || (h.len() == 1 && h.last().received_at_us != fix.received_at_us) {
            crate::flight_tracker::aircraft_state::pushed_history(
                h,
                crate::flight_tracker::aircraft_state::compact(fix, is_active),
            )
        } else {
            h
        },
    }
}

/// Record a fix in the aircraft's state (creating the state if needed) and decide whether
/// the fix is active.
pub fn record_fix(state: Option<AircraftState>, fix: &Fix, now_us: i64) -> (r: (AircraftState, bool))
    ensures
        r.1 == fix_is_active(*fix),
        fix.transponder_data ==> r.1 == fix.is_active,
        r.0.recent_fixes@ == recorded_history(
            match state {
                Some(s) => Some(s.recent_fixes@),
                None => None,
            },
            *fix,
            r.1,
        ),
        state is None ==> r.0.current_flight_id is None && r.0.current_callsign is None
            && r.0.towing_info is None,
        state matches Some(s) ==> r.0.current_flight_id == s.current_flight_id
            && r.0.current_callsign == s.current_callsign && r.0.towing_info == s.towing_info,
{
    let is_active = if fix.has_transponder_data() {
        fix.is_active
    } else {
        should_be_active(fix)
    };
    match state {
        None => (AircraftState::new(fix, is_active, now_us), is_active),
        Some(mut s) => {
            let n = s.recent_fixes.len();
            if n > 1 || (n == 1 && s.recent_fixes[0].received_at_us != fix.received_at_us) {
                s.add_fix(fix, is_active, now_us);
            }
            (s, is_active)
        },
    }
}

impl FixTransition {
    /// A machine about to process a fix that is active or not.
    pub fn new(is_active: bool) -> (r: Self)
        ensures
            r.phase is Start,
            r.is_active == is_active,
            r.pending_completion is None,
    {
        FixTransition {
            phase: Phase::Start,
            is_active,
            is_towtug: false,
            covered_too_little: false,
            tow_release: false,
            pending_completion: None,
        }
    }

    /// After the current flight continued or was split by a gap: tow release handling.
    fn tow_check(&mut self, state: &mut AircraftState, fix: &Fix) -> (a: TransitionAction)
        ensures
            observed(*final(self), *final(state), *fix, a) == after_tow_check(
                observed(*old(self), *old(state), *fix, TransitionAction::Done),
                *fix,
            ),
            final(state).recent_fixes == old(state).recent_fixes,
            final(self).is_active == old(self).is_active,
    {
        self.phase = Phase::Finished;
        if self.is_towtug && self.tow_release {
            if let Some(ti) = state.towing_info {
                state.towing_info = None;
                return match fix.altitude_msl_feet {
                    Some(a) => TransitionAction::RecordTowRelease {
                        glider_flight_id: ti.glider_flight_id,
                        altitude_msl_ft: a,
                    },
                    None => TransitionAction::Done,
                };
            }
        }
        TransitionAction::Done
    }

    /// Takeoff or mid-air appearance.
    fn takeoff(&mut self, state: &AircraftState, fix: &Fix) -> (a: TransitionAction)
        ensures
            observed(*final(self), *state, *fix, a) == decide_takeoff(
                observed(*old(self), *state, *fix, TransitionAction::Done),
                *state,
                *fix,
            ),
            final(self).is_active == old(self).is_active,
    {
        if fix.has_transponder_data() {
            let t = state.last_n_inactive(1);
            self.phase = Phase::NewFlight { is_takeoff: t };
            TransitionAction::CreateFlight { airborne: !t }
        } else if state.recent_fixes.len() >= 4 {
            let t = state.last_n_inactive(3);
            self.phase = Phase::NewFlight { is_takeoff: t };
            TransitionAction::CreateFlight { airborne: !t }
        } else {
            self.phase = Phase::TakeoffAgl;
            TransitionAction::ComputeAgl
        }
    }

    /// Seconds since the most recent fix, written into the fix.
    fn set_time_gap(state: &AircraftState, fix: &mut Fix)
        ensures
            final(fix).time_gap_seconds == time_gap(
                state.recent_fixes@,
                *old(fix),
                old(fix).time_gap_seconds,
            ),
            final(fix).flight_id == old(fix).flight_id,
            final(fix).flight_number == old(fix).flight_number,
            final(fix).altitude_msl_feet == old(fix).altitude_msl_feet,
            final(fix).received_at_us == old(fix).received_at_us,
            final(fix).transponder_data == old(fix).transponder_data,
            *final(fix) == (Fix { time_gap_seconds: final(fix).time_gap_seconds, ..*old(fix) }),
    {
        if let Some(last) = state.last_fix_timestamp() {
            let gap = whole_seconds_between(fix.received_at_us, last);
            fix.time_gap_seconds = Some(gap as i32);
        }
    }

    /// One step: apply the event to the machine, the aircraft's state and the fix, and say
    /// what the caller must do next.
    pub fn step(&mut self, state: &mut AircraftState, fix: &mut Fix, event: TransitionEvent) -> (a:
        TransitionAction)
        ensures
            observed(*final(self), *final(state), *final(fix), a) == step_spec(
                *old(self),
                *old(state),
                *old(fix),
                event,
            ),
            final(self).is_active == old(self).is_active,
            final(state).recent_fixes == old(state).recent_fixes,
            *final(fix) == (Fix {
                flight_id: final(fix).flight_id,
                time_gap_seconds: final(fix).time_gap_seconds,
                ..*old(fix)
            }),
    {
        let mut phase = Phase::Finished;
        std::mem::swap(&mut phase, &mut self.phase);
        match (phase, event) {
            (Phase::Start, TransitionEvent::Begin { is_towtug, covered_too_little, tow_release }) => {
                self.is_towtug = is_towtug;
                self.covered_too_little = covered_too_little;
                self.tow_release = tow_release;
                match state.current_flight_id {
                    Some(f) => {
                        if self.is_active {
                            if is_callsign_change(&state.current_callsign, &fix.flight_number) {
                                self.phase = Phase::SplitLanding { flight_id: f, by_gap: false };
                                TransitionAction::SetPreliminaryLanding { flight_id: f }
                            } else if self.gap_landing(state, fix) {
                                self.phase = Phase::SplitLanding { flight_id: f, by_gap: true };
                                TransitionAction::SetPreliminaryLanding { flight_id: f }
                            } else {
                                fix.flight_id = Some(f);
                                state.current_callsign = learn_callsign(
                                    &state.current_callsign,
                                    &fix.flight_number,
                                );
                                Self::set_time_gap(state, fix);
                                self.tow_check(state, fix)
                            }
                        } else if fix.has_transponder_data() {
                            self.phase = Phase::Landing { flight_id: f };
                            TransitionAction::SetPreliminaryLanding { flight_id: f }
                        } else {
                            self.phase = Phase::LandingAgl { flight_id: f };
                            TransitionAction::ComputeAgl
                        }
                    },
                    None => {
                        if self.is_active {
                            self.phase = Phase::OrphanLookup;
                            TransitionAction::LookupActiveFlight
                        } else {
                            TransitionAction::Done
                        }
                    },
                }
            },
            (Phase::SplitLanding { flight_id, by_gap }, TransitionEvent::LandingSet(r)) => {
                match r {
                    LandingOutcome::Ended => {
                        self.pending_completion = Some(flight_id);
                        self.phase = Phase::SplitCreate { by_gap };
                        TransitionAction::CreateFlight { airborne: false }
                    },
                    LandingOutcome::AlreadyEnded => {
                        state.current_flight_id = None;
                        fix.flight_id = None;
                        if by_gap {
                            self.tow_check(state, fix)
                        } else {
                            TransitionAction::Done
                        }
                    },
                    LandingOutcome::Failed => {
                        fix.flight_id = Some(flight_id);
                        if by_gap {
                            self.tow_check(state, fix)
                        } else {
                            TransitionAction::Done
                        }
                    },
                }
            },
            (Phase::SplitCreate { by_gap }, TransitionEvent::FlightCreated(r)) => {
                match r {
                    Some(id) => {
                        fix.flight_id = Some(id);
                        state.current_flight_id = Some(id);
                        state.current_callsign = fix.flight_number.clone();
                    },
                    None => {
                        fix.flight_id = None;
                        state.current_flight_id = None;
                        state.current_callsign = None;
                    },
                }
                if by_gap {
                    self.tow_check(state, fix)
                } else {
                    TransitionAction::Done
                }
            },
            (Phase::OrphanLookup, TransitionEvent::ActiveFlight(r)) => {
                match r {
                    ActiveFlightLookup::Found { flight_id, callsign } => {
                        if Self::compatible(&callsign, &fix.flight_number) {
                            Self::adopt_flight(state, fix, flight_id, callsign);
                            TransitionAction::Done
                        } else {
                            self.phase = Phase::OrphanLanding { flight_id, callsign };
                            TransitionAction::SetPreliminaryLanding { flight_id }
                        }
                    },
                    _ => self.takeoff(state, fix),
                }
            },
            (Phase::OrphanLanding { flight_id, callsign }, TransitionEvent::LandingSet(r)) => {
                match r {
                    LandingOutcome::Ended => {
                        self.pending_completion = Some(flight_id);
                        self.takeoff(state, fix)
                    },
                    LandingOutcome::AlreadyEnded => self.takeoff(state, fix),
                    LandingOutcome::Failed => {
                        Self::adopt_flight(state, fix, flight_id, callsign);
                        TransitionAction::Done
                    },
                }
            },
            (Phase::TakeoffAgl, TransitionEvent::Agl(a)) => {
                let t = match a {
                    Some(v) => v < 100,
                    None => false,
                };
                self.phase = Phase::NewFlight { is_takeoff: t };
                TransitionAction::CreateFlight { airborne: !t }
            },
            (Phase::NewFlight { is_takeoff }, TransitionEvent::FlightCreated(r)) => {
                match r {
                    Some(id) => {
                        fix.flight_id = Some(id);
                        state.current_flight_id = Some(id);
                        state.current_callsign = fix.flight_number.clone();
                        if is_takeoff && self.is_towtug {
                            TransitionAction::SpawnTowingDetection { flight_id: id }
                        } else {
                            TransitionAction::Done
                        }
                    },
                    None => {
                        fix.flight_id = None;
                        TransitionAction::Done
                    },
                }
            },
            (Phase::LandingAgl { flight_id }, TransitionEvent::Agl(a)) => {
                let airborne = match a {
                    Some(v) => v >= 250,
                    None => false,
                };
                if airborne {
                    fix.flight_id = Some(flight_id);
                    Self::set_time_gap(state, fix);
                    TransitionAction::Done
                } else if state.has_five_consecutive_inactive() {
                    self.phase = Phase::Landing { flight_id };
                    TransitionAction::SetPreliminaryLanding { flight_id }
                } else {
                    fix.flight_id = Some(flight_id);
                    TransitionAction::Done
                }
            },
            (Phase::Landing { flight_id }, TransitionEvent::LandingSet(r)) => {
                match r {
                    LandingOutcome::Ended => {
                        fix.flight_id = Some(flight_id);
                        self.pending_completion = Some(flight_id);
                        state.current_flight_id = None;
                    },
                    LandingOutcome::AlreadyEnded => {
                        state.current_flight_id = None;
                        state.current_callsign = None;
                        fix.flight_id = None;
                    },
                    LandingOutcome::Failed => {
                        fix.flight_id = Some(flight_id);
                    },
                }
                TransitionAction::Done
            },
            (p, _) => {
                self.phase = p;
                TransitionAction::Done
            },
        }
    }

    /// Whether the gap since the previous fix suggests a landing.
    fn gap_landing(&self, state: &AircraftState, fix: &Fix) -> (r: bool)
        ensures
            r == gap_suggests_landing(state.recent_fixes@, *fix, self.covered_too_little),
    {
        match state.previous_fix_timestamp() {
            Some(prev) => whole_seconds_between(fix.received_at_us, prev) > 1800
                && self.covered_too_little,
            None => false,
        }
    }

    /// Whether a database flight's callsign fits the fix's.
    fn compatible(existing: &Option<String>, fix_callsign: &Option<String>) -> (r: bool)
        ensures
            r == callsign_compatible(*existing, *fix_callsign),
    {
        match (existing, fix_callsign) {
            (Some(a), Some(b)) => crate::text::str_eq(a.as_str(), b.as_str()),
            _ => true,
        }
    }

    /// Take over a database flight.
    fn adopt_flight(state: &mut AircraftState, fix: &mut Fix, flight_id: u128, callsign: Option<String>)
        ensures
            final(fix).flight_id == Some(flight_id),
            final(state).current_flight_id == Some(flight_id),
            opt_chars(final(state).current_callsign) == match callsign {
                Some(c) => Some(c@),
                None => opt_chars(old(fix).flight_number),
            },
            final(state).towing_info == old(state).towing_info,
            final(state).recent_fixes == old(state).recent_fixes,
            *final(fix) == (Fix { flight_id: Some(flight_id), ..*old(fix) }),
    {
        fix.flight_id = Some(flight_id);
        state.current_flight_id = Some(flight_id);
        state.current_callsign = match callsign {
            Some(c) => Some(c),
            None => fix.flight_number.clone(),
        };
    }
}

} // verus!

verus! {

/// A callsign change is the same whichever callsign is called current.
pub proof fn lemma_callsign_change_symmetric(a: Option<Seq<char>>, b: Option<Seq<char>>)
    ensures
        callsign_change(a, b) == callsign_change(b, a),
{
}

/// A callsign never differs from itself.
pub proof fn lemma_no_change_against_same(a: Option<Seq<char>>)
    ensures
        !callsign_change(a, a),
{
}

/// A known callsign is never overwritten by a later fix.
pub proof fn lemma_learning_keeps_known_callsign(current: Option<Seq<char>>, fix: Option<Seq<char>>)
    requires
        current is Some,
    ensures
        learned_callsign(current, fix) == current,
{
}

/// When a fix changes the callsign, nothing is learned from it.
pub proof fn lemma_change_learns_nothing(current: Option<Seq<char>>, fix: Option<Seq<char>>)
    requires
        callsign_change(current, fix),
    ensures
        learned_callsign(current, fix) == current,
{
}

/// Normalising a normalised callsign changes nothing.
pub proof fn lemma_normalized_idempotent(a: Option<Seq<char>>)
    ensures
        normalized(normalized(a)) == normalized(a),
{
    if let Some(s) = a {
        crate::text::lemma_trim_idempotent(s);
    }
}

/// On a flight without callsign, the first callsign is no change and is learned (trimmed);
/// the same callsign again is no change, and a different one is.
pub proof fn lemma_first_callsign_then_change(first: Option<Seq<char>>, later: Option<Seq<char>>)
    ensures
        !callsign_change(None, first),
        learned_callsign(None, first) == normalized(first),
        !callsign_change(learned_callsign(None, first), first),
        normalized(first) is Some && normalized(later) is Some && normalized(first) != normalized(
            later,
        ) ==> callsign_change(learned_callsign(None, first), later),
{
    lemma_normalized_idempotent(first);
}

/// Ordering of the phases: each question asked moves to a lower rank.
pub open spec fn rank(p: Phase) -> nat {
    match p {
        Phase::Start => 5,
        Phase::OrphanLookup => 4,
        Phase::OrphanLanding { .. } => 3,
        Phase::TakeoffAgl => 2,
        Phase::NewFlight { .. } => 1,
        Phase::SplitLanding { .. } => 2,
        Phase::SplitCreate { .. } => 1,
        Phase::LandingAgl { .. } => 2,
        Phase::Landing { .. } => 1,
        Phase::Finished => 0,
    }
}

/// An action that waits for an answer.
pub open spec fn asks(a: TransitionAction) -> bool {
    a is SetPreliminaryLanding || a is CreateFlight || a is LookupActiveFlight || a is ComputeAgl
}

/// How the aircraft's current flight relates to the phase: a landing or split is pending for
/// the current flight, and the flight-creation path only runs without a current flight.
pub open spec fn consistent(phase: Phase, current_flight_id: Option<u128>) -> bool {
    match phase {
        Phase::SplitLanding { flight_id, .. } => current_flight_id == Some(flight_id),
        Phase::LandingAgl { flight_id } => current_flight_id == Some(flight_id),
        Phase::Landing { flight_id } => current_flight_id == Some(flight_id),
        Phase::OrphanLookup => current_flight_id is None,
        Phase::OrphanLanding { .. } => current_flight_id is None,
        Phase::TakeoffAgl => current_flight_id is None,
        Phase::NewFlight { .. } => current_flight_id is None,
        _ => true,
    }
}

/// Every question moves the machine to a lower rank, and a step that asks nothing more
/// leaves the phase finished or unchanged: at most five steps are needed per fix.
pub proof fn lemma_step_progress(m: FixTransition, st: AircraftState, fix: Fix, ev: TransitionEvent)
    ensures
        asks(step_spec(m, st, fix, ev).action) ==> rank(step_spec(m, st, fix, ev).phase) < rank(
            m.phase,
        ),
        !asks(step_spec(m, st, fix, ev).action) ==> (step_spec(m, st, fix, ev).phase is Finished
            || step_spec(m, st, fix, ev).phase == m.phase),
{
}

/// The relation between phase and current flight holds at the start and is kept by every step.
pub proof fn lemma_step_keeps_consistency(m: FixTransition, st: AircraftState, fix: Fix, ev: TransitionEvent)
    requires
        consistent(m.phase, st.current_flight_id),
    ensures
        consistent(step_spec(m, st, fix, ev).phase, step_spec(m, st, fix, ev).current_flight_id),
{
}

/// A flight is only created when the aircraft has no current flight, or when the landing of
/// its current flight was just confirmed: an aircraft never gets two active flights.
pub proof fn lemma_create_only_without_active_flight(
    m: FixTransition,
    st: AircraftState,
    fix: Fix,
    ev: TransitionEvent,
)
    requires
        consistent(m.phase, st.current_flight_id),
        step_spec(m, st, fix, ev).action is CreateFlight,
    ensures
        st.current_flight_id is None || (m.phase matches Phase::SplitLanding { flight_id, .. }
            && st.current_flight_id == Some(flight_id) && ev == TransitionEvent::LandingSet(
            LandingOutcome::Ended,
        )),
{
}

/// A flight is queued for completion only right after its landing was confirmed.
pub proof fn lemma_completion_after_confirmed_landing(
    m: FixTransition,
    st: AircraftState,
    fix: Fix,
    ev: TransitionEvent,
)
    requires
        step_spec(m, st, fix, ev).pending_completion != m.pending_completion,
    ensures
        ev == TransitionEvent::LandingSet(LandingOutcome::Ended),
        match m.phase {
            Phase::SplitLanding { flight_id, .. } => step_spec(m, st, fix, ev).pending_completion
                == Some(flight_id),
            Phase::OrphanLanding { flight_id, .. } => step_spec(m, st, fix, ev).pending_completion
                == Some(flight_id),
            Phase::Landing { flight_id } => step_spec(m, st, fix, ev).pending_completion == Some(
                flight_id,
            ),
            _ => false,
        },
{
}

/// Law: once the landing of the aircraft's current flight is confirmed, the flight is over:
/// the aircraft has no current flight any more (its next takeoff starts a new one), the
/// landed flight is queued for completion, the fix belongs to it, and processing ends.
pub proof fn lemma_confirmed_landing_ends_current_flight(
    m: FixTransition,
    st: AircraftState,
    fix: Fix,
    flight_id: u128,
)
    requires
        m.phase == (Phase::Landing { flight_id }),
    ensures
        ({
            let o = step_spec(m, st, fix, TransitionEvent::LandingSet(LandingOutcome::Ended));
            &&& o.current_flight_id is None
            &&& o.pending_completion == Some(flight_id)
            &&& o.fix_flight_id == Some(flight_id)
            &&& o.phase is Finished
            &&& o.action == TransitionAction::Done
        }),
{
}

/// Law: a flight queued for completion by a step never stays the aircraft's current flight
/// once the fix's processing is over; only a split keeps it until the flight that follows
/// it is created.
pub proof fn lemma_completed_flight_not_current(
    m: FixTransition,
    st: AircraftState,
    fix: Fix,
    ev: TransitionEvent,
    f: u128,
)
    requires
        consistent(m.phase, st.current_flight_id),
        step_spec(m, st, fix, ev).pending_completion != m.pending_completion,
        step_spec(m, st, fix, ev).pending_completion == Some(f),
    ensures
        step_spec(m, st, fix, ev).current_flight_id != Some(f) || step_spec(
            m,
            st,
            fix,
            ev,
        ).phase is SplitCreate,
{
}

/// Law: a fix that carries transponder data is active exactly when the transponder says the
/// aircraft is airborne, whatever its speed and height; only other fixes are judged by speed
/// and height.
pub proof fn lemma_transponder_decides_activity(fix: Fix)
    ensures
        fix.transponder_data ==> fix_is_active(fix) == fix.is_active,
        !fix.transponder_data ==> (fix_is_active(fix) <==> (if fix.altitude_agl_feet is None
            && fix.altitude_msl_feet is None {
            fix.ground_speed_milliknots matches Some(v) && v >= 80_000
        } else {
            (fix.ground_speed_milliknots matches Some(v) && v >= 25_000) || (
            fix.altitude_agl_feet matches Some(a) && a >= 250)
        })),
{
}

/// A created flight becomes the aircraft's current flight and the fix's flight.
pub proof fn lemma_created_flight_is_current(
    m: FixTransition,
    st: AircraftState,
    fix: Fix,
    id: u128,
)
    requires
        m.phase is NewFlight || m.phase is SplitCreate,
    ensures
        step_spec(m, st, fix, TransitionEvent::FlightCreated(Some(id))).current_flight_id == Some(
            id,
        ),
        step_spec(m, st, fix, TransitionEvent::FlightCreated(Some(id))).fix_flight_id == Some(id),
{
}


/// The history rebuilt from a flight's last fixes, given newest first: the oldest fix
/// starts the history and the others follow in time order, each judged active by speed
/// and height.
pub open spec fn restored_history(fixes: Seq<Fix>) -> Seq<CompactFix>
    decreases fixes.len(),
{
    if fixes.len() <= 1 {
        seq![crate::flight_tracker::aircraft_state::compact(
            fixes[0],
            active_by_speed_and_height(fixes[0]),
        )]
    } else {
        crate::flight_tracker::aircraft_state::pushed_history(
            restored_history(fixes.drop_first()),
            crate::flight_tracker::aircraft_state::compact(
                fixes[0],
                active_by_speed_and_height(fixes[0]),
            ),
        )
    }
}

/// Rebuild the state of an aircraft from one of its flights and the flight's last fixes
/// (newest first), at startup: none without fixes. A timed-out flight is remembered as the
/// last timed-out flight (for a possible resumption); any other as the current flight; its
/// callsign goes with it. The state is dated by the newest fix.
pub fn restore_state(flight: &crate::flights::Flight, fixes: &[Fix]) -> (r: Option<AircraftState>)
    ensures
        fixes@.len() == 0 ==> r is None,
        fixes@.len() > 0 ==> (r matches Some(s) && {
            &&& s.recent_fixes@ == restored_history(fixes@)
            &&& s.last_update_time_us == fixes@[0].timestamp_us
            &&& s.towing_info is None
            &&& s.takeoff_runway_inferred is None
            &&& (flight.timed_out_at_us is Some ==> {
                &&& s.current_flight_id is None
                &&& s.current_callsign is None
                &&& s.last_timed_out_flight_id == Some(flight.id)
                &&& s.last_timed_out_callsign == flight.callsign
                &&& s.last_timed_out_at_us == flight.timed_out_at_us
            })
            &&& (flight.timed_out_at_us is None ==> {
                &&& s.current_flight_id == Some(flight.id)
                &&& s.current_callsign == flight.callsign
                &&& s.last_timed_out_flight_id is None
                &&& s.last_timed_out_callsign is None
                &&& s.last_timed_out_at_us is None
            })
        }),
{
    let n = fixes.len();
    if n == 0 {
        return None;
    }
    let oldest = &fixes[n - 1];
    let mut state = AircraftState::new_for_restore(oldest, should_be_active(oldest));
    if flight.timed_out_at_us.is_some() {
        state.last_timed_out_flight_id = Some(flight.id);
        state.last_timed_out_callsign = crate::text::clone_opt_string(&flight.callsign);
        state.last_timed_out_at_us = flight.timed_out_at_us;
    } else {
        state.current_flight_id = Some(flight.id);
        state.current_callsign = crate::text::clone_opt_string(&flight.callsign);
    }
    let ghost f0 = state.current_flight_id;
    let ghost c0 = state.current_callsign;
    let ghost t0 = state.last_timed_out_flight_id;
    let ghost tc0 = state.last_timed_out_callsign;
    let ghost ta0 = state.last_timed_out_at_us;
    assert(fixes@.subrange(n - 1, n as int) =~= seq![fixes@[n - 1]]);
    let mut k: usize = n - 1;
    while k > 0
        invariant
            n == fixes@.len(),
            k < n,
            state.recent_fixes@ == restored_history(fixes@.subrange(k as int, n as int)),
            state.last_update_time_us == fixes@[k as int].timestamp_us,
            state.current_flight_id == f0,
            state.current_callsign == c0,
            state.last_timed_out_flight_id == t0,
            state.last_timed_out_callsign == tc0,
            state.last_timed_out_at_us == ta0,
            state.towing_info is None,
            state.takeoff_runway_inferred is None,
        decreases k,
    {
        k = k - 1;
        let f = &fixes[k];
        state.add_fix_for_restore(f, should_be_active(f));
        let ghost sub = fixes@.subrange(k as int, n as int);
        assert(sub.drop_first() =~= fixes@.subrange(k as int + 1, n as int));
        assert(sub[0] == fixes@[k as int]);
    }
    assert(fixes@.subrange(0, n as int) =~= fixes@);
    Some(state)
}

} // verus!
