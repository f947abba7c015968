//! Towing: which aircraft may be towed, how a tow is found near a towplane that has
//! just taken off, and the climb samples from which a tow release is judged.
//!
//! Distances between positions and the averaging of climb rates are floating-point work
//! done by the caller; the selections and decisions around them are here.

use vstd::prelude::*;

use crate::aircraft::AircraftCategory;
use super::aircraft_state::{seconds_between, whole_seconds_between, AircraftState, CompactFix};

verus! {

/// Information about a towing operation
#[derive(Clone, Copy, Debug)]
pub struct TowingInfo {
    /// Aircraft being towed.
    pub glider_device_id: u128,
    /// Flight of the aircraft being towed.
    pub glider_flight_id: u128,
    /// When the tow started (microseconds since the epoch).
    pub tow_started_us: i64,
}

/// Categories that obviously cannot be towed; every other aircraft is a candidate, since
/// many gliders carry a wrong or missing category.
pub open spec fn excluded_category(c: AircraftCategory) -> bool {
    ||| c == AircraftCategory::TowTug
    ||| c == AircraftCategory::Helicopter
    ||| c == AircraftCategory::Balloon
    ||| c == AircraftCategory::Drone
    ||| c == AircraftCategory::Airship
    ||| c == AircraftCategory::SkydiverParachute
    ||| c == AircraftCategory::StaticObstacle
}

/// Whether an aircraft of this category (none when unknown) is left out of the tow
/// candidates.
pub fn is_excluded_from_tow(category: Option<AircraftCategory>) -> (r: bool)
    ensures
        r == (category matches Some(c) && excluded_category(c)),
{
    match category {
        Some(c) => match c {
            AircraftCategory::TowTug | AircraftCategory::Helicopter | AircraftCategory::Balloon
            | AircraftCategory::Drone | AircraftCategory::Airship
            | AircraftCategory::SkydiverParachute | AircraftCategory::StaticObstacle => true,
            _ => false,
        },
        None => false,
    }
}

/// A fix received at most 30 whole seconds before `now_us` counts as recent.
pub open spec fn fix_is_recent(received_at_us: int, now_us: int) -> bool {
    !(seconds_between(now_us, received_at_us) > 30)
}

/// The towplane's latest position (latitude, longitude in micro-degrees) and the time it
/// was received, when its last fix is recent.
pub fn towplane_position(state: &AircraftState, now_us: i64) -> (r: Option<(i64, i64, i64)>)
    ensures
        state.recent_fixes@.len() == 0 ==> r is None,
        state.recent_fixes@.len() > 0 ==> ({
            let f = state.recent_fixes@.last();
            &&& fix_is_recent(f.received_at_us as int, now_us as int) ==> r == Some(
                (f.lat_udeg, f.lng_udeg, f.received_at_us),
            )
            &&& !fix_is_recent(f.received_at_us as int, now_us as int) ==> r is None
        }),
{
    let n = state.recent_fixes.len();
    if n == 0 {
        return None;
    }
    let f = state.recent_fixes[n - 1];
    if whole_seconds_between(now_us, f.received_at_us) > 30 {
        None
    } else {
        Some((f.lat_udeg, f.lng_udeg, f.received_at_us))
    }
}

/// Whether an aircraft may be towed by the towplane, before distance and category are
/// looked at: it is not the towplane, it has a flight, and its last fix is recent. Gives
/// its flight and last fix.
pub fn tow_candidate(
    towplane_aircraft_id: u128,
    aircraft_id: u128,
    state: &AircraftState,
    now_us: i64,
) -> (r: Option<(u128, CompactFix)>)
    ensures
        r is Some <==> (aircraft_id != towplane_aircraft_id && state.current_flight_id is Some
            && state.recent_fixes@.len() > 0 && fix_is_recent(
            state.recent_fixes@.last().received_at_us as int,
            now_us as int,
        )),
        r matches Some((flight_id, f)) ==> state.current_flight_id == Some(flight_id)
            && f == state.recent_fixes@.last(),
{
    if aircraft_id == towplane_aircraft_id {
        return None;
    }
    let flight_id = match state.current_flight_id {
        Some(id) => id,
        None => return None,
    };
    let n = state.recent_fixes.len();
    if n == 0 {
        return None;
    }
    let f = state.recent_fixes[n - 1];
    if whole_seconds_between(now_us, f.received_at_us) > 30 {
        return None;
    }
    Some((flight_id, f))
}

/// How many times the search near a towplane is made before giving up on ambiguity.
pub const TOW_SEARCH_ATTEMPTS: u32 = 3;

/// The outcome of one search for the aircraft being towed.
#[derive(Clone, Copy, Debug, PartialEq, Eq, Structural)]
pub enum TowSearchOutcome {
    /// Nothing near the towplane: no tow.
    NoCandidates,
    /// Exactly one candidate: it is being towed.
    Linked { glider_aircraft_id: u128, glider_flight_id: u128 },
    /// Several candidates: wait and search again.
    Retry,
    /// Several candidates on the last attempt: no tow can be told.
    Ambiguous,
}

/// Decide on the candidates (aircraft, flight) found by search number `attempt` (from 0).
pub fn tow_search_step(attempt: u32, candidates: &Vec<(u128, u128)>) -> (r: TowSearchOutcome)
    requires
        attempt < TOW_SEARCH_ATTEMPTS,
    ensures
        candidates@.len() == 0 ==> r == TowSearchOutcome::NoCandidates,
        candidates@.len() == 1 ==> r == (TowSearchOutcome::Linked {
            glider_aircraft_id: candidates@[0].0,
            glider_flight_id: candidates@[0].1,
        }),
        candidates@.len() >= 2 && attempt + 1 < TOW_SEARCH_ATTEMPTS ==> r
            == TowSearchOutcome::Retry,
        candidates@.len() >= 2 && attempt + 1 == TOW_SEARCH_ATTEMPTS ==> r
            == TowSearchOutcome::Ambiguous,
{
    if candidates.len() == 0 {
        TowSearchOutcome::NoCandidates
    } else if candidates.len() == 1 {
        TowSearchOutcome::Linked {
            glider_aircraft_id: candidates[0].0,
            glider_flight_id: candidates[0].1,
        }
    } else if attempt + 1 < TOW_SEARCH_ATTEMPTS {
        TowSearchOutcome::Retry
    } else {
        TowSearchOutcome::Ambiguous
    }
}

/// Up to `k` (time received, altitude) pairs from the history, newest first, skipping
/// fixes without an altitude.
pub open spec fn altitude_samples(h: Seq<CompactFix>, k: nat) -> Seq<(i64, i32)>
    decreases h.len(),
{
    if k == 0 || h.len() == 0 {
        Seq::empty()
    } else {
        match h.last().altitude_msl_ft {
            Some(a) => seq![(h.last().received_at_us, a)] + altitude_samples(
                h.drop_last(),
                (k - 1) as nat,
            ),
            None => altitude_samples(h.drop_last(), k),
        }
    }
}

/// The same samples in the order in which the fixes were recorded, oldest first.
pub open spec fn in_time_order(ra: Seq<(i64, i32)>) -> Seq<(i64, i32)> {
    Seq::new(ra.len(), |i: int| ra[ra.len() - 1 - i])
}

/// For each pair of neighbouring samples, the change of altitude and the whole seconds
/// between them (later sample minus earlier one in the list), kept when that time is
/// positive.
pub open spec fn climb_samples(ra: Seq<(i64, i32)>) -> Seq<(i64, i64)>
    decreases ra.len(),
{
    if ra.len() < 2 {
        Seq::empty()
    } else {
        let prev = climb_samples(ra.drop_last());
        let a = ra[ra.len() - 2];
        let b = ra[ra.len() - 1];
        let dt = seconds_between(b.0 as int, a.0 as int);
        if dt > 0 {
            prev.push(((b.1 - a.1) as i64, dt as i64))
        } else {
            prev
        }
    }
}

fn collect_altitude_samples(h: &std::collections::VecDeque<CompactFix>) -> (r: Vec<(i64, i32)>)
    ensures
        r@ == altitude_samples(h@, 5),
{
    let mut out: Vec<(i64, i32)> = Vec::new();
    let mut j: usize = h.len();
    proof {
        assert(h@.subrange(0, j as int) =~= h@);
        assert(out@ + altitude_samples(h@, 5) =~= altitude_samples(h@, 5));
    }
    while j > 0 && out.len() < 5
        invariant
            j <= h@.len(),
            out@.len() <= 5,
            out@ + altitude_samples(h@.subrange(0, j as int), (5 - out@.len()) as nat)
                == altitude_samples(h@, 5),
        decreases j,
    {
        let f = h[j - 1];
        let ghost sub = h@.subrange(0, j as int);
        proof {
            assert(sub.drop_last() =~= h@.subrange(0, j as int - 1));
            assert(sub.last() == h@[j as int - 1]);
        }
        match f.altitude_msl_ft {
            Some(a) => {
                let ghost before = out@;
                out.push((f.received_at_us, a));
                proof {
                    assert(out@ + altitude_samples(
                        h@.subrange(0, j as int - 1),
                        (5 - out@.len()) as nat,
                    ) =~= before + altitude_samples(sub, (5 - before.len()) as nat));
                }
            },
            None => {},
        }
        j = j - 1;
    }
    proof {
        let rest = altitude_samples(h@.subrange(0, j as int), (5 - out@.len()) as nat);
        assert(rest =~= Seq::<(i64, i32)>::empty());
        assert(out@ + rest =~= out@);
    }
    out
}

fn oldest_first(ra: &Vec<(i64, i32)>) -> (r: Vec<(i64, i32)>)
    ensures
        r@ == in_time_order(ra@),
{
    let mut out: Vec<(i64, i32)> = Vec::new();
    let mut j: usize = ra.len();
    while j > 0
        invariant
            j <= ra@.len(),
            out@.len() == ra@.len() - j,
            forall|k: int| 0 <= k < out@.len() ==> out@[k] == ra@[ra@.len() - 1 - k],
        decreases j,
    {
        j = j - 1;
        out.push(ra[j]);
    }
    assert(out@ =~= in_time_order(ra@));
    out
}

fn collect_climb_samples(ra: &Vec<(i64, i32)>) -> (r: Vec<(i64, i64)>)
    ensures
        r@ == climb_samples(ra@),
{
    let mut out: Vec<(i64, i64)> = Vec::new();
    if ra.len() < 2 {
        return out;
    }
    let mut i: usize = 1;
    proof {
        assert(ra@.subrange(0, 1).len() == 1);
    }
    while i < ra.len()
        invariant
            1 <= i <= ra@.len(),
            out@ == climb_samples(ra@.subrange(0, i as int)),
        decreases ra@.len() - i,
    {
        let (t1, a1) = ra[i - 1];
        let (t2, a2) = ra[i];
        let dt = whole_seconds_between(t2, t1);
        let ghost sub = ra@.subrange(0, i as int + 1);
        proof {
            assert(sub.drop_last() =~= ra@.subrange(0, i as int));
            assert(sub[sub.len() - 2] == ra@[i as int - 1]);
            assert(sub[sub.len() - 1] == ra@[i as int]);
        }
        if dt > 0 {
            out.push((a2 as i64 - a1 as i64, dt));
        }
        i = i + 1;
    }
    assert(ra@.subrange(0, ra@.len() as int) =~= ra@);
    out
}

/// The climb samples (altitude change in feet, whole seconds) from which a towplane's
/// release is judged: from its last five fixes with an altitude, taken in the order in
/// which they were recorded, so that a climb gives positive changes over positive
/// intervals. None when the aircraft is not towing.
pub fn tow_release_samples(state: &AircraftState) -> (r: Option<Vec<(i64, i64)>>)
    ensures
        state.towing_info is None ==> r is None,
        state.towing_info is Some ==> (r matches Some(v) && v@ == climb_samples(
            in_time_order(altitude_samples(state.recent_fixes@, 5)),
        )),
{
    if state.towing_info.is_none() {
        return None;
    }
    let newest_first = collect_altitude_samples(&state.recent_fixes);
    let recent = oldest_first(&newest_first);
    Some(collect_climb_samples(&recent))
}

} // verus!
