//! Decisions taken when a flight ends: spurious-flight classification and the phase
//! recorded at timeout.

use vstd::prelude::*;

use crate::fixes::Fix;
use crate::flights::{SpuriousFlightReason, TimeoutPhase};
use super::aircraft_state::FlightPhase;
use crate::time::representable_instant;
use crate::text::{signed_decimal, to_signed_decimal};

verus! {

/// Highest of the optional values at or after index `i`.
pub open spec fn max_from(vals: Seq<Option<i32>>, i: int) -> Option<int>
    decreases vals.len() - i,
{
    if i < 0 || i >= vals.len() {
        None
    } else {
        let rest = max_from(vals, i + 1);
        match vals[i] {
            Some(v) => match rest {
                Some(r) => Some(if v >= r { v as int } else { r }),
                None => Some(v as int),
            },
            None => rest,
        }
    }
}

/// Lowest of the optional values at or after index `i`.
pub open spec fn min_from(vals: Seq<Option<i32>>, i: int) -> Option<int>
    decreases vals.len() - i,
{
    if i < 0 || i >= vals.len() {
        None
    } else {
        let rest = min_from(vals, i + 1);
        match vals[i] {
            Some(v) => match rest {
                Some(r) => Some(if v <= r { v as int } else { r }),
                None => Some(v as int),
            },
            None => rest,
        }
    }
}

/// The MSL altitudes of the fixes.
pub open spec fn msl_altitudes(fixes: Seq<Fix>) -> Seq<Option<i32>> {
    fixes.map_values(|f: Fix| f.altitude_msl_feet)
}

/// The AGL altitudes of the fixes.
pub open spec fn agl_altitudes(fixes: Seq<Fix>) -> Seq<Option<i32>> {
    fixes.map_values(|f: Fix| f.altitude_agl_feet)
}

/// Range of MSL altitudes (highest minus lowest), when any fix has one.
pub open spec fn altitude_range(fixes: Seq<Fix>) -> Option<int> {
    match (max_from(msl_altitudes(fixes), 0), min_from(msl_altitudes(fixes), 0)) {
        (Some(hi), Some(lo)) => Some(hi - lo),
        _ => None,
    }
}

/// The fix reports more than 100,000 ft MSL.
pub open spec fn too_high(f: Fix) -> bool {
    match f.altitude_msl_feet {
        Some(a) => a > 100_000,
        None => false,
    }
}

/// Some fix reports more than 100,000 ft MSL.
pub open spec fn excessive_altitude(fixes: Seq<Fix>) -> bool {
    exists|i: int| 0 <= i < fixes.len() && too_high(#[trigger] fixes[i])
}

/// The reasons that apply to a flight, in a fixed order.
pub open spec fn reasons_spec(
    duration_seconds: int,
    fixes: Seq<Fix>,
    excessive_speed: bool,
    insufficient_displacement: bool,
) -> Seq<SpuriousFlightReason> {
    let r0: Seq<SpuriousFlightReason> = Seq::empty();
    let r1 = if duration_seconds < 120 { r0.push(SpuriousFlightReason::DurationTooShort) } else { r0 };
    let r2 = if altitude_range(fixes) matches Some(r) && r < 50 {
        r1.push(SpuriousFlightReason::AltitudeRangeInsufficient)
    } else {
        r1
    };
    let r3 = if max_from(agl_altitudes(fixes), 0) matches Some(a) && a < 100 {
        r2.push(SpuriousFlightReason::MaxAglTooLow)
    } else {
        r2
    };
    let r4 = if excessive_altitude(fixes) { r3.push(SpuriousFlightReason::ExcessiveAltitude) } else { r3 };
    let r5 = if excessive_speed { r4.push(SpuriousFlightReason::ExcessiveSpeed) } else { r4 };
    if insufficient_displacement { r5.push(SpuriousFlightReason::DisplacementTooLow) } else { r5 }
}

/// Whether the flight is spurious: a transponder flight only for corrupt data (excessive
/// altitude or speed); any other flight for any of the reasons.
pub open spec fn spurious_spec(
    duration_seconds: int,
    fixes: Seq<Fix>,
    excessive_speed: bool,
    insufficient_displacement: bool,
    has_transponder: bool,
) -> bool {
    if has_transponder {
        excessive_altitude(fixes) || excessive_speed
    } else {
        reasons_spec(duration_seconds, fixes, excessive_speed, insufficient_displacement).len() > 0
    }
}

/// Verdict on a landed flight.
pub struct SpuriousVerdict {
    /// Whether the flight is to be archived as spurious.
    pub is_spurious: bool,
    /// All reasons that apply, whether or not they decide.
    pub reasons: Vec<SpuriousFlightReason>,
}

fn max_of(vals: &Vec<Option<i32>>) -> (r: Option<i32>)
    ensures
        match r {
            Some(v) => max_from(vals@, 0) == Some(v as int),
            None => max_from(vals@, 0) is None,
        },
{
    let mut best: Option<i32> = None;
    let mut i: usize = vals.len();
    while i > 0
        invariant
            i <= vals@.len(),
            match best {
                Some(v) => max_from(vals@, i as int) == Some(v as int),
                None => max_from(vals@, i as int) is None,
            },
        decreases i,
    {
        i = i - 1;
        match vals[i] {
            Some(v) => {
                best = match best {
                    Some(b) => Some(if v >= b { v } else { b }),
                    None => Some(v),
                };
            },
            None => {},
        }
    }
    best
}

fn min_of(vals: &Vec<Option<i32>>) -> (r: Option<i32>)
    ensures
        match r {
            Some(v) => min_from(vals@, 0) == Some(v as int),
            None => min_from(vals@, 0) is None,
        },
{
    let mut best: Option<i32> = None;
    let mut i: usize = vals.len();
    while i > 0
        invariant
            i <= vals@.len(),
            match best {
                Some(v) => min_from(vals@, i as int) == Some(v as int),
                None => min_from(vals@, i as int) is None,
            },
        decreases i,
    {
        i = i - 1;
        match vals[i] {
            Some(v) => {
                best = match best {
                    Some(b) => Some(if v <= b { v } else { b }),
                    None => Some(v),
                };
            },
            None => {},
        }
    }
    best
}

/// Classify a landed flight that has a takeoff time.
///
/// `duration_seconds` runs from takeoff to the landing fix; `fixes` are the flight's fixes;
/// `has_excessive_speed` says whether the average speed exceeded 1000 mph and
/// `has_insufficient_displacement` whether the distance flown stayed under 500 m.
pub fn classify_spurious_flight(
    duration_seconds: i64,
    fixes: &[Fix],
    has_excessive_speed: bool,
    has_insufficient_displacement: bool,
    has_transponder: bool,
) -> (r: SpuriousVerdict)
    ensures
        r.reasons@ == reasons_spec(
            duration_seconds as int,
            fixes@,
            has_excessive_speed,
            has_insufficient_displacement,
        ),
        r.is_spurious == spurious_spec(
            duration_seconds as int,
            fixes@,
            has_excessive_speed,
            has_insufficient_displacement,
            has_transponder,
        ),
{
    let mut msl: Vec<Option<i32>> = Vec::new();
    let mut agl: Vec<Option<i32>> = Vec::new();
    let mut excessive_alt = false;
    let mut i: usize = 0;
    while i < fixes.len()
        invariant
            i <= fixes@.len(),
            msl@ == msl_altitudes(fixes@).subrange(0, i as int),
            agl@ == agl_altitudes(fixes@).subrange(0, i as int),
            excessive_alt == exists|k: int|
                0 <= k < i && too_high(#[trigger] fixes@[k]),
        decreases fixes@.len() - i,
    {
        let f = &fixes[i];
        msl.push(f.altitude_msl_feet);
        agl.push(f.altitude_agl_feet);
        if let Some(a) = f.altitude_msl_feet {
            if a > 100_000 {
                excessive_alt = true;
            }
        }
        i = i + 1;
        assert(msl@ =~= msl_altitudes(fixes@).subrange(0, i as int));
        assert(agl@ =~= agl_altitudes(fixes@).subrange(0, i as int));
    }
    assert(msl@ =~= msl_altitudes(fixes@));
    assert(agl@ =~= agl_altitudes(fixes@));
    let hi = max_of(&msl);
    let lo = min_of(&msl);
    let range_small = match (hi, lo) {
        (Some(h), Some(l)) => (h as i64 - l as i64) < 50,
        _ => false,
    };
    let agl_low = match max_of(&agl) {
        Some(a) => a < 100,
        None => false,
    };
    let mut reasons: Vec<SpuriousFlightReason> = Vec::new();
    if duration_seconds < 120 {
        reasons.push(SpuriousFlightReason::DurationTooShort);
    }
    if range_small {
        reasons.push(SpuriousFlightReason::AltitudeRangeInsufficient);
    }
    if agl_low {
        reasons.push(SpuriousFlightReason::MaxAglTooLow);
    }
    if excessive_alt {
        reasons.push(SpuriousFlightReason::ExcessiveAltitude);
    }
    if has_excessive_speed {
        reasons.push(SpuriousFlightReason::ExcessiveSpeed);
    }
    if has_insufficient_displacement {
        reasons.push(SpuriousFlightReason::DisplacementTooLow);
    }
    let is_spurious = if has_transponder {
        excessive_alt || has_excessive_speed
    } else {
        reasons.len() > 0
    };
    SpuriousVerdict { is_spurious, reasons }
}

/// Law: without transponder data a flight is spurious as soon as any one reason applies:
/// under 120 s, an MSL altitude range under 50 ft, a highest AGL altitude under 100 ft, an
/// altitude over 100,000 ft, an excessive speed or too little displacement. With
/// transponder data only corrupt data (altitude over 100,000 ft or excessive speed) makes
/// it spurious. Each reason is listed exactly when its condition holds.
pub proof fn lemma_spurious_on_any_reason(
    duration_seconds: int,
    fixes: Seq<Fix>,
    excessive_speed: bool,
    insufficient_displacement: bool,
    has_transponder: bool,
)
    ensures
        ({
            let short = duration_seconds < 120;
            let flat = (altitude_range(fixes) matches Some(r) && r < 50);
            let low = (max_from(agl_altitudes(fixes), 0) matches Some(a) && a < 100);
            let high = excessive_altitude(fixes);
            let spurious = spurious_spec(
                duration_seconds,
                fixes,
                excessive_speed,
                insufficient_displacement,
                has_transponder,
            );
            let reasons = reasons_spec(
                duration_seconds,
                fixes,
                excessive_speed,
                insufficient_displacement,
            );
            &&& !has_transponder ==> (spurious <==> (short || flat || low || high || excessive_speed
                || insufficient_displacement))
            &&& has_transponder ==> (spurious <==> (high || excessive_speed))
            &&& (reasons.contains(SpuriousFlightReason::DurationTooShort) <==> short)
            &&& (reasons.contains(SpuriousFlightReason::AltitudeRangeInsufficient) <==> flat)
            &&& (reasons.contains(SpuriousFlightReason::MaxAglTooLow) <==> low)
            &&& (reasons.contains(SpuriousFlightReason::ExcessiveAltitude) <==> high)
            &&& (reasons.contains(SpuriousFlightReason::ExcessiveSpeed) <==> excessive_speed)
            &&& (reasons.contains(SpuriousFlightReason::DisplacementTooLow)
                <==> insufficient_displacement)
        }),
{
    let short = duration_seconds < 120;
    let flat = (altitude_range(fixes) matches Some(r) && r < 50);
    let low = (max_from(agl_altitudes(fixes), 0) matches Some(a) && a < 100);
    let high = excessive_altitude(fixes);
    let r0: Seq<SpuriousFlightReason> = Seq::empty();
    let r1 = if short { r0.push(SpuriousFlightReason::DurationTooShort) } else { r0 };
    let r2 = if flat { r1.push(SpuriousFlightReason::AltitudeRangeInsufficient) } else { r1 };
    let r3 = if low { r2.push(SpuriousFlightReason::MaxAglTooLow) } else { r2 };
    let r4 = if high { r3.push(SpuriousFlightReason::ExcessiveAltitude) } else { r3 };
    let r5 = if excessive_speed { r4.push(SpuriousFlightReason::ExcessiveSpeed) } else { r4 };
    let r6 = if insufficient_displacement { r5.push(SpuriousFlightReason::DisplacementTooLow) } else { r5 };
    assert(reasons_spec(duration_seconds, fixes, excessive_speed, insufficient_displacement) == r6);
    assert(r1.contains(SpuriousFlightReason::DurationTooShort) <==> short) by {
        if short { assert(r1[0] == SpuriousFlightReason::DurationTooShort); }
    }
    assert(r2.contains(SpuriousFlightReason::AltitudeRangeInsufficient) <==> flat) by {
        if flat { assert(r2[r2.len() - 1] == SpuriousFlightReason::AltitudeRangeInsufficient); }
    }
    assert(r3.contains(SpuriousFlightReason::MaxAglTooLow) <==> low) by {
        if low { assert(r3[r3.len() - 1] == SpuriousFlightReason::MaxAglTooLow); }
    }
    assert(r4.contains(SpuriousFlightReason::ExcessiveAltitude) <==> high) by {
        if high { assert(r4[r4.len() - 1] == SpuriousFlightReason::ExcessiveAltitude); }
    }
    assert(r5.contains(SpuriousFlightReason::ExcessiveSpeed) <==> excessive_speed) by {
        if excessive_speed { assert(r5[r5.len() - 1] == SpuriousFlightReason::ExcessiveSpeed); }
    }
    assert(r6.contains(SpuriousFlightReason::DisplacementTooLow) <==> insufficient_displacement) by {
        if insufficient_displacement { assert(r6[r6.len() - 1] == SpuriousFlightReason::DisplacementTooLow); }
    }
    // pushing keeps what was there
    assert forall|x: SpuriousFlightReason| r1.contains(x) implies r6.contains(x) by {
        let k = choose|k: int| 0 <= k < r1.len() && r1[k] == x;
        assert(r6[k] == x);
    }
    assert forall|x: SpuriousFlightReason| r2.contains(x) implies r6.contains(x) by {
        let k = choose|k: int| 0 <= k < r2.len() && r2[k] == x;
        assert(r6[k] == x);
    }
    assert forall|x: SpuriousFlightReason| r3.contains(x) implies r6.contains(x) by {
        let k = choose|k: int| 0 <= k < r3.len() && r3[k] == x;
        assert(r6[k] == x);
    }
    assert forall|x: SpuriousFlightReason| r4.contains(x) implies r6.contains(x) by {
        let k = choose|k: int| 0 <= k < r4.len() && r4[k] == x;
        assert(r6[k] == x);
    }
    assert forall|x: SpuriousFlightReason| r5.contains(x) implies r6.contains(x) by {
        let k = choose|k: int| 0 <= k < r5.len() && r5[k] == x;
        assert(r6[k] == x);
    }
    // nothing else is ever pushed
    assert forall|x: SpuriousFlightReason| r6.contains(x) implies (
        (x == SpuriousFlightReason::DurationTooShort && short)
        || (x == SpuriousFlightReason::AltitudeRangeInsufficient && flat)
        || (x == SpuriousFlightReason::MaxAglTooLow && low)
        || (x == SpuriousFlightReason::ExcessiveAltitude && high)
        || (x == SpuriousFlightReason::ExcessiveSpeed && excessive_speed)
        || (x == SpuriousFlightReason::DisplacementTooLow && insufficient_displacement)) by {
        let k = choose|k: int| 0 <= k < r6.len() && r6[k] == x;
        if insufficient_displacement && k == r6.len() - 1 {
        } else {
            assert(r5.contains(x)) by { assert(r5[k] == x); }
            if excessive_speed && k == r5.len() - 1 {
            } else {
                assert(r4[k] == x);
                if high && k == r4.len() - 1 {
                } else {
                    assert(r3[k] == x);
                    if low && k == r3.len() - 1 {
                    } else {
                        assert(r2[k] == x);
                        if flat && k == r2.len() - 1 {
                        } else {
                            assert(r1[k] == x);
                        }
                    }
                }
            }
        }
    }
    if short || flat || low || high || excessive_speed || insufficient_displacement {
        assert(r6.len() > 0);
    } else {
        assert(r6.len() == 0);
    }
}

/// The phase recorded for a timed-out flight.
pub fn timeout_phase_of(phase: FlightPhase) -> (r: TimeoutPhase)
    ensures
        r == match phase {
            FlightPhase::Climbing => TimeoutPhase::Climbing,
            FlightPhase::Cruising => TimeoutPhase::Cruising,
            FlightPhase::Descending => TimeoutPhase::Descending,
            FlightPhase::Unknown => TimeoutPhase::Unknown,
        },
{
    match phase {
        FlightPhase::Climbing => TimeoutPhase::Climbing,
        FlightPhase::Cruising => TimeoutPhase::Cruising,
        FlightPhase::Descending => TimeoutPhase::Descending,
        FlightPhase::Unknown => TimeoutPhase::Unknown,
    }
}


/// How long before takeoff fixes of a flight are still looked at (five minutes).
pub const FIXES_START_BUFFER_US: i64 = 300_000_000;

/// How long after the landing fix fixes are still released from a flight (one minute).
pub const FIXES_END_BUFFER_US: i64 = 60_000_000;

/// How far back fixes are looked at for a flight without takeoff time (24 hours).
pub const FIXES_DEFAULT_LOOKBACK_US: i64 = 86_400_000_000;

/// The earliest time from which a completing flight's fixes are read: five minutes before
/// takeoff, or 24 hours before now for a flight without takeoff time.
pub fn fixes_query_start(takeoff_time_us: Option<i64>, now_us: i64) -> (r: i64)
    requires
        takeoff_time_us matches Some(t) ==> representable_instant(t - FIXES_START_BUFFER_US),
        takeoff_time_us is None ==> representable_instant(now_us - FIXES_DEFAULT_LOOKBACK_US),
    ensures
        r == match takeoff_time_us {
            Some(t) => t - FIXES_START_BUFFER_US,
            None => now_us - FIXES_DEFAULT_LOOKBACK_US,
        },
{
    match takeoff_time_us {
        Some(t) => t - FIXES_START_BUFFER_US,
        None => now_us - FIXES_DEFAULT_LOOKBACK_US,
    }
}

/// The time span whose fixes are released from a flight archived as spurious: from five
/// minutes before takeoff to one minute after the landing fix was received.
pub fn fixes_clear_window(takeoff_time_us: i64, landing_received_at_us: i64) -> (r: (i64, i64))
    requires
        representable_instant(takeoff_time_us - FIXES_START_BUFFER_US),
        representable_instant(landing_received_at_us + FIXES_END_BUFFER_US),
    ensures
        r.0 == takeoff_time_us - FIXES_START_BUFFER_US,
        r.1 == landing_received_at_us + FIXES_END_BUFFER_US,
{
    (takeoff_time_us - FIXES_START_BUFFER_US, landing_received_at_us + FIXES_END_BUFFER_US)
}

/// How far back fixes are read at startup for a flight without takeoff time (one hour).
pub const FIXES_STARTUP_LOOKBACK_US: i64 = 3_600_000_000;

/// The earliest time from which a flight left open at startup has its fixes read: five
/// minutes before takeoff, or one hour before the flight was created when it has no
/// takeoff time.
pub fn startup_fixes_start(takeoff_time_us: Option<i64>, created_at_us: i64) -> (r: i64)
    requires
        takeoff_time_us matches Some(t) ==> representable_instant(t - FIXES_START_BUFFER_US),
        takeoff_time_us is None ==> representable_instant(created_at_us - FIXES_STARTUP_LOOKBACK_US),
    ensures
        r == match takeoff_time_us {
            Some(t) => t - FIXES_START_BUFFER_US,
            None => created_at_us - FIXES_STARTUP_LOOKBACK_US,
        },
{
    match takeoff_time_us {
        Some(t) => t - FIXES_START_BUFFER_US,
        None => created_at_us - FIXES_STARTUP_LOOKBACK_US,
    }
}

/// The landing time and last-fix time recorded for a flight completed at startup: the
/// landing time is the flight's own, or its last fix time when it has none; the time of
/// the last fix read (when there is one) is held at or after that landing time.
pub fn startup_landing_times(
    landing_time_us: Option<i64>,
    last_fix_at_us: i64,
    last_fix_received_us: Option<i64>,
) -> (r: (i64, Option<i64>))
    ensures
        r.0 == match landing_time_us {
            Some(t) => t,
            None => last_fix_at_us,
        },
        r.1 == match last_fix_received_us {
            Some(t) => Some(if t >= r.0 { t } else { r.0 }),
            None => None,
        },
{
    let landing = match landing_time_us {
        Some(t) => t,
        None => last_fix_at_us,
    };
    let last = match last_fix_received_us {
        Some(t) => Some(if t >= landing { t } else { landing }),
        None => None,
    };
    (landing, last)
}


/// An optional number as `{:?}` writes it: `Some(n)` or `None`.
pub open spec fn debug_opt(v: Option<int>) -> Seq<char> {
    match v {
        Some(n) => "Some("@ + signed_decimal(n) + ")"@,
        None => "None"@,
    }
}

/// The description recorded with a reason for archiving a flight; the average speed and
/// the distance flown are given as text (they are floating-point values).
pub open spec fn reason_description(
    reason: SpuriousFlightReason,
    duration_seconds: int,
    fixes: Seq<Fix>,
    speed_mph_text: Seq<char>,
    distance_m_text: Seq<char>,
) -> Seq<char> {
    match reason {
        SpuriousFlightReason::DurationTooShort => "duration too short ("@ + signed_decimal(
            duration_seconds,
        ) + "s < 120s)"@,
        SpuriousFlightReason::AltitudeRangeInsufficient => "altitude range too small ("@
            + debug_opt(altitude_range(fixes)) + "ft < 50ft)"@,
        SpuriousFlightReason::MaxAglTooLow => "max AGL too low ("@ + debug_opt(
            max_from(agl_altitudes(fixes), 0),
        ) + "ft < 100ft)"@,
        SpuriousFlightReason::ExcessiveAltitude => "excessive altitude (>100,000ft)"@,
        SpuriousFlightReason::ExcessiveSpeed => "excessive speed ("@ + speed_mph_text
            + " mph > 1000 mph)"@,
        SpuriousFlightReason::DisplacementTooLow => "displacement too low ("@ + distance_m_text
            + "m < 500m)"@,
    }
}

fn debug_opt_exec(v: Option<i64>) -> (r: String)
    ensures
        r@ == debug_opt(
            match v {
                Some(n) => Some(n as int),
                None => None,
            },
        ),
{
    proof {
        reveal_strlit("Some(");
        reveal_strlit(")");
        reveal_strlit("None");
    }
    match v {
        Some(n) => {
            let mut s = String::from_str("Some(");
            let d = to_signed_decimal(n);
            s.append(d.as_str());
            s.append(")");
            s
        },
        None => String::from_str("None"),
    }
}

/// The descriptions recorded with the reasons for archiving a flight, one per reason in
/// the same order (see `reason_description`). `speed_mph_text` is the average speed with
/// one decimal, `distance_m_text` the distance flown without decimals.
pub fn spurious_descriptions(
    duration_seconds: i64,
    fixes: &[Fix],
    reasons: &Vec<SpuriousFlightReason>,
    speed_mph_text: &str,
    distance_m_text: &str,
) -> (r: Vec<String>)
    ensures
        r@.len() == reasons@.len(),
        forall|i: int|
            0 <= i < r@.len() ==> (#[trigger] r@[i])@ == reason_description(
                reasons@[i],
                duration_seconds as int,
                fixes@,
                speed_mph_text@,
                distance_m_text@,
            ),
{
    let mut msl: Vec<Option<i32>> = Vec::new();
    let mut agl: Vec<Option<i32>> = Vec::new();
    let mut k: usize = 0;
    while k < fixes.len()
        invariant
            k <= fixes@.len(),
            msl@ == msl_altitudes(fixes@).subrange(0, k as int),
            agl@ == agl_altitudes(fixes@).subrange(0, k as int),
        decreases fixes@.len() - k,
    {
        msl.push(fixes[k].altitude_msl_feet);
        agl.push(fixes[k].altitude_agl_feet);
        k = k + 1;
        assert(msl@ =~= msl_altitudes(fixes@).subrange(0, k as int));
        assert(agl@ =~= agl_altitudes(fixes@).subrange(0, k as int));
    }
    assert(msl@ =~= msl_altitudes(fixes@));
    assert(agl@ =~= agl_altitudes(fixes@));
    let range: Option<i64> = match (max_of(&msl), min_of(&msl)) {
        (Some(h), Some(l)) => Some(h as i64 - l as i64),
        _ => None,
    };
    let max_agl: Option<i64> = match max_of(&agl) {
        Some(a) => Some(a as i64),
        None => None,
    };
    proof {
        reveal_strlit("duration too short (");
        reveal_strlit("s < 120s)");
        reveal_strlit("altitude range too small (");
        reveal_strlit("ft < 50ft)");
        reveal_strlit("max AGL too low (");
        reveal_strlit("ft < 100ft)");
        reveal_strlit("excessive altitude (>100,000ft)");
        reveal_strlit("excessive speed (");
        reveal_strlit(" mph > 1000 mph)");
        reveal_strlit("displacement too low (");
        reveal_strlit("m < 500m)");
    }
    let mut out: Vec<String> = Vec::new();
    let mut i: usize = 0;
    while i < reasons.len()
        invariant
            i <= reasons@.len(),
            out@.len() == i,
            match range {
                Some(v) => altitude_range(fixes@) == Some(v as int),
                None => altitude_range(fixes@) is None,
            },
            match max_agl {
                Some(v) => max_from(agl_altitudes(fixes@), 0) == Some(v as int),
                None => max_from(agl_altitudes(fixes@), 0) is None,
            },
            forall|j: int|
                0 <= j < i ==> (#[trigger] out@[j])@ == reason_description(
                    reasons@[j],
                    duration_seconds as int,
                    fixes@,
                    speed_mph_text@,
                    distance_m_text@,
                ),
        decreases reasons@.len() - i,
    {
        let d = match reasons[i] {
            SpuriousFlightReason::DurationTooShort => {
                let mut s = String::from_str("duration too short (");
                s.append(to_signed_decimal(duration_seconds).as_str());
                s.append("s < 120s)");
                s
            },
            SpuriousFlightReason::AltitudeRangeInsufficient => {
                let mut s = String::from_str("altitude range too small (");
                s.append(debug_opt_exec(range).as_str());
                s.append("ft < 50ft)");
                s
            },
            SpuriousFlightReason::MaxAglTooLow => {
                let mut s = String::from_str("max AGL too low (");
                s.append(debug_opt_exec(max_agl).as_str());
                s.append("ft < 100ft)");
                s
            },
            SpuriousFlightReason::ExcessiveAltitude => String::from_str(
                "excessive altitude (>100,000ft)",
            ),
            SpuriousFlightReason::ExcessiveSpeed => {
                let mut s = String::from_str("excessive speed (");
                s.append(speed_mph_text);
                s.append(" mph > 1000 mph)");
                s
            },
            SpuriousFlightReason::DisplacementTooLow => {
                let mut s = String::from_str("displacement too low (");
                s.append(distance_m_text);
                s.append("m < 500m)");
                s
            },
        };
        assert(d@ == reason_description(
            reasons@[i as int],
            duration_seconds as int,
            fixes@,
            speed_mph_text@,
            distance_m_text@,
        ));
        out.push(d);
        i = i + 1;
    }
    out
}

} // verus!
