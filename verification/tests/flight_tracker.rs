use soar::aircraft::AircraftCategory;
use soar::fixes::Fix;
use soar::flight_tracker::aircraft_state::AircraftState;
use soar::flight_tracker::aircraft_tracker::{AircraftState as TrackerState, AircraftTracker};
use soar::flight_tracker::runway::{
    choose_runway, heading_to_runway_identifier, runway_detection_applies, uses_runways, RunwayEnd,
    RunwayEndpoint,
};
use soar::flight_tracker::state_transitions::{
    record_fix, should_be_active, ActiveFlightLookup, FixTransition, LandingOutcome,
    TransitionAction, TransitionEvent,
};
use soar::flight_tracker::towing::{
    is_excluded_from_tow, tow_candidate, tow_release_samples, tow_search_step, towplane_position,
    TowSearchOutcome, TowingInfo,
};
use soar::ogn_aprs_aircraft::AircraftType;

const BASE_US: i64 = 1_704_110_400_000_000;

fn fix_at(seconds: i64, speed_knots: f64, agl: Option<i32>, msl: Option<i32>) -> Fix {
    let t = BASE_US + seconds * 1_000_000;
    Fix {
        id: seconds as u128,
        aircraft_id: 77,
        flight_id: None,
        flight_number: None,
        timestamp_us: t,
        received_at_us: t,
        latitude_udeg: 40_000_000,
        longitude_udeg: -74_000_000,
        altitude_msl_feet: msl,
        altitude_agl_feet: agl,
        ground_speed_milliknots: Some((speed_knots * 1000.0).floor() as i64),
        climb_fpm: None,
        is_active: false,
        transponder_data: false,
        time_gap_seconds: None,
    }
}

#[test]
fn test_aircraft_state_transitions() {
    let tracker = AircraftTracker::new(TrackerState::Idle);
    assert_eq!(tracker.state, TrackerState::Idle);

    let mut fix = fix_at(0, 50.0, None, Some(1000));
    fix.is_active = true;
    assert!(should_be_active(&fix));

    fix.ground_speed_milliknots = Some(15_000);
    assert!(!should_be_active(&fix));
}

#[test]
fn activity_thresholds() {
    // no altitude at all: 80 knots needed
    assert!(!should_be_active(&fix_at(0, 79.999, None, None)));
    assert!(should_be_active(&fix_at(0, 80.0, None, None)));
    // with altitude: 25 knots, or 250 ft above ground
    assert!(should_be_active(&fix_at(0, 25.0, None, Some(500))));
    assert!(!should_be_active(&fix_at(0, 24.9, Some(249), Some(500))));
    assert!(should_be_active(&fix_at(0, 0.0, Some(250), None)));
}

#[test]
fn tracker_position_duplicates_and_climb_window() {
    let mut tracker = AircraftTracker::new(TrackerState::Active);
    let f = fix_at(10, 60.0, None, Some(2000));
    assert!(!tracker.is_duplicate_fix(&f));
    tracker.update_position(&f);
    assert_eq!(tracker.last_position, Some((40_000_000, -74_000_000)));
    assert_eq!(tracker.last_fix_timestamp_us, Some(f.timestamp_us));
    let mut g = fix_at(10, 60.0, None, Some(2000));
    g.timestamp_us += 999_999;
    assert!(tracker.is_duplicate_fix(&g));
    g.timestamp_us = f.timestamp_us - 999_999;
    assert!(tracker.is_duplicate_fix(&g));
    g.timestamp_us = f.timestamp_us + 1_000_000;
    assert!(!tracker.is_duplicate_fix(&g));
    for i in 0..7u32 {
        tracker.update_climb_rate((i as f32 * 100.0).to_bits());
    }
    let rates: Vec<f32> = tracker.climb_rate_history.iter().map(|b| f32::from_bits(*b)).collect();
    assert_eq!(rates, vec![200.0, 300.0, 400.0, 500.0, 600.0]);
}

#[test]
fn runway_identifiers() {
    // headings 230, 47, 354 degrees -> tens rounded 23, 5, 35
    assert_eq!(heading_to_runway_identifier(23), "23");
    assert_eq!(heading_to_runway_identifier(5), "05");
    assert_eq!(heading_to_runway_identifier(35), "35");
    assert_eq!(heading_to_runway_identifier(36), "36");
    assert_eq!(heading_to_runway_identifier(0), "36");
    assert_eq!(heading_to_runway_identifier(-1), "-1");
    assert!(uses_runways(&AircraftType::Glider));
    assert!(uses_runways(&AircraftType::Unknown));
    assert!(!uses_runways(&AircraftType::Paraglider));
    assert!(!uses_runways(&AircraftType::HelicopterGyro));
}

#[test]
fn runway_detection_skipped_for_types_without_runways() {
    assert!(runway_detection_applies(None));
    assert!(runway_detection_applies(Some(AircraftType::Glider)));
    assert!(runway_detection_applies(Some(AircraftType::TowTug)));
    assert!(runway_detection_applies(Some(AircraftType::Unknown)));
    assert!(!runway_detection_applies(Some(AircraftType::Paraglider)));
    assert!(!runway_detection_applies(Some(AircraftType::HangGlider)));
    assert!(!runway_detection_applies(Some(AircraftType::HelicopterGyro)));
    assert!(!runway_detection_applies(Some(AircraftType::Balloon)));
}

fn endpoint(end: RunwayEnd, le: &str, he: &str, le_diff: f64, he_diff: f64) -> RunwayEndpoint {
    RunwayEndpoint {
        end,
        le_ident: Some(le.to_string()),
        he_ident: Some(he.to_string()),
        le_diff_bits: Some(le_diff.to_bits()),
        he_diff_bits: Some(he_diff.to_bits()),
    }
}

#[test]
fn runway_choice_from_nearby_endpoints() {
    // near the low end of 14/32, course close to 140 degrees
    let e1 = endpoint(RunwayEnd::Low, "14", "32", 5.0, 175.0);
    let (ident, inferred) = choose_runway(&vec![e1.clone()], false, 14);
    assert_eq!((ident.as_str(), inferred), ("14", false));
    // the closer match wins
    let e2 = endpoint(RunwayEnd::High, "09", "27", 170.0, 2.0);
    let (ident, inferred) = choose_runway(&vec![e1.clone(), e2.clone()], false, 14);
    assert_eq!((ident.as_str(), inferred), ("27", false));
    // too large a difference without a known airport: inferred from the course
    let far = endpoint(RunwayEnd::Low, "18", "36", 40.0, 140.0);
    let (ident, inferred) = choose_runway(&vec![far.clone()], false, 14);
    assert_eq!((ident.as_str(), inferred), ("14", true));
    // at a known airport the best match is always taken
    let (ident, inferred) = choose_runway(&vec![far], true, 14);
    assert_eq!((ident.as_str(), inferred), ("18", false));
    // endpoints of another kind or without both headings are skipped
    let mut odd = endpoint(RunwayEnd::Other, "01", "19", 1.0, 179.0);
    let (ident, inferred) = choose_runway(&vec![odd.clone()], true, 2);
    assert_eq!((ident.as_str(), inferred), ("02", true));
    odd.end = RunwayEnd::Low;
    odd.he_diff_bits = None;
    let (ident, inferred) = choose_runway(&vec![odd], true, 2);
    assert_eq!((ident.as_str(), inferred), ("02", true));
    // ties go to the end the aircraft is not near
    let tie = endpoint(RunwayEnd::High, "10", "28", 90.0, 90.0);
    let (ident, _) = choose_runway(&vec![tie], true, 9);
    assert_eq!(ident, "10");
    let tie = endpoint(RunwayEnd::Low, "10", "28", 90.0, 90.0);
    let (ident, _) = choose_runway(&vec![tie], true, 9);
    assert_eq!(ident, "28");
}

#[test]
fn tow_candidate_categories() {
    assert!(is_excluded_from_tow(Some(AircraftCategory::TowTug)));
    assert!(is_excluded_from_tow(Some(AircraftCategory::Helicopter)));
    assert!(is_excluded_from_tow(Some(AircraftCategory::StaticObstacle)));
    assert!(!is_excluded_from_tow(Some(AircraftCategory::Glider)));
    assert!(!is_excluded_from_tow(Some(AircraftCategory::Landplane)));
    assert!(!is_excluded_from_tow(None));
}

fn state_with(fixes: &[Fix], flight: Option<u128>) -> AircraftState {
    let mut s = AircraftState::new(&fixes[0], true, fixes[0].received_at_us);
    for f in &fixes[1..] {
        s.add_fix(f, true, f.received_at_us);
    }
    s.current_flight_id = flight;
    s
}

#[test]
fn tow_search_decisions() {
    let f = fix_at(0, 60.0, None, Some(1200));
    let s = state_with(&[f.clone()], Some(500));
    let now = f.received_at_us + 30_000_000;
    assert_eq!(towplane_position(&s, now), Some((40_000_000, -74_000_000, f.received_at_us)));
    assert_eq!(towplane_position(&s, now + 1_000_000), None);
    assert_eq!(tow_candidate(1, 2, &s, now).map(|(id, _)| id), Some(500));
    assert!(tow_candidate(2, 2, &s, now).is_none());
    let no_flight = state_with(&[f.clone()], None);
    assert!(tow_candidate(1, 2, &no_flight, now).is_none());

    assert_eq!(tow_search_step(0, &vec![]), TowSearchOutcome::NoCandidates);
    assert_eq!(
        tow_search_step(1, &vec![(8, 9)]),
        TowSearchOutcome::Linked { glider_aircraft_id: 8, glider_flight_id: 9 }
    );
    assert_eq!(tow_search_step(0, &vec![(8, 9), (10, 11)]), TowSearchOutcome::Retry);
    assert_eq!(tow_search_step(2, &vec![(8, 9), (10, 11)]), TowSearchOutcome::Ambiguous);
}

#[test]
fn tow_release_samples_in_time_order() {
    let fixes = [
        fix_at(0, 60.0, None, Some(1000)),
        fix_at(10, 60.0, None, None),
        fix_at(20, 60.0, None, Some(1200)),
        fix_at(30, 60.0, None, Some(1400)),
    ];
    let mut s = state_with(&fixes, Some(3));
    assert_eq!(tow_release_samples(&s), None);
    s.towing_info = Some(TowingInfo { glider_device_id: 1, glider_flight_id: 2, tow_started_us: 0 });
    // oldest first: (0 s, 1000), (20 s, 1200), (30 s, 1400)
    assert_eq!(tow_release_samples(&s), Some(vec![(200, 20), (200, 10)]));
    // received out of order: an entry received after its successor gives a negative
    // interval, which is skipped
    let mut odd = fixes.clone();
    odd[0].received_at_us = BASE_US + 45_000_000;
    let mut s2 = state_with(&odd, Some(3));
    s2.towing_info = s.towing_info;
    // oldest first: (45 s, 1000), (20 s, 1200), (30 s, 1400)
    assert_eq!(tow_release_samples(&s2), Some(vec![(200, 10)]));
}

#[test]
fn tow_release_after_steady_climb_then_descent() {
    // a towplane climbing 1000 ft/min, now descending 500 ft/min
    let fixes = [
        fix_at(0, 60.0, None, Some(1000)),
        fix_at(30, 60.0, None, Some(1500)),
        fix_at(60, 60.0, None, Some(2000)),
    ];
    let mut s = state_with(&fixes, Some(3));
    s.towing_info = Some(TowingInfo { glider_device_id: 0, glider_flight_id: 0, tow_started_us: BASE_US });
    let samples = tow_release_samples(&s).unwrap();
    assert_eq!(samples, vec![(500, 30), (500, 30)]);
    let rates: Vec<f32> = samples
        .iter()
        .map(|(change, secs)| ((*change as f64 / *secs as f64) * 60.0) as f32)
        .collect();
    let avg: f32 = rates.iter().sum::<f32>() / rates.len() as f32;
    let current: Option<i32> = Some(-500);
    assert!(avg > 100.0 && current.map(|r| r < -100).unwrap_or(false));
}

#[test]
fn ground_fix_without_flight_does_nothing() {
    let f = fix_at(0, 2.0, Some(0), Some(100));
    let (mut state, active) = record_fix(None, &f, f.received_at_us);
    assert!(!active);
    let mut fix = f.clone();
    let mut m = FixTransition::new(active);
    let a = m.step(
        &mut state,
        &mut fix,
        TransitionEvent::Begin { is_towtug: false, covered_too_little: false, tow_release: false },
    );
    assert_eq!(a, TransitionAction::Done);
    assert_eq!(fix.flight_id, None);
    assert_eq!(state.current_flight_id, None);
}

#[test]
fn takeoff_after_ground_fixes_creates_a_flight() {
    let mut state = None;
    let mut last = None;
    for i in 0..3 {
        let f = fix_at(i * 30, 3.0, Some(0), Some(100));
        let (s, _) = record_fix(state.take(), &f, f.received_at_us);
        state = Some(s);
        last = Some(f);
    }
    let _ = last;
    let f = fix_at(120, 60.0, Some(0), Some(150));
    let (mut state, active) = record_fix(state, &f, f.received_at_us);
    assert!(active);
    let mut fix = f.clone();
    let mut m = FixTransition::new(active);
    let a = m.step(
        &mut state,
        &mut fix,
        TransitionEvent::Begin { is_towtug: true, covered_too_little: false, tow_release: false },
    );
    assert_eq!(a, TransitionAction::LookupActiveFlight);
    let a = m.step(&mut state, &mut fix, TransitionEvent::ActiveFlight(ActiveFlightLookup::NotFound));
    assert_eq!(a, TransitionAction::CreateFlight { airborne: false });
    let a = m.step(&mut state, &mut fix, TransitionEvent::FlightCreated(Some(900)));
    // a towplane that took off starts towing detection
    assert_eq!(a, TransitionAction::SpawnTowingDetection { flight_id: 900 });
    assert_eq!(fix.flight_id, Some(900));
    assert_eq!(state.current_flight_id, Some(900));
}

#[test]
fn callsign_change_splits_the_flight() {
    let mut f0 = fix_at(0, 100.0, Some(3000), Some(3500));
    f0.flight_number = Some("WMT437".to_string());
    let (mut state, _) = record_fix(None, &f0, f0.received_at_us);
    state.current_flight_id = Some(1);
    state.current_callsign = Some("WMT437".to_string());
    let mut f1 = fix_at(10, 100.0, Some(3000), Some(3500));
    f1.flight_number = Some("WMT2574".to_string());
    let (mut state, active) = record_fix(Some(state), &f1, f1.received_at_us);
    assert!(active);
    let mut fix = f1.clone();
    let mut m = FixTransition::new(active);
    let a = m.step(
        &mut state,
        &mut fix,
        TransitionEvent::Begin { is_towtug: false, covered_too_little: false, tow_release: false },
    );
    assert_eq!(a, TransitionAction::SetPreliminaryLanding { flight_id: 1 });
    let a = m.step(&mut state, &mut fix, TransitionEvent::LandingSet(LandingOutcome::Ended));
    assert_eq!(a, TransitionAction::CreateFlight { airborne: false });
    let a = m.step(&mut state, &mut fix, TransitionEvent::FlightCreated(Some(2)));
    assert_eq!(a, TransitionAction::Done);
    assert_eq!(state.current_flight_id, Some(2));
    assert_eq!(state.current_callsign, Some("WMT2574".to_string()));
    assert_eq!(m.pending_completion, Some(1));
}

#[test]
fn continuing_flight_learns_callsign() {
    let f0 = fix_at(0, 100.0, Some(3000), Some(3500));
    let (mut state, _) = record_fix(None, &f0, f0.received_at_us);
    state.current_flight_id = Some(5);
    let mut f1 = fix_at(10, 100.0, Some(3000), Some(3500));
    f1.flight_number = Some(" ABC1 ".to_string());
    let (mut state, active) = record_fix(Some(state), &f1, f1.received_at_us);
    let mut fix = f1.clone();
    let mut m = FixTransition::new(active);
    let a = m.step(
        &mut state,
        &mut fix,
        TransitionEvent::Begin { is_towtug: false, covered_too_little: false, tow_release: false },
    );
    assert_eq!(a, TransitionAction::Done);
    assert_eq!(fix.flight_id, Some(5));
    assert_eq!(fix.time_gap_seconds, Some(0));
    assert_eq!(state.current_callsign, Some("ABC1".to_string()));
}

use soar::flight_tracker::aircraft_state::{flights_to_timeout, states_to_remove};
use soar::flight_tracker::flight_lifecycle::{
    classify_spurious_flight, fixes_clear_window, fixes_query_start, spurious_descriptions,
    startup_fixes_start, startup_landing_times, timeout_phase_of,
};
use soar::flight_tracker::aircraft_state::FlightPhase;
use soar::flights::{SpuriousFlightReason, TimeoutPhase};

#[test]
fn spurious_flight_classification() {
    let fixes = vec![
        fix_at(0, 60.0, Some(0), Some(1000)),
        fix_at(60, 60.0, Some(40), Some(1030)),
    ];
    // short, flat, low: spurious for the heuristics
    let v = classify_spurious_flight(60, &fixes, false, true, false);
    assert!(v.is_spurious);
    assert_eq!(
        v.reasons,
        vec![
            SpuriousFlightReason::DurationTooShort,
            SpuriousFlightReason::AltitudeRangeInsufficient,
            SpuriousFlightReason::MaxAglTooLow,
            SpuriousFlightReason::DisplacementTooLow,
        ]
    );
    // transponder flights are only rejected for corrupt data
    let v = classify_spurious_flight(60, &fixes, false, true, true);
    assert!(!v.is_spurious);
    let high = vec![fix_at(0, 60.0, Some(5000), Some(100_001)), fix_at(600, 60.0, Some(100), Some(200))];
    let v = classify_spurious_flight(600, &high, false, false, true);
    assert!(v.is_spurious);
    assert_eq!(v.reasons, vec![SpuriousFlightReason::ExcessiveAltitude]);
    // a real flight
    let good = vec![fix_at(0, 60.0, Some(0), Some(1000)), fix_at(900, 60.0, Some(2000), Some(3000))];
    let v = classify_spurious_flight(900, &good, false, false, false);
    assert!(!v.is_spurious);
    assert!(v.reasons.is_empty());
}

#[test]
fn timeout_bookkeeping() {
    let hour = 3_600_000_000i64;
    let states = vec![(1u128, Some(10u128), 0i64), (2, None, 0), (3, Some(30), hour), (4, Some(40), 1)];
    assert_eq!(flights_to_timeout(hour + 1, &states), vec![(10, 1)]);
    assert_eq!(flights_to_timeout(hour + 2, &states), vec![(10, 1), (40, 4)]);
    assert_eq!(flights_to_timeout(0, &states), vec![]);
    let day = 18 * hour;
    assert_eq!(states_to_remove(day + 1, &vec![(1, 0), (2, 5)]), vec![1]);
    assert_eq!(states_to_remove(0, &vec![(1, -day)]), Vec::<u128>::new());
    assert_eq!(timeout_phase_of(FlightPhase::Cruising), TimeoutPhase::Cruising);
}

#[test]
fn fix_time_windows() {
    assert_eq!(fixes_query_start(Some(1_000_000_000), 5), 700_000_000);
    assert_eq!(fixes_query_start(None, 100_000_000_000), 13_600_000_000);
    assert_eq!(fixes_clear_window(1_000_000_000, 2_000_000_000), (700_000_000, 2_060_000_000));
}

#[test]
fn startup_enrichment_windows() {
    // five minutes before takeoff, else one hour before creation
    assert_eq!(startup_fixes_start(Some(1_000_000_000), 5), 700_000_000);
    assert_eq!(startup_fixes_start(None, 10_000_000_000), 6_400_000_000);
    // landing time kept, last fix held at or after it
    assert_eq!(startup_landing_times(Some(500), 900, Some(400)), (500, Some(500)));
    assert_eq!(startup_landing_times(Some(500), 900, Some(700)), (500, Some(700)));
    // no landing time: the last fix time stands in
    assert_eq!(startup_landing_times(None, 900, Some(800)), (900, Some(900)));
    assert_eq!(startup_landing_times(None, 900, None), (900, None));
}

#[test]
fn spurious_reason_descriptions() {
    let fixes = vec![
        fix_at(0, 60.0, Some(0), Some(1000)),
        fix_at(60, 60.0, Some(40), Some(1030)),
    ];
    let reasons = vec![
        SpuriousFlightReason::DurationTooShort,
        SpuriousFlightReason::AltitudeRangeInsufficient,
        SpuriousFlightReason::MaxAglTooLow,
        SpuriousFlightReason::ExcessiveAltitude,
        SpuriousFlightReason::ExcessiveSpeed,
        SpuriousFlightReason::DisplacementTooLow,
    ];
    let d = spurious_descriptions(-5, &fixes, &reasons, "1234.5", "12");
    assert_eq!(
        d,
        vec![
            "duration too short (-5s < 120s)".to_string(),
            "altitude range too small (Some(30)ft < 50ft)".to_string(),
            "max AGL too low (Some(40)ft < 100ft)".to_string(),
            "excessive altitude (>100,000ft)".to_string(),
            "excessive speed (1234.5 mph > 1000 mph)".to_string(),
            "displacement too low (12m < 500m)".to_string(),
        ]
    );
    let none = spurious_descriptions(0, &[], &vec![SpuriousFlightReason::MaxAglTooLow], "", "");
    assert_eq!(none, vec!["max AGL too low (Noneft < 100ft)".to_string()]);
}

use soar::aircraft::{AddressType, Aircraft};
use soar::flight_tracker::state_transitions::restore_state;
use soar::flights::Flight;

fn restored_flight(timed_out: bool) -> Flight {
    let f = fix_at(0, 60.0, None, Some(1000));
    let device = Aircraft {
        id: Some(1),
        address: 1,
        address_type: AddressType::Ogn,
        address_hex: Some("000001".to_string()),
        primary_type: AddressType::Ogn,
        aircraft_model: String::new(),
        registration: None,
        pilot_name: None,
        owner_operator: None,
        club_id: None,
        aircraft_category: None,
    };
    let mut flight = Flight::new_airborne_from_fix_with_id(&f, &device, 99);
    flight.callsign = Some("ABC".to_string());
    if timed_out {
        flight.timed_out_at_us = Some(BASE_US + 7_200_000_000);
    }
    flight
}

#[test]
fn state_restored_from_flight_fixes() {
    // newest first
    let fixes = vec![
        fix_at(30, 60.0, None, Some(1300)),
        fix_at(20, 10.0, Some(0), Some(1200)),
        fix_at(10, 60.0, None, Some(1100)),
    ];
    let active = restore_state(&restored_flight(false), &fixes).unwrap();
    assert_eq!(active.current_flight_id, Some(99));
    assert_eq!(active.current_callsign, Some("ABC".to_string()));
    assert_eq!(active.last_timed_out_flight_id, None);
    let alts: Vec<Option<i32>> = active.recent_fixes.iter().map(|f| f.altitude_msl_ft).collect();
    assert_eq!(alts, vec![Some(1100), Some(1200), Some(1300)]);
    let act: Vec<bool> = active.recent_fixes.iter().map(|f| f.is_active).collect();
    assert_eq!(act, vec![true, false, true]);
    assert_eq!(active.last_update_time_us, fixes[0].timestamp_us);

    let timed_out = restore_state(&restored_flight(true), &fixes).unwrap();
    assert_eq!(timed_out.current_flight_id, None);
    assert_eq!(timed_out.last_timed_out_flight_id, Some(99));
    assert_eq!(timed_out.last_timed_out_callsign, Some("ABC".to_string()));
    assert_eq!(timed_out.last_timed_out_at_us, Some(BASE_US + 7_200_000_000));

    assert!(restore_state(&restored_flight(false), &[]).is_none());
}
