use soar::flight_tracker::aircraft_state::{AircraftState, CompactFix, FlightPhase};
use soar::fixes::Fix;
use std::collections::VecDeque;

/// 2024-01-01 12:00:00 UTC, in microseconds since the epoch.
const BASE_US: i64 = 1_704_110_400_000_000;

fn create_compact_fix(is_active: bool, seconds_offset: i64) -> CompactFix {
    let t = BASE_US + seconds_offset * 1_000_000;
    CompactFix {
        timestamp_us: t,
        received_at_us: t,
        lat_udeg: 42_000_000,
        lng_udeg: -71_000_000,
        altitude_msl_ft: Some(1000),
        altitude_agl_ft: Some(500),
        ground_speed_milliknots: if is_active { Some(50_000) } else { Some(5_000) },
        is_active,
    }
}

fn create_state_with_fixes(fixes: Vec<bool>) -> AircraftState {
    let mut recent_fixes = VecDeque::with_capacity(10);
    for (i, is_active) in fixes.into_iter().enumerate() {
        recent_fixes.push_back(create_compact_fix(is_active, i as i64 * 30));
    }
    AircraftState {
        recent_fixes,
        current_flight_id: None,
        current_callsign: None,
        last_timed_out_flight_id: None,
        last_timed_out_callsign: None,
        last_timed_out_at_us: None,
        last_update_time_us: BASE_US,
        towing_info: None,
        takeoff_runway_inferred: None,
    }
}

fn create_test_fix(received_at_us: i64, altitude_msl: Option<i32>) -> Fix {
    Fix {
        id: 1,
        aircraft_id: 2,
        flight_id: None,
        flight_number: None,
        timestamp_us: received_at_us,
        received_at_us,
        latitude_udeg: 42_000_000,
        longitude_udeg: -122_000_000,
        altitude_msl_feet: altitude_msl,
        altitude_agl_feet: None,
        ground_speed_milliknots: Some(100_000),
        climb_fpm: None,
        is_active: true,
        transponder_data: false,
        time_gap_seconds: None,
    }
}

#[test]
fn test_last_n_inactive_skips_most_recent_fix() {
    let state = create_state_with_fixes(vec![false, false, false, true]);
    assert!(
        state.last_n_inactive(3),
        "Should detect takeoff: 3 prior inactive fixes before current active fix"
    );
}

#[test]
fn test_last_n_inactive_requires_n_plus_one_fixes() {
    let state = create_state_with_fixes(vec![false, false, false]);
    assert!(
        !state.last_n_inactive(3),
        "Should return false: only 3 fixes, need 4 (3 to check + 1 to skip)"
    );
}

#[test]
fn test_last_n_inactive_not_takeoff_if_prior_fixes_active() {
    let state = create_state_with_fixes(vec![false, true, false, true]);
    assert!(
        !state.last_n_inactive(3),
        "Should not detect takeoff: one of prior 3 fixes was active"
    );
}

#[test]
fn test_last_n_inactive_with_long_ground_time() {
    let state =
        create_state_with_fixes(vec![false, false, false, false, false, false, false, true]);
    assert!(
        state.last_n_inactive(3),
        "Should detect takeoff after long ground time"
    );
}

#[test]
fn test_last_n_inactive_empty_state() {
    let state = create_state_with_fixes(vec![]);
    assert!(
        !state.last_n_inactive(3),
        "Should return false for empty state"
    );
}

#[test]
fn test_last_n_inactive_single_fix() {
    let state = create_state_with_fixes(vec![true]);
    assert!(
        !state.last_n_inactive(3),
        "Should return false with only 1 fix"
    );
}

#[test]
fn test_has_five_consecutive_inactive_includes_current() {
    let state = create_state_with_fixes(vec![false, false, false, false, false]);
    assert!(
        state.has_five_consecutive_inactive(),
        "Should detect 5 consecutive inactive fixes for landing"
    );
}

#[test]
fn test_has_five_consecutive_inactive_fails_with_active() {
    let state = create_state_with_fixes(vec![false, false, false, false, true]);
    assert!(
        !state.has_five_consecutive_inactive(),
        "Should not detect landing: current fix is active"
    );
}

#[test]
fn test_takeoff_vs_landing_detection_difference() {
    let state = create_state_with_fixes(vec![false, false, false, false, true]);
    assert!(
        state.last_n_inactive(3),
        "Takeoff: should skip current active and see 3 prior inactive"
    );
    assert!(
        !state.has_five_consecutive_inactive(),
        "Landing: should include current active and fail"
    );
}

/// The climb rate from the library's window, rounded in floating point as the tracker does.
fn climb_rate(state: &AircraftState) -> Option<i32> {
    let (change_ft, seconds) = state.climb_rate_window()?;
    Some(((change_ft as f64 / seconds as f64) * 60.0).round() as i32)
}

#[test]
fn test_calculate_climb_rate_ascending() {
    let fix1 = create_test_fix(BASE_US, Some(1000));
    let fix2 = create_test_fix(BASE_US + 60_000_000, Some(1600));
    let mut state = AircraftState::new(&fix1, true, BASE_US);
    state.add_fix(&fix2, true, BASE_US + 60_000_000);
    assert_eq!(state.climb_rate_window(), Some((600, 60)));
    assert_eq!(climb_rate(&state), Some(600));
}

#[test]
fn test_calculate_climb_rate_descending() {
    let fix1 = create_test_fix(BASE_US, Some(5000));
    let fix2 = create_test_fix(BASE_US + 60_000_000, Some(4000));
    let mut state = AircraftState::new(&fix1, true, BASE_US);
    state.add_fix(&fix2, true, BASE_US + 60_000_000);
    assert_eq!(state.climb_rate_window(), Some((-1000, 60)));
    assert_eq!(climb_rate(&state), Some(-1000));
}

#[test]
fn test_calculate_climb_rate_insufficient_data() {
    let fix1 = create_test_fix(BASE_US, Some(1000));
    let fix2 = create_test_fix(BASE_US + 60_000_000, None);
    let mut state = AircraftState::new(&fix1, true, BASE_US);
    state.add_fix(&fix2, true, BASE_US + 60_000_000);
    assert_eq!(state.climb_rate_window(), None);
    assert_eq!(climb_rate(&state), None);
}

#[test]
fn test_calculate_climb_rate_time_too_short() {
    let fix1 = create_test_fix(BASE_US, Some(1000));
    let fix2 = create_test_fix(BASE_US + 2_000_000, Some(1020));
    let mut state = AircraftState::new(&fix1, true, BASE_US);
    state.add_fix(&fix2, true, BASE_US + 2_000_000);
    assert_eq!(state.climb_rate_window(), None);
    assert_eq!(climb_rate(&state), None);
}

#[test]
fn climb_rate_window_spans_first_and_last_sample() {
    // 41 ft in 40 s: the window is exact; rounded in floating point the rate is 61
    let fix1 = create_test_fix(BASE_US, Some(1000));
    let fix2 = create_test_fix(BASE_US + 20_000_000, None);
    let fix3 = create_test_fix(BASE_US + 40_000_000, Some(1041));
    let mut state = AircraftState::new(&fix1, true, BASE_US);
    state.add_fix(&fix2, true, BASE_US + 20_000_000);
    state.add_fix(&fix3, true, BASE_US + 40_000_000);
    assert_eq!(state.climb_rate_window(), Some((41, 40)));
    assert_eq!(climb_rate(&state), Some(61));
    // a fix more than a minute older than the newest is left out
    let fix4 = create_test_fix(BASE_US + 100_000_000, Some(1100));
    state.add_fix(&fix4, true, BASE_US + 100_000_000);
    assert_eq!(state.climb_rate_window(), Some((59, 60)));
}

#[test]
fn history_keeps_last_ten_fixes() {
    let fix = create_test_fix(BASE_US, Some(1000));
    let mut state = AircraftState::new(&fix, true, BASE_US);
    for i in 1..15 {
        let f = create_test_fix(BASE_US + i * 1_000_000, Some(1000 + i as i32));
        state.add_fix(&f, i % 2 == 0, BASE_US + i * 1_000_000);
    }
    assert_eq!(state.recent_fixes.len(), 10);
    assert_eq!(state.recent_fixes[0].altitude_msl_ft, Some(1005));
    assert_eq!(state.last_fix().unwrap().altitude_msl_ft, Some(1014));
    assert_eq!(state.last_update_time_us, BASE_US + 14_000_000);
}

#[test]
fn flight_phase_from_climb_rate() {
    let fix1 = create_test_fix(BASE_US, Some(1000));
    let fix2 = create_test_fix(BASE_US + 60_000_000, Some(1600));
    let mut state = AircraftState::new(&fix1, true, BASE_US);
    state.add_fix(&fix2, true, BASE_US + 60_000_000);
    assert_eq!(state.determine_flight_phase(climb_rate(&state)), FlightPhase::Climbing);
    assert_eq!(state.determine_flight_phase(Some(-400)), FlightPhase::Descending);

    let high1 = create_test_fix(BASE_US, Some(12_000));
    let high2 = create_test_fix(BASE_US + 60_000_000, Some(12_100));
    let mut cruise = AircraftState::new(&high1, true, BASE_US);
    cruise.add_fix(&high2, true, BASE_US + 60_000_000);
    assert_eq!(cruise.determine_flight_phase(climb_rate(&cruise)), FlightPhase::Cruising);
    assert_eq!(cruise.determine_flight_phase(Some(600)), FlightPhase::Climbing);

    let only = AircraftState::new(&fix1, true, BASE_US);
    assert_eq!(only.determine_flight_phase(climb_rate(&only)), FlightPhase::Unknown);
}

#[test]
fn duplicate_and_expiry_checks() {
    let fix1 = create_test_fix(BASE_US, Some(1000));
    let state = AircraftState::new(&fix1, true, BASE_US);
    assert!(state.is_duplicate(BASE_US + 999_999));
    assert!(!state.is_duplicate(BASE_US + 1_000_000));
    assert!(!state.is_expired(BASE_US + 18 * 3_600_000_000));
    assert!(state.is_expired(BASE_US + 18 * 3_600_000_000 + 1_000_000));
}
