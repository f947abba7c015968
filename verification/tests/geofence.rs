use soar::fixes::Fix;
use soar::flight_tracker::geofence_detector::{
    check_fix_against_geofence, geofence_transitions, has_exited_geofence, is_inside,
    GeofenceCheckResult,
};
use soar::geofence::{
    default_true, CreateGeofenceRequest, Geofence, GeofenceLayer, SubscribeToGeofenceRequest,
    UpdateGeofenceRequest,
};

/// Nautical miles to meters.
const NM_TO_METERS: f64 = 1852.0;

fn haversine_distance(lat1: f64, lon1: f64, lat2: f64, lon2: f64) -> f64 {
    const EARTH_RADIUS_M: f64 = 6_371_000.0;
    let lat1_rad = lat1.to_radians();
    let lat2_rad = lat2.to_radians();
    let delta_lat = (lat2 - lat1).to_radians();
    let delta_lon = (lon2 - lon1).to_radians();
    let a = (delta_lat / 2.0).sin().powi(2)
        + lat1_rad.cos() * lat2_rad.cos() * (delta_lon / 2.0).sin().powi(2);
    let c = 2.0 * a.sqrt().atan2((1.0 - a).sqrt());
    EARTH_RADIUS_M * c
}

fn udeg(d: f64) -> i64 {
    (d * 1e6).round() as i64
}

fn create_test_fix(lat: f64, lng: f64, altitude_msl_ft: Option<i32>) -> Fix {
    Fix {
        id: 1,
        aircraft_id: 2,
        flight_id: None,
        flight_number: None,
        timestamp_us: 0,
        received_at_us: 0,
        latitude_udeg: udeg(lat),
        longitude_udeg: udeg(lng),
        altitude_msl_feet: altitude_msl_ft,
        altitude_agl_feet: None,
        ground_speed_milliknots: Some(100_000),
        climb_fpm: None,
        is_active: true,
        transponder_data: false,
        time_gap_seconds: None,
    }
}

fn create_test_geofence() -> Geofence {
    // centered at 0,0: 0-5000 ft with 5 nm, 5000-10000 ft with 10 nm
    Geofence {
        id: 1,
        name: "Test Geofence".to_string(),
        description: None,
        center_latitude_udeg: 0,
        center_longitude_udeg: 0,
        max_radius_micrometers: 10 * 1_852_000_000,
        layers: vec![
            GeofenceLayer::new(0, 5000, 5_000_000),
            GeofenceLayer::new(5000, 10000, 10_000_000),
        ],
        owner_user_id: 3,
        club_id: None,
        created_at_us: 0,
        updated_at_us: 0,
    }
}

/// For each layer, whether the fix lies within its radius of the center.
fn within(fix: &Fix, geofence: &Geofence) -> Vec<bool> {
    let d = haversine_distance(
        fix.latitude_udeg as f64 / 1e6,
        fix.longitude_udeg as f64 / 1e6,
        geofence.center_latitude_udeg as f64 / 1e6,
        geofence.center_longitude_udeg as f64 / 1e6,
    );
    geofence
        .layers
        .iter()
        .map(|l| d <= l.radius_unm as f64 / 1e6 * NM_TO_METERS)
        .collect()
}

fn check(fix: &Fix, geofence: &Geofence) -> GeofenceCheckResult {
    let w = within(fix, geofence);
    check_fix_against_geofence(fix, geofence, &w)
}

#[test]
fn test_inside_lower_layer() {
    let geofence = create_test_geofence();
    let fix = create_test_fix(0.0, 0.0, Some(3000));
    assert!(matches!(check(&fix, &geofence), GeofenceCheckResult::Inside { .. }));
}

#[test]
fn test_inside_upper_layer() {
    let geofence = create_test_geofence();
    let fix = create_test_fix(0.0, 0.0, Some(7000));
    assert!(matches!(check(&fix, &geofence), GeofenceCheckResult::Inside { .. }));
}

#[test]
fn test_outside_lower_layer() {
    let geofence = create_test_geofence();
    let lng_offset = 6.0 * NM_TO_METERS / 111320.0;
    let fix = create_test_fix(0.0, lng_offset, Some(3000));
    assert!(matches!(check(&fix, &geofence), GeofenceCheckResult::Outside { .. }));
}

#[test]
fn test_inside_upper_layer_larger_radius() {
    let geofence = create_test_geofence();
    let lng_offset = 6.0 * NM_TO_METERS / 111320.0;
    let fix = create_test_fix(0.0, lng_offset, Some(7000));
    assert!(matches!(check(&fix, &geofence), GeofenceCheckResult::Inside { .. }));
}

#[test]
fn test_no_layer_at_altitude() {
    let geofence = create_test_geofence();
    let fix = create_test_fix(0.0, 0.0, Some(15000));
    assert!(matches!(check(&fix, &geofence), GeofenceCheckResult::NoLayerAtAltitude));
}

#[test]
fn test_missing_altitude() {
    let geofence = create_test_geofence();
    let fix = create_test_fix(0.0, 0.0, None);
    assert!(matches!(check(&fix, &geofence), GeofenceCheckResult::MissingAltitude));
}

#[test]
fn test_exit_detection() {
    let layer = GeofenceLayer::new(0, 5000, 5_000_000);
    let outside_result = GeofenceCheckResult::Outside { exited_layer: layer };
    let exit = has_exited_geofence(true, &outside_result);
    assert!(exit.is_some());
    let no_exit = has_exited_geofence(false, &outside_result);
    assert!(no_exit.is_none());
    let inside_result = GeofenceCheckResult::Inside { layer };
    let still_inside = has_exited_geofence(true, &inside_result);
    assert!(still_inside.is_none());
    assert!(is_inside(&inside_result));
    assert!(!is_inside(&outside_result));
}

#[test]
fn test_layer_boundary_at_ceiling() {
    let geofence = create_test_geofence();
    let fix = create_test_fix(0.0, 0.0, Some(5000));
    assert!(matches!(check(&fix, &geofence), GeofenceCheckResult::Inside { .. }));
}

#[test]
fn test_layer_boundary_at_floor() {
    let geofence = create_test_geofence();
    let fix = create_test_fix(0.0, 0.0, Some(0));
    assert!(matches!(check(&fix, &geofence), GeofenceCheckResult::Inside { .. }));
}

#[test]
fn outside_reports_first_covering_layer() {
    let geofence = create_test_geofence();
    let fix = create_test_fix(0.0, 0.0, Some(5000));
    // at 5000 ft both layers cover; outside both radii -> the first layer
    let r = check_fix_against_geofence(&fix, &geofence, &[false, false]);
    assert_eq!(r, GeofenceCheckResult::Outside { exited_layer: geofence.layers[0] });
    // inside only the second -> inside that one
    let r = check_fix_against_geofence(&fix, &geofence, &[false, true]);
    assert_eq!(r, GeofenceCheckResult::Inside { layer: geofence.layers[1] });
}

#[test]
fn transitions_report_exits_once() {
    let layer = GeofenceLayer::new(0, 5000, 5_000_000);
    let checks = vec![
        (1u128, GeofenceCheckResult::Outside { exited_layer: layer }),
        (2u128, GeofenceCheckResult::Outside { exited_layer: layer }),
        (3u128, GeofenceCheckResult::Inside { layer }),
    ];
    let previous = vec![(1u128, true), (2u128, false)];
    let (exits, status) = geofence_transitions(&checks, &previous);
    assert_eq!(exits, vec![(0usize, layer)]);
    assert_eq!(status, vec![(1u128, false), (2u128, false), (3u128, true)]);
}

fn create_request(name: &str, layers: Vec<GeofenceLayer>, lat: i64, lon: i64) -> CreateGeofenceRequest {
    CreateGeofenceRequest {
        name: name.to_string(),
        description: None,
        center_latitude_udeg: lat,
        center_longitude_udeg: lon,
        layers,
        club_id: None,
    }
}

#[test]
fn create_request_validation_messages() {
    let good = vec![GeofenceLayer::new(0, 1000, 2_500_000)];
    assert_eq!(create_request("Home", good.clone(), 0, 0).validate(), Ok(()));
    assert_eq!(
        create_request("", good.clone(), 0, 0).validate(),
        Err("Name is required".to_string())
    );
    assert_eq!(
        create_request(&"x".repeat(256), good.clone(), 0, 0).validate(),
        Err("Name must be 255 characters or less".to_string())
    );
    assert_eq!(
        create_request("Home", vec![], 0, 0).validate(),
        Err("At least one layer is required".to_string())
    );
    assert_eq!(
        create_request(
            "Home",
            vec![GeofenceLayer::new(0, 1000, 1), GeofenceLayer::new(500, 500, 1)],
            0,
            0
        )
        .validate(),
        Err("Layer 2: ceiling must be greater than floor".to_string())
    );
    assert_eq!(
        create_request("Home", vec![GeofenceLayer::new(0, 1000, 0)], 0, 0).validate(),
        Err("Layer 1: radius must be positive".to_string())
    );
    assert_eq!(
        create_request("Home", good.clone(), 90_000_001, 0).validate(),
        Err("Latitude must be between -90 and 90".to_string())
    );
    assert_eq!(
        create_request("Home", good.clone(), 0, -180_000_001).validate(),
        Err("Longitude must be between -180 and 180".to_string())
    );
    let wide = create_request(
        "Home",
        vec![GeofenceLayer::new(0, 1000, 2_000_000), GeofenceLayer::new(1000, 2000, 3_000_000)],
        0,
        0,
    );
    assert_eq!(wide.max_radius_meters(), 3 * 1_852_000_000);
}

#[test]
fn update_request_validation_messages() {
    let none = UpdateGeofenceRequest {
        name: None,
        description: None,
        center_latitude_udeg: None,
        center_longitude_udeg: None,
        layers: None,
    };
    assert_eq!(none.validate(), Ok(()));
    assert_eq!(none.max_radius_meters(), None);
    let empty_name = UpdateGeofenceRequest { name: Some(String::new()), ..none_like() };
    assert_eq!(empty_name.validate(), Err("Name cannot be empty".to_string()));
    let no_layers = UpdateGeofenceRequest { layers: Some(vec![]), ..none_like() };
    assert_eq!(no_layers.validate(), Err("At least one layer is required".to_string()));
    let bad_lat = UpdateGeofenceRequest { center_latitude_udeg: Some(-90_000_001), ..none_like() };
    assert_eq!(bad_lat.validate(), Err("Latitude must be between -90 and 90".to_string()));
}

fn none_like() -> UpdateGeofenceRequest {
    UpdateGeofenceRequest {
        name: None,
        description: None,
        center_latitude_udeg: None,
        center_longitude_udeg: None,
        layers: None,
    }
}

#[test]
fn layer_altitude_and_radius() {
    let l = GeofenceLayer::new(1000, 2000, 1_500_000);
    assert!(l.contains_altitude(1000));
    assert!(l.contains_altitude(2000));
    assert!(!l.contains_altitude(2001));
    assert_eq!(l.radius_micrometers(), 2_778_000_000);
}

#[test]
fn subscription_defaults_to_email() {
    assert!(default_true());
    assert!(SubscribeToGeofenceRequest::with_defaults().send_email);
}

#[test]
fn exit_is_not_repeated_while_outside() {
    let layer = GeofenceLayer::new(0, 5000, 5_000_000);
    let previous = vec![(7u128, true)];
    let first = vec![(7u128, GeofenceCheckResult::Outside { exited_layer: layer })];
    let (exits, status) = geofence_transitions(&first, &previous);
    assert_eq!(exits.len(), 1);
    let (exits, status) = geofence_transitions(&first, &status);
    assert!(exits.is_empty());
    // back inside, then out again: a new exit
    let inside = vec![(7u128, GeofenceCheckResult::Inside { layer })];
    let (_, status) = geofence_transitions(&inside, &status);
    let (exits, _) = geofence_transitions(&first, &status);
    assert_eq!(exits, vec![(0usize, layer)]);
}
