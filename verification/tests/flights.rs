use soar::aircraft::{AddressType, Aircraft};
use soar::fixes::Fix;
use soar::flights::{
    format_timestamp, kml_color, segment_name, segment_style_id, Flight, FlightState, KmlPlacemark,
    SpuriousAircraftRow, TrackEnd, TrackStart,
};

fn test_aircraft() -> Aircraft {
    Aircraft {
        id: Some(7),
        address: 0xABCDEF,
        address_type: AddressType::Icao,
        address_hex: Some("ABCDEF".to_string()),
        primary_type: AddressType::Icao,
        aircraft_model: String::new(),
        registration: None,
        pilot_name: None,
        owner_operator: None,
        club_id: None,
        aircraft_category: None,
    }
}

fn test_fix(flight_number: Option<&str>) -> Fix {
    Fix {
        id: 11,
        aircraft_id: 22,
        flight_id: None,
        flight_number: flight_number.map(|s| s.to_string()),
        timestamp_us: 1_700_000_000_000_000,
        received_at_us: 1_700_000_000_500_000,
        latitude_udeg: 42_000_000,
        longitude_udeg: -122_000_000,
        altitude_msl_feet: Some(5000),
        altitude_agl_feet: None,
        ground_speed_milliknots: Some(150_000),
        climb_fpm: None,
        is_active: true,
        transponder_data: false,
        time_gap_seconds: None,
    }
}

#[test]
fn test_airborne_flight_copies_callsign_from_fix() {
    let fix = test_fix(Some("VOI5584"));
    let device = test_aircraft();
    let flight = Flight::new_airborne_from_fix_with_id(&fix, &device, 0x1234);
    assert_eq!(flight.callsign, Some("VOI5584".to_string()));
}

#[test]
fn test_takeoff_flight_copies_callsign_from_fix() {
    let fix = test_fix(Some("SAS1465"));
    let device = test_aircraft();
    let flight =
        Flight::new_with_takeoff_from_fix_with_id(&fix, &device, 0x1234, fix.received_at_us);
    assert_eq!(flight.callsign, Some("SAS1465".to_string()));
}

#[test]
fn test_flight_callsign_none_when_fix_has_no_callsign() {
    let fix = test_fix(None);
    let device = test_aircraft();
    let flight = Flight::new_airborne_from_fix_with_id(&fix, &device, 0x1234);
    assert_eq!(flight.callsign, None);
}

#[test]
fn airborne_flight_has_no_takeoff_and_takeoff_flight_has_one() {
    let fix = test_fix(None);
    let device = test_aircraft();
    let airborne = Flight::new_airborne_from_fix_with_id(&fix, &device, 9);
    assert_eq!(airborne.id, 9);
    assert_eq!(airborne.takeoff_time_us, None);
    assert_eq!(airborne.last_fix_at_us, fix.received_at_us);
    assert_eq!(airborne.device_address, "ABCDEF");
    let takeoff = Flight::new_with_takeoff_from_fix_with_id(&fix, &device, 9, 42);
    assert_eq!(takeoff.takeoff_time_us, Some(42));
    assert!(takeoff.is_in_progress());
}

#[test]
fn flight_state_and_duration() {
    let fix = test_fix(None);
    let device = test_aircraft();
    let mut flight = Flight::new_with_takeoff_from_fix_with_id(&fix, &device, 1, 1_000_000);
    flight.last_fix_at_us = 5_000_000_000;
    assert_eq!(flight.state_at(5_000_000_000 + 600_000_000), FlightState::Active);
    assert_eq!(flight.state_at(5_000_000_000 + 600_000_001), FlightState::Stale);
    assert_eq!(flight.duration_at(61_000_000), Some(60_000_000));
    flight.landing_time_us = Some(31_000_000);
    assert_eq!(flight.state_at(0), FlightState::Complete);
    assert_eq!(flight.duration_at(61_000_000), Some(30_000_000));
    flight.timed_out_at_us = Some(40_000_000);
    assert_eq!(flight.state_at(0), FlightState::TimedOut);
    assert!(flight.is_timed_out());
}

#[test]
fn track_window_and_markers() {
    let fix = test_fix(None);
    let device = test_aircraft();
    let mut flight = Flight::new_airborne_from_fix_with_id(&fix, &device, 1);
    flight.created_at_us = 100;
    flight.last_fix_at_us = 900;
    assert_eq!(flight.track_window(), (100, 900));
    assert_eq!(flight.track_markers(), (TrackStart::Detected, None));
    flight.takeoff_time_us = Some(150);
    flight.landing_time_us = Some(800);
    assert_eq!(flight.track_window(), (150, 800));
    assert_eq!(flight.track_markers(), (TrackStart::Takeoff, Some(TrackEnd::Landing)));
    flight.timed_out_at_us = Some(850);
    assert_eq!(flight.track_markers(), (TrackStart::Takeoff, Some(TrackEnd::SignalLost)));
}

#[test]
fn aircraft_identifier_prefers_model_and_registration() {
    let fix = test_fix(None);
    let mut device = test_aircraft();
    let flight = Flight::new_airborne_from_fix_with_id(&fix, &device, 1);
    assert_eq!(flight.get_aircraft_identifier(Some(&device)), "ICAO-ABCDEF");
    device.aircraft_model = "Piper Pacer".to_string();
    assert_eq!(flight.get_aircraft_identifier(Some(&device)), "Piper Pacer");
    device.registration = Some("N8437D".to_string());
    assert_eq!(flight.get_aircraft_identifier(Some(&device)), "Piper Pacer N8437D");
    device.aircraft_model = String::new();
    assert_eq!(flight.get_aircraft_identifier(Some(&device)), "N8437D");
    device.registration = Some(String::new());
    device.primary_type = AddressType::Flarm;
    assert_eq!(flight.get_aircraft_identifier(Some(&device)), "FLARM-ABCDEF");
    assert_eq!(flight.get_aircraft_identifier(None), "ABCDEF");
}

#[test]
fn empty_kml_document() {
    let fix = test_fix(None);
    let device = test_aircraft();
    let flight = Flight::new_airborne_from_fix_with_id(&fix, &device, 1);
    let expected = "<?xml version=\"1.0\" encoding=\"UTF-8\"?>\n\
<kml xmlns=\"http://www.opengis.net/kml/2.2\">\n  <Document>\n    <name>Flight ABCDEF (No Track Data)</name>\n    <description>No position data available for flight ABCDEF</description>\n  </Document>\n</kml>\n";
    assert_eq!(flight.generate_empty_kml(), expected);
}

#[test]
fn kml_color_gradient() {
    // lowest altitude: red (239, 68, 68) written blue-green-red
    assert_eq!(kml_color(Some((239, 68, 68))), "ff4444ef");
    // highest altitude: blue (59, 130, 246)
    assert_eq!(kml_color(Some((59, 130, 246))), "fff6823b");
    // halfway: (149, 99, 157)
    assert_eq!(kml_color(Some((149, 99, 157))), "ff9d6395");
    // unknown altitude or flat range: gray
    assert_eq!(kml_color(None), "ff888888");
}

#[test]
fn kml_color_matches_format() {
    for (r, g, b) in [(0u8, 0u8, 0u8), (255, 255, 255), (1, 16, 171), (117, 90, 186)] {
        assert_eq!(kml_color(Some((r, g, b))), format!("ff{:02x}{:02x}{:02x}", b, g, r));
    }
}

#[test]
fn kml_placemark_order() {
    let fix = test_fix(None);
    let device = test_aircraft();
    let mut flight = Flight::new_airborne_from_fix_with_id(&fix, &device, 1);
    assert_eq!(flight.kml_placemarks(0), vec![]);
    assert_eq!(flight.kml_placemarks(1), vec![KmlPlacemark::Start(TrackStart::Detected)]);
    flight.takeoff_time_us = Some(150);
    flight.landing_time_us = Some(800);
    assert_eq!(
        flight.kml_placemarks(3),
        vec![
            KmlPlacemark::Segment(0),
            KmlPlacemark::Segment(1),
            KmlPlacemark::Start(TrackStart::Takeoff),
            KmlPlacemark::End(TrackEnd::Landing),
        ]
    );
    flight.timed_out_at_us = Some(850);
    assert_eq!(
        flight.kml_placemarks(2),
        vec![
            KmlPlacemark::Segment(0),
            KmlPlacemark::Start(TrackStart::Takeoff),
            KmlPlacemark::End(TrackEnd::SignalLost),
        ]
    );
}

#[test]
fn spurious_row_display_name() {
    let mut row = SpuriousAircraftRow {
        aircraft_id: None,
        registration: Some("N1".to_string()),
        aircraft_model: Some("Cub".to_string()),
        device_address: "ABC123".to_string(),
        spurious_count: 3,
    };
    assert_eq!(row.display_name(), "Cub - N1");
    row.aircraft_model = Some(String::new());
    assert_eq!(row.display_name(), "N1");
    row.registration = None;
    row.aircraft_model = Some("Cub".to_string());
    assert_eq!(row.display_name(), "Cub");
    row.aircraft_model = None;
    assert_eq!(row.display_name(), "ABC123");
}

#[test]
fn timestamps_as_chrono_writes_them() {
    // 2024-03-05 12:34:56 UTC
    assert_eq!(format_timestamp(1_709_642_096_000_000), "2024-03-05 12:34:56");
    // one microsecond before the epoch
    assert_eq!(format_timestamp(-1), "1969-12-31 23:59:59");
    // year 10000 is written with a sign
    assert_eq!(format_timestamp(253_402_300_800_000_000), "+10000-01-01 00:00:00");
    // year -1
    assert_eq!(format_timestamp(-62_198_755_200_000_000), "-0001-01-01 00:00:00");
    assert_eq!(format_timestamp(0), "1970-01-01 00:00:00");
}

#[test]
fn kml_texts() {
    let fix = test_fix(None);
    let mut device = test_aircraft();
    device.registration = Some("N8437D".to_string());
    let mut flight = Flight::new_with_takeoff_from_fix_with_id(&fix, &device, 1, 1_709_642_096_000_000);
    flight.landing_time_us = Some(1_709_645_696_000_000);
    let labels = flight.kml_labels(Some(&device));
    assert_eq!(labels.document_name, "Flight N8437D");
    assert_eq!(
        labels.document_description,
        "Flight track for aircraft N8437D from 2024-03-05 12:34:56 UTC to 2024-03-05 13:34:56 UTC"
    );
    assert_eq!(labels.start, ("Takeoff".to_string(), "Takeoff at 2024-03-05 12:34:56 UTC".to_string()));
    assert_eq!(
        labels.end,
        Some(("Landing".to_string(), "Landing at 2024-03-05 13:34:56 UTC".to_string()))
    );
    flight.takeoff_time_us = None;
    flight.created_at_us = 0;
    flight.timed_out_at_us = Some(5);
    let labels = flight.kml_labels(None);
    assert_eq!(labels.document_name, "Flight ABCDEF");
    assert_eq!(
        labels.start,
        (
            "Detected".to_string(),
            "Flight first detected at 1970-01-01 00:00:00 UTC (already airborne)".to_string()
        )
    );
    assert_eq!(
        labels.end,
        Some((
            "Signal Lost".to_string(),
            "Last signal received at 2024-03-05 13:34:56 UTC (flight timed out after 1+ hour without updates)".to_string()
        ))
    );
    assert_eq!(segment_style_id(12), "segment12");
    assert_eq!(segment_name(0), "Segment 0");
}
