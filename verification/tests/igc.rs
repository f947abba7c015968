use soar::aircraft::{AddressType, Aircraft};
use soar::fixes::Fix;
use soar::flights::Flight;
use soar::igc::{format_latitude, format_longitude, generate_igc_at, write_b_record};

fn udeg(degrees: f64) -> i64 {
    (degrees * 1e6).round() as i64
}

#[test]
fn coordinates_round_up_into_the_next_minute_and_degree() {
    // 10.999999 degrees is 10 deg 59.99994 min, which rounds to 11 deg 00.000 min
    assert_eq!(format_latitude(10_999_999), "1100000N");
    assert_eq!(format_latitude(-10_999_999), "1100000S");
    assert_eq!(format_longitude(-2_999_999), "00300000W");
    // 10.49999 degrees is 10 deg 29.9994 min, which rounds to 10 deg 29.999 min
    assert_eq!(format_latitude(10_499_990), "1029999N");
    // 10.499999 degrees is 10 deg 29.99994 min, which rounds to 10 deg 30.000 min
    assert_eq!(format_latitude(10_499_999), "1030000N");
}

#[test]
fn test_format_latitude_north() {
    // 54.11868 degrees = 54° 07.121' N
    assert_eq!(format_latitude(udeg(54.11868)), "5407121N");
}

#[test]
fn test_format_latitude_south() {
    // -33.5 degrees = 33° 30.000' S
    assert_eq!(format_latitude(udeg(-33.5)), "3330000S");
}

#[test]
fn test_format_longitude_west() {
    // -2.82237 degrees = 2° 49.342' W
    assert_eq!(format_longitude(udeg(-2.82237)), "00249342W");
}

#[test]
fn test_format_longitude_east() {
    // 10.25 degrees = 10° 15.000' E
    assert_eq!(format_longitude(udeg(10.25)), "01015000E");
}

#[test]
fn test_format_latitude_zero() {
    assert_eq!(format_latitude(udeg(0.0)), "0000000N");
}

#[test]
fn test_format_longitude_zero() {
    assert_eq!(format_longitude(udeg(0.0)), "00000000E");
}

fn aircraft() -> Aircraft {
    Aircraft {
        id: Some(1),
        address: 0xDDA5BA,
        address_type: AddressType::Flarm,
        address_hex: Some("DDA5BA".to_string()),
        primary_type: AddressType::Flarm,
        aircraft_model: "ASK 21".to_string(),
        registration: Some("D-1234".to_string()),
        pilot_name: None,
        owner_operator: Some("Club".to_string()),
        club_id: None,
        aircraft_category: None,
    }
}

/// 2024-03-05 12:34:56 UTC, in microseconds.
const T: i64 = 1_709_642_096_000_000;

fn fix(altitude: Option<i32>) -> Fix {
    Fix {
        id: 1,
        aircraft_id: 1,
        flight_id: None,
        flight_number: None,
        timestamp_us: T,
        received_at_us: T,
        latitude_udeg: 54_118_680,
        longitude_udeg: -2_822_370,
        altitude_msl_feet: altitude,
        altitude_agl_feet: None,
        ground_speed_milliknots: None,
        climb_fpm: None,
        is_active: true,
        transponder_data: false,
        time_gap_seconds: None,
    }
}

#[test]
fn b_record_layout() {
    let mut s = String::new();
    write_b_record(&mut s, &fix(Some(1000)));
    // 1000 ft = 304.8 m -> 305
    assert_eq!(s, "B1234565407121N00249342WA0030500305\r\n");
    let mut v = String::new();
    write_b_record(&mut v, &fix(None));
    assert_eq!(v, "B1234565407121N00249342WV0000000000\r\n");
    let mut neg = String::new();
    write_b_record(&mut neg, &fix(Some(-50)));
    assert_eq!(neg, "B1234565407121N00249342WA0000000000\r\n");
}

#[test]
fn whole_igc_file() {
    let f = fix(Some(1000));
    let a = aircraft();
    let mut flight = Flight::new_with_takeoff_from_fix_with_id(&f, &a, 5, T);
    flight.device_address = "DDA5BA".to_string();
    let igc = generate_igc_at(&flight, &[f], Some(&a), 0);
    let expected = "AXXXSOAR\r\n\
HFDTE050324\r\n\
HFFXA035\r\n\
HFPLTPILOTINCHARGE:Club\r\n\
HFGTYGLIDERTYPE:ASK 21\r\n\
HFGIDGLIDERID:D-1234\r\n\
HFDTM100GPSDATUM:WGS-1984\r\n\
HFFTYFRTYPE:SOAR Flight Tracker\r\n\
HFGPSGPS:Multiple Sources,12ch,18000m\r\n\
I00\r\n\
B1234565407121N00249342WA0030500305\r\n";
    assert_eq!(igc, expected);
}

#[test]
fn igc_without_aircraft_uses_device_address() {
    let f = fix(None);
    let a = aircraft();
    let flight = Flight::new_airborne_from_fix_with_id(&f, &a, 5);
    let igc = generate_igc_at(&flight, &[], None, T);
    assert!(igc.contains("HFDTE050324\r\n"));
    assert!(igc.contains("HFPLTPILOTINCHARGE:Unknown\r\n"));
    assert!(igc.contains("HFGTYGLIDERTYPE:Unknown\r\n"));
    assert!(igc.contains("HFGIDGLIDERID:DDA5BA\r\n"));
    assert!(igc.ends_with("I00\r\n"));
}
