use soar::locations::{Location, Point};

#[test]
fn locations_test_location_creation() {
    let location = Location::new(
        Some("123 Main St".to_string()),
        Some("Suite 100".to_string()),
        Some("Anytown".to_string()),
        Some("CA".to_string()),
        Some("12345".to_string()),
        Some("4".to_string()),
        Some("037".to_string()),
        Some("US".to_string()),
        Some(Point::new(34_052_200, -118_243_700)),
    );

    assert!(location.id != 0);
    assert_eq!(location.street1, Some("123 Main St".to_string()));
    assert_eq!(location.city, Some("Anytown".to_string()));
    assert_eq!(location.state, Some("CA".to_string()));
    assert!(location.has_coordinates());
    assert_eq!(location.created_at_us, location.updated_at_us);
}

#[test]
fn test_address_string() {
    let location = Location::new(
        Some("123 Main St".to_string()),
        Some("Suite 100".to_string()),
        Some("Anytown".to_string()),
        Some("CA".to_string()),
        Some("12345".to_string()),
        None,
        None,
        Some("US".to_string()),
        None,
    );

    assert_eq!(
        location.address_string(),
        Some("123 Main St, Suite 100, Anytown, CA, 12345".to_string())
    );
}

#[test]
fn test_address_string_with_country() {
    let location = Location::new(
        Some("123 Rue de la Paix".to_string()),
        None,
        Some("Paris".to_string()),
        None,
        Some("75001".to_string()),
        None,
        None,
        Some("FR".to_string()),
        None,
    );

    assert_eq!(
        location.address_string(),
        Some("123 Rue de la Paix, Paris, 75001, FR".to_string())
    );
}

#[test]
fn test_empty_address_string() {
    let location = Location::new(None, None, None, None, None, None, None, None, None);
    assert_eq!(location.address_string(), None);
    assert!(!location.has_coordinates());
}

#[test]
fn address_string_trims_and_skips_blank_parts() {
    let location = Location::new(
        Some("  1 Long Rd ".to_string()),
        Some("   ".to_string()),
        Some("Albany".to_string()),
        Some("".to_string()),
        None,
        None,
        None,
        Some(" US ".to_string()),
        None,
    );
    // " US " is not exactly "US", so it is kept (trimmed)
    assert_eq!(location.address_string(), Some("1 Long Rd, Albany, US".to_string()));
}

#[test]
fn new_locations_get_distinct_ids() {
    let a = Location::new(None, None, None, None, None, None, None, None, None);
    let b = Location::new(None, None, None, None, None, None, None, None, None);
    assert_ne!(a.id, b.id);
}

#[test]
fn geocoding_test_point_validation() {
    let point = Point::new(40_712_800, -74_006_000);
    assert_eq!(point.latitude_udeg as f64 / 1e6, 40.7128);
    assert_eq!(point.longitude_udeg as f64 / 1e6, -74.0060);
}

#[test]
fn mod_test_point_validation() {
    let point = Point::new(40_712_800, -74_006_000);
    assert_eq!(point.latitude_udeg as f64 / 1e6, 40.7128);
    assert_eq!(point.longitude_udeg as f64 / 1e6, -74.0060);
}

fn create_test_location() -> Location {
    let now = chrono::Utc::now().timestamp_micros();
    Location {
        id: uuid::Uuid::now_v7().as_u128(),
        street1: Some("123 Main St".to_string()),
        street2: Some("Suite 100".to_string()),
        city: Some("Anytown".to_string()),
        state: Some("CA".to_string()),
        zip_code: Some("12345".to_string()),
        region_code: None,
        county_mail_code: None,
        country_mail_code: Some("US".to_string()),
        geolocation: Some(Point::new(34_052_200, -118_243_700)),
        created_at_us: now,
        updated_at_us: now,
    }
}

#[test]
fn locations_repo_test_location_creation() {
    let location = create_test_location();
    assert!(location.id != 0);
    assert_eq!(location.street1, Some("123 Main St".to_string()));
    assert_eq!(location.city, Some("Anytown".to_string()));
    assert!(location.has_coordinates());
}
