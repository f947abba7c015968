use soar::loader::{country_name_for, home_base_choice, is_po_box, location_geocode_attempts, zip_five};
use soar::locations::Location;

#[test]
fn po_box_detection() {
    assert!(is_po_box("PO Box 12"));
    assert!(is_po_box("p.o. box 7"));
    assert!(is_po_box("Box 44"));
    assert!(is_po_box("Mail: po box 1"));
    assert!(!is_po_box("12 Boxwood Rd"));
    assert!(!is_po_box("Inbox 4"));
    assert!(!is_po_box(""));
}

#[test]
fn country_names() {
    assert_eq!(country_name_for(None), "United States");
    assert_eq!(country_name_for(Some("US")), "United States");
    assert_eq!(country_name_for(Some("CA")), "Canada");
    assert_eq!(country_name_for(Some("MX")), "Mexico");
    assert_eq!(country_name_for(Some("GB")), "United Kingdom");
    assert_eq!(country_name_for(Some("DE")), "DE");
}

#[test]
fn zip_codes_cut_to_five_bytes() {
    assert_eq!(zip_five("12207-1234"), "12207");
    assert_eq!(zip_five("1220"), "1220");
    assert_eq!(zip_five("12207"), "12207");
}

#[test]
fn geocode_attempts_for_location() {
    let location = Location::new(
        Some("PO Box 5".to_string()),
        Some("Suite 2".to_string()),
        Some("Albany".to_string()),
        Some("NY".to_string()),
        Some("12207-0001".to_string()),
        None,
        None,
        Some("CA".to_string()),
        None,
    );
    let (first, fallback) = location_geocode_attempts(&location);
    assert_eq!(first.street1, None);
    assert_eq!(first.street2, Some("Suite 2".to_string()));
    assert_eq!(first.zip_code, Some("12207".to_string()));
    assert_eq!(first.country, Some("Canada".to_string()));
    assert_eq!(fallback.street1, None);
    assert_eq!(fallback.street2, None);
    assert_eq!(fallback.city, Some("Albany".to_string()));
    assert_eq!(fallback.country, Some("Canada".to_string()));
    let plain = Location::new(
        Some("1 Main St".to_string()),
        None,
        None,
        None,
        None,
        None,
        None,
        None,
        None,
    );
    let (first, _) = location_geocode_attempts(&plain);
    assert_eq!(first.street1, Some("1 Main St".to_string()));
    assert_eq!(first.country, Some("United States".to_string()));
    assert_eq!(first.zip_code, None);
}

#[test]
fn home_base_is_first_suitable_airport() {
    let kinds = vec![
        "heliport".to_string(),
        "closed".to_string(),
        "small_airport".to_string(),
        "large_airport".to_string(),
    ];
    assert_eq!(home_base_choice(&kinds), Some(2));
    assert_eq!(home_base_choice(&vec!["seaplane_base".to_string()]), None);
    assert_eq!(home_base_choice(&vec![]), None);
}
