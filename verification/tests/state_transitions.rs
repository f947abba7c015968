use soar::flight_tracker::state_transitions::{is_callsign_change, learn_callsign, normalize_callsign};

// --- is_callsign_change tests ---

#[test]
fn callsign_change_both_present_and_different() {
    assert!(is_callsign_change(
        &Some("WMT437".to_string()),
        &Some("WMT2574".to_string())
    ));
}

#[test]
fn callsign_change_both_present_and_same() {
    assert!(!is_callsign_change(
        &Some("WMT437".to_string()),
        &Some("WMT437".to_string())
    ));
}

#[test]
fn callsign_change_current_none_fix_has_value() {
    assert!(!is_callsign_change(&None, &Some("WMT437".to_string())));
}

#[test]
fn callsign_change_current_has_value_fix_none() {
    assert!(!is_callsign_change(&Some("WMT437".to_string()), &None));
}

#[test]
fn callsign_change_both_none() {
    assert!(!is_callsign_change(&None, &None));
}

// --- learn_callsign tests ---

#[test]
fn learn_callsign_from_none_to_value() {
    let result = learn_callsign(&None, &Some("WMT437".to_string()));
    assert_eq!(result, Some("WMT437".to_string()));
}

#[test]
fn learn_callsign_does_not_overwrite_existing() {
    let result = learn_callsign(&Some("WMT437".to_string()), &Some("WMT2574".to_string()));
    assert_eq!(result, Some("WMT437".to_string()));
}

#[test]
fn learn_callsign_both_none_stays_none() {
    let result = learn_callsign(&None, &None);
    assert_eq!(result, None);
}

#[test]
fn learn_callsign_existing_with_no_fix_callsign_unchanged() {
    let result = learn_callsign(&Some("WMT437".to_string()), &None);
    assert_eq!(result, Some("WMT437".to_string()));
}

// --- Combined scenario ---

#[test]
fn callsign_mismatch_bug_scenario() {
    let mut current_callsign: Option<String> = None;

    let fix1_callsign = Some("WMT437".to_string());
    assert!(
        !is_callsign_change(&current_callsign, &fix1_callsign),
        "First callsign on a flight should not trigger a change"
    );
    current_callsign = learn_callsign(&current_callsign, &fix1_callsign);
    assert_eq!(
        current_callsign,
        Some("WMT437".to_string()),
        "Callsign should be learned after first fix"
    );

    let fix2_callsign = Some("WMT437".to_string());
    assert!(
        !is_callsign_change(&current_callsign, &fix2_callsign),
        "Same callsign should not trigger a change"
    );
    current_callsign = learn_callsign(&current_callsign, &fix2_callsign);
    assert_eq!(current_callsign, Some("WMT437".to_string()));

    let fix3_callsign = Some("WMT2574".to_string());
    assert!(
        is_callsign_change(&current_callsign, &fix3_callsign),
        "Different callsign must trigger a flight split"
    );
}

// --- Empty/whitespace callsign edge cases ---

#[test]
fn empty_callsign_treated_as_none_for_change_detection() {
    assert!(!is_callsign_change(
        &Some("WMT437".to_string()),
        &Some("".to_string())
    ));
}

#[test]
fn empty_callsign_not_learned() {
    let result = learn_callsign(&None, &Some("".to_string()));
    assert_eq!(result, None, "Empty callsign should not be stored");
}

#[test]
fn whitespace_callsign_not_learned() {
    let result = learn_callsign(&None, &Some("  ".to_string()));
    assert_eq!(
        result, None,
        "Whitespace-only callsign should not be stored"
    );
}

#[test]
fn whitespace_callsign_treated_as_none_for_change_detection() {
    assert!(!is_callsign_change(
        &Some("WMT437".to_string()),
        &Some("  ".to_string())
    ));
}

#[test]
fn callsign_with_whitespace_is_trimmed_when_learned() {
    let result = learn_callsign(&None, &Some(" WMT437 ".to_string()));
    assert_eq!(result, Some("WMT437".to_string()));
}

#[test]
fn normalize_callsign_trims_and_drops_blank() {
    assert_eq!(normalize_callsign(&Some("  AB12 \t".to_string())), Some("AB12"));
    assert_eq!(normalize_callsign(&Some(" \u{3000} ".to_string())), None);
    assert_eq!(normalize_callsign(&None), None);
}

#[test]
fn callsign_change_ignores_surrounding_whitespace() {
    assert!(!is_callsign_change(
        &Some(" WMT437".to_string()),
        &Some("WMT437  ".to_string())
    ));
}
