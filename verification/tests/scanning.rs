use combat_ble::limb::{determine_limb_type_by_pattern, infer_limb_type, LimbType};
use combat_ble::scan::{advertisement_matches, found_device_name, Advertisement, ScanAccumulator};
use combat_ble::strmatch::contains_subslice;

fn ad(id: &str, name: Option<&str>) -> Advertisement {
    Advertisement {
        device_id: String::from(id),
        local_name: name.map(String::from),
        rssi: Some(-60),
        is_connectable: true,
    }
}

#[test]
fn product_devices_are_accepted_and_annotated() {
    let mut scan = ScanAccumulator::new();
    assert!(scan.offer(&ad("dev-1", Some("BH-ManoIzquierda"))));
    assert!(scan.offer(&ad("dev-2", Some("BH-PieDerecho-07"))));
    assert_eq!(scan.devices.len(), 2);
    assert_eq!(scan.devices[0].id, "dev-1");
    assert_eq!(scan.devices[0].name, "BH-ManoIzquierda");
    assert_eq!(scan.devices[0].address, "dev-1");
    assert_eq!(scan.devices[0].limb_type, Some(LimbType::LeftHand));
    assert_eq!(scan.devices[0].limb_name.as_deref(), Some("Mano Izquierda"));
    assert_eq!(scan.devices[0].rssi, Some(-60));
    assert!(scan.devices[0].is_connectable);
    assert_eq!(scan.devices[1].limb_type, Some(LimbType::RightFoot));
    assert_eq!(scan.devices[1].limb_name.as_deref(), Some("Pie Derecho"));
}

#[test]
fn foreign_and_nameless_advertisements_are_rejected() {
    let mut scan = ScanAccumulator::new();
    assert!(!scan.offer(&ad("dev-1", Some("FitTracker"))));
    assert!(!scan.offer(&ad("dev-2", None)));
    assert_eq!(scan.devices.len(), 0);
}

#[test]
fn duplicate_identifiers_are_dropped_first_seen_wins() {
    let mut scan = ScanAccumulator::new();
    assert!(scan.offer(&ad("dev-1", Some("BH-ManoIzquierda"))));
    assert!(!scan.offer(&ad("dev-1", Some("BH-ManoDerecha"))));
    assert_eq!(scan.devices.len(), 1);
    assert_eq!(scan.devices[0].name, "BH-ManoIzquierda");
}

#[test]
fn product_device_without_role_pattern_has_unknown_role() {
    let mut scan = ScanAccumulator::new();
    assert!(scan.offer(&ad("dev-9", Some("BH-Prototype"))));
    assert_eq!(scan.devices[0].limb_type, None);
    assert_eq!(scan.devices[0].limb_name, None);
}

#[test]
fn limb_inference_matches_the_advertised_patterns() {
    assert_eq!(infer_limb_type("BH-ManoIzquierda"), Some(LimbType::LeftHand));
    assert_eq!(infer_limb_type("BH-ManoDerecha"), Some(LimbType::RightHand));
    assert_eq!(infer_limb_type("BH-PieIzquierdo"), Some(LimbType::LeftFoot));
    assert_eq!(infer_limb_type("BH-PieDerecho"), Some(LimbType::RightFoot));
    assert_eq!(infer_limb_type("BH-Unknown"), None);
    // The session fallback defaults to the left hand.
    assert_eq!(determine_limb_type_by_pattern("BH-Unknown"), LimbType::LeftHand);
    assert_eq!(determine_limb_type_by_pattern("BH-PieIzquierdo"), LimbType::LeftFoot);
}

#[test]
fn targeted_search_matches_by_identifier_only() {
    let target = String::from("dev-7");
    assert!(advertisement_matches(&ad("dev-7", Some("anything")), &target));
    assert!(!advertisement_matches(&ad("dev-8", Some("BH-ManoIzquierda")), &target));
}

#[test]
fn found_device_name_falls_back_to_placeholder() {
    assert_eq!(found_device_name(&ad("x", Some("BH-PieDerecho"))), "BH-PieDerecho");
    assert_eq!(found_device_name(&ad("x", None)), "Dispositivo Desconocido");
}

#[test]
fn substring_search_agrees_with_std() {
    let hay = b"BH-ManoIzquierda-03";
    assert!(contains_subslice(hay, b"BH-"));
    assert!(contains_subslice(hay, b"ManoIzquierda"));
    assert!(contains_subslice(hay, b""));
    assert!(contains_subslice(hay, hay));
    assert!(!contains_subslice(hay, b"PieDerecho"));
    assert!(!contains_subslice(b"BH", b"BH-"));
}
