use combat_ble::errors::BleError;
use combat_ble::limb::LimbType;
use combat_ble::registry::DeviceRegistry;
use combat_ble::scan::Advertisement;

fn ad(id: &str, name: Option<&str>) -> Advertisement {
    Advertisement {
        device_id: String::from(id),
        local_name: name.map(String::from),
        rssi: None,
        is_connectable: true,
    }
}

#[test]
fn registration_with_competitor_builds_the_label() {
    let mut reg = DeviceRegistry::new();
    reg.register_connected_device(
        &String::from("dev-1"),
        &String::from("BH-ManoIzquierda"),
        &String::from("Ana"),
    );
    let label = reg.lookup_label(&String::from("dev-1")).unwrap();
    assert_eq!(label, "BH-ManoIzquierda (Ana)");
}

#[test]
fn registration_without_competitor_uses_the_device_name() {
    let mut reg = DeviceRegistry::new();
    reg.register_device_without_competitor(
        &String::from("dev-1"),
        &String::from("BH-PieDerecho"),
    );
    assert_eq!(reg.lookup_label(&String::from("dev-1")).unwrap(), "BH-PieDerecho");
    // Re-registering the same device replaces its label.
    reg.register_connected_device(
        &String::from("dev-1"),
        &String::from("BH-PieDerecho"),
        &String::from("Bruno"),
    );
    assert_eq!(
        reg.lookup_label(&String::from("dev-1")).unwrap(),
        "BH-PieDerecho (Bruno)"
    );
    assert_eq!(reg.get_connected_devices_list().len(), 1);
}

#[test]
fn disconnecting_an_absent_device_is_a_no_op_success() {
    let mut reg = DeviceRegistry::new();
    reg.register_device_without_competitor(&String::from("dev-1"), &String::from("BH-X"));
    let was_present = reg.remove_device(&String::from("not-there"));
    assert!(!was_present);
    assert_eq!(reg.get_connected_devices_list(), vec![String::from("dev-1")]);
}

#[test]
fn disconnecting_removes_exactly_that_device() {
    let mut reg = DeviceRegistry::new();
    reg.register_device_without_competitor(&String::from("dev-1"), &String::from("BH-A"));
    reg.register_device_without_competitor(&String::from("dev-2"), &String::from("BH-B"));
    assert!(reg.remove_device(&String::from("dev-1")));
    assert!(!reg.is_connected(&String::from("dev-1")));
    assert!(reg.is_connected(&String::from("dev-2")));
}

#[test]
fn disconnect_all_empties_the_registry_and_reports_every_id() {
    let mut reg = DeviceRegistry::new();
    reg.register_device_without_competitor(&String::from("dev-1"), &String::from("BH-A"));
    reg.register_device_without_competitor(&String::from("dev-2"), &String::from("BH-B"));
    let ids = reg.clear_all();
    assert_eq!(ids, vec![String::from("dev-1"), String::from("dev-2")]);
    assert_eq!(reg.get_connected_devices_list().len(), 0);
}

#[test]
fn connect_for_unknown_device_fails_and_leaves_registry_unchanged() {
    let mut reg = DeviceRegistry::new();
    reg.register_device_without_competitor(&String::from("dev-1"), &String::from("BH-A"));
    let r = reg.complete_connect(&String::from("ghost"), None, None);
    assert_eq!(r, Err(BleError::DeviceNotFound));
    assert!(!reg.is_connected(&String::from("ghost")));
    assert_eq!(reg.get_connected_devices_list(), vec![String::from("dev-1")]);
}

#[test]
fn connect_with_found_advertisement_registers_and_reports_the_limb() {
    let mut reg = DeviceRegistry::new();
    let found = ad("dev-3", Some("BH-PieIzquierdo"));
    let limb = reg
        .complete_connect(&String::from("dev-3"), Some(&found), Some(&String::from("Ana")))
        .unwrap();
    assert_eq!(limb, LimbType::LeftFoot);
    assert_eq!(
        reg.lookup_label(&String::from("dev-3")).unwrap(),
        "BH-PieIzquierdo (Ana)"
    );
}

#[test]
fn connect_without_advertised_name_registers_the_placeholder() {
    let mut reg = DeviceRegistry::new();
    let found = ad("dev-4", None);
    let limb = reg.complete_connect(&String::from("dev-4"), Some(&found), None).unwrap();
    assert_eq!(limb, LimbType::LeftHand);
    assert_eq!(
        reg.lookup_label(&String::from("dev-4")).unwrap(),
        "Dispositivo Desconocido"
    );
}
