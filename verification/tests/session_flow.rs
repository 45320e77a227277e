use combat_ble::config::SimpleDetectionConfig;
use combat_ble::detect::{create_competitor_info, setup_competitor_detector, SimpleEventDetector};
use combat_ble::errors::BleError;
use combat_ble::session::{
    process_notification_data, select_notify_characteristic, session_advance,
    validate_connect_request, CharacteristicProps, ConnectRequest, SessionEvent, SessionPhase,
};
use combat_ble::stats::MaxStatsStore;

#[test]
fn happy_path_walks_every_phase_to_streaming() {
    let mut phase = SessionPhase::Discovering;
    for (event, expected) in [
        (SessionEvent::DeviceFound, SessionPhase::Connecting),
        (SessionEvent::Connected, SessionPhase::DiscoveringServices),
        (SessionEvent::CharacteristicFound, SessionPhase::Subscribing),
        (SessionEvent::Subscribed, SessionPhase::Streaming),
        (SessionEvent::StreamEnded, SessionPhase::TerminatedOk),
    ] {
        let (next, err) = session_advance(phase, event);
        assert_eq!(next, expected);
        assert_eq!(err, None);
        phase = next;
    }
}

#[test]
fn each_setup_failure_terminates_with_its_error() {
    let cases = [
        (SessionPhase::Discovering, SessionEvent::DeviceNotFound, BleError::DeviceNotFound),
        (SessionPhase::Connecting, SessionEvent::ConnectRejected, BleError::ConnectFailed),
        (
            SessionPhase::DiscoveringServices,
            SessionEvent::NoCharacteristic,
            BleError::NoNotifyingCharacteristic,
        ),
        (SessionPhase::Subscribing, SessionEvent::SubscribeRejected, BleError::SubscribeFailed),
        (SessionPhase::Streaming, SessionEvent::StreamError, BleError::TransportReadError),
    ];
    for (phase, event, expected) in cases {
        let (next, err) = session_advance(phase, event);
        assert_eq!(next, SessionPhase::TerminatedErr);
        assert_eq!(err, Some(expected));
    }
}

#[test]
fn cancellation_terminates_cleanly_from_any_phase() {
    for phase in [
        SessionPhase::Discovering,
        SessionPhase::Connecting,
        SessionPhase::Streaming,
    ] {
        let (next, err) = session_advance(phase, SessionEvent::Cancelled);
        assert_eq!(next, SessionPhase::TerminatedOk);
        assert_eq!(err, None);
    }
}

#[test]
fn first_notifying_characteristic_wins() {
    let services = vec![
        vec![CharacteristicProps { notify: false }, CharacteristicProps { notify: false }],
        vec![CharacteristicProps { notify: false }, CharacteristicProps { notify: true }],
        vec![CharacteristicProps { notify: true }],
    ];
    assert_eq!(select_notify_characteristic(&services), Some((1, 1)));
}

#[test]
fn no_notifying_characteristic_reports_none() {
    let services = vec![
        vec![CharacteristicProps { notify: false }],
        vec![],
        vec![CharacteristicProps { notify: false }],
    ];
    assert_eq!(select_notify_characteristic(&services), None);
    assert_eq!(select_notify_characteristic(&Vec::new()), None);
}

fn full_request() -> ConnectRequest {
    ConnectRequest {
        device_id: Some(String::from("dev-1")),
        competitor_id: Some(2),
        competitor_name: Some(String::from("Bruno")),
        competitor_weight_grams: Some(80_000),
    }
}

#[test]
fn complete_batch_item_validates() {
    let v = validate_connect_request(&full_request()).unwrap();
    assert_eq!(v.device_id, "dev-1");
    assert_eq!(v.competitor.id, 2);
    assert_eq!(v.competitor.name, "Bruno");
    assert_eq!(v.competitor.weight_grams, 80_000);
}

#[test]
fn each_missing_field_rejects_that_item() {
    let mut missing_device = full_request();
    missing_device.device_id = None;
    let mut missing_id = full_request();
    missing_id.competitor_id = None;
    let mut missing_name = full_request();
    missing_name.competitor_name = None;
    let mut missing_weight = full_request();
    missing_weight.competitor_weight_grams = None;
    for req in [missing_device, missing_id, missing_name, missing_weight] {
        match validate_connect_request(&req) {
            Err(e) => assert_eq!(e, BleError::InvalidRequest),
            Ok(_) => panic!("incomplete item must be rejected"),
        }
    }
}

fn qualifying_hand_frame() -> Vec<u8> {
    // limb 1, battery 90, acc (1200, 1600, 0) milli-g, gyro_x raw 10000 = 40 deg/s.
    vec![
        1, 90, 0xB0, 0x04, 0x40, 0x06, 0x00, 0x00, 0x10, 0x27, 0x00, 0x00, 0x00, 0x00,
    ]
}

#[test]
fn pipeline_turns_a_qualifying_frame_into_an_event_and_a_record() {
    let mut detector = setup_competitor_detector(create_competitor_info(
        1,
        String::from("Ana"),
        70_000,
    ));
    let mut stats = MaxStatsStore::new();
    let out = process_notification_data(&mut detector, &mut stats, &qualifying_hand_frame(), 1_000);
    let (event, update) = out.expect("qualifying frame produces an event");
    assert_eq!(event.event_type, "slap");
    assert_eq!(event.force_mn, Some(66_745));
    let update = update.expect("first event sets records");
    assert_eq!(update.stats.max_force, 66_745);
    assert_eq!(update.stats.max_velocity, 10_000);
    assert_eq!(update.stats.max_acceleration, 19_620);
}

#[test]
fn pipeline_rejects_wrong_length_payloads_silently() {
    let mut detector = setup_competitor_detector(create_competitor_info(
        1,
        String::from("Ana"),
        70_000,
    ));
    let mut stats = MaxStatsStore::new();
    let mut short = qualifying_hand_frame();
    short.truncate(13);
    assert!(process_notification_data(&mut detector, &mut stats, &short, 1_000).is_none());
    let mut long = qualifying_hand_frame();
    long.push(0xFF);
    assert!(process_notification_data(&mut detector, &mut stats, &long, 1_000).is_none());
    // Nothing was recorded.
    assert_eq!(stats.get_current_max_stats(None).unwrap().len(), 0);
    // The detector is still fresh: the same frame at the same time is accepted.
    assert!(
        process_notification_data(&mut detector, &mut stats, &qualifying_hand_frame(), 1_000)
            .is_some()
    );
}

#[test]
fn default_configuration_matches_the_tuned_thresholds() {
    let c = SimpleDetectionConfig::default();
    assert_eq!(c.acc_scale, 1000);
    assert_eq!(c.gyro_scale, 250);
    assert_eq!(c.slap_min_acc, 800);
    assert_eq!(c.slap_min_gyro, 3_000);
    assert_eq!(c.kick_min_acc, 1_000);
    assert_eq!(c.kick_max_gyro, 10_000);
    assert_eq!(c.kick_min_acc_z, -300);
    assert_eq!(c.hand_base_velocity, 10_000);
    assert_eq!(c.foot_base_velocity, 15_000);
    assert_eq!(c.hand_mass_permille, 27);
    assert_eq!(c.foot_mass_permille, 62);
    assert_eq!(c.joint_stiffness_milli, 1_800);
    assert_eq!(c.cooldown_ms, 500);
}

#[test]
fn error_messages_are_descriptive() {
    assert_eq!(BleError::DeviceNotFound.message(), "device not found (timeout)");
    assert_eq!(BleError::AdapterUnavailable.message(), "no BLE adapter available");
    assert_eq!(BleError::InvalidRequest.message(), "invalid request");
}

#[test]
fn detector_without_person_decodes_but_never_classifies() {
    let mut detector = SimpleEventDetector::new();
    let mut stats = MaxStatsStore::new();
    let out = process_notification_data(&mut detector, &mut stats, &qualifying_hand_frame(), 1_000);
    assert!(out.is_none());
}
