use combat_ble::frame::parse_imu_data;

fn frame(bytes: &[u8]) -> Vec<u8> {
    bytes.to_vec()
}

#[test]
fn short_payloads_yield_no_sample() {
    assert!(parse_imu_data(&[], 0).is_none());
    assert!(parse_imu_data(&[1u8], 0).is_none());
    let thirteen = frame(&[1, 2, 3, 4, 5, 6, 7, 8, 9, 10, 11, 12, 13]);
    assert!(parse_imu_data(&thirteen, 12345).is_none());
}

#[test]
fn fourteen_byte_payload_decodes_every_field() {
    // acc_x = 1000, acc_y = -2, acc_z = -100, gyro_x = 258, gyro_y = 0, gyro_z = -1
    let data = frame(&[
        3, 87, 0xE8, 0x03, 0xFE, 0xFF, 0x9C, 0xFF, 0x02, 0x01, 0x00, 0x00, 0xFF, 0xFF,
    ]);
    let sample = parse_imu_data(&data, 777).expect("a full frame decodes");
    assert_eq!(sample.limb_id, 3);
    assert_eq!(sample.battery_level, 87);
    assert_eq!(sample.acc_x, 1000);
    assert_eq!(sample.acc_y, -2);
    assert_eq!(sample.acc_z, -100);
    assert_eq!(sample.gyro_x, 258);
    assert_eq!(sample.gyro_y, 0);
    assert_eq!(sample.gyro_z, -1);
    assert_eq!(sample.timestamp, 777);
}

#[test]
fn extra_bytes_are_ignored_by_the_decoder() {
    let data = frame(&[
        1, 50, 10, 0, 0, 0, 0, 0, 0, 0, 0, 0, 0, 0, 0xAA, 0xBB,
    ]);
    let sample = parse_imu_data(&data, 1).expect("long frames still decode");
    assert_eq!(sample.limb_id, 1);
    assert_eq!(sample.acc_x, 10);
}

#[test]
fn signed_extremes_decode_correctly() {
    // acc_x = i16::MIN (0x8000), acc_y = i16::MAX (0x7FFF)
    let data = frame(&[
        2, 0, 0x00, 0x80, 0xFF, 0x7F, 0, 0, 0, 0, 0, 0, 0, 0,
    ]);
    let sample = parse_imu_data(&data, 0).unwrap();
    assert_eq!(sample.acc_x, i16::MIN);
    assert_eq!(sample.acc_y, i16::MAX);
}
