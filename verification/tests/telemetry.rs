use razer_telemetry::telemetry::{battery_level, battery_request, serial_number, serial_request};
use razer_telemetry::Message;

/// Builds a response that passes all three validation checks for `request`,
/// with the given extra bytes patched in before the checksum is set.
fn valid_response_for(request: &Message, patch: &[(usize, u8)]) -> Message {
    let mut v = vec![0u8; 90];
    v[0] = 2;
    let req = request.bytes();
    for i in 1..8 {
        v[i] = req[i];
    }
    for &(i, b) in patch {
        v[i] = b;
    }
    let mut m = Message::from_bytes(v).unwrap();
    let c = m.checksum();
    m.set_byte(88, c);
    m
}

#[test]
fn battery_request_layout() {
    let m = battery_request();
    let b = m.bytes();
    assert_eq!(b.len(), 90);
    assert_eq!(b[0], 0x00);
    assert_eq!(b[1], 0x1f);
    assert_eq!(b[5], 0x02);
    assert_eq!(b[6], 0x07);
    assert_eq!(b[7], 0x80);
    assert_eq!(b[88], 0x02 ^ 0x07 ^ 0x80);
    assert_eq!(b[89], 0x00);
}

#[test]
fn serial_request_layout() {
    let m = serial_request();
    let b = m.bytes();
    assert_eq!(b.len(), 90);
    assert_eq!(b[0], 0x00);
    assert_eq!(b[1], 0x08);
    assert_eq!(b[5], 0x16);
    assert_eq!(b[7], 0x82);
    assert_eq!(b[88], 0x16 ^ 0x82);
    assert_eq!(b[89], 0x00);
}

#[test]
fn battery_full_scale() {
    let resp = valid_response_for(&battery_request(), &[(9, 255)]);
    assert_eq!(battery_level(Some(resp)), 100);
}

#[test]
fn battery_empty_scale() {
    let resp = valid_response_for(&battery_request(), &[(9, 0)]);
    assert_eq!(battery_level(Some(resp)), 0);
}

#[test]
fn battery_half_scale_truncates() {
    // 128 * 100 / 255 = 50.19... which truncates to 50.
    let resp = valid_response_for(&battery_request(), &[(9, 128)]);
    assert_eq!(battery_level(Some(resp)), 50);
}

#[test]
fn battery_no_response_is_zero() {
    assert_eq!(battery_level(None), 0);
}

#[test]
fn battery_invalid_response_is_zero() {
    let mut resp = valid_response_for(&battery_request(), &[(9, 255)]);
    let c = resp.checksum();
    resp.set_byte(88, c ^ 0x10);
    assert_eq!(battery_level(Some(resp)), 0);
}

#[test]
fn serial_reads_until_zero_byte() {
    let resp = valid_response_for(&serial_request(), &[(8, b'A'), (9, b'B'), (10, b'C'), (11, 0)]);
    assert_eq!(serial_number(Some(resp)), "ABC");
}

#[test]
fn serial_all_zero_payload_is_empty() {
    let resp = valid_response_for(&serial_request(), &[]);
    assert_eq!(serial_number(Some(resp)), "");
}

#[test]
fn serial_passes_non_ascii_bytes_through() {
    // Byte values above 127 come through as the character with that code
    // point, without validation.
    let resp = valid_response_for(&serial_request(), &[(8, b'X'), (9, 0xe9), (10, 0)]);
    assert_eq!(serial_number(Some(resp)), "X\u{e9}");
}

#[test]
fn serial_no_response_is_empty() {
    assert_eq!(serial_number(None), "");
}

#[test]
fn serial_invalid_response_is_empty() {
    let mut resp = valid_response_for(&serial_request(), &[(8, b'A')]);
    resp.set_byte(0, 5);
    assert_eq!(serial_number(Some(resp)), "");
}

#[test]
fn failing_device_yields_sentinels_and_healthy_device_reports() {
    // One device answers with a corrupted checksum: both decoders fall back
    // to their sentinels, so the caller's nonzero-battery, nonempty-serial
    // reporting condition excludes it.
    let mut bad_battery = valid_response_for(&battery_request(), &[(9, 200)]);
    let c = bad_battery.checksum();
    bad_battery.set_byte(88, c ^ 0x40);
    let mut bad_serial = valid_response_for(&serial_request(), &[(8, b'Z')]);
    let c = bad_serial.checksum();
    bad_serial.set_byte(88, c ^ 0x40);
    let battery = battery_level(Some(bad_battery));
    let serial = serial_number(Some(bad_serial));
    assert_eq!(battery, 0);
    assert_eq!(serial, "");
    assert!(!(battery > 0 && !serial.is_empty()));

    // A healthy device on the same run still reports.
    let good_battery = valid_response_for(&battery_request(), &[(9, 128)]);
    let good_serial = valid_response_for(&serial_request(), &[(8, b'S'), (9, b'N'), (10, 0)]);
    let battery = battery_level(Some(good_battery));
    let serial = serial_number(Some(good_serial));
    assert_eq!(battery, 50);
    assert_eq!(serial, "SN");
    assert!(battery > 0 && !serial.is_empty());
}
