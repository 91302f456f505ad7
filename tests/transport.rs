use inlretro::transport::{
    check_response, decode_value, device_status, encode_value, payload_byte, payload_u16_be,
    payload_u16_le, read_device, read_device_no_check, response_status, DeviceStatus, DumpError,
    VENDOR_IN,
};

#[test]
fn value_round_trip_all_pairs() {
    for opcode in 0..=255u8 {
        for misc in [0u8, 1, 0x7F, 0x80, 0xDD, 0xFF] {
            let v = encode_value(opcode, misc);
            assert_eq!(decode_value(v), (opcode, misc));
        }
    }
}

#[test]
fn value_layout_misc_high_opcode_low() {
    assert_eq!(encode_value(0x61, 0x00), 0x0061);
    assert_eq!(encode_value(0x80, 0x04), 0x0480);
    assert_eq!(decode_value(0xABCD), (0xCD, 0xAB));
}

#[test]
fn request_fields_on_the_wire() {
    let r = read_device(5, 0x80, 0x0004, 4, 1);
    assert_eq!(r.request_type, 0xC0);
    assert_eq!(r.request_type, VENDOR_IN);
    assert_eq!(r.request, 5);
    assert_eq!(r.value, 0x0480);
    assert_eq!(r.index, 0x0004);
    assert_eq!(r.length, 1);
    assert!(r.checked);
    let raw = read_device_no_check(5, 0x70, 0, 0, 128);
    assert!(!raw.checked);
    assert_eq!(raw.request_type, 0xC0);
    assert_eq!(raw.length, 128);
}

#[test]
fn short_read_is_transport_error() {
    let r = read_device(5, 0x61, 0, 0, 3);
    assert_eq!(check_response(&r, &[0, 1], 2), Err(DumpError::Transport));
    assert_eq!(check_response(&r, &[0, 1, 0xD8], 2), Err(DumpError::Transport));
    assert_eq!(check_response(&r, &[0, 1, 0xD8], 0), Err(DumpError::Transport));
}

#[test]
fn nonzero_status_is_device_error() {
    let r = read_device(3, 0x81, 0x8000, 0, 3);
    assert_eq!(check_response(&r, &[7, 1, 0x12], 3), Err(DumpError::Device(7)));
    assert_eq!(check_response(&r, &[0, 1, 0x12], 3), Ok(()));
}

#[test]
fn unchecked_transfer_ignores_byte_zero() {
    let r = read_device_no_check(5, 0x70, 0, 0, 4);
    assert_eq!(check_response(&r, &[9, 9, 9, 9], 4), Ok(()));
    assert_eq!(response_status(&r, &[9, 9, 9, 9], 4), Ok(DeviceStatus::Success));
}

#[test]
fn lenient_status_reports_code() {
    let r = read_device(1, 6, 11, 0, 4);
    assert_eq!(response_status(&r, &[3, 2, 0, 0], 4), Ok(DeviceStatus::Error(3)));
    assert_eq!(response_status(&r, &[0, 2, 0, 0], 4), Ok(DeviceStatus::Success));
    assert_eq!(response_status(&r, &[0, 2], 2), Err(DumpError::Transport));
    assert_eq!(device_status(0), DeviceStatus::Success);
    assert_eq!(device_status(0x42), DeviceStatus::Error(0x42));
}

#[test]
fn payload_decoders() {
    let resp = [0u8, 2, 0x34, 0x12];
    assert_eq!(payload_byte(&resp), 0x34);
    assert_eq!(payload_u16_le(&resp), 0x1234);
    assert_eq!(payload_u16_be(&resp), 0x3412);
}
