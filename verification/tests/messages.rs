use oem_driver::messages::{
    ConfirmReset, GetInfo, Message, MessageHeader, RequestReset, SetAcsMode, SetGPSTime, SYNC_WORD,
};

#[test]
fn get_info_frame() {
    let frame = GetInfo::default().serialize();
    assert_eq!(frame, vec![0x90, 0xEB, 0x00, 0x00, 0x1D, 0x00]);
}

#[test]
fn request_reset_frame() {
    let frame = RequestReset::default().serialize();
    assert_eq!(frame, vec![0x90, 0xEB, 0x00, 0x00, 0x5A, 0x00]);
}

#[test]
fn confirm_reset_frame() {
    let frame = ConfirmReset::default().serialize();
    assert_eq!(frame, vec![0x90, 0xEB, 0x00, 0x00, 0xF1, 0x00]);
}

#[test]
fn set_acs_mode_default_frame() {
    let cmd = SetAcsMode::default();
    let frame = cmd.serialize();
    assert_eq!(frame.len(), 6 + 17);
    assert_eq!(&frame[0..6], &[0x90, 0xEB, 17, 0x00, 0x00, 0x00]);
    assert!(frame[6..].iter().all(|b| *b == 0));
}

#[test]
fn set_acs_mode_field_encoding() {
    let cmd = SetAcsMode {
        mode: 5,
        sec_vec: -1,
        pri_axis: 0x01020304,
        ..SetAcsMode::default()
    };
    let frame = cmd.serialize();
    assert_eq!(frame[6], 5);
    assert_eq!(&frame[7..11], &[0xFF, 0xFF, 0xFF, 0xFF]);
    assert_eq!(&frame[11..15], &[0x04, 0x03, 0x02, 0x01]);
}

#[test]
fn set_gps_time_frame() {
    let cmd = SetGPSTime { gps_time: 0x01020304, ..SetGPSTime::default() };
    let frame = cmd.serialize();
    assert_eq!(frame, vec![0x90, 0xEB, 0x04, 0x00, 0x44, 0x00, 0x04, 0x03, 0x02, 0x01]);
}

#[test]
fn length_bytes_decode_to_payload_size() {
    // Bytes 2 and 3 of every structured frame are the payload length,
    // little-endian.
    let acs = SetAcsMode::default().serialize();
    assert_eq!(acs[2] as usize + 256 * acs[3] as usize, acs.len() - 6);
    let gps = SetGPSTime::default().serialize();
    assert_eq!(gps[2] as usize + 256 * gps[3] as usize, gps.len() - 6);
}

#[test]
fn header_serializes_little_endian() {
    let hdr = MessageHeader { sync: SYNC_WORD, data_len: 0x0102, msg_id: 0x41, addr: 7 };
    assert_eq!(hdr.serialize(), vec![0x90, 0xEB, 0x02, 0x01, 0x41, 0x07]);
}
