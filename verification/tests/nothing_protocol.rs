//! The Nothing/CMF wire format.

use kairpods::airpods::protocol::{BatteryState, BatteryStatus, NoiseControlMode};
use kairpods::nothing::protocol::{
    anc_level_to_mode, anc_level_to_payload, anc_level_to_strength_payload, build, crc16,
    listening_mode_payload, mode_to_anc_level, parse_anc_level, parse_battery, parse_eq_preset,
    parse_firmware, ring_payload, Framer, CMD_READ_BATTERY, CMD_RING, EVT_FIRMWARE,
};

#[test]
fn build_and_parse_roundtrip() {
    let packet = build(CMD_READ_BATTERY, &[1, 6, 80], 7);
    let mut framer = Framer::default();
    let frames = framer.push(packet.as_slice());
    assert_eq!(frames.len(), 1);
    assert_eq!(frames[0].command, CMD_READ_BATTERY);
    assert_eq!(frames[0].operation_id, 7);
    assert_eq!(frames[0].payload, [1, 6, 80]);
}

#[test]
fn parse_b175_anc_reports() {
    assert_eq!(parse_anc_level(&[0x01, 0x07, 0x00, 0x02, 0x04, 0x00]), Some(2));
    assert_eq!(parse_anc_level(&[0x01, 0x01, 0x00, 0x02, 0x01, 0x00]), Some(4));
    assert_eq!(parse_anc_level(&[0x01, 0x02, 0x00, 0x02, 0x02, 0x00]), Some(5));
    assert_eq!(parse_anc_level(&[0x01, 0x04, 0x00, 0x02, 0x04, 0x00]), Some(6));
}

#[test]
fn build_b175_anc_payloads() {
    assert_eq!(anc_level_to_payload(1), Some([0x01, 0x05, 0x00]));
    assert_eq!(anc_level_to_payload(2), Some([0x01, 0x07, 0x00]));
    assert_eq!(anc_level_to_payload(3), Some([0x01, 0x03, 0x00]));
    assert_eq!(anc_level_to_payload(4), Some([0x01, 0x01, 0x00]));
    assert_eq!(anc_level_to_payload(5), Some([0x01, 0x02, 0x00]));
    assert_eq!(anc_level_to_payload(6), Some([0x01, 0x04, 0x00]));
    assert_eq!(anc_level_to_strength_payload(3), Some([0x02, 0x03, 0x00]));
    assert_eq!(anc_level_to_strength_payload(4), Some([0x02, 0x01, 0x00]));
    assert_eq!(anc_level_to_strength_payload(5), Some([0x02, 0x02, 0x00]));
    assert_eq!(anc_level_to_strength_payload(6), Some([0x02, 0x04, 0x00]));
}

#[test]
fn checksum_of_known_text() {
    assert_eq!(crc16(b"123456789"), 0x4b37);
    assert_eq!(crc16(&[]), 0xffff);
}

#[test]
fn built_frame_has_header_and_checksum() {
    let packet = build(CMD_RING, &[0x02, 0x01], 9);
    let bytes = packet.as_slice();
    assert_eq!(bytes.len(), 12);
    assert_eq!(&bytes[..8], &[0x55, 0x60, 0x01, 0x02, 0xf0, 0x02, 0x00, 0x09]);
    assert_eq!(&bytes[8..10], &[0x02, 0x01]);
    let crc = crc16(&bytes[..10]);
    assert_eq!(&bytes[10..], &crc.to_le_bytes());
}

#[test]
fn long_payload_is_cut() {
    let payload: Vec<u8> = (0..300u32).map(|n| n as u8).collect();
    let packet = build(CMD_RING, &payload, 1);
    assert_eq!(packet.as_slice().len(), 8 + 255 + 2);
    let frames = Framer::default().push(packet.as_slice());
    assert_eq!(frames.len(), 1);
    assert_eq!(frames[0].payload, &payload[..255]);
}

#[test]
fn pieces_do_not_matter() {
    let mut stream: Vec<u8> = vec![0x00, 0x13];
    stream.extend_from_slice(build(CMD_RING, &[1, 2, 3], 4).as_slice());
    stream.extend_from_slice(build(CMD_READ_BATTERY, &[], 5).as_slice());
    let whole = Framer::default().push(&stream);
    assert_eq!(whole.len(), 2);
    let mut framer = Framer::default();
    let mut pieces = Vec::new();
    for byte in &stream {
        pieces.extend(framer.push(&[*byte]));
    }
    assert_eq!(pieces, whole);
}

#[test]
fn unfinished_frame_waits() {
    let packet = build(CMD_RING, &[1], 4);
    let bytes = packet.as_slice();
    let mut framer = Framer::default();
    assert!(framer.push(&bytes[..bytes.len() - 1]).is_empty());
    assert_eq!(framer.push(&bytes[bytes.len() - 1..]).len(), 1);
}

#[test]
fn noise_before_a_frame_is_skipped() {
    let mut stream: Vec<u8> = vec![0x01, 0x02, 0x03];
    stream.extend_from_slice(build(CMD_RING, &[7], 4).as_slice());
    let frames = Framer::default().push(&stream);
    assert_eq!(frames.len(), 1);
    assert_eq!(frames[0].payload, [7]);
}

#[test]
fn changed_frame_is_dropped() {
    let good = build(CMD_RING, &[7, 8], 4);
    let mut stream = good.as_slice().to_vec();
    stream[8] = 9;
    stream.extend_from_slice(good.as_slice());
    let frames = Framer::default().push(&stream);
    assert_eq!(frames.len(), 1);
    assert_eq!(frames[0].payload, [7, 8]);
}

#[test]
fn frame_without_checksum_is_read() {
    let frames = Framer::default().push(&[0x55, 0x20, 0x01, 0x42, 0x40, 0x01, 0x00, 0x03, 0x31]);
    assert_eq!(frames.len(), 1);
    assert_eq!(frames[0].command, EVT_FIRMWARE);
    assert_eq!(frames[0].operation_id, 3);
    assert_eq!(frames[0].payload, [0x31]);
}

#[test]
fn battery_reports() {
    assert!(parse_battery(&[]).is_none());
    let battery = parse_battery(&[3, 0x02, 80, 0x03, 0x80 | 55, 0x04, 30]).unwrap();
    assert_eq!(battery.left, BatteryState { level: 80, status: BatteryStatus::Normal });
    assert_eq!(battery.right, BatteryState { level: 55, status: BatteryStatus::Charging });
    assert_eq!(battery.case, BatteryState { level: 30, status: BatteryStatus::Normal });
    assert_eq!(battery.headphone, BatteryState::new());
    // Fewer pairs than announced, an unknown component, and a repeated one.
    let battery = parse_battery(&[9, 0x06, 40, 0x77, 1, 0x06, 41, 0x02]).unwrap();
    assert_eq!(battery.headphone.level, 41);
    assert_eq!(battery.left, BatteryState::new());
}

#[test]
fn firmware_reports() {
    assert_eq!(parse_firmware(b" 1.0.1.60\t\0\0").as_deref(), Some("1.0.1.60"));
    assert_eq!(parse_firmware(b"\0\0"), None);
    assert_eq!(parse_firmware(b""), None);
    assert_eq!(parse_firmware(&[0xff, 0xfe]), None);
    assert_eq!(parse_firmware("v\u{e9}\0".as_bytes()).as_deref(), Some("v\u{e9}"));
}

#[test]
fn short_anc_reports() {
    assert_eq!(parse_anc_level(&[]), None);
    assert_eq!(parse_anc_level(&[0x01]), None);
    assert_eq!(parse_anc_level(&[0x01, 0x05]), Some(1));
    assert_eq!(parse_anc_level(&[0x01, 0x03, 0x00, 0x02]), None);
    assert_eq!(parse_anc_level(&[0x01, 0x03, 0x00, 0x09, 0x04]), Some(3));
    assert_eq!(parse_anc_level(&[0x01, 0x66]), None);
}

#[test]
fn levels_and_modes() {
    assert_eq!(anc_level_to_mode(0), None);
    assert_eq!(anc_level_to_mode(1), Some(NoiseControlMode::Off));
    assert_eq!(anc_level_to_mode(2), Some(NoiseControlMode::Transparency));
    assert_eq!(anc_level_to_mode(3), Some(NoiseControlMode::Active));
    assert_eq!(anc_level_to_mode(5), Some(NoiseControlMode::Active));
    assert_eq!(anc_level_to_mode(6), Some(NoiseControlMode::Adaptive));
    assert_eq!(anc_level_to_mode(7), None);
    for mode in NoiseControlMode::iter() {
        let level = mode_to_anc_level(mode);
        assert_eq!(anc_level_to_mode(level), Some(mode));
        assert_eq!(parse_anc_level(&anc_level_to_payload(level).unwrap()), Some(level));
    }
    assert_eq!(anc_level_to_payload(0), None);
    assert_eq!(anc_level_to_payload(7), None);
    assert_eq!(anc_level_to_strength_payload(2), None);
}

#[test]
fn other_payloads() {
    assert_eq!(parse_eq_preset(&[3, 4]), Some(3));
    assert_eq!(parse_eq_preset(&[]), None);
    assert_eq!(listening_mode_payload(3), [3, 0]);
    assert_eq!(ring_payload(true), [2, 1]);
    assert_eq!(ring_payload(false), [2, 0]);
}

#[test]
fn frames_are_read_in_order() {
    let mut stream: Vec<u8> = Vec::new();
    for id in 1..=5u8 {
        stream.extend_from_slice(build(CMD_RING, &vec![id; id as usize], id).as_slice());
    }
    let frames = Framer::default().push(&stream);
    let ids: Vec<u8> = frames.iter().map(|frame| frame.operation_id).collect();
    assert_eq!(ids, [1, 2, 3, 4, 5]);
    assert_eq!(frames[3].payload, [4, 4, 4, 4]);
}
