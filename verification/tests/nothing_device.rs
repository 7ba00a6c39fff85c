//! State of Nothing/CMF headsets, the search for their channel, recognition.

use kairpods::airpods::device::{AirPods, DeviceKind, NothingModel, UpdateOp};
use kairpods::airpods::protocol::NoiseControlMode;
use kairpods::bluetooth::address::Address;
use kairpods::error::{AirPodsError, Unsupported};
use kairpods::event::AirPodsEvent;
use kairpods::nothing::device::{
    channels_for, probe_request, process_frame, request_initial_state, set_anc_level,
    ChannelScan, NothingState,
};
use kairpods::nothing::protocol::{
    build, Frame, Framer, CMD_READ_ANC, CMD_READ_BATTERY, CMD_READ_FIRMWARE,
    CMD_READ_LISTENING_MODE, EVT_ANC, EVT_ANC_ALT, EVT_BATTERY, EVT_BATTERY_ALT, EVT_EQ,
    EVT_FIRMWARE, EVT_LISTENING_MODE,
};
use kairpods::nothing::recognition::{identify, NOTHING_FASTPAIR_UUID, NOTHING_SPP_UUID};

const KIND: DeviceKind = DeviceKind::Nothing { model: NothingModel::CmfHeadphonePro };

fn device() -> AirPods {
    AirPods::new_with_kind(Address([1, 2, 3, 4, 5, 6]), "CMF".to_string(), KIND, false)
}

fn frame(command: u16, payload: &[u8]) -> Frame {
    Frame { command, operation_id: 1, payload: payload.to_vec() }
}

#[test]
fn identifiers_pass_over_zero() {
    let mut state = NothingState::default();
    let mut seen = [false; 256];
    for _ in 0..255 {
        let id = state.next_operation_id();
        assert!(id != 0 && !seen[id as usize]);
        seen[id as usize] = true;
    }
    assert_eq!(state.next_operation_id(), 1);
}

#[test]
fn state_updates() {
    let mut state = NothingState::default();
    assert_eq!(state.firmware(), None);
    assert_eq!(state.update_firmware("1".to_string()), UpdateOp::Inserted);
    assert_eq!(state.update_firmware("1".to_string()), UpdateOp::Noop);
    assert_eq!(state.update_firmware("2".to_string()), UpdateOp::Updated("1".to_string()));
    assert_eq!(state.firmware().as_deref(), Some("2"));
    assert_eq!(state.update_anc_level(3), UpdateOp::Inserted);
    assert_eq!(state.update_anc_level(4), UpdateOp::Updated(4));
    assert_eq!(state.update_eq_preset(4), UpdateOp::Inserted);
    assert_eq!(state.update_eq_preset(4), UpdateOp::Noop);
    state.set_ringing(true);
    let document = state.to_json();
    assert_eq!(document.anc_level, Some(4));
    assert_eq!(document.eq_preset, Some(4));
    assert!(document.ringing);
    assert!(document.supports.battery && document.supports.anc && document.supports.eq);
}

#[test]
fn initial_requests_go_out_in_order() {
    let mut state = NothingState::default();
    let probe = probe_request(&mut state);
    let mut framer = Framer::default();
    let frames = framer.push(probe.as_slice());
    assert_eq!((frames[0].command, frames[0].operation_id), (CMD_READ_BATTERY, 1));
    let packets = request_initial_state(&mut state);
    let mut commands = Vec::new();
    for packet in &packets {
        for frame in framer.push(packet.as_slice()) {
            assert!(frame.payload.is_empty());
            commands.push((frame.command, frame.operation_id));
        }
    }
    assert_eq!(
        commands,
        [
            (CMD_READ_BATTERY, 2),
            (CMD_READ_FIRMWARE, 3),
            (CMD_READ_ANC, 4),
            (CMD_READ_LISTENING_MODE, 5)
        ]
    );
}

#[test]
fn unknown_level_takes_no_identifier() {
    let mut state = NothingState::default();
    let refused = set_anc_level(&mut state, 0).err();
    assert_eq!(refused, Some(AirPodsError::FeatureNotSupported(Unsupported::AncLevel(0))));
    assert_eq!(state.next_operation_id(), 1);
}

#[test]
fn channels_of_models() {
    assert_eq!(channels_for(KIND), [17, 28, 12, 13]);
    let all: Vec<u8> = (1..=30).collect();
    assert_eq!(channels_for(DeviceKind::Nothing { model: NothingModel::Generic }), all);
    assert_eq!(channels_for(DeviceKind::AirPods), all);
}

#[test]
fn search_tries_each_channel_once() {
    let mut search: ChannelScan<&str> = ChannelScan::new(KIND);
    let mut tried = Vec::new();
    while let Some(channel) = search.next_channel() {
        tried.push(channel);
        search.failed("refused");
    }
    assert_eq!(tried, [17, 28, 12, 13]);
    assert_eq!(search.give_up("timeout"), "refused");
    let silent: ChannelScan<&str> = ChannelScan::new(KIND);
    assert_eq!(silent.give_up("timeout"), "timeout");
}

#[test]
fn fast_pair_answer_starts_a_second_pass() {
    let mut search: ChannelScan<&str> = ChannelScan::new(KIND);
    let mut tried = Vec::new();
    while let Some(channel) = search.next_channel() {
        tried.push(channel);
        let answer: &[u8] = if channel == 12 { &[0x03, 0x01, 0x00] } else { &[0x07] };
        assert!(search.answered(answer).is_none());
    }
    assert_eq!(tried, [17, 28, 12, 13, 17, 28, 12, 13]);
    assert_eq!(search.give_up("timeout"), "timeout");
}

#[test]
fn frame_ends_the_search() {
    let mut search: ChannelScan<&str> = ChannelScan::new(KIND);
    search.next_channel();
    let mut answer = build(EVT_BATTERY, &[1, 6, 80], 7).as_slice().to_vec();
    answer.extend_from_slice(&[0x55, 0x60]);
    let (mut framer, frames) = search.answered(&answer).unwrap();
    assert_eq!(frames.len(), 1);
    assert_eq!(frames[0].payload, [1, 6, 80]);
    // The framer goes on where the answer ended.
    let rest = build(EVT_ANC, &[1, 5], 8);
    assert_eq!(framer.push(&rest.as_slice()[2..]).len(), 1);
}

#[test]
fn frames_are_taken_in() {
    let mut device = device();
    for command in [EVT_BATTERY, EVT_BATTERY_ALT] {
        let level = if command == EVT_BATTERY { 80 } else { 79 };
        let report = frame(command, &[1, 6, level]);
        let event = process_frame(&mut device, &report);
        assert!(matches!(event, Some(AirPodsEvent::BatteryUpdated(b)) if b.headphone.level == level));
        assert_eq!(process_frame(&mut device, &report), None);
    }
    assert_eq!(
        process_frame(&mut device, &frame(EVT_ANC, &[1, 3])),
        Some(AirPodsEvent::NoiseControlChanged(NoiseControlMode::Active))
    );
    // Another level of the same mode.
    assert_eq!(
        process_frame(&mut device, &frame(EVT_ANC_ALT, &[1, 1])),
        Some(AirPodsEvent::DeviceInfoChanged)
    );
    assert_eq!(process_frame(&mut device, &frame(EVT_ANC_ALT, &[1, 1])), None);
    assert_eq!(device.nothing().anc_level(), Some(4));
    for (command, payload) in
        [(EVT_FIRMWARE, &b"1.0"[..]), (EVT_EQ, &[2]), (EVT_LISTENING_MODE, &[3])]
    {
        let report = frame(command, payload);
        assert_eq!(
            process_frame(&mut device, &report),
            Some(AirPodsEvent::DeviceInfoChanged)
        );
        assert_eq!(process_frame(&mut device, &report), None);
    }
    assert_eq!(device.nothing().firmware().as_deref(), Some("1.0"));
    assert_eq!(device.nothing().eq_preset(), Some(3));
}

#[test]
fn unreadable_frames_change_nothing() {
    let mut device = device();
    for report in [
        frame(EVT_BATTERY, &[]),
        frame(EVT_ANC, &[1]),
        frame(EVT_FIRMWARE, &[0xff]),
        frame(EVT_EQ, &[]),
        frame(1, &[1, 2, 3]),
    ] {
        assert_eq!(process_frame(&mut device, &report), None);
    }
    assert!(device.battery_info().is_none());
    assert!(device.noise_mode().is_none());
}

#[test]
fn recognition_by_name_and_service() {
    let generic = Some(DeviceKind::Nothing { model: NothingModel::Generic });
    assert_eq!(identify(Some("CMF Headphone Pro"), None, &[]), Some(KIND));
    assert_eq!(identify(None, Some("CMF Headphone Pro"), &[]), Some(KIND));
    assert_eq!(identify(Some("Speaker"), Some("CMF Headphone Pro"), &[]), None);
    assert_eq!(identify(Some("Speaker"), None, &[1, NOTHING_SPP_UUID]), generic);
    assert_eq!(identify(None, None, &[NOTHING_FASTPAIR_UUID]), generic);
    assert_eq!(identify(Some("cmf headphone pro"), None, &[NOTHING_SPP_UUID]), Some(KIND));
    assert_eq!(identify(None, None, &[2]), None);
    assert_eq!(
        uuid::Uuid::from_u128(NOTHING_SPP_UUID).to_string(),
        "aeac4a03-dff5-498f-843a-34487cf133eb"
    );
}
