//! Headsets: kinds, reports, requests and documents.

use kairpods::airpods::device::{
    classify_packet, starts_with, AirPods, DeviceKind, FeatureCmd, Link, NothingModel, Outgoing,
    PacketHeaders, PacketKind, PacketReading, PacketReport, UpdateOp, NOISE_CONTROL_COMMAND,
};
use kairpods::airpods::handshake::{notify_retry, HandshakeStep};
use kairpods::airpods::protocol::{
    BatteryInfo, BatteryState, BatteryStatus, EarDetectionStatus, FeatureBitmap, FeatureId,
    NoiseControlMap, NoiseControlMode,
};
use kairpods::battery_study::{Blend, DrainForecast, HistoricalRate, LocalRate, Moment};
use kairpods::bluetooth::address::Address;
use kairpods::error::{AirPodsError, Unsupported};
use kairpods::event::AirPodsEvent;
use kairpods::nothing::protocol::{anc_level_to_payload, Framer, CMD_RING, CMD_SET_ANC};
use smol_str::SmolStr;

const ADDRESS: Address = Address([0x00, 0x1A, 0x7D, 0xDA, 0x71, 0x13]);
const NOW: Moment = Moment { nanos: 0 };

fn airpods() -> AirPods {
    AirPods::new(ADDRESS, "Pods".to_string(), true)
}

fn cmf() -> AirPods {
    let kind = DeviceKind::Nothing { model: NothingModel::CmfHeadphonePro };
    AirPods::new_with_kind(ADDRESS, "CMF Headphone Pro".to_string(), kind, false)
}

fn battery(left: u8, right: u8) -> BatteryInfo {
    let mut info = BatteryInfo::new();
    info.left = BatteryState { level: left, status: BatteryStatus::Normal };
    info.right = BatteryState { level: right, status: BatteryStatus::Normal };
    info
}

#[test]
fn kinds_have_names() {
    assert_eq!(DeviceKind::default(), DeviceKind::AirPods);
    assert_eq!(DeviceKind::AirPods.protocol(), "airpods_aap");
    assert_eq!(DeviceKind::AirPods.vendor(), "apple");
    let kind = DeviceKind::Nothing { model: NothingModel::Generic };
    assert_eq!(kind.protocol(), "nothing_spp");
    assert_eq!(kind.vendor(), "nothing");
    assert_eq!(NothingModel::CmfHeadphonePro.model_base(), "B175");
    assert_eq!(NothingModel::CmfHeadphonePro.display_name(), "CMF Headphone Pro");
    assert_eq!(NothingModel::Generic.model_base(), "unknown");
    assert_eq!(NothingModel::Generic.display_name(), "Nothing/CMF Device");
}

#[test]
fn letter_case_does_not_matter() {
    let from_name = NothingModel::from_name;
    assert_eq!(from_name("My CMF HeadPhone Pro 2"), Some(NothingModel::CmfHeadphonePro));
    assert_eq!(from_name("my cmf headphone pro 2"), Some(NothingModel::CmfHeadphonePro));
    assert_eq!(from_name("NOTHING Ear (2)"), Some(NothingModel::Generic));
    assert_eq!(from_name("CMF Buds"), Some(NothingModel::Generic));
    assert_eq!(from_name("AirPods Pro"), None);
    assert_eq!(from_name(""), None);
}

#[test]
fn updates_are_told_apart() {
    assert_eq!(UpdateOp::new(None, None::<u8>), UpdateOp::Noop);
    assert_eq!(UpdateOp::new(None, Some(1u8)), UpdateOp::Inserted);
    assert_eq!(UpdateOp::new(Some(1u8), None), UpdateOp::Deleted(1));
    assert_eq!(UpdateOp::new(Some(1u8), Some(1)), UpdateOp::Noop);
    assert_eq!(UpdateOp::new(Some(1u8), Some(2)), UpdateOp::Updated(2));
    assert!(UpdateOp::<u8>::Inserted.is_updated());
    assert!(UpdateOp::Updated(2u8).is_updated());
    assert!(!UpdateOp::Deleted(2u8).is_updated());
    let mut value = Some(3u8);
    assert_eq!(UpdateOp::apply(&mut value, Some(4)), UpdateOp::Updated(4));
    assert_eq!(value, Some(4));
}

#[test]
fn address_is_written_out() {
    let device = airpods();
    assert_eq!(device.address_str().as_str(), "00:1A:7D:DA:71:13");
    assert_eq!(ADDRESS.to_text(), "00:1A:7D:DA:71:13");
    assert_eq!(device.name().as_str(), "Pods");
    assert!(!device.is_connected());
    assert!(device.link().is_none());
}

#[test]
fn names_are_replaced() {
    let mut device = airpods();
    assert_eq!(device.update_name(SmolStr::new("Pods")), UpdateOp::Noop);
    assert_eq!(
        device.update_name(SmolStr::new("Other")),
        UpdateOp::Updated(SmolStr::new("Pods"))
    );
    assert_eq!(device.name().as_str(), "Other");
}

#[test]
fn default_estimate_matches_the_rate() {
    for level in 0..=255u8 {
        let mut device = airpods();
        device.update_battery_info(Some(battery(level, 255)));
        let minutes = (f64::from(level) / 16.9 * 60.0) as u32;
        assert_eq!(device.estimate_battery_ttl(None), Some(minutes));
    }
    assert_eq!(airpods().estimate_battery_ttl(None), None);
    let mut device = airpods();
    device.update_battery_info(Some(battery(50, 40)));
    assert_eq!(device.estimate_battery_ttl(None), Some(142));
    let forecast = Some(DrainForecast { rate: 20f64.to_bits(), minutes: 90, smoothed: 80 });
    assert_eq!(device.estimate_battery_ttl(forecast), Some(90));
    assert_eq!(device.estimate_battery_ttl(forecast), Some(80));
}

#[test]
fn features_are_listed() {
    let mut device = airpods();
    assert!(device.features().is_empty());
    assert!(!device.set_feature_enabled(FeatureId(9), true));
    assert!(device.set_feature_enabled(FeatureId(9), false));
    assert!(!device.set_feature_enabled(FeatureId(3), true));
    assert_eq!(device.features(), [(FeatureId(3), true), (FeatureId(9), false)]);
    assert!(device.feature_enabled(FeatureId(3)));
    assert!(!device.feature_enabled(FeatureId(200)));
}

#[test]
fn feature_sets() {
    let mut set = FeatureBitmap::new();
    assert!(!set.set(FeatureId(255), true));
    assert!(!set.set(FeatureId(0), true));
    assert!(set.get(FeatureId(255)));
    assert!(!set.get(FeatureId(1)));
    assert_eq!(set.iter(), [FeatureId(0), FeatureId(255)]);
    assert_eq!(FeatureId(17).id(), 17);
}

#[test]
fn maps_by_mode() {
    let mut map = NoiseControlMap::new();
    assert!(map.is_empty());
    for (n, mode) in NoiseControlMode::iter().into_iter().enumerate() {
        map.insert(mode, n);
    }
    assert_eq!(map.len(), 4);
    map.insert(NoiseControlMode::Active, 9);
    assert_eq!(map.get(NoiseControlMode::Active), Some(&9));
    map.remove(NoiseControlMode::Off);
    assert_eq!(map.get(NoiseControlMode::Off), None);
    assert_eq!(map.len(), 3);
}

fn headers() -> PacketHeaders {
    PacketHeaders {
        battery_state: vec![4, 0, 4],
        noise_control: vec![4, 0, 9],
        ear_detection: vec![4, 0, 6],
        metadata: vec![4, 0, 0x1d],
        ack_handshake: vec![1, 0],
        ack_features: vec![4, 0, 0x2b],
    }
}

#[test]
fn packets_are_told_apart() {
    let headers = headers();
    assert_eq!(classify_packet(&[4, 0, 4, 0], &headers), PacketKind::BatteryState);
    assert_eq!(classify_packet(&[4, 0, 9], &headers), PacketKind::NoiseControl);
    assert_eq!(classify_packet(&[4, 0, 6, 1, 2], &headers), PacketKind::EarDetection);
    assert_eq!(classify_packet(&[4, 0, 0x1d], &headers), PacketKind::Metadata);
    assert_eq!(classify_packet(&[1, 0, 4, 0], &headers), PacketKind::AckHandshake);
    assert_eq!(classify_packet(&[4, 0, 0x2b], &headers), PacketKind::AckFeatures);
    assert_eq!(classify_packet(&[4, 0], &headers), PacketKind::Other);
    assert_eq!(classify_packet(&[], &headers), PacketKind::Other);
    assert!(starts_with(&[1], &vec![]));
}

#[test]
fn first_header_decides() {
    let mut headers = headers();
    headers.noise_control = vec![4];
    assert_eq!(classify_packet(&[4, 0, 4], &headers), PacketKind::BatteryState);
    assert_eq!(classify_packet(&[4, 0, 6], &headers), PacketKind::NoiseControl);
}

#[test]
fn header_picks_the_reading() {
    let info = battery(80, 70);
    let ears = EarDetectionStatus { left_in_ear: true, right_in_ear: true };
    let reading = PacketReading {
        battery: Some(info),
        noise_mode: Some(NoiseControlMode::Active),
        ear_detection: Some(ears),
        name_candidate: Some(SmolStr::new("New")),
        feature: Some((FeatureId(7), FeatureCmd::Enable)),
    };
    let headers = headers();
    let mut device = airpods();
    let mut take = |packet: &[u8]| device.process_packet(packet, &headers, reading.clone(), NOW);
    assert_eq!(take(&[4, 0, 4, 1]), Some(AirPodsEvent::BatteryUpdated(info)));
    assert_eq!(
        take(&[4, 0, 9]),
        Some(AirPodsEvent::NoiseControlChanged(NoiseControlMode::Active))
    );
    assert_eq!(take(&[4, 0, 6]), Some(AirPodsEvent::EarDetectionChanged(ears)));
    assert_eq!(
        take(&[4, 0, 0x1d]),
        Some(AirPodsEvent::DeviceNameChanged(SmolStr::new("New")))
    );
    assert_eq!(take(&[1, 0]), None);
    assert_eq!(take(&[4, 0, 0x2b]), None);
    assert!(device.features().is_empty());
    assert_eq!(device.process_packet(&[9], &headers, reading.clone(), NOW), None);
    assert_eq!(device.features(), [(FeatureId(7), true)]);
    let unreadable = PacketReading { battery: None, ..reading };
    assert_eq!(device.process_packet(&[4, 0, 4], &headers, unreadable, NOW), None);
}

#[test]
fn packets_are_taken_in() {
    let mut device = airpods();
    let info = battery(80, 70);
    assert_eq!(
        device.process_report(PacketReport::Battery(info), NOW),
        Some(AirPodsEvent::BatteryUpdated(info))
    );
    assert_eq!(device.process_report(PacketReport::Battery(info), NOW), None);
    assert_eq!(device.battery_info(), Some(info));
    assert_eq!(device.battery_tracker().left_history.len(), 1);
    let mode = NoiseControlMode::Adaptive;
    assert_eq!(
        device.process_report(PacketReport::NoiseControl(mode), NOW),
        Some(AirPodsEvent::NoiseControlChanged(mode))
    );
    assert_eq!(device.process_report(PacketReport::NoiseControl(mode), NOW), None);
    let ears = EarDetectionStatus { left_in_ear: true, right_in_ear: false };
    assert_eq!(
        device.process_report(PacketReport::EarDetection(ears), NOW),
        Some(AirPodsEvent::EarDetectionChanged(ears))
    );
    assert_eq!(device.process_report(PacketReport::EarDetection(ears), NOW), None);
    let name = PacketReport::Metadata { name_candidate: Some(SmolStr::new("New")) };
    assert_eq!(
        device.process_report(name.clone(), NOW),
        Some(AirPodsEvent::DeviceNameChanged(SmolStr::new("New")))
    );
    assert_eq!(device.process_report(name, NOW), None);
    let nameless = PacketReport::Metadata { name_candidate: None };
    assert_eq!(device.process_report(nameless, NOW), None);
    let feature = FeatureId(4);
    for (command, list) in [
        (FeatureCmd::Other, vec![]),
        (FeatureCmd::Enable, vec![(feature, true)]),
        (FeatureCmd::Disable, vec![(feature, false)]),
    ] {
        assert_eq!(device.process_report(PacketReport::Feature { feature, command }, NOW), None);
        assert_eq!(device.features(), list);
    }
    assert_eq!(device.process_report(PacketReport::Nothing, NOW), None);
}

#[test]
fn disconnected_device_refuses() {
    for mut device in [airpods(), cmf()] {
        let mode = NoiseControlMode::Off;
        let refused = AirPodsError::DeviceNotConnected;
        assert_eq!(device.set_noise_control(mode).err(), Some(refused));
        assert_eq!(device.set_nothing_anc_level(1).err(), Some(refused));
        assert_eq!(device.set_nothing_eq_preset(1).err(), Some(refused));
        assert_eq!(device.set_nothing_ring(true).err(), Some(refused));
        assert_eq!(device.set_feature(FeatureId(1), true).err(), Some(refused));
        assert_eq!(device.passthrough().err(), Some(refused));
    }
}

#[test]
fn airpods_requests() {
    let mut device = airpods();
    assert_eq!(device.connect(), Link::AirPods);
    assert!(device.connected());
    assert!(device.is_connected());
    assert_eq!(device.passthrough(), Ok(Link::AirPods));
    let mode = NoiseControlMode::Transparency;
    let request = device.set_noise_control(mode);
    assert!(matches!(
        request,
        Ok(Outgoing::NoiseControl {
            command: NOISE_CONTROL_COMMAND,
            mode: NoiseControlMode::Transparency
        })
    ));
    assert_eq!(device.noise_mode(), None);
    device.noise_control_sent(mode);
    assert_eq!(device.noise_mode(), Some(mode));
    assert!(matches!(
        device.set_feature(FeatureId(5), true),
        Ok(Outgoing::Feature { feature: FeatureId(5), enabled: true })
    ));
    device.feature_sent(FeatureId(5), true);
    assert!(device.feature_enabled(FeatureId(5)));
    for (error, text) in [
        (
            device.set_nothing_anc_level(1).err(),
            "Nothing/CMF ANC levels are not supported by AirPods",
        ),
        (
            device.set_nothing_eq_preset(1).err(),
            "Nothing/CMF EQ presets are not supported by AirPods",
        ),
        (device.set_nothing_ring(true).err(), "Nothing/CMF ring is not supported by AirPods"),
    ] {
        match error {
            Some(AirPodsError::FeatureNotSupported(why)) => assert_eq!(why.message(), text),
            other => panic!("{other:?}"),
        }
    }
}

#[test]
fn nothing_requests() {
    let mut device = cmf();
    assert_eq!(device.connect(), Link::Nothing);
    assert!(!device.connected());
    assert_eq!(device.passthrough(), Ok(Link::Nothing));
    let mode = NoiseControlMode::Active;
    let Ok(Outgoing::Frame(packet)) = device.set_noise_control(mode) else { panic!() };
    let frames = Framer::default().push(packet.as_slice());
    assert_eq!(frames[0].command, CMD_SET_ANC);
    assert_eq!(frames[0].operation_id, 1);
    assert_eq!(frames[0].payload, anc_level_to_payload(4).unwrap());
    device.noise_control_sent(mode);
    assert_eq!(device.noise_mode(), Some(mode));
    assert_eq!(device.nothing().anc_level(), Some(4));

    let Ok(Outgoing::Frame(packet)) = device.set_nothing_anc_level(6) else { panic!() };
    assert_eq!(Framer::default().push(packet.as_slice())[0].operation_id, 2);
    device.anc_level_sent(6);
    assert_eq!(device.noise_mode(), Some(NoiseControlMode::Adaptive));

    let Ok(Outgoing::Frame(packet)) = device.set_nothing_eq_preset(3) else { panic!() };
    assert_eq!(Framer::default().push(packet.as_slice())[0].payload, [3, 0]);
    device.eq_preset_sent(3);
    assert_eq!(device.nothing().eq_preset(), Some(3));

    let Ok(Outgoing::Frame(packet)) = device.set_nothing_ring(true) else { panic!() };
    let frames = Framer::default().push(packet.as_slice());
    assert_eq!((frames[0].command, frames[0].operation_id), (CMD_RING, 4));
    device.ring_sent(true);
    assert!(device.nothing().ringing());

    assert_eq!(
        device.set_nothing_anc_level(7).err(),
        Some(AirPodsError::FeatureNotSupported(Unsupported::AncLevel(7)))
    );
    assert_eq!(Unsupported::AncLevel(7).message(), "ANC level 7");
    assert_eq!(Unsupported::AncLevel(205).message(), "ANC level 205");
    let error = device.set_feature(FeatureId(1), true).err();
    assert_eq!(error, Some(AirPodsError::FeatureNotSupported(Unsupported::FeatureFlags)));
    assert_eq!(
        Unsupported::FeatureFlags.message(),
        "AirPods feature bitmap is not supported by Nothing/CMF devices"
    );
}

#[test]
fn disconnecting_saves() {
    let mut device = airpods();
    device.connect();
    device.connected();
    let local = LocalRate { rate: 5, alpha_tenths: 1, samples: 4 };
    let save = device.disconnect(Some(local)).unwrap();
    assert_eq!((save.mode, save.rate, save.samples), (NoiseControlMode::Off, 5, 4));
    assert!(!device.is_connected());
    assert!(device.link().is_none());
    device.update_noise_mode(Some(NoiseControlMode::Active));
    let (save, event) = device.notify_transport_disconnected(Some(local));
    assert_eq!(save.unwrap().mode, NoiseControlMode::Active);
    assert_eq!(event, AirPodsEvent::DeviceDisconnected);
}

#[test]
fn ticks_save_when_due() {
    let mut device = airpods();
    let local = Some(LocalRate { rate: 5, alpha_tenths: 1, samples: 4 });
    for n in 0..4 {
        let report = PacketReport::Battery(battery(90 - n, 90 - n));
        device.process_report(report, NOW);
    }
    let due = Moment { nanos: 300_000_000_000 };
    assert!(device.tick(due, local).is_none());
    device.connect();
    device.connected();
    assert!(device.tick(Moment { nanos: due.nanos - 1 }, local).is_none());
    assert!(device.tick(due, local).is_some());
    assert!(!airpods().should_save_battery_study(5, due));
}

#[test]
fn estimates_are_planned_for_the_mode() {
    let mut device = airpods();
    let mut rows = NoiseControlMap::new();
    rows.insert(NoiseControlMode::Active, HistoricalRate { rate: 1, confidence: 0 });
    rows.insert(NoiseControlMode::Off, HistoricalRate { rate: 3, confidence: 0 });
    assert!(device.plan_battery_ttl(None, &rows, NOW).is_none());
    device.update_battery_info(Some(battery(50, 40)));
    let plan = device.plan_battery_ttl(None, &rows, NOW).unwrap();
    assert_eq!(plan.blend, Blend::Historical { rate: 3, alpha_tenths: 5 });
    assert_eq!(plan.lowest_level, 40);
    device.update_noise_mode(Some(NoiseControlMode::Active));
    let plan = device.plan_battery_ttl(None, &rows, NOW).unwrap();
    assert_eq!(plan.blend, Blend::Historical { rate: 1, alpha_tenths: 5 });
}

#[test]
fn documents_show_devices() {
    let mut device = airpods();
    let document = device.to_json(None);
    assert_eq!(document.address, "00:1A:7D:DA:71:13");
    assert_eq!(document.name, "Pods");
    assert!(!document.connected);
    assert_eq!((document.vendor, document.protocol), ("apple", "airpods_aap"));
    assert!(document.nothing.is_none());
    assert!(document.battery.is_none());
    assert!(document.battery_ttl_estimate.is_none());
    device.update_battery_info(Some(battery(50, 40)));
    device.update_ear_detection(Some(EarDetectionStatus {
        left_in_ear: true,
        right_in_ear: true,
    }));
    device.set_feature_enabled(FeatureId(2), true);
    let document = device.to_json(None);
    assert_eq!(document.battery_ttl_estimate, Some(142));
    assert!(document.ear_detection.unwrap().is_left_in_ear());
    assert_eq!(document.features, [(FeatureId(2), true)]);

    let mut device = cmf();
    device.nothing_mut().update_firmware("1.2".to_string());
    let document = device.to_json(None);
    let part = document.nothing.unwrap();
    assert_eq!((part.model, part.model_base), ("CMF Headphone Pro", "B175"));
    assert_eq!(part.nothing.firmware.as_deref(), Some("1.2"));
    assert!(part.nothing.supports.ring);
    assert!(!part.nothing.supports.gestures);
}

#[test]
fn sent_packets_open_the_connection() {
    for (acked, features_acked) in [(true, true), (false, true), (false, false)] {
        let step = HandshakeStep::start();
        let step = step.next(true).next(acked).next(true).next(features_acked).next(true);
        assert_eq!(step, HandshakeStep::Complete);
    }
    assert_eq!(HandshakeStep::start().next(false), HandshakeStep::Failed);
    assert_eq!(HandshakeStep::SendFeatures.next(false), HandshakeStep::Failed);
    assert_eq!(HandshakeStep::SendNotify.next(false), HandshakeStep::Failed);
    assert_eq!(HandshakeStep::Failed.next(true), HandshakeStep::Failed);
}

#[test]
fn notifications_are_asked_for_again() {
    let delays: Vec<Option<u64>> = (0..5).map(|n| notify_retry(n, false)).collect();
    assert_eq!(delays, [Some(2), Some(3), Some(5), Some(10), None]);
    assert_eq!(notify_retry(0, true), None);
}
