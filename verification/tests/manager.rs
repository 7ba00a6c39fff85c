//! The manager of adapters, headsets and connections.

use kairpods::airpods::device::{DeviceKind, NothingModel, PacketReport};
use kairpods::airpods::protocol::{BatteryInfo, BatteryState, BatteryStatus, NoiseControlMode};
use kairpods::battery_study::{DrainRecord, LocalRate, Moment};
use kairpods::bluetooth::address::Address;
use kairpods::bluetooth::manager::{
    adapter_opening, calc_retry_delay, identify_supported_device, retry_delay, AdapterOpening,
    BluetoothManager, DeviceProbe, HealthChange, ManagerAction, ManagerCommand, Pairing,
    ADAPTER_RECOVERY_DELAY_MILLIS,
};
use kairpods::error::AirPodsError;
use kairpods::event::AirPodsEvent;
use smol_str::SmolStr;

const A: Address = Address([1, 0, 0, 0, 0, 0]);
const B: Address = Address([2, 0, 0, 0, 0, 0]);
const LOCAL: LocalRate = LocalRate { rate: 5, alpha_tenths: 1, samples: 4 };

fn hci(n: u8) -> SmolStr {
    SmolStr::new(format!("hci{n}"))
}

fn probe() -> DeviceProbe {
    DeviceProbe { kind: Some(DeviceKind::AirPods), connected: true, name: None }
}

/// Two adapters, and a headset on each.
fn manager() -> BluetoothManager {
    let mut manager = BluetoothManager::new(true);
    manager.initialize_adapter(hci(0), AdapterOpening::Ready);
    manager.initialize_adapter(hci(1), AdapterOpening::Ready);
    manager.handle_device_discovered(A, hci(0), probe());
    manager.handle_device_discovered(B, hci(1), probe());
    manager
}

/// The same, with a control connection to the first headset.
fn connected() -> BluetoothManager {
    let mut manager = manager();
    manager.establish_aap_connection(A, Pairing::Paired).unwrap();
    let device = manager.device_mut(A).unwrap();
    device.connect();
    device.connected();
    manager.handle_aap_connected(A);
    manager
}

#[test]
fn delays_double_up_to_a_limit() {
    let delays: Vec<u64> = (0..7).map(|n| retry_delay(n, 0)).collect();
    assert_eq!(delays, [2000, 4000, 8000, 16000, 32000, 32000, 32000]);
    assert_eq!(retry_delay(u32::MAX, 999), 32999);
    for n in 0..6 {
        for _ in 0..200 {
            let delay = calc_retry_delay(n);
            assert!(delay >= retry_delay(n, 0) && delay <= retry_delay(n, 999));
        }
    }
}

#[test]
fn random_part_varies() {
    let first = calc_retry_delay(0);
    assert!((0..100).any(|_| calc_retry_delay(0) != first));
}

#[test]
fn adapters_are_set_up() {
    let mut manager = BluetoothManager::new(false);
    assert_eq!(manager.default_adapter(), Some(SmolStr::new("hci0")));
    assert!(manager.wants_initialization(&hci(0)));
    assert!(manager.initialize_adapter(hci(0), AdapterOpening::Missing).is_empty());
    assert_eq!(
        manager.initialize_adapter(hci(0), AdapterOpening::PowerFailed),
        [ManagerAction::RetryAdapter(hci(0), ADAPTER_RECOVERY_DELAY_MILLIS)]
    );
    assert_eq!(manager.default_adapter(), Some(SmolStr::new("hci0")));
    let expected =
        [ManagerAction::StartMonitor(hci(0)), ManagerAction::CheckConnectedDevices(hci(0))];
    assert_eq!(manager.initialize_adapter(hci(0), AdapterOpening::Ready), expected);
    assert_eq!(manager.default_adapter(), None);
    assert!(!manager.wants_initialization(&hci(0)));
    assert_eq!(manager.active_adapters(), [hci(0)]);
    manager.handle_adapter_error(&hci(0), "broken".to_string());
    assert!(manager.wants_initialization(&hci(0)));
    assert!(manager.active_adapters().is_empty());
    // Setting it up once more does not list it twice.
    manager.initialize_adapter(hci(0), AdapterOpening::Ready);
    assert_eq!(manager.active_adapters(), [hci(0)]);
    assert_eq!(
        manager.handle_adapter_available(hci(7)),
        [ManagerAction::InitializeAdapter(hci(7))]
    );
}

#[test]
fn adapters_may_have_to_be_switched_on() {
    assert_eq!(adapter_opening(false, None, false), AdapterOpening::Missing);
    assert_eq!(adapter_opening(true, Some(true), false), AdapterOpening::Ready);
    assert_eq!(adapter_opening(true, None, false), AdapterOpening::Ready);
    assert_eq!(adapter_opening(true, Some(false), true), AdapterOpening::Ready);
    assert_eq!(adapter_opening(true, Some(false), false), AdapterOpening::PowerFailed);
}

#[test]
fn discoveries_are_taken_in_once() {
    let mut manager = BluetoothManager::new(false);
    assert!(!manager.discovery_wanted(A, &hci(0)));
    assert!(manager.handle_device_discovered(A, hci(0), probe()).is_empty());
    manager.initialize_adapter(hci(0), AdapterOpening::Ready);
    assert!(manager.discovery_wanted(A, &hci(0)));
    let unsupported = DeviceProbe { kind: None, connected: true, name: None };
    assert!(manager.handle_device_discovered(A, hci(0), unsupported).is_empty());
    let away = DeviceProbe { kind: Some(DeviceKind::AirPods), connected: false, name: None };
    assert!(manager.handle_device_discovered(A, hci(0), away).is_empty());
    assert_eq!(
        manager.handle_device_discovered(A, hci(0), probe()),
        [ManagerAction::EstablishAAP(A)]
    );
    assert!(manager.handle_device_discovered(A, hci(0), probe()).is_empty());
    assert_eq!(manager.all_devices(), [A]);
    assert_eq!(manager.get_device(A).unwrap().name().as_str(), "01:00:00:00:00:00");
    let named = DeviceProbe { name: Some("Pods".to_string()), ..probe() };
    manager.handle_device_discovered(B, hci(0), named);
    assert_eq!(manager.get_device(B).unwrap().name().as_str(), "Pods");
    let stranger = Address([9; 6]);
    assert!(manager.device(stranger).is_none());
    assert_eq!(
        manager.get_device(stranger).err(),
        Some(AirPodsError::DeviceNotFound(stranger))
    );
    assert_eq!(manager.adapter_name(B), Some(hci(0)));
    assert_eq!(manager.adapter_name(stranger), None);
}

#[test]
fn connections_are_refused_for_a_reason() {
    let mut manager = manager();
    let establish = |manager: &mut BluetoothManager, address, pairing| {
        manager.establish_aap_connection(address, pairing).err()
    };
    let stranger = Address([9; 6]);
    assert_eq!(
        establish(&mut manager, stranger, Pairing::Paired),
        Some(AirPodsError::DeviceNotFound(stranger))
    );
    assert_eq!(
        establish(&mut manager, A, Pairing::NotPaired),
        Some(AirPodsError::DeviceNotPaired)
    );
    assert_eq!(
        establish(&mut manager, A, Pairing::Unavailable),
        Some(AirPodsError::DeviceUnavailable)
    );
    assert_eq!(manager.establish_ready(A), Ok(()));
    manager.handle_bluetooth_disconnected(A, None);
    assert_eq!(
        establish(&mut manager, A, Pairing::Paired),
        Some(AirPodsError::DeviceNotConnected)
    );
    manager.handle_adapter_error(&hci(0), "broken".to_string());
    assert_eq!(
        establish(&mut manager, A, Pairing::Paired),
        Some(AirPodsError::AdapterNotAvailable)
    );
    assert_eq!(
        manager.establish_aap_connection(B, Pairing::Paired).unwrap(),
        [ManagerAction::StartTask(B)]
    );
    assert!(manager.is_connecting(B));
    assert_eq!(
        establish(&mut manager, B, Pairing::Paired),
        Some(AirPodsError::AlreadyConnecting)
    );
}

#[test]
fn connection_comes_up() {
    let mut manager = manager();
    manager.establish_aap_connection(A, Pairing::Paired).unwrap();
    assert!(manager.has_aap_connection(A));
    assert_eq!(
        manager.handle_aap_connected(A),
        [ManagerAction::Emit(A, AirPodsEvent::DeviceConnected)]
    );
    assert!(!manager.is_connecting(A));
    assert!(manager.has_aap_connection(A));
    assert!(!manager.has_aap_connection(B));
    assert!(manager.handle_aap_connected(Address([9; 6])).is_empty());
}

#[test]
fn failed_connection_is_tried_again() {
    let mut manager = connected();
    for delay in [4500, 8500, 16500] {
        assert_eq!(
            manager.aap_disconnected(A, true, 500),
            [ManagerAction::RetryAAP(A, delay)]
        );
        assert!(!manager.has_aap_connection(A));
    }
    // A connection that comes up starts the count anew.
    manager.handle_aap_connected(A);
    assert_eq!(manager.aap_disconnected(A, true, 0), [ManagerAction::RetryAAP(A, 4000)]);
    assert!(manager.aap_disconnected(A, false, 0).is_empty());
    manager.handle_bluetooth_disconnected(A, None);
    assert!(manager.aap_disconnected(A, true, 0).is_empty());
    assert!(manager.can_count_failure(A, true));
    assert!(manager.can_count_failure(Address([9; 6]), true));
}

#[test]
fn retry_delay_is_drawn() {
    let mut manager = connected();
    let actions = manager.handle_aap_disconnected(A, true);
    assert_eq!(actions.len(), 1);
    assert!(matches!(
        actions[0],
        ManagerAction::RetryAAP(address, delay) if address == A && (4000..5000).contains(&delay)
    ));
}

#[test]
fn system_disconnects() {
    let mut manager = connected();
    assert_eq!(manager.count_devices(), 1);
    let record = DrainRecord { mode: NoiseControlMode::Off, rate: 5, samples: 4 };
    assert_eq!(
        manager.handle_bluetooth_disconnected(A, Some(LOCAL)),
        [
            ManagerAction::StopTask(A),
            ManagerAction::Save(A, record),
            ManagerAction::Emit(A, AirPodsEvent::DeviceDisconnected)
        ]
    );
    assert_eq!(manager.count_devices(), 0);
    assert!(manager.handle_bluetooth_disconnected(A, None).is_empty());
    assert!(manager.handle_bluetooth_disconnected(Address([9; 6]), None).is_empty());
    assert_eq!(
        manager.handle_bluetooth_connected(A, None),
        [ManagerAction::EstablishAAP(A)]
    );
    assert_eq!(manager.establish_ready(A), Ok(()));
}

#[test]
fn unknown_headset_is_reported() {
    let mut manager = manager();
    let stranger = Address([9; 6]);
    assert_eq!(
        manager.handle_bluetooth_connected(stranger, Some(hci(1))),
        [ManagerAction::Discover(stranger, hci(1))]
    );
    assert!(manager.handle_bluetooth_connected(stranger, None).is_empty());
}

#[test]
fn user_disconnects() {
    let mut manager = connected();
    assert_eq!(
        manager.disconnect_aap(A, None).unwrap(),
        [
            ManagerAction::StopTask(A),
            ManagerAction::Emit(A, AirPodsEvent::DeviceDisconnected)
        ]
    );
    assert!(!manager.has_aap_connection(A));
    assert!(!manager.get_device(A).unwrap().is_connected());
    let stranger = Address([9; 6]);
    assert_eq!(
        manager.disconnect_aap(stranger, None).unwrap_err(),
        AirPodsError::DeviceNotFound(stranger)
    );
}

#[test]
fn lost_headset_is_forgotten() {
    let mut manager = manager();
    manager.establish_aap_connection(A, Pairing::Paired).unwrap();
    assert_eq!(
        manager.handle_device_lost(A, None),
        [
            ManagerAction::StopTask(A),
            ManagerAction::Emit(A, AirPodsEvent::DeviceDisconnected)
        ]
    );
    assert_eq!(manager.all_devices(), [B]);
    assert!(!manager.is_connecting(A));
    assert!(manager.handle_device_lost(A, None).is_empty());
}

#[test]
fn adapter_comes_and_goes() {
    let mut manager = connected();
    assert_eq!(
        manager.adapter_lost(hci(0), 7),
        [
            ManagerAction::StopMonitor(hci(0)),
            ManagerAction::StopTask(A),
            ManagerAction::Emit(A, AirPodsEvent::DeviceError),
            ManagerAction::RecoverAdapter(hci(0), 4007)
        ]
    );
    assert_eq!(manager.active_adapters(), [hci(1)]);
    assert!(!manager.has_aap_connection(A));
    let again = manager.adapter_lost(hci(0), 0);
    assert_eq!(
        again,
        [
            ManagerAction::Emit(A, AirPodsEvent::DeviceError),
            ManagerAction::RecoverAdapter(hci(0), 8000)
        ]
    );
    assert_eq!(
        manager.handle_adapter_available(hci(0)),
        [
            ManagerAction::StartMonitor(hci(0)),
            ManagerAction::CheckConnectedDevices(hci(0)),
            ManagerAction::EstablishAAP(A)
        ]
    );
    assert_eq!(manager.establish_ready(A), Ok(()));
    assert!(manager.can_count_adapter_failure(&hci(0)));
    assert!(manager.adapter_lost(hci(9), 0).is_empty());
    let actions = manager.handle_adapter_lost(hci(1));
    assert!(matches!(
        actions.last(),
        Some(ManagerAction::RecoverAdapter(_, delay)) if (4000..5000).contains(delay)
    ));
}

#[test]
fn attempt_at_the_loss_stays_marked() {
    let mut manager = manager();
    manager.establish_aap_connection(A, Pairing::Paired).unwrap();
    manager.adapter_lost(hci(0), 0);
    manager.handle_adapter_available(hci(0));
    assert_eq!(manager.establish_ready(A), Err(AirPodsError::AlreadyConnecting));
}

#[test]
fn other_headsets_are_left_alone() {
    let mut manager = connected();
    manager.establish_aap_connection(B, Pairing::Paired).unwrap();
    manager.handle_device_lost(A, None);
    assert!(manager.has_aap_connection(B) && manager.is_connecting(B));
    manager.handle_device_discovered(A, hci(0), probe());
    manager.handle_bluetooth_disconnected(A, None);
    assert!(manager.has_aap_connection(B) && manager.is_connecting(B));
}

#[test]
fn health_is_checked() {
    let mut manager = manager();
    assert_eq!(manager.check_connection_health(A, true), None);
    assert_eq!(manager.check_connection_health(A, false), Some(HealthChange::Disconnected));
    manager.handle_bluetooth_disconnected(A, None);
    assert_eq!(manager.check_connection_health(A, false), None);
    assert_eq!(manager.check_connection_health(A, true), Some(HealthChange::Connected));
    assert_eq!(manager.check_connection_health(Address([9; 6]), true), None);
}

#[test]
fn scans_report_headsets() {
    let manager = connected();
    let stranger = Address([9; 6]);
    assert!(manager.is_new_connection(stranger, true, true));
    assert!(!manager.is_new_connection(stranger, false, true));
    assert!(!manager.is_new_connection(stranger, true, false));
    assert!(!manager.is_new_connection(B, true, true));
    assert!(!manager.scan_reports(A, true, true));
    assert!(manager.scan_reports(B, true, true));
    assert!(!manager.scan_reports(B, true, false));
}

#[test]
fn supported_kinds() {
    let nothing = Some(DeviceKind::Nothing { model: NothingModel::Generic });
    assert_eq!(identify_supported_device(true, false, nothing), Some(DeviceKind::AirPods));
    assert_eq!(identify_supported_device(false, true, None), Some(DeviceKind::AirPods));
    assert_eq!(identify_supported_device(false, false, nothing), nothing);
    assert_eq!(identify_supported_device(false, false, None), None);
}

#[test]
fn periodic_work_saves() {
    let mut manager = connected();
    let start = Moment { nanos: 0 };
    for level in [90, 80, 70] {
        let mut info = BatteryInfo::new();
        info.left = BatteryState { level, status: BatteryStatus::Normal };
        info.right = info.left;
        let device = manager.device_mut(A).unwrap();
        assert!(device.process_report(PacketReport::Battery(info), start).is_some());
    }
    let locals = vec![Some(LOCAL), Some(LOCAL)];
    assert!(manager.tick_all_devices(start, &locals).is_empty());
    let due = Moment { nanos: 300_000_000_000 };
    let record = DrainRecord { mode: NoiseControlMode::Off, rate: 5, samples: 4 };
    assert_eq!(manager.tick_all_devices(due, &locals), [ManagerAction::Save(A, record)]);
}

#[test]
fn everything_is_given_up_at_the_end() {
    let manager = connected();
    let record = DrainRecord { mode: NoiseControlMode::Off, rate: 5, samples: 4 };
    assert_eq!(
        manager.cleanup(&vec![Some(LOCAL), None]),
        [
            ManagerAction::StopMonitor(hci(0)),
            ManagerAction::StopMonitor(hci(1)),
            ManagerAction::StopTask(A),
            ManagerAction::Save(A, record)
        ]
    );
}

#[test]
fn commands_are_carried_out() {
    let mut manager = BluetoothManager::new(false);
    let mut run = |command, jitter| manager.carry_out(command, jitter);
    let (actions, reply) = run(ManagerCommand::AdapterAvailable(hci(0)), 0);
    assert_eq!(actions, [ManagerAction::InitializeAdapter(hci(0))]);
    assert_eq!(reply, Ok(()));
    manager.initialize_adapter(hci(0), AdapterOpening::Ready);
    let mut run = |command, jitter| manager.carry_out(command, jitter);
    let (actions, _) = run(ManagerCommand::DeviceDiscovered(A, hci(0), probe()), 0);
    assert_eq!(actions, [ManagerAction::EstablishAAP(A)]);
    let (actions, reply) = run(ManagerCommand::EstablishAAP(A, Pairing::NotPaired), 0);
    assert!(actions.is_empty());
    assert_eq!(reply, Err(AirPodsError::DeviceNotPaired));
    let (actions, reply) = run(ManagerCommand::EstablishAAP(A, Pairing::Paired), 0);
    assert_eq!((actions, reply), (vec![ManagerAction::StartTask(A)], Ok(())));
    let (actions, _) = run(ManagerCommand::AAPConnected(A), 0);
    assert_eq!(actions, [ManagerAction::Emit(A, AirPodsEvent::DeviceConnected)]);
    let (actions, _) = run(ManagerCommand::AAPDisconnected(A, true), 3);
    assert_eq!(actions, [ManagerAction::RetryAAP(A, 4003)]);
    let (actions, _) = run(ManagerCommand::BluetoothDisconnected(A, None), 0);
    assert_eq!(actions, [ManagerAction::StopTask(A)]);
    let (actions, _) = run(ManagerCommand::BluetoothConnected(A, None), 0);
    assert_eq!(actions, [ManagerAction::EstablishAAP(A)]);
    let (_, reply) = run(ManagerCommand::DisconnectAAP(B, None), 0);
    assert_eq!(reply, Err(AirPodsError::DeviceNotFound(B)));
    let (actions, reply) = run(ManagerCommand::DisconnectAAP(A, None), 0);
    assert_eq!(actions, [ManagerAction::Emit(A, AirPodsEvent::DeviceDisconnected)]);
    assert_eq!(reply, Ok(()));
    let (actions, _) = run(ManagerCommand::AdapterLost(hci(0)), 1);
    assert_eq!(actions.last(), Some(&ManagerAction::RecoverAdapter(hci(0), 4001)));
    let error = ManagerCommand::AdapterError(hci(0), "gone".to_string());
    assert!(run(error, 0).0.is_empty());
    let (actions, reply) = manager.handle_command(ManagerCommand::DeviceLost(A, None));
    assert_eq!(actions, [ManagerAction::Emit(A, AirPodsEvent::DeviceDisconnected)]);
    assert_eq!(reply, Ok(()));
    assert!(manager.all_devices().is_empty());
}
