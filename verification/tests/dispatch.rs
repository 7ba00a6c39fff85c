//! What is published about events.

use kairpods::airpods::protocol::{BatteryInfo, EarDetectionStatus, NoiseControlMode};
use kairpods::dispatch::{dispatch, Publication};
use kairpods::event::AirPodsEvent;
use smol_str::SmolStr;

#[test]
fn properties_follow_events() {
    let battery = BatteryInfo::new();
    let mode = NoiseControlMode::Active;
    let name = SmolStr::new("New");
    assert_eq!(
        dispatch(AirPodsEvent::DeviceConnected),
        [
            Publication::DeviceConnected,
            Publication::DevicesChanged,
            Publication::ConnectedCountChanged
        ]
    );
    assert_eq!(
        dispatch(AirPodsEvent::DeviceDisconnected),
        [
            Publication::DeviceDisconnected,
            Publication::DevicesChanged,
            Publication::ConnectedCountChanged
        ]
    );
    assert_eq!(
        dispatch(AirPodsEvent::BatteryUpdated(battery)),
        [Publication::BatteryUpdated(battery), Publication::DevicesChanged]
    );
    assert_eq!(
        dispatch(AirPodsEvent::NoiseControlChanged(mode)),
        [Publication::NoiseControlChanged(mode), Publication::DevicesChanged]
    );
    assert_eq!(
        dispatch(AirPodsEvent::DeviceNameChanged(name.clone())),
        [Publication::DeviceNameChanged(name), Publication::DevicesChanged]
    );
    assert_eq!(dispatch(AirPodsEvent::DeviceInfoChanged), [Publication::DevicesChanged]);
    assert_eq!(
        dispatch(AirPodsEvent::DeviceError),
        [Publication::DeviceError, Publication::DevicesChanged]
    );
}

#[test]
fn players_follow_the_ears() {
    for left_in_ear in [false, true] {
        for right_in_ear in [false, true] {
            let status = EarDetectionStatus { left_in_ear, right_in_ear };
            let told = if left_in_ear && right_in_ear {
                Publication::Play
            } else {
                Publication::Pause
            };
            assert_eq!(
                dispatch(AirPodsEvent::EarDetectionChanged(status)),
                [Publication::EarDetectionChanged(status), Publication::DevicesChanged, told]
            );
        }
    }
}
