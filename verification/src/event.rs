//! What the service tells its listeners about a device.

use smol_str::SmolStr;
use vstd::prelude::*;

use crate::airpods::protocol::{BatteryInfo, EarDetectionStatus, NoiseControlMode};
use crate::text::smol_chars;

verus! {

/// Events that a device can cause.
#[derive(Clone, Debug, PartialEq)]
pub enum AirPodsEvent {
    DeviceConnected,
    DeviceDisconnected,
    DeviceError,
    BatteryUpdated(BatteryInfo),
    NoiseControlChanged(NoiseControlMode),
    EarDetectionChanged(EarDetectionStatus),
    DeviceNameChanged(SmolStr),
    DeviceInfoChanged,
}

/// What an event says.
pub enum EventView {
    DeviceConnected,
    DeviceDisconnected,
    DeviceError,
    BatteryUpdated(BatteryInfo),
    NoiseControlChanged(NoiseControlMode),
    EarDetectionChanged(EarDetectionStatus),
    DeviceNameChanged(Seq<char>),
    DeviceInfoChanged,
}

impl View for AirPodsEvent {
    type V = EventView;

    open spec fn view(&self) -> EventView {
        match *self {
            AirPodsEvent::DeviceConnected => EventView::DeviceConnected,
            AirPodsEvent::DeviceDisconnected => EventView::DeviceDisconnected,
            AirPodsEvent::DeviceError => EventView::DeviceError,
            AirPodsEvent::BatteryUpdated(battery) => EventView::BatteryUpdated(battery),
            AirPodsEvent::NoiseControlChanged(mode) => EventView::NoiseControlChanged(mode),
            AirPodsEvent::EarDetectionChanged(status) => EventView::EarDetectionChanged(status),
            AirPodsEvent::DeviceNameChanged(name) => EventView::DeviceNameChanged(smol_chars(name)),
            AirPodsEvent::DeviceInfoChanged => EventView::DeviceInfoChanged,
        }
    }
}

/// What an event says, if there is one.
pub open spec fn event_view(event: Option<AirPodsEvent>) -> Option<EventView> {
    match event {
        Some(e) => Some(e@),
        None => None,
    }
}

/// What an event says is what it holds.
pub proof fn law_event_says_what_it_holds(
    battery: BatteryInfo,
    mode: NoiseControlMode,
    ears: EarDetectionStatus,
    name: SmolStr,
)
    ensures
        AirPodsEvent::DeviceConnected@ is DeviceConnected,
        AirPodsEvent::DeviceDisconnected@ is DeviceDisconnected,
        AirPodsEvent::DeviceError@ is DeviceError,
        AirPodsEvent::DeviceInfoChanged@ is DeviceInfoChanged,
        AirPodsEvent::BatteryUpdated(battery)@ == EventView::BatteryUpdated(battery),
        AirPodsEvent::NoiseControlChanged(mode)@ == EventView::NoiseControlChanged(mode),
        AirPodsEvent::EarDetectionChanged(ears)@ == EventView::EarDetectionChanged(ears),
        AirPodsEvent::DeviceNameChanged(name)@ == EventView::DeviceNameChanged(smol_chars(name)),
        event_view(None) is None,
        event_view(Some(AirPodsEvent::BatteryUpdated(battery))) == Some(
            EventView::BatteryUpdated(battery),
        ),
        forall|event: AirPodsEvent| #[trigger] event_view(Some(event)) == Some(event@),
{
}

} // verus!
