//! What is published about an event.

use smol_str::SmolStr;
use vstd::prelude::*;

use crate::airpods::protocol::{BatteryInfo, EarDetectionStatus, NoiseControlMode};
use crate::event::{AirPodsEvent, EventView};
use crate::text::smol_chars;

verus! {

/// Something to be published or done, for the headset that caused an event.
#[derive(Debug, PartialEq)]
pub enum Publication {
    DeviceConnected,
    DeviceDisconnected,
    DeviceError,
    BatteryUpdated(BatteryInfo),
    NoiseControlChanged(NoiseControlMode),
    EarDetectionChanged(EarDetectionStatus),
    DeviceNameChanged(SmolStr),
    /// The list of headsets, as a property, has changed.
    DevicesChanged,
    /// The number of connected headsets, as a property, has changed.
    ConnectedCountChanged,
    /// Media players are told to play.
    Play,
    /// Media players are told to pause.
    Pause,
}

/// What a publication says.
pub enum PublicationView {
    DeviceConnected,
    DeviceDisconnected,
    DeviceError,
    BatteryUpdated(BatteryInfo),
    NoiseControlChanged(NoiseControlMode),
    EarDetectionChanged(EarDetectionStatus),
    DeviceNameChanged(Seq<char>),
    DevicesChanged,
    ConnectedCountChanged,
    Play,
    Pause,
}

impl View for Publication {
    type V = PublicationView;

    open spec fn view(&self) -> PublicationView {
        match *self {
            Publication::DeviceConnected => PublicationView::DeviceConnected,
            Publication::DeviceDisconnected => PublicationView::DeviceDisconnected,
            Publication::DeviceError => PublicationView::DeviceError,
            Publication::BatteryUpdated(battery) => PublicationView::BatteryUpdated(battery),
            Publication::NoiseControlChanged(mode) => PublicationView::NoiseControlChanged(mode),
            Publication::EarDetectionChanged(status) => PublicationView::EarDetectionChanged(
                status,
            ),
            Publication::DeviceNameChanged(name) => PublicationView::DeviceNameChanged(
                smol_chars(name),
            ),
            Publication::DevicesChanged => PublicationView::DevicesChanged,
            Publication::ConnectedCountChanged => PublicationView::ConnectedCountChanged,
            Publication::Play => PublicationView::Play,
            Publication::Pause => PublicationView::Pause,
        }
    }
}

/// What a list of publications says.
pub open spec fn publications_view(publications: Seq<Publication>) -> Seq<PublicationView> {
    publications.map_values(|publication: Publication| publication@)
}

/// What is published about an event, in order: the event itself, the properties
/// that it changes, and what media players are told. They play only while both
/// buds are worn.
pub open spec fn published(event: EventView) -> Seq<PublicationView> {
    match event {
        EventView::DeviceConnected => seq![
            PublicationView::DeviceConnected,
            PublicationView::DevicesChanged,
            PublicationView::ConnectedCountChanged,
        ],
        EventView::DeviceDisconnected => seq![
            PublicationView::DeviceDisconnected,
            PublicationView::DevicesChanged,
            PublicationView::ConnectedCountChanged,
        ],
        EventView::DeviceError => seq![
            PublicationView::DeviceError,
            PublicationView::DevicesChanged,
        ],
        EventView::BatteryUpdated(battery) => seq![
            PublicationView::BatteryUpdated(battery),
            PublicationView::DevicesChanged,
        ],
        EventView::NoiseControlChanged(mode) => seq![
            PublicationView::NoiseControlChanged(mode),
            PublicationView::DevicesChanged,
        ],
        EventView::EarDetectionChanged(status) => seq![
            PublicationView::EarDetectionChanged(status),
            PublicationView::DevicesChanged,
            if status.left_in_ear && status.right_in_ear {
                PublicationView::Play
            } else {
                PublicationView::Pause
            },
        ],
        EventView::DeviceNameChanged(name) => seq![
            PublicationView::DeviceNameChanged(name),
            PublicationView::DevicesChanged,
        ],
        EventView::DeviceInfoChanged => seq![PublicationView::DevicesChanged],
    }
}

/// Decides what is published about an event.
pub fn dispatch(event: AirPodsEvent) -> (publications: Vec<Publication>)
    ensures
        publications_view(publications@) == published(event@),
{
    let ghost view = event@;
    let mut list: Vec<Publication> = Vec::new();
    match event {
        AirPodsEvent::DeviceConnected => {
            list.push(Publication::DeviceConnected);
            list.push(Publication::DevicesChanged);
            list.push(Publication::ConnectedCountChanged);
        },
        AirPodsEvent::DeviceDisconnected => {
            list.push(Publication::DeviceDisconnected);
            list.push(Publication::DevicesChanged);
            list.push(Publication::ConnectedCountChanged);
        },
        AirPodsEvent::BatteryUpdated(battery) => {
            list.push(Publication::BatteryUpdated(battery));
            list.push(Publication::DevicesChanged);
        },
        AirPodsEvent::NoiseControlChanged(mode) => {
            list.push(Publication::NoiseControlChanged(mode));
            list.push(Publication::DevicesChanged);
        },
        AirPodsEvent::EarDetectionChanged(status) => {
            list.push(Publication::EarDetectionChanged(status));
            list.push(Publication::DevicesChanged);
            let both_in_ear = status.is_left_in_ear() && status.is_right_in_ear();
            if both_in_ear {
                list.push(Publication::Play);
            } else {
                list.push(Publication::Pause);
            }
        },
        AirPodsEvent::DeviceNameChanged(name) => {
            list.push(Publication::DeviceNameChanged(name));
            list.push(Publication::DevicesChanged);
        },
        AirPodsEvent::DeviceInfoChanged => {
            list.push(Publication::DevicesChanged);
        },
        AirPodsEvent::DeviceError => {
            list.push(Publication::DeviceError);
            list.push(Publication::DevicesChanged);
        },
    }
    assert(publications_view(list@) =~= published(view));
    list
}

/// Every event changes the list of headsets, and only a headset that comes or
/// goes changes the number of those that are connected.
pub proof fn law_properties_follow_events(event: EventView)
    ensures
        published(event).contains(PublicationView::DevicesChanged),
        published(event).contains(PublicationView::ConnectedCountChanged) <==> (event
            is DeviceConnected || event is DeviceDisconnected),
{
    let list = published(event);
    if event is DeviceInfoChanged {
        assert(list[0] == PublicationView::DevicesChanged);
    } else {
        assert(list[1] == PublicationView::DevicesChanged);
    }
    if event is DeviceConnected || event is DeviceDisconnected {
        assert(list[2] == PublicationView::ConnectedCountChanged);
    }
}

/// Media players are told something exactly when it was reported which buds are
/// worn: to play if both are, and to pause otherwise.
pub proof fn law_players_follow_the_ears(event: EventView)
    ensures
        published(event).contains(PublicationView::Play) <==> (event matches
            EventView::EarDetectionChanged(status) && status.left_in_ear && status.right_in_ear),
        published(event).contains(PublicationView::Pause) <==> (event matches
            EventView::EarDetectionChanged(status) && !(status.left_in_ear && status.right_in_ear)),
{
    let list = published(event);
    if let EventView::EarDetectionChanged(status) = event {
        if status.left_in_ear && status.right_in_ear {
            assert(list[2] == PublicationView::Play);
        } else {
            assert(list[2] == PublicationView::Pause);
        }
    }
}

/// What is published about an event begins with the event itself, as it is,
/// except that news about a device beyond its batteries and modes only changes
/// the list of headsets. The properties come next, and media players last.
pub proof fn law_event_is_published_as_it_is(event: EventView)
    ensures
        match event {
            EventView::DeviceConnected => published(event)[0] is DeviceConnected,
            EventView::DeviceDisconnected => published(event)[0] is DeviceDisconnected,
            EventView::DeviceError => published(event)[0] is DeviceError,
            EventView::BatteryUpdated(battery) => published(event)[0]
                == PublicationView::BatteryUpdated(battery),
            EventView::NoiseControlChanged(mode) => published(event)[0]
                == PublicationView::NoiseControlChanged(mode),
            EventView::EarDetectionChanged(status) => published(event)[0]
                == PublicationView::EarDetectionChanged(status),
            EventView::DeviceNameChanged(name) => published(event)[0]
                == PublicationView::DeviceNameChanged(name),
            EventView::DeviceInfoChanged => published(event)[0] is DevicesChanged,
        },
        !(event is DeviceInfoChanged) ==> published(event)[1] is DevicesChanged,
        published(event).len() == if event is DeviceInfoChanged {
            1int
        } else if event is DeviceConnected || event is DeviceDisconnected || event
            is EarDetectionChanged {
            3int
        } else {
            2int
        },
{
}

/// Different events are published differently.
pub proof fn law_published_events_are_told_apart(a: EventView, b: EventView)
    requires
        published(a) == published(b),
    ensures
        a == b,
{
    law_event_is_published_as_it_is(a);
    law_event_is_published_as_it_is(b);
}

/// What a publication says is what it holds.
pub proof fn law_publication_says_what_it_holds(
    battery: BatteryInfo,
    mode: NoiseControlMode,
    ears: EarDetectionStatus,
    name: SmolStr,
)
    ensures
        Publication::DeviceConnected@ is DeviceConnected,
        Publication::DeviceDisconnected@ is DeviceDisconnected,
        Publication::DeviceError@ is DeviceError,
        Publication::DevicesChanged@ is DevicesChanged,
        Publication::ConnectedCountChanged@ is ConnectedCountChanged,
        Publication::Play@ is Play,
        Publication::Pause@ is Pause,
        Publication::BatteryUpdated(battery)@ == PublicationView::BatteryUpdated(battery),
        Publication::NoiseControlChanged(mode)@ == PublicationView::NoiseControlChanged(mode),
        Publication::EarDetectionChanged(ears)@ == PublicationView::EarDetectionChanged(ears),
        Publication::DeviceNameChanged(name)@ == PublicationView::DeviceNameChanged(
            smol_chars(name),
        ),
{
}

/// A list of publications says what each of them says, in order.
pub proof fn law_every_publication_is_listed(publications: Seq<Publication>, n: int)
    ensures
        publications_view(publications).len() == publications.len(),
        0 <= n < publications.len() ==> publications_view(publications)[n] == publications[n]@,
{
}

} // verus!
