//! What the manager knows, and how each command changes it.

use smol_str::SmolStr;
use vstd::prelude::*;

use super::{
    AAPFailure, AAPState, AdapterOpening, BluetoothState, DeviceProbe, HealthChange, ManagerAction,
    ManagerCommand, Pairing, ADAPTER_RECOVERY_DELAY_MILLIS, MAX_AAP_RETRY_DELAY_MILLIS,
};
use crate::airpods::device::{AirPodsView, DeviceKind, SAVE_INTERVAL_MINUTES};
use crate::battery_study::{DrainRecord, LocalRate, Moment};
use crate::bluetooth::address::Address;
use crate::error::AirPodsError;
use crate::event::EventView;
use crate::text::smol_chars;

verus! {

/// Two seconds, doubled a number of times.
pub open spec fn doubled(times: nat) -> nat
    decreases times,
{
    if times == 0 {
        2000
    } else {
        2 * doubled((times - 1) as nat)
    }
}

/// Delay before a retry in milliseconds, without the random part: two seconds,
/// doubled for each of the first four failures, but not beyond the longest
/// delay.
pub open spec fn retry_base(retry_count: nat) -> nat {
    let exponential = doubled(
        if retry_count < 4 {
            retry_count
        } else {
            4
        },
    );
    if exponential < MAX_AAP_RETRY_DELAY_MILLIS {
        exponential
    } else {
        MAX_AAP_RETRY_DELAY_MILLIS as nat
    }
}

/// What is known about the state of an adapter.
pub enum AdapterStateView {
    Active,
    Lost,
    Failed(Seq<char>),
}

/// What is known about an adapter.
pub struct AdapterView {
    pub name: Seq<char>,
    pub state: AdapterStateView,
    pub monitored: bool,
    pub retry_count: u32,
}

/// What is known about a headset and its connections.
pub struct EntryView {
    pub device: AirPodsView,
    pub bluetooth: BluetoothState,
    pub aap: AAPState,
    pub adapter: Seq<char>,
    pub retry_count: u32,
    pub has_task: bool,
}

/// What the manager knows: its adapters and headsets, each in the order in which
/// they were first seen, and the headsets to which a connection is being made.
#[verifier::ext_equal]
pub struct ManagerView {
    pub adapters: Seq<AdapterView>,
    pub devices: Seq<EntryView>,
    pub connecting: Set<Address>,
    pub studied: bool,
}

impl ManagerView {
    /// Whether the entry at a position is the headset with an address.
    pub open spec fn is_device(self, at: int, address: Address) -> bool {
        0 <= at < self.devices.len() && self.devices[at].device.address == address
    }

    /// Whether a headset is known.
    pub open spec fn knows(self, address: Address) -> bool {
        exists|at: int| self.is_device(at, address)
    }

    /// The position of a headset that is known.
    pub open spec fn spot(self, address: Address) -> int {
        choose|at: int| self.is_device(at, address)
    }

    /// The entry of a headset that is known.
    pub open spec fn entry(self, address: Address) -> EntryView {
        self.devices[self.spot(address)]
    }

    /// Whether the entry at a position is the adapter with a name.
    pub open spec fn is_adapter(self, at: int, name: Seq<char>) -> bool {
        0 <= at < self.adapters.len() && self.adapters[at].name == name
    }

    /// Whether an adapter is known.
    pub open spec fn has_adapter(self, name: Seq<char>) -> bool {
        exists|at: int| self.is_adapter(at, name)
    }

    /// The position of an adapter that is known.
    pub open spec fn adapter_spot(self, name: Seq<char>) -> int {
        choose|at: int| self.is_adapter(at, name)
    }

    /// The entry of an adapter that is known.
    pub open spec fn adapter(self, name: Seq<char>) -> AdapterView {
        self.adapters[self.adapter_spot(name)]
    }

    /// No adapter and no headset is listed twice. A connection is being made
    /// only to headsets that are known, and it has a task of its own.
    pub open spec fn sound(self) -> bool {
        &&& forall|i: int, j: int|
            0 <= i < j < self.adapters.len() ==> (#[trigger] self.adapters[i]).name != (
            #[trigger] self.adapters[j]).name
        &&& forall|i: int, j: int|
            0 <= i < j < self.devices.len() ==> (#[trigger] self.devices[i]).device.address != (
            #[trigger] self.devices[j]).device.address
        &&& forall|address: Address| #[trigger]
            self.connecting.contains(address) ==> self.knows(address)
        &&& forall|i: int|
            0 <= i < self.devices.len() && (#[trigger] self.devices[i]).aap == AAPState::Connecting
                ==> self.devices[i].has_task && self.connecting.contains(
                self.devices[i].device.address,
            )
    }

    /// The manager with another entry for a headset.
    pub open spec fn with_entry(self, address: Address, entry: EntryView) -> ManagerView {
        ManagerView { devices: self.devices.update(self.spot(address), entry), ..self }
    }

    /// The manager with another entry for an adapter.
    pub open spec fn with_adapter(self, name: Seq<char>, adapter: AdapterView) -> ManagerView {
        ManagerView { adapters: self.adapters.update(self.adapter_spot(name), adapter), ..self }
    }

    /// The manager without a headset.
    pub open spec fn without(self, address: Address) -> ManagerView {
        ManagerView { devices: self.devices.remove(self.spot(address)), ..self }
    }

    /// The manager without a mark that a connection is being made.
    pub open spec fn not_connecting(self, address: Address) -> ManagerView {
        ManagerView { connecting: self.connecting.remove(address), ..self }
    }
}

/// What an action is.
pub enum ActionView {
    Emit(Address, EventView),
    StartMonitor(Seq<char>),
    StopMonitor(Seq<char>),
    InitializeAdapter(Seq<char>),
    CheckConnectedDevices(Seq<char>),
    RecoverAdapter(Seq<char>, u64),
    RetryAdapter(Seq<char>, u64),
    Discover(Address, Seq<char>),
    EstablishAAP(Address),
    RetryAAP(Address, u64),
    StartTask(Address),
    StopTask(Address),
    Save(Address, DrainRecord),
}

/// What a list of actions is.
pub open spec fn actions_view(actions: Seq<ManagerAction>) -> Seq<ActionView> {
    actions.map_values(|action: ManagerAction| action@)
}

/// The action that stops a task, if there is one.
pub open spec fn stop_task(address: Address, has_task: bool) -> Seq<ActionView> {
    if has_task {
        seq![ActionView::StopTask(address)]
    } else {
        Seq::empty()
    }
}

/// The action that enters a drain rate in the study, if there is one.
pub open spec fn save_record(address: Address, record: Option<DrainRecord>) -> Seq<ActionView> {
    match record {
        Some(r) => seq![ActionView::Save(address, r)],
        None => Seq::empty(),
    }
}

impl ManagerView {
    /// What is known once a control connection is up, and what is to be done.
    pub open spec fn after_aap_connected(self, address: Address) -> (ManagerView, Seq<ActionView>) {
        if self.knows(address) {
            (
                self.with_entry(
                    address,
                    EntryView { aap: AAPState::Connected, retry_count: 0, ..self.entry(address) },
                ).not_connecting(address),
                seq![ActionView::Emit(address, EventView::DeviceConnected)],
            )
        } else {
            (self.not_connecting(address), Seq::empty())
        }
    }

    /// What is known once a control connection has ended, and what is to be
    /// done. If an error ended it while the system is still connected, there is
    /// another attempt, after a delay with the given random part.
    pub open spec fn after_aap_disconnected(self, address: Address, is_error: bool, jitter: u64) -> (
        ManagerView,
        Seq<ActionView>,
    ) {
        if self.knows(address) {
            let entry = self.entry(address);
            if is_error && entry.bluetooth == BluetoothState::Connected {
                let retries = (entry.retry_count + 1) as u32;
                (
                    self.with_entry(
                        address,
                        EntryView {
                            aap: AAPState::WaitingToReconnect,
                            retry_count: retries,
                            ..entry
                        },
                    ).not_connecting(address),
                    seq![
                        ActionView::RetryAAP(
                            address,
                            (retry_base(retries as nat) + jitter) as u64,
                        ),
                    ],
                )
            } else {
                (
                    self.with_entry(
                        address,
                        EntryView { aap: AAPState::Disconnected, retry_count: 0, ..entry },
                    ).not_connecting(address),
                    Seq::empty(),
                )
            }
        } else {
            (self.not_connecting(address), Seq::empty())
        }
    }
}

impl ManagerView {
    /// Whether the end of a control connection counts as a failure: an error
    /// ended it while the system is still connected to the headset.
    pub open spec fn counts_failure(self, address: Address, is_error: bool) -> bool {
        is_error && self.knows(address) && self.entry(address).bluetooth
            == BluetoothState::Connected
    }

    /// Whether there is room to count the end of a control connection, if it
    /// counts as a failure.
    pub open spec fn can_count(self, address: Address, is_error: bool) -> bool {
        self.counts_failure(address, is_error) ==> self.entry(address).retry_count < u32::MAX
    }

    /// What is known once the system has disconnected a headset, and what is to
    /// be done.
    pub open spec fn after_bluetooth_disconnected(self, address: Address, local: Option<LocalRate>)
        -> (ManagerView, Seq<ActionView>) {
        if self.knows(address) {
            let entry = self.entry(address);
            (
                self.with_entry(
                    address,
                    EntryView {
                        device: entry.device.after_disconnect(local),
                        bluetooth: BluetoothState::Disconnected,
                        aap: AAPState::Disconnected,
                        has_task: false,
                        ..entry
                    },
                ).not_connecting(address),
                stop_task(address, entry.has_task) + save_record(
                    address,
                    entry.device.record_of(local),
                ) + if entry.device.connected {
                    seq![ActionView::Emit(address, EventView::DeviceDisconnected)]
                } else {
                    Seq::empty()
                },
            )
        } else {
            (self.not_connecting(address), Seq::empty())
        }
    }

    /// What is known once the user has given up a control connection, and what
    /// is to be done.
    pub open spec fn after_disconnect_aap(self, address: Address, local: Option<LocalRate>) -> (
        ManagerView,
        Seq<ActionView>,
    ) {
        let entry = self.entry(address);
        (
            self.with_entry(
                address,
                EntryView {
                    device: entry.device.after_disconnect(local),
                    aap: AAPState::Disconnected,
                    has_task: false,
                    ..entry
                },
            ).not_connecting(address),
            stop_task(address, entry.has_task) + save_record(address, entry.device.record_of(local))
                + seq![ActionView::Emit(address, EventView::DeviceDisconnected)],
        )
    }

    /// What is known once a headset is gone, and what is to be done.
    pub open spec fn after_device_lost(self, address: Address, local: Option<LocalRate>) -> (
        ManagerView,
        Seq<ActionView>,
    ) {
        if self.knows(address) {
            let entry = self.entry(address);
            (
                self.without(address).not_connecting(address),
                stop_task(address, entry.has_task) + save_record(
                    address,
                    entry.device.record_of(local),
                ) + seq![ActionView::Emit(address, EventView::DeviceDisconnected)],
            )
        } else {
            (self.not_connecting(address), Seq::empty())
        }
    }
}

impl ManagerView {
    /// Why a control connection is out of the question, if it is.
    pub open spec fn refusal(self, address: Address) -> Option<AirPodsError> {
        if self.connecting.contains(address) {
            Some(AirPodsError::AlreadyConnecting)
        } else if !self.knows(address) {
            Some(AirPodsError::DeviceNotFound(address))
        } else if !self.has_adapter(self.entry(address).adapter) {
            Some(AirPodsError::AdapterNotFound)
        } else if !(self.adapter(self.entry(address).adapter).state is Active) {
            Some(AirPodsError::AdapterNotAvailable)
        } else if self.entry(address).bluetooth != BluetoothState::Connected {
            Some(AirPodsError::DeviceNotConnected)
        } else {
            None
        }
    }

    /// Why a control connection is not made, if it is not.
    pub open spec fn refusal_with(self, address: Address, pairing: Pairing) -> Option<
        AirPodsError,
    > {
        match self.refusal(address) {
            Some(error) => Some(error),
            None => match pairing {
                Pairing::Paired => None,
                Pairing::NotPaired => Some(AirPodsError::DeviceNotPaired),
                Pairing::Unavailable => Some(AirPodsError::DeviceUnavailable),
            },
        }
    }

    /// What is known once a control connection is being made.
    pub open spec fn after_establish(self, address: Address) -> ManagerView {
        ManagerView {
            connecting: self.connecting.insert(address),
            ..self.with_entry(
                address,
                EntryView { aap: AAPState::Connecting, has_task: true, ..self.entry(address) },
            )
        }
    }
}

impl ManagerView {
    /// Whether a discovery is news, and made on an adapter that is known.
    pub open spec fn discovery_counts(self, address: Address, adapter: Seq<char>) -> bool {
        !self.knows(address) && self.has_adapter(adapter)
    }

    /// What is known once a headset was discovered, and what is to be done. Only
    /// a supported headset that the system is connected to is taken in.
    pub open spec fn after_device_discovered(
        self,
        address: Address,
        adapter: Seq<char>,
        probe: DeviceProbe,
    ) -> (ManagerView, Seq<ActionView>) {
        if self.discovery_counts(address, adapter) && probe.kind is Some && probe.connected {
            let name = match probe.name {
                Some(name) => name@,
                None => address.text(),
            };
            let entry = EntryView {
                device: AirPodsView::found(address, name, probe.kind->0, self.studied),
                bluetooth: BluetoothState::Connected,
                aap: AAPState::Disconnected,
                adapter,
                retry_count: 0,
                has_task: false,
            };
            (
                ManagerView { devices: self.devices.push(entry), ..self },
                seq![ActionView::EstablishAAP(address)],
            )
        } else {
            (self, Seq::empty())
        }
    }

    /// What is known once the system has connected a headset, and what is to be
    /// done. `found_on` is the adapter on which a headset that is not known was
    /// found to be supported.
    pub open spec fn after_bluetooth_connected(
        self,
        address: Address,
        found_on: Option<Seq<char>>,
    ) -> (ManagerView, Seq<ActionView>) {
        if self.knows(address) {
            (
                self.with_entry(
                    address,
                    EntryView { bluetooth: BluetoothState::Connected, ..self.entry(address) },
                ),
                seq![ActionView::EstablishAAP(address)],
            )
        } else {
            match found_on {
                Some(adapter) => (self, seq![ActionView::Discover(address, adapter)]),
                None => (self, Seq::empty()),
            }
        }
    }
}

/// The text of a short string, if there is one.
pub open spec fn smol_text(text: Option<SmolStr>) -> Option<Seq<char>> {
    match text {
        Some(t) => Some(smol_chars(t)),
        None => None,
    }
}

impl ManagerView {
    /// Whether the control connection of an entry is to be made anew once its
    /// adapter is back.
    pub open spec fn wants_reconnect(entry: EntryView, name: Seq<char>) -> bool {
        &&& entry.adapter == name
        &&& entry.bluetooth == BluetoothState::Connected
        &&& entry.aap is Failed || entry.aap is Disconnected
    }

    /// The connections that are to be made among the first `n` headsets once an
    /// adapter is back.
    pub open spec fn reconnects(self, name: Seq<char>, n: nat) -> Seq<ActionView>
        decreases n,
    {
        if n == 0 {
            Seq::empty()
        } else {
            let before = self.reconnects(name, (n - 1) as nat);
            let entry = self.devices[n - 1];
            if Self::wants_reconnect(entry, name) {
                before.push(ActionView::EstablishAAP(entry.device.address))
            } else {
                before
            }
        }
    }

    /// What is known once an adapter is available, and what is to be done.
    pub open spec fn after_adapter_available(self, name: Seq<char>) -> (
        ManagerView,
        Seq<ActionView>,
    ) {
        if self.has_adapter(name) {
            let adapter = self.adapter(name);
            (
                self.with_adapter(
                    name,
                    AdapterView {
                        state: AdapterStateView::Active,
                        monitored: true,
                        retry_count: 0,
                        ..adapter
                    },
                ),
                (if adapter.monitored {
                    Seq::empty()
                } else {
                    seq![ActionView::StartMonitor(name)]
                }) + seq![ActionView::CheckConnectedDevices(name)] + self.reconnects(
                    name,
                    self.devices.len(),
                ),
            )
        } else {
            (self, seq![ActionView::InitializeAdapter(name)])
        }
    }

    /// A headset after the loss of an adapter.
    pub open spec fn entry_after_loss(entry: EntryView, name: Seq<char>) -> EntryView {
        if entry.adapter == name {
            EntryView {
                aap: AAPState::Failed(AAPFailure::AdapterLost),
                has_task: false,
                ..entry
            }
        } else {
            entry
        }
    }

    /// What is to be done about the first `n` headsets after the loss of an
    /// adapter.
    pub open spec fn loss_actions(self, name: Seq<char>, n: nat) -> Seq<ActionView>
        decreases n,
    {
        if n == 0 {
            Seq::empty()
        } else {
            let before = self.loss_actions(name, (n - 1) as nat);
            let entry = self.devices[n - 1];
            let address = entry.device.address;
            if entry.adapter == name {
                before + stop_task(address, entry.has_task) + seq![
                    ActionView::Emit(address, EventView::DeviceError),
                ]
            } else {
                before
            }
        }
    }

    /// The headsets after the loss of an adapter.
    pub open spec fn devices_after_loss(self, name: Seq<char>) -> Seq<EntryView> {
        self.devices.map_values(|entry: EntryView| Self::entry_after_loss(entry, name))
    }

    /// What is known once an adapter is lost, and what is to be done. The delay
    /// before it is looked for again has the given random part.
    pub open spec fn after_adapter_lost(self, name: Seq<char>, jitter: u64) -> (
        ManagerView,
        Seq<ActionView>,
    ) {
        if self.has_adapter(name) {
            let adapter = self.adapter(name);
            let retries = (adapter.retry_count + 1) as u32;
            (
                ManagerView {
                    devices: self.devices_after_loss(name),
                    ..self.with_adapter(
                        name,
                        AdapterView {
                            state: AdapterStateView::Lost,
                            monitored: false,
                            retry_count: retries,
                            ..adapter
                        },
                    )
                },
                (if adapter.monitored {
                    seq![ActionView::StopMonitor(name)]
                } else {
                    Seq::empty()
                }) + self.loss_actions(name, self.devices.len()) + seq![
                    ActionView::RecoverAdapter(name, (retry_base(retries as nat) + jitter) as u64),
                ],
            )
        } else {
            (self, Seq::empty())
        }
    }

    /// Whether there is room to count one more failure of an adapter.
    pub open spec fn can_count_adapter(self, name: Seq<char>) -> bool {
        self.has_adapter(name) ==> self.adapter(name).retry_count < u32::MAX
    }

    /// What is known once an adapter has reported an error.
    pub open spec fn after_adapter_error(self, name: Seq<char>, error: Seq<char>) -> ManagerView {
        if self.has_adapter(name) {
            self.with_adapter(
                name,
                AdapterView { state: AdapterStateView::Failed(error), ..self.adapter(name) },
            )
        } else {
            self
        }
    }
}

impl ManagerView {
    /// What is known once an adapter was set up, and what is to be done.
    pub open spec fn after_initialize(self, name: Seq<char>, opening: AdapterOpening) -> (
        ManagerView,
        Seq<ActionView>,
    ) {
        match opening {
            AdapterOpening::Missing => (self, Seq::empty()),
            AdapterOpening::PowerFailed => (
                self,
                seq![ActionView::RetryAdapter(name, ADAPTER_RECOVERY_DELAY_MILLIS)],
            ),
            AdapterOpening::Ready => {
                let adapter = AdapterView {
                    name,
                    state: AdapterStateView::Active,
                    monitored: true,
                    retry_count: 0,
                };
                (
                    if self.has_adapter(name) {
                        self.with_adapter(name, adapter)
                    } else {
                        ManagerView { adapters: self.adapters.push(adapter), ..self }
                    },
                    seq![ActionView::StartMonitor(name), ActionView::CheckConnectedDevices(name)],
                )
            },
        }
    }

    /// Whether an adapter that the system lists is to be set up.
    pub open spec fn wants_adapter(self, name: Seq<char>) -> bool {
        self.has_adapter(name) ==> !(self.adapter(name).state is Active)
    }
}

/// How far an adapter could be set up: it has to be there, and it must not be known
/// to be off without having been switched on.
pub open spec fn opening_of(found: bool, powered: Option<bool>, switched_on: bool)
    -> AdapterOpening {
    if !found {
        AdapterOpening::Missing
    } else if powered == Some(false) && !switched_on {
        AdapterOpening::PowerFailed
    } else {
        AdapterOpening::Ready
    }
}

/// The kind of a headset, if it is supported. AirPods, and headsets in the
/// configuration, are taken for AirPods whatever else they look like.
pub open spec fn supported_kind(
    is_configured: bool,
    is_airpods: bool,
    nothing: Option<DeviceKind>,
) -> Option<DeviceKind> {
    if is_configured || is_airpods {
        Some(DeviceKind::AirPods)
    } else {
        nothing
    }
}

impl ManagerView {
    /// Whether a headset on an adapter is to be reported as discovered.
    pub open spec fn is_new(self, address: Address, connected: bool, supported: bool) -> bool {
        connected && supported && !self.knows(address)
    }

    /// Whether a scan is to report a headset as discovered.
    pub open spec fn reports(self, address: Address, connected: bool, supported: bool) -> bool {
        connected && supported && !self.has_aap(address)
    }
}

/// The adapter that is tried if the system lists none.
pub open spec fn fallback_adapter() -> Seq<char> {
    "hci0"@
}

impl ManagerView {
    /// Whether the control connection to a headset is up or being made.
    pub open spec fn has_aap(self, address: Address) -> bool {
        self.knows(address) && (self.entry(address).aap == AAPState::Connected || self.entry(
            address,
        ).aap == AAPState::Connecting)
    }

    /// The change that shows when the system says whether it is connected to a
    /// headset. Nothing shows if the adapter of the headset is not known.
    pub open spec fn health_change(self, address: Address, is_connected: bool) -> Option<
        HealthChange,
    > {
        if !self.knows(address) || !self.has_adapter(self.entry(address).adapter) {
            None
        } else if self.entry(address).bluetooth == BluetoothState::Connected && !is_connected {
            Some(HealthChange::Disconnected)
        } else if self.entry(address).bluetooth == BluetoothState::Disconnected && is_connected {
            Some(HealthChange::Connected)
        } else {
            None
        }
    }

    /// The names of those of the first `n` adapters that can be used.
    pub open spec fn usable_adapters(self, n: nat) -> Seq<Seq<char>>
        decreases n,
    {
        if n == 0 {
            Seq::empty()
        } else if self.adapters[n - 1].state is Active {
            self.usable_adapters((n - 1) as nat).push(self.adapters[n - 1].name)
        } else {
            self.usable_adapters((n - 1) as nat)
        }
    }

    /// How many of the first `n` headsets are connected.
    pub open spec fn connected_count(self, n: nat) -> nat
        decreases n,
    {
        if n == 0 {
            0
        } else {
            self.connected_count((n - 1) as nat) + if self.devices[n - 1].device.connected {
                1nat
            } else {
                0nat
            }
        }
    }
}

impl ManagerView {
    /// Whether a headset saves its battery data.
    pub open spec fn saves(entry: EntryView, now: Moment) -> bool {
        entry.device.connected && entry.device.save_due(SAVE_INTERVAL_MINUTES, now)
    }

    /// A headset after its periodic work.
    pub open spec fn entry_after_tick(entry: EntryView, now: Moment, local: Option<LocalRate>)
        -> EntryView {
        if Self::saves(entry, now) {
            EntryView { device: entry.device.after_save(local), ..entry }
        } else {
            entry
        }
    }

    /// What the periodic work of the first `n` headsets enters in the study.
    pub open spec fn tick_actions(self, now: Moment, locals: Seq<Option<LocalRate>>, n: nat) -> Seq<
        ActionView,
    >
        decreases n,
    {
        if n == 0 {
            Seq::empty()
        } else {
            let entry = self.devices[n - 1];
            self.tick_actions(now, locals, (n - 1) as nat) + if Self::saves(entry, now) {
                save_record(entry.device.address, entry.device.record_of(locals[n - 1]))
            } else {
                Seq::empty()
            }
        }
    }

    /// The headsets after their periodic work.
    pub open spec fn after_tick(self, now: Moment, locals: Seq<Option<LocalRate>>) -> ManagerView {
        ManagerView {
            devices: Seq::new(
                self.devices.len(),
                |i: int| Self::entry_after_tick(self.devices[i], now, locals[i]),
            ),
            ..self
        }
    }

    /// The monitors of the first `n` adapters are stopped.
    pub open spec fn monitor_stops(self, n: nat) -> Seq<ActionView>
        decreases n,
    {
        if n == 0 {
            Seq::empty()
        } else {
            self.monitor_stops((n - 1) as nat) + if self.adapters[n - 1].monitored {
                seq![ActionView::StopMonitor(self.adapters[n - 1].name)]
            } else {
                Seq::empty()
            }
        }
    }

    /// The tasks of the first `n` headsets are stopped, and their battery data
    /// are saved.
    pub open spec fn device_stops(self, locals: Seq<Option<LocalRate>>, n: nat) -> Seq<ActionView>
        decreases n,
    {
        if n == 0 {
            Seq::empty()
        } else {
            let entry = self.devices[n - 1];
            let address = entry.device.address;
            self.device_stops(locals, (n - 1) as nat) + stop_task(address, entry.has_task)
                + save_record(address, entry.device.record_of(locals[n - 1]))
        }
    }
}

/// What becomes of a command.
#[verifier::ext_equal]
pub struct CommandOutcome {
    pub manager: ManagerView,
    pub actions: Seq<ActionView>,
    /// The answer to the user.
    pub reply: Result<(), AirPodsError>,
}

/// The outcome of a command that is not refused.
pub open spec fn carried_out(after: (ManagerView, Seq<ActionView>)) -> CommandOutcome {
    CommandOutcome { manager: after.0, actions: after.1, reply: Ok(()) }
}

impl ManagerView {
    /// What becomes of a command. `jitter` is the random part of a delay, if the
    /// command causes one.
    pub open spec fn after_command(self, command: ManagerCommand, jitter: u64) -> CommandOutcome {
        match command {
            ManagerCommand::AdapterAvailable(name) => carried_out(
                self.after_adapter_available(smol_chars(name)),
            ),
            ManagerCommand::AdapterLost(name) => carried_out(
                self.after_adapter_lost(smol_chars(name), jitter),
            ),
            ManagerCommand::AdapterError(name, error) => carried_out(
                (self.after_adapter_error(smol_chars(name), error@), Seq::empty()),
            ),
            ManagerCommand::DeviceDiscovered(address, name, probe) => carried_out(
                self.after_device_discovered(address, smol_chars(name), probe),
            ),
            ManagerCommand::BluetoothConnected(address, found_on) => carried_out(
                self.after_bluetooth_connected(address, smol_text(found_on)),
            ),
            ManagerCommand::BluetoothDisconnected(address, local) => carried_out(
                self.after_bluetooth_disconnected(address, local),
            ),
            ManagerCommand::AAPConnected(address) => carried_out(self.after_aap_connected(address)),
            ManagerCommand::AAPDisconnected(address, is_error) => carried_out(
                self.after_aap_disconnected(address, is_error, jitter),
            ),
            ManagerCommand::DeviceLost(address, local) => carried_out(
                self.after_device_lost(address, local),
            ),
            ManagerCommand::EstablishAAP(address, pairing) => match self.refusal_with(
                address,
                pairing,
            ) {
                Some(error) => CommandOutcome {
                    manager: self,
                    actions: Seq::empty(),
                    reply: Err(error),
                },
                None => carried_out(
                    (self.after_establish(address), seq![ActionView::StartTask(address)]),
                ),
            },
            ManagerCommand::DisconnectAAP(address, local) => if self.knows(address) {
                carried_out(self.after_disconnect_aap(address, local))
            } else {
                CommandOutcome {
                    manager: self,
                    actions: Seq::empty(),
                    reply: Err(AirPodsError::DeviceNotFound(address)),
                }
            },
        }
    }

    /// Whether there is room to count the failure that a command may report.
    pub open spec fn can_take(self, command: ManagerCommand) -> bool {
        match command {
            ManagerCommand::AdapterLost(name) => self.can_count_adapter(smol_chars(name)),
            ManagerCommand::AAPDisconnected(address, is_error) => self.can_count(
                address,
                is_error,
            ),
            _ => true,
        }
    }
}

} // verus!
