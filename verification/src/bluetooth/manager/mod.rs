//! The manager of adapters, headsets and their connections.
//!
//! The manager holds what is known and decides what is to be done. What happens
//! outside comes in as calls, and what is to be done goes out as a list of
//! actions, in the order in which they are to be performed.

use rand::Rng;
use smol_str::SmolStr;
use vstd::prelude::*;

use crate::airpods::device::{AirPods, AirPodsView, DeviceKind};
use crate::battery_study::{DrainRecord, LocalRate, Moment};
use crate::bluetooth::address::Address;
use crate::error::AirPodsError;
use crate::event::{AirPodsEvent, EventView};
use crate::text::{same_text, smol_as_str, smol_chars, smol_new};

use laws::{
    lemma_loss, lemma_marked, lemma_not_connecting, lemma_reconnects_agree, lemma_spot, lemma_tick,
    lemma_with_adapter, lemma_with_entry, lemma_without_device,
};
use model::{
    actions_view, doubled, fallback_adapter, opening_of, retry_base, save_record, smol_text,
    stop_task, supported_kind, ActionView, AdapterStateView, AdapterView, CommandOutcome,
    EntryView, ManagerView,
};

pub mod laws;
pub mod model;

verus! {

// === Delays ===

/// Delay before an adapter that could not be powered is tried again.
pub const ADAPTER_RECOVERY_DELAY_MILLIS: u64 = 5000;

/// Longest delay before a connection is tried again, without the random part.
pub const MAX_AAP_RETRY_DELAY_MILLIS: u64 = 120_000;

/// Bound of the random part of a delay.
pub const JITTER_MILLIS: u64 = 1000;

/// `rand::Rng::gen_range`, on the generator that `rand::thread_rng` hands out,
/// gives some number of the range from zero to below `bound`. Which one is not
/// said. The generator is seeded by the system, whose source of randomness has
/// to be there.
#[verifier::external_body]
fn random_below(bound: u64) -> (number: u64)
    requires
        bound > 0,
    ensures
        number < bound,
{
    rand::thread_rng().gen_range(0..bound)
}

/// Delay before a retry in milliseconds, with the given random part.
pub fn retry_delay(retry_count: u32, jitter: u64) -> (millis: u64)
    requires
        jitter < JITTER_MILLIS,
    ensures
        millis == retry_base(retry_count as nat) + jitter,
{
    let doublings: u32 = if retry_count < 4 { retry_count } else { 4 };
    proof {
        assert(1u64 << 0u32 == 1 && 1u64 << 1u32 == 2 && 1u64 << 2u32 == 4 && 1u64 << 3u32 == 8
            && 1u64 << 4u32 == 16) by (bit_vector);
        reveal_with_fuel(doubled, 5);
    }
    let exponential: u64 = 2000 * (1u64 << doublings);
    let delay: u64 = if exponential < MAX_AAP_RETRY_DELAY_MILLIS {
        exponential
    } else {
        MAX_AAP_RETRY_DELAY_MILLIS
    };
    delay + jitter
}

/// Delay before a retry in milliseconds, with a random part.
pub fn calc_retry_delay(retry_count: u32) -> (millis: u64)
    ensures
        retry_base(retry_count as nat) <= millis < retry_base(retry_count as nat) + JITTER_MILLIS,
{
    retry_delay(retry_count, random_below(JITTER_MILLIS))
}

// === State ===

/// Whether an adapter can be used.
#[derive(Debug)]
pub enum AdapterState {
    Active,
    Lost,
    Failed(String),
}

/// An adapter and how it is doing.
#[derive(Debug)]
pub struct AdapterInfo {
    name: SmolStr,
    state: AdapterState,
    /// Whether the events of the adapter are being listened to.
    monitored: bool,
    retry_count: u32,
}

/// Whether the system is connected to a headset.
#[derive(Clone, Copy, Debug, PartialEq, Eq, Structural)]
pub enum BluetoothState {
    Connected,
    Disconnected,
}

/// Why a control connection is known to be broken.
#[derive(Clone, Copy, Debug, PartialEq, Eq, Structural)]
pub enum AAPFailure {
    AdapterLost,
}

/// How the control connection to a headset is doing.
#[derive(Clone, Copy, Debug, PartialEq, Eq, Structural)]
pub enum AAPState {
    Disconnected,
    Connecting,
    Connected,
    Failed(AAPFailure),
    WaitingToReconnect,
}

/// A headset and its connections.
#[derive(Debug)]
pub struct ManagedDevice {
    device: AirPods,
    bluetooth_state: BluetoothState,
    aap_state: AAPState,
    adapter_name: SmolStr,
    aap_retry_count: u32,
    /// Whether the control connection has a task of its own.
    has_task: bool,
}

impl View for AdapterState {
    type V = AdapterStateView;

    open spec fn view(&self) -> AdapterStateView {
        match *self {
            AdapterState::Active => AdapterStateView::Active,
            AdapterState::Lost => AdapterStateView::Lost,
            AdapterState::Failed(error) => AdapterStateView::Failed(error@),
        }
    }
}

impl View for AdapterInfo {
    type V = AdapterView;

    closed spec fn view(&self) -> AdapterView {
        AdapterView {
            name: smol_chars(self.name),
            state: self.state@,
            monitored: self.monitored,
            retry_count: self.retry_count,
        }
    }
}

impl View for ManagedDevice {
    type V = EntryView;

    closed spec fn view(&self) -> EntryView {
        EntryView {
            device: self.device@,
            bluetooth: self.bluetooth_state,
            aap: self.aap_state,
            adapter: smol_chars(self.adapter_name),
            retry_count: self.aap_retry_count,
            has_task: self.has_task,
        }
    }
}

/// What the manager knows.
#[derive(Debug)]
pub struct BluetoothManager {
    adapters: Vec<AdapterInfo>,
    devices: Vec<ManagedDevice>,
    aap_connecting: Vec<Address>,
    studied: bool,
}

impl View for BluetoothManager {
    type V = ManagerView;

    closed spec fn view(&self) -> ManagerView {
        ManagerView {
            adapters: self.adapters@.map_values(|info: AdapterInfo| info@),
            devices: self.devices@.map_values(|device: ManagedDevice| device@),
            connecting: Set::new(|address: Address| self.aap_connecting@.contains(address)),
            studied: self.studied,
        }
    }
}

impl BluetoothManager {
    /// The tables of the manager are sound, and so are its headsets.
    pub closed spec fn wf(self) -> bool {
        &&& self@.sound()
        &&& self.aap_connecting@.no_duplicates()
        &&& forall|i: int| 0 <= i < self.devices@.len() ==> (#[trigger] self.devices@[i]).device.wf()
    }

    /// The tables of every manager are sound.
    pub proof fn lemma_sound(self)
        requires
            self.wf(),
        ensures
            self@.sound(),
    {
    }

    /// Creates a manager that knows nothing, with or without a battery study.
    pub fn new(studied: bool) -> (manager: BluetoothManager)
        ensures
            manager.wf(),
            manager@ == (ManagerView {
                adapters: Seq::empty(),
                devices: Seq::empty(),
                connecting: Set::empty(),
                studied,
            }),
    {
        let manager = BluetoothManager {
            adapters: Vec::new(),
            devices: Vec::new(),
            aap_connecting: Vec::new(),
            studied,
        };
        assert(manager@ =~= ManagerView {
            adapters: Seq::empty(),
            devices: Seq::empty(),
            connecting: Set::empty(),
            studied,
        });
        manager
    }

    /// The position of a headset, if it is known.
    fn find_device(&self, address: Address) -> (at: Option<usize>)
        requires
            self.wf(),
        ensures
            at is Some <==> self@.knows(address),
            at matches Some(i) ==> i < self.devices@.len() && i == self@.spot(address)
                && self@.is_device(i as int, address),
    {
        let mut n: usize = 0;
        while n < self.devices.len()
            invariant
                self.wf(),
                n <= self.devices@.len(),
                forall|k: int| 0 <= k < n ==> !self@.is_device(k, address),
            decreases self.devices@.len() - n,
        {
            assert(self@.devices[n as int] == self.devices@[n as int]@);
            if self.devices[n].device.address() == address {
                assert(self@.is_device(n as int, address));
                return Some(n);
            }
            n = n + 1;
        }
        None
    }

    /// The position of an adapter, if it is known.
    fn find_adapter(&self, name: &SmolStr) -> (at: Option<usize>)
        requires
            self.wf(),
        ensures
            at is Some <==> self@.has_adapter(smol_chars(*name)),
            at matches Some(i) ==> i < self.adapters@.len() && i == self@.adapter_spot(
                smol_chars(*name),
            ) && self@.is_adapter(i as int, smol_chars(*name)),
    {
        let mut n: usize = 0;
        while n < self.adapters.len()
            invariant
                self.wf(),
                n <= self.adapters@.len(),
                forall|k: int| 0 <= k < n ==> !self@.is_adapter(k, smol_chars(*name)),
            decreases self.adapters@.len() - n,
        {
            assert(self@.adapters[n as int] == self.adapters@[n as int]@);
            if same_text(smol_as_str(&self.adapters[n].name), smol_as_str(name)) {
                assert(self@.is_adapter(n as int, smol_chars(*name)));
                return Some(n);
            }
            n = n + 1;
        }
        None
    }

    fn find_connecting(&self, address: Address) -> (at: Option<usize>)
        ensures
            at is Some <==> self@.connecting.contains(address),
            at matches Some(i) ==> i < self.aap_connecting@.len() && self.aap_connecting@[i as int]
                == address,
    {
        let mut n: usize = 0;
        while n < self.aap_connecting.len()
            invariant
                n <= self.aap_connecting@.len(),
                forall|k: int| 0 <= k < n ==> self.aap_connecting@[k] != address,
            decreases self.aap_connecting@.len() - n,
        {
            if self.aap_connecting[n] == address {
                assert(self.aap_connecting@.contains(address));
                return Some(n);
            }
            n = n + 1;
        }
        None
    }

    /// Tells whether a connection is being made to a headset.
    pub fn is_connecting(&self, address: Address) -> (connecting: bool)
        ensures
            connecting == self@.connecting.contains(address),
    {
        self.find_connecting(address).is_some()
    }

    /// Takes away the mark that a connection is being made to a headset.
    fn stop_connecting(&mut self, address: Address)
        requires
            old(self).aap_connecting@.no_duplicates(),
        ensures
            final(self).aap_connecting@.no_duplicates(),
            final(self).devices == old(self).devices,
            final(self)@ == old(self)@.not_connecting(address),
    {
        if let Some(n) = self.find_connecting(address) {
            let ghost before = self.aap_connecting@;
            let _ = self.aap_connecting.remove(n);
            proof {
                let after = self.aap_connecting@;
                assert forall|other: Address| after.contains(other) <==> (before.contains(other)
                    && other != address) by {
                    if before.contains(other) && other != address {
                        let k = before.index_of(other);
                        assert(after[if k < n { k } else { k - 1 }] == other);
                    }
                    if after.contains(other) {
                        let k = after.index_of(other);
                        assert(before[if k < n { k } else { k + 1 }] == other);
                    }
                }
                assert(self@.connecting =~= old(self)@.connecting.remove(address));
            }
        } else {
            assert(self@.connecting =~= old(self)@.connecting.remove(address));
        }
    }
}

// === Actions ===

/// Something to be done.
#[derive(Debug, PartialEq)]
pub enum ManagerAction {
    /// Tell listeners about a headset.
    Emit(Address, AirPodsEvent),
    /// Listen to the events of an adapter.
    StartMonitor(SmolStr),
    /// Stop listening to the events of an adapter.
    StopMonitor(SmolStr),
    /// Set an adapter up.
    InitializeAdapter(SmolStr),
    /// Look for headsets that the system is connected to over an adapter.
    CheckConnectedDevices(SmolStr),
    /// Look whether an adapter is back, after some milliseconds.
    RecoverAdapter(SmolStr, u64),
    /// Report an adapter as available, after some milliseconds.
    RetryAdapter(SmolStr, u64),
    /// Report a headset on an adapter as discovered.
    Discover(Address, SmolStr),
    /// Make a control connection to a headset, if it is paired.
    EstablishAAP(Address),
    /// Make a control connection to a headset, after some milliseconds.
    RetryAAP(Address, u64),
    /// Start the task of a control connection.
    StartTask(Address),
    /// Stop the task of a control connection.
    StopTask(Address),
    /// Enter a drain rate of a headset in the battery study.
    Save(Address, DrainRecord),
}

impl View for ManagerAction {
    type V = ActionView;

    open spec fn view(&self) -> ActionView {
        match *self {
            ManagerAction::Emit(address, event) => ActionView::Emit(address, event@),
            ManagerAction::StartMonitor(name) => ActionView::StartMonitor(smol_chars(name)),
            ManagerAction::StopMonitor(name) => ActionView::StopMonitor(smol_chars(name)),
            ManagerAction::InitializeAdapter(name) => ActionView::InitializeAdapter(
                smol_chars(name),
            ),
            ManagerAction::CheckConnectedDevices(name) => ActionView::CheckConnectedDevices(
                smol_chars(name),
            ),
            ManagerAction::RecoverAdapter(name, millis) => ActionView::RecoverAdapter(
                smol_chars(name),
                millis,
            ),
            ManagerAction::RetryAdapter(name, millis) => ActionView::RetryAdapter(
                smol_chars(name),
                millis,
            ),
            ManagerAction::Discover(address, name) => ActionView::Discover(
                address,
                smol_chars(name),
            ),
            ManagerAction::EstablishAAP(address) => ActionView::EstablishAAP(address),
            ManagerAction::RetryAAP(address, millis) => ActionView::RetryAAP(address, millis),
            ManagerAction::StartTask(address) => ActionView::StartTask(address),
            ManagerAction::StopTask(address) => ActionView::StopTask(address),
            ManagerAction::Save(address, record) => ActionView::Save(address, record),
        }
    }
}

// === Control connections ===

impl BluetoothManager {
    /// Takes note that a control connection is up.
    pub fn handle_aap_connected(&mut self, address: Address) -> (actions: Vec<ManagerAction>)
        requires
            old(self).wf(),
        ensures
            final(self).wf(),
            final(self)@ == old(self)@.after_aap_connected(address).0,
            actions_view(actions@) == old(self)@.after_aap_connected(address).1,
    {
        let mut actions: Vec<ManagerAction> = Vec::new();
        if let Some(at) = self.find_device(address) {
            let ghost entry = EntryView {
                aap: AAPState::Connected,
                retry_count: 0,
                ..self@.entry(address)
            };
            self.devices[at].aap_state = AAPState::Connected;
            self.devices[at].aap_retry_count = 0;
            assert(self@ =~= old(self)@.with_entry(address, entry));
            proof {
                lemma_with_entry(old(self)@, address, entry);
            }
            actions.push(ManagerAction::Emit(address, AirPodsEvent::DeviceConnected));
        } else {
            proof {
                lemma_not_connecting(self@, address);
            }
        }
        self.stop_connecting(address);
        assert(actions_view(actions@) =~= old(self)@.after_aap_connected(address).1);
        actions
    }
}

impl BluetoothManager {
    /// Takes note that a control connection has ended, and draws the random part
    /// of the delay before another attempt.
    pub fn handle_aap_disconnected(&mut self, address: Address, is_error: bool) -> (actions: Vec<
        ManagerAction,
    >)
        requires
            old(self).wf(),
            old(self)@.can_count(address, is_error),
        ensures
            final(self).wf(),
            exists|jitter: u64|
                jitter < JITTER_MILLIS && final(self)@ == old(self)@.after_aap_disconnected(
                    address,
                    is_error,
                    jitter,
                ).0 && actions_view(actions@) == #[trigger] old(self)@.after_aap_disconnected(
                    address,
                    is_error,
                    jitter,
                ).1,
    {
        let jitter: u64 = random_below(JITTER_MILLIS);
        self.aap_disconnected(address, is_error, jitter)
    }

    /// Takes note that a control connection has ended. `jitter` is the random
    /// part of the delay before another attempt.
    pub fn aap_disconnected(&mut self, address: Address, is_error: bool, jitter: u64) -> (actions:
        Vec<ManagerAction>)
        requires
            old(self).wf(),
            old(self)@.can_count(address, is_error),
            jitter < JITTER_MILLIS,
        ensures
            final(self).wf(),
            final(self)@ == old(self)@.after_aap_disconnected(address, is_error, jitter).0,
            actions_view(actions@) == old(self)@.after_aap_disconnected(
                address,
                is_error,
                jitter,
            ).1,
    {
        let mut actions: Vec<ManagerAction> = Vec::new();
        if let Some(at) = self.find_device(address) {
            let ghost before = self@.entry(address);
            assert(before == self.devices@[at as int]@);
            if is_error && self.devices[at].bluetooth_state == BluetoothState::Connected {
                let retries: u32 = self.devices[at].aap_retry_count + 1;
                self.devices[at].aap_state = AAPState::WaitingToReconnect;
                self.devices[at].aap_retry_count = retries;
                let ghost entry = EntryView {
                    aap: AAPState::WaitingToReconnect,
                    retry_count: retries,
                    ..before
                };
                assert(self@ =~= old(self)@.with_entry(address, entry));
                proof {
                    lemma_with_entry(old(self)@, address, entry);
                }
                actions.push(ManagerAction::RetryAAP(address, retry_delay(retries, jitter)));
            } else {
                self.devices[at].aap_state = AAPState::Disconnected;
                self.devices[at].aap_retry_count = 0;
                let ghost entry = EntryView {
                    aap: AAPState::Disconnected,
                    retry_count: 0,
                    ..before
                };
                assert(self@ =~= old(self)@.with_entry(address, entry));
                proof {
                    lemma_with_entry(old(self)@, address, entry);
                }
            }
        } else {
            proof {
                lemma_not_connecting(self@, address);
            }
        }
        self.stop_connecting(address);
        assert(actions_view(actions@) =~= old(self)@.after_aap_disconnected(
            address,
            is_error,
            jitter,
        ).1);
        actions
    }

    /// Takes note that the system has disconnected a headset. `local` is the
    /// drain rate of the session, if one was measured.
    pub fn handle_bluetooth_disconnected(&mut self, address: Address, local: Option<LocalRate>)
        -> (actions: Vec<ManagerAction>)
        requires
            old(self).wf(),
        ensures
            final(self).wf(),
            final(self)@ == old(self)@.after_bluetooth_disconnected(address, local).0,
            actions_view(actions@) == old(self)@.after_bluetooth_disconnected(address, local).1,
    {
        let mut actions: Vec<ManagerAction> = Vec::new();
        if let Some(at) = self.find_device(address) {
            let ghost before = self@.entry(address);
            assert(before == self.devices@[at as int]@);
            let was_connected = self.devices[at].device.is_connected();
            if self.devices[at].has_task {
                actions.push(ManagerAction::StopTask(address));
            }
            assert(actions_view(actions@) =~= stop_task(address, before.has_task));
            self.devices[at].bluetooth_state = BluetoothState::Disconnected;
            self.devices[at].aap_state = AAPState::Disconnected;
            self.devices[at].has_task = false;
            let save = self.devices[at].device.disconnect(local);
            let ghost entry = EntryView {
                device: before.device.after_disconnect(local),
                bluetooth: BluetoothState::Disconnected,
                aap: AAPState::Disconnected,
                has_task: false,
                ..before
            };
            assert(self@ =~= old(self)@.with_entry(address, entry));
            proof {
                lemma_with_entry(old(self)@, address, entry);
            }
            push_save(&mut actions, address, save);
            if was_connected {
                actions.push(ManagerAction::Emit(address, AirPodsEvent::DeviceDisconnected));
            }
        } else {
            proof {
                lemma_not_connecting(self@, address);
            }
        }
        self.stop_connecting(address);
        assert(actions_view(actions@) =~= old(self)@.after_bluetooth_disconnected(address, local).1);
        actions
    }

    /// Gives up the control connection to a headset.
    pub fn disconnect_aap(&mut self, address: Address, local: Option<LocalRate>) -> (outcome:
        Result<Vec<ManagerAction>, AirPodsError>)
        requires
            old(self).wf(),
        ensures
            final(self).wf(),
            match outcome {
                Ok(actions) => {
                    &&& old(self)@.knows(address)
                    &&& final(self)@ == old(self)@.after_disconnect_aap(address, local).0
                    &&& actions_view(actions@) == old(self)@.after_disconnect_aap(address, local).1
                },
                Err(error) => {
                    &&& !old(self)@.knows(address)
                    &&& error == AirPodsError::DeviceNotFound(address)
                    &&& final(self)@ == old(self)@
                },
            },
    {
        match self.find_device(address) {
            None => Err(AirPodsError::DeviceNotFound(address)),
            Some(at) => {
                let mut actions: Vec<ManagerAction> = Vec::new();
                let ghost before = self@.entry(address);
                assert(before == self.devices@[at as int]@);
                if self.devices[at].has_task {
                    actions.push(ManagerAction::StopTask(address));
                }
                assert(actions_view(actions@) =~= stop_task(address, before.has_task));
                self.devices[at].has_task = false;
                self.devices[at].aap_state = AAPState::Disconnected;
                let save = self.devices[at].device.disconnect(local);
                let ghost entry = EntryView {
                    device: before.device.after_disconnect(local),
                    aap: AAPState::Disconnected,
                    has_task: false,
                    ..before
                };
                assert(self@ =~= old(self)@.with_entry(address, entry));
                proof {
                    lemma_with_entry(old(self)@, address, entry);
                }
                push_save(&mut actions, address, save);
                self.stop_connecting(address);
                actions.push(ManagerAction::Emit(address, AirPodsEvent::DeviceDisconnected));
                assert(actions_view(actions@) =~= old(self)@.after_disconnect_aap(
                    address,
                    local,
                ).1);
                Ok(actions)
            },
        }
    }

    /// Takes note that a headset is gone.
    pub fn handle_device_lost(&mut self, address: Address, local: Option<LocalRate>) -> (actions:
        Vec<ManagerAction>)
        requires
            old(self).wf(),
        ensures
            final(self).wf(),
            final(self)@ == old(self)@.after_device_lost(address, local).0,
            actions_view(actions@) == old(self)@.after_device_lost(address, local).1,
    {
        let mut actions: Vec<ManagerAction> = Vec::new();
        if let Some(at) = self.find_device(address) {
            let ghost before = self@.entry(address);
            assert(before == self.devices@[at as int]@);
            let mut gone = self.devices.remove(at);
            assert(self@ =~= old(self)@.without(address));
            proof {
                lemma_without_device(old(self)@, address);
            }
            if gone.has_task {
                actions.push(ManagerAction::StopTask(address));
            }
            assert(actions_view(actions@) =~= stop_task(address, before.has_task));
            let save = gone.device.disconnect(local);
            push_save(&mut actions, address, save);
            actions.push(ManagerAction::Emit(address, AirPodsEvent::DeviceDisconnected));
        } else {
            proof {
                lemma_not_connecting(self@, address);
            }
        }
        self.stop_connecting(address);
        assert(actions_view(actions@) =~= old(self)@.after_device_lost(address, local).1);
        actions
    }
}

/// Adds the action that enters a drain rate in the study, if there is one.
fn push_save(actions: &mut Vec<ManagerAction>, address: Address, record: Option<DrainRecord>)
    ensures
        actions_view(final(actions)@) == actions_view(old(actions)@) + save_record(address, record),
{
    if let Some(r) = record {
        actions.push(ManagerAction::Save(address, r));
    }
    assert(actions_view(actions@) =~= actions_view(old(actions)@) + save_record(address, record));
}

/// What the system says about a headset that is to be connected to.
#[derive(Clone, Copy, Debug, PartialEq, Eq, Structural)]
pub enum Pairing {
    Paired,
    /// The headset is not paired, or it is not known whether it is.
    NotPaired,
    /// The adapter has no such headset.
    Unavailable,
}

impl BluetoothManager {
    /// Tells whether a control connection is out of the question. If it is not,
    /// it remains to be seen whether the headset is paired.
    pub fn establish_ready(&self, address: Address) -> (ready: Result<(), AirPodsError>)
        requires
            self.wf(),
        ensures
            ready == match self@.refusal(address) {
                Some(error) => Err::<(), AirPodsError>(error),
                None => Ok(()),
            },
    {
        if self.is_connecting(address) {
            return Err(AirPodsError::AlreadyConnecting);
        }
        let at: usize = match self.find_device(address) {
            Some(at) => at,
            None => {
                return Err(AirPodsError::DeviceNotFound(address));
            },
        };
        assert(self@.entry(address) == self.devices@[at as int]@);
        let adapter_at: usize = match self.find_adapter(&self.devices[at].adapter_name) {
            Some(adapter_at) => adapter_at,
            None => {
                return Err(AirPodsError::AdapterNotFound);
            },
        };
        assert(self@.adapter(self@.entry(address).adapter) == self.adapters@[adapter_at as int]@);
        if !matches!(self.adapters[adapter_at].state, AdapterState::Active) {
            return Err(AirPodsError::AdapterNotAvailable);
        }
        if self.devices[at].bluetooth_state != BluetoothState::Connected {
            return Err(AirPodsError::DeviceNotConnected);
        }
        Ok(())
    }

    /// Makes a control connection to a headset, given what the system says about
    /// it.
    pub fn establish_aap_connection(&mut self, address: Address, pairing: Pairing) -> (outcome:
        Result<Vec<ManagerAction>, AirPodsError>)
        requires
            old(self).wf(),
        ensures
            final(self).wf(),
            match outcome {
                Ok(actions) => {
                    &&& old(self)@.refusal_with(address, pairing) is None
                    &&& final(self)@ == old(self)@.after_establish(address)
                    &&& actions_view(actions@) == seq![ActionView::StartTask(address)]
                },
                Err(error) => {
                    &&& old(self)@.refusal_with(address, pairing) == Some(error)
                    &&& final(self)@ == old(self)@
                },
            },
    {
        if let Err(error) = self.establish_ready(address) {
            return Err(error);
        }
        match pairing {
            Pairing::Paired => {},
            Pairing::NotPaired => {
                return Err(AirPodsError::DeviceNotPaired);
            },
            Pairing::Unavailable => {
                return Err(AirPodsError::DeviceUnavailable);
            },
        }
        match self.find_device(address) {
            None => Err(AirPodsError::DeviceNotFound(address)),
            Some(at) => {
                let ghost before = self@.entry(address);
                assert(before == self.devices@[at as int]@);
                self.devices[at].has_task = true;
                self.devices[at].aap_state = AAPState::Connecting;
                let ghost waiting = self.aap_connecting@;
                self.aap_connecting.push(address);
                proof {
                    assert forall|other: Address|
                        self.aap_connecting@.contains(other) <==> (waiting.contains(other) || other
                            == address) by {
                        if waiting.contains(other) {
                            assert(self.aap_connecting@[waiting.index_of(other)] == other);
                        }
                        assert(self.aap_connecting@[waiting.len() as int] == address);
                    }
                    let entry = EntryView { aap: AAPState::Connecting, has_task: true, ..before };
                    assert(self@ =~= old(self)@.after_establish(address));
                    let marked = ManagerView {
                        connecting: old(self)@.connecting.insert(address),
                        ..old(self)@
                    };
                    lemma_marked(old(self)@, address);
                    lemma_spot(marked, at as int, address);
                    lemma_with_entry(marked, address, entry);
                    assert(self@ =~= marked.with_entry(address, entry));
                }
                let mut actions: Vec<ManagerAction> = Vec::new();
                actions.push(ManagerAction::StartTask(address));
                assert(actions_view(actions@) =~= seq![ActionView::StartTask(address)]);
                Ok(actions)
            },
        }
    }
}

// === Headsets ===

/// What the system says about a headset that was discovered.
#[derive(Debug)]
pub struct DeviceProbe {
    /// The kind of the headset, if it is one that is supported.
    pub kind: Option<DeviceKind>,
    /// Whether the system is connected to it.
    pub connected: bool,
    pub name: Option<String>,
}

impl BluetoothManager {
    /// Tells whether a discovery is news, and made on an adapter that is known.
    /// If not, the system need not be asked about the headset.
    pub fn discovery_wanted(&self, address: Address, adapter_name: &SmolStr) -> (wanted: bool)
        requires
            self.wf(),
        ensures
            wanted == self@.discovery_counts(address, smol_chars(*adapter_name)),
    {
        self.find_device(address).is_none() && self.find_adapter(adapter_name).is_some()
    }

    /// Takes note that a headset was discovered on an adapter.
    pub fn handle_device_discovered(
        &mut self,
        address: Address,
        adapter_name: SmolStr,
        probe: DeviceProbe,
    ) -> (actions: Vec<ManagerAction>)
        requires
            old(self).wf(),
        ensures
            final(self).wf(),
            final(self)@ == old(self)@.after_device_discovered(
                address,
                smol_chars(adapter_name),
                probe,
            ).0,
            actions_view(actions@) == old(self)@.after_device_discovered(
                address,
                smol_chars(adapter_name),
                probe,
            ).1,
    {
        let ghost adapter = smol_chars(adapter_name);
        let mut actions: Vec<ManagerAction> = Vec::new();
        if self.discovery_wanted(address, &adapter_name) && probe.connected {
            if let Some(kind) = probe.kind {
                let name = match probe.name {
                    Some(name) => name,
                    None => address.to_text(),
                };
                let device = AirPods::new_with_kind(address, name, kind, self.studied);
                self.devices.push(
                    ManagedDevice {
                        device,
                        bluetooth_state: BluetoothState::Connected,
                        aap_state: AAPState::Disconnected,
                        adapter_name,
                        aap_retry_count: 0,
                        has_task: false,
                    },
                );
                proof {
                    let before = old(self)@;
                    assert(self@ =~= before.after_device_discovered(address, adapter, probe).0);
                    assert forall|other: Address|
                        self@.connecting.contains(other) implies self@.knows(other) by {
                        assert(before.knows(other));
                        assert(self@.is_device(before.spot(other), other));
                    }
                    assert forall|i: int| 0 <= i < before.devices.len() implies (
                    #[trigger] self@.devices[i]).device.address != address by {
                        assert(!before.is_device(i, address));
                    }
                    assert(self@.sound());
                }
                actions.push(ManagerAction::EstablishAAP(address));
            }
        }
        assert(actions_view(actions@) =~= old(self)@.after_device_discovered(
            address,
            adapter,
            probe,
        ).1);
        actions
    }

    /// Takes note that the system has connected a headset. `found_on` is the
    /// adapter on which a headset that is not known was found to be supported.
    pub fn handle_bluetooth_connected(&mut self, address: Address, found_on: Option<SmolStr>)
        -> (actions: Vec<ManagerAction>)
        requires
            old(self).wf(),
        ensures
            final(self).wf(),
            final(self)@ == old(self)@.after_bluetooth_connected(address, smol_text(found_on)).0,
            actions_view(actions@) == old(self)@.after_bluetooth_connected(
                address,
                smol_text(found_on),
            ).1,
    {
        let ghost found = smol_text(found_on);
        let mut actions: Vec<ManagerAction> = Vec::new();
        if let Some(at) = self.find_device(address) {
            let ghost before = self@.entry(address);
            assert(before == self.devices@[at as int]@);
            self.devices[at].bluetooth_state = BluetoothState::Connected;
            let ghost entry = EntryView { bluetooth: BluetoothState::Connected, ..before };
            assert(self@ =~= old(self)@.with_entry(address, entry));
            proof {
                lemma_with_entry(old(self)@, address, entry);
            }
            actions.push(ManagerAction::EstablishAAP(address));
        } else if let Some(adapter) = found_on {
            actions.push(ManagerAction::Discover(address, adapter));
        }
        assert(actions_view(actions@) =~= old(self)@.after_bluetooth_connected(address, found).1);
        actions
    }
}

// === Adapters ===

impl BluetoothManager {
    /// Takes note that an adapter is available.
    pub fn handle_adapter_available(&mut self, name: SmolStr) -> (actions: Vec<ManagerAction>)
        requires
            old(self).wf(),
        ensures
            final(self).wf(),
            final(self)@ == old(self)@.after_adapter_available(smol_chars(name)).0,
            actions_view(actions@) == old(self)@.after_adapter_available(smol_chars(name)).1,
    {
        let ghost text = smol_chars(name);
        let mut actions: Vec<ManagerAction> = Vec::new();
        if let Some(at) = self.find_adapter(&name) {
            let ghost before = self@.adapter(text);
            assert(before == self.adapters@[at as int]@);
            if !self.adapters[at].monitored {
                actions.push(ManagerAction::StartMonitor(name.clone()));
            }
            self.adapters[at].state = AdapterState::Active;
            self.adapters[at].retry_count = 0;
            self.adapters[at].monitored = true;
            let ghost adapter = AdapterView {
                state: AdapterStateView::Active,
                monitored: true,
                retry_count: 0,
                ..before
            };
            assert(self@ =~= old(self)@.with_adapter(text, adapter));
            proof {
                lemma_with_adapter(old(self)@, text, adapter);
            }
            actions.push(ManagerAction::CheckConnectedDevices(name.clone()));
            let ghost opening = actions_view(actions@);
            assert(opening =~= (if before.monitored {
                Seq::empty()
            } else {
                seq![ActionView::StartMonitor(text)]
            }) + seq![ActionView::CheckConnectedDevices(text)]);
            let mut n: usize = 0;
            assert(opening + self@.reconnects(text, 0) =~= opening);
            while n < self.devices.len()
                invariant
                    self.wf(),
                    text == smol_chars(name),
                    n <= self.devices@.len(),
                    actions_view(actions@) == opening + self@.reconnects(text, n as nat),
                decreases self.devices@.len() - n,
            {
                let device = &self.devices[n];
                assert(device@ == self@.devices[n as int]);
                let ghost listed = actions_view(actions@);
                let failed = matches!(
                    device.aap_state,
                    AAPState::Failed(_) | AAPState::Disconnected
                );
                if failed && device.bluetooth_state == BluetoothState::Connected && same_text(
                    smol_as_str(&device.adapter_name),
                    smol_as_str(&name),
                ) {
                    let address = device.device.address();
                    actions.push(ManagerAction::EstablishAAP(address));
                    assert(actions_view(actions@) =~= listed.push(
                        ActionView::EstablishAAP(address),
                    ));
                }
                n = n + 1;
                assert(actions_view(actions@) =~= opening + self@.reconnects(text, n as nat));
            }
            assert(self@.reconnects(text, n as nat) == old(self)@.reconnects(text, n as nat)) by {
                lemma_reconnects_agree(self@, old(self)@, text, n as nat);
            }
        } else {
            actions.push(ManagerAction::InitializeAdapter(name));
        }
        assert(actions_view(actions@) =~= old(self)@.after_adapter_available(text).1);
        actions
    }

    /// Takes note that an adapter is lost, and draws the random part of the delay
    /// before it is looked for again.
    pub fn handle_adapter_lost(&mut self, name: SmolStr) -> (actions: Vec<ManagerAction>)
        requires
            old(self).wf(),
            old(self)@.can_count_adapter(smol_chars(name)),
        ensures
            final(self).wf(),
            exists|jitter: u64|
                jitter < JITTER_MILLIS && final(self)@ == old(self)@.after_adapter_lost(
                    smol_chars(name),
                    jitter,
                ).0 && actions_view(actions@) == #[trigger] old(self)@.after_adapter_lost(
                    smol_chars(name),
                    jitter,
                ).1,
    {
        let jitter: u64 = random_below(JITTER_MILLIS);
        self.adapter_lost(name, jitter)
    }

    /// Takes note that an adapter is lost. `jitter` is the random part of the
    /// delay before it is looked for again.
    pub fn adapter_lost(&mut self, name: SmolStr, jitter: u64) -> (actions: Vec<ManagerAction>)
        requires
            old(self).wf(),
            old(self)@.can_count_adapter(smol_chars(name)),
            jitter < JITTER_MILLIS,
        ensures
            final(self).wf(),
            final(self)@ == old(self)@.after_adapter_lost(smol_chars(name), jitter).0,
            actions_view(actions@) == old(self)@.after_adapter_lost(smol_chars(name), jitter).1,
    {
        let ghost text = smol_chars(name);
        let ghost start = self@;
        let mut actions: Vec<ManagerAction> = Vec::new();
        if let Some(at) = self.find_adapter(&name) {
            let ghost before = self@.adapter(text);
            assert(before == self.adapters@[at as int]@);
            let retries: u32 = self.adapters[at].retry_count + 1;
            if self.adapters[at].monitored {
                actions.push(ManagerAction::StopMonitor(name.clone()));
            }
            let ghost opening = actions_view(actions@);
            assert(opening =~= if before.monitored {
                seq![ActionView::StopMonitor(text)]
            } else {
                Seq::empty()
            });
            self.adapters[at].state = AdapterState::Lost;
            self.adapters[at].retry_count = retries;
            self.adapters[at].monitored = false;
            let ghost adapter = AdapterView {
                state: AdapterStateView::Lost,
                monitored: false,
                retry_count: retries,
                ..before
            };
            let ghost marked = start.with_adapter(text, adapter);
            assert(self@ =~= marked);
            proof {
                lemma_with_adapter(start, text, adapter);
                lemma_loss(marked, text);
            }
            let mut n: usize = 0;
            assert(opening + start.loss_actions(text, 0) =~= opening);
            while n < self.devices.len()
                invariant
                    text == smol_chars(name),
                    n <= self.devices@.len(),
                    self.devices@.len() == start.devices.len(),
                    self@.adapters == marked.adapters,
                    self@.connecting == marked.connecting,
                    self@.studied == marked.studied,
                    self.aap_connecting@.no_duplicates(),
                    forall|k: int|
                        0 <= k < self.devices@.len() ==> (#[trigger] self.devices@[k]).device.wf(),
                    forall|k: int|
                        0 <= k < n ==> (#[trigger] self.devices@[k])@
                            == ManagerView::entry_after_loss(start.devices[k], text),
                    forall|k: int|
                        n <= k < self.devices@.len() ==> (#[trigger] self.devices@[k])@
                            == start.devices[k],
                    actions_view(actions@) == opening + start.loss_actions(text, n as nat),
                decreases self.devices@.len() - n,
            {
                let ghost listed = actions_view(actions@);
                let ghost entry = start.devices[n as int];
                assert(self.devices@[n as int]@ == entry);
                if same_text(smol_as_str(&self.devices[n].adapter_name), smol_as_str(&name)) {
                    let address = self.devices[n].device.address();
                    self.devices[n].aap_state = AAPState::Failed(AAPFailure::AdapterLost);
                    if self.devices[n].has_task {
                        self.devices[n].has_task = false;
                        actions.push(ManagerAction::StopTask(address));
                    }
                    assert(actions_view(actions@) =~= listed + stop_task(address, entry.has_task));
                    actions.push(ManagerAction::Emit(address, AirPodsEvent::DeviceError));
                    assert(actions_view(actions@) =~= listed + stop_task(address, entry.has_task)
                        + seq![ActionView::Emit(address, EventView::DeviceError)]);
                }
                n = n + 1;
                assert(actions_view(actions@) =~= opening + start.loss_actions(text, n as nat));
            }
            assert(self@.devices =~= start.devices_after_loss(text));
            assert(self@ =~= ManagerView { devices: marked.devices_after_loss(text), ..marked });
            let ghost listed = actions_view(actions@);
            actions.push(ManagerAction::RecoverAdapter(name, retry_delay(retries, jitter)));
            assert(actions_view(actions@) =~= listed.push(actions@.last()@));
        }
        assert(actions_view(actions@) =~= start.after_adapter_lost(text, jitter).1);
        actions
    }

    /// Takes note of an error of an adapter.
    pub fn handle_adapter_error(&mut self, name: &SmolStr, error: String)
        requires
            old(self).wf(),
        ensures
            final(self).wf(),
            final(self)@ == old(self)@.after_adapter_error(smol_chars(*name), error@),
    {
        if let Some(at) = self.find_adapter(name) {
            let ghost text = smol_chars(*name);
            let ghost before = self@.adapter(text);
            assert(before == self.adapters@[at as int]@);
            let ghost adapter = AdapterView {
                state: AdapterStateView::Failed(error@),
                ..before
            };
            self.adapters[at].state = AdapterState::Failed(error);
            assert(self@ =~= old(self)@.with_adapter(text, adapter));
            proof {
                lemma_with_adapter(old(self)@, text, adapter);
            }
        }
    }
}

/// Tells how far an adapter could be set up. `powered` is whether it was on, if
/// that is known, and `switched_on` whether it could be switched on otherwise.
pub fn adapter_opening(found: bool, powered: Option<bool>, switched_on: bool) -> (opening:
    AdapterOpening)
    ensures
        opening == if !found {
            AdapterOpening::Missing
        } else if powered == Some(false) && !switched_on {
            AdapterOpening::PowerFailed
        } else {
            AdapterOpening::Ready
        },
        opening == opening_of(found, powered, switched_on),
{
    if !found {
        return AdapterOpening::Missing;
    }
    if let Some(on) = powered {
        if !on && !switched_on {
            return AdapterOpening::PowerFailed;
        }
    }
    AdapterOpening::Ready
}

/// How far an adapter could be set up.
#[derive(Clone, Copy, Debug, PartialEq, Eq, Structural)]
pub enum AdapterOpening {
    /// There is no such adapter.
    Missing,
    /// The adapter is off and could not be powered.
    PowerFailed,
    /// The adapter is on, as far as is known.
    Ready,
}

impl BluetoothManager {
    /// Takes note of how far an adapter could be set up.
    pub fn initialize_adapter(&mut self, name: SmolStr, opening: AdapterOpening) -> (actions: Vec<
        ManagerAction,
    >)
        requires
            old(self).wf(),
        ensures
            final(self).wf(),
            final(self)@ == old(self)@.after_initialize(smol_chars(name), opening).0,
            actions_view(actions@) == old(self)@.after_initialize(smol_chars(name), opening).1,
    {
        let ghost text = smol_chars(name);
        let mut actions: Vec<ManagerAction> = Vec::new();
        match opening {
            AdapterOpening::Missing => {},
            AdapterOpening::PowerFailed => {
                actions.push(ManagerAction::RetryAdapter(name, ADAPTER_RECOVERY_DELAY_MILLIS));
            },
            AdapterOpening::Ready => {
                actions.push(ManagerAction::StartMonitor(name.clone()));
                actions.push(ManagerAction::CheckConnectedDevices(name.clone()));
                let found = self.find_adapter(&name);
                let info = AdapterInfo {
                    name,
                    state: AdapterState::Active,
                    monitored: true,
                    retry_count: 0,
                };
                let ghost adapter = info@;
                match found {
                    Some(at) => {
                        self.adapters[at] = info;
                        assert(self@ =~= old(self)@.with_adapter(text, adapter));
                        proof {
                            lemma_with_adapter(old(self)@, text, adapter);
                        }
                    },
                    None => {
                        self.adapters.push(info);
                        proof {
                            let before = old(self)@;
                            assert(self@ =~= ManagerView {
                                adapters: before.adapters.push(adapter),
                                ..before
                            });
                            assert forall|i: int| 0 <= i < before.adapters.len() implies (
                            #[trigger] self@.adapters[i]).name != text by {
                                assert(!before.is_adapter(i, text));
                            }
                            assert forall|other: Address|
                                self@.connecting.contains(other) implies self@.knows(other) by {
                                assert(before.knows(other));
                                assert(self@.is_device(before.spot(other), other));
                            }
                            assert(self@.sound());
                        }
                    },
                }
            },
        }
        assert(actions_view(actions@) =~= old(self)@.after_initialize(text, opening).1);
        actions
    }

    /// Tells whether an adapter that the system lists is to be set up: it is
    /// new, or it is not in use.
    pub fn wants_initialization(&self, name: &SmolStr) -> (wanted: bool)
        requires
            self.wf(),
        ensures
            wanted == self@.wants_adapter(smol_chars(*name)),
    {
        match self.find_adapter(name) {
            None => true,
            Some(at) => {
                assert(self@.adapter(smol_chars(*name)) == self.adapters@[at as int]@);
                !matches!(self.adapters[at].state, AdapterState::Active)
            },
        }
    }

    /// The adapter that is to be tried because none is known.
    pub fn default_adapter(&self) -> (name: Option<SmolStr>)
        ensures
            smol_text(name) == if self@.adapters.len() == 0 {
                Some(fallback_adapter())
            } else {
                None
            },
    {
        if self.adapters.len() == 0 {
            Some(smol_new("hci0"))
        } else {
            None
        }
    }

    /// Tells whether there is room to count one more failure of an adapter.
    pub fn can_count_adapter_failure(&self, name: &SmolStr) -> (room: bool)
        requires
            self.wf(),
        ensures
            room == self@.can_count_adapter(smol_chars(*name)),
    {
        match self.find_adapter(name) {
            None => true,
            Some(at) => {
                assert(self@.adapter(smol_chars(*name)) == self.adapters@[at as int]@);
                self.adapters[at].retry_count < u32::MAX
            },
        }
    }

    /// Tells whether there is room to count the end of a control connection, if
    /// it counts as a failure.
    pub fn can_count_failure(&self, address: Address, is_error: bool) -> (room: bool)
        requires
            self.wf(),
        ensures
            room == self@.can_count(address, is_error),
    {
        match self.find_device(address) {
            None => true,
            Some(at) => {
                assert(self@.entry(address) == self.devices@[at as int]@);
                let counts = is_error && self.devices[at].bluetooth_state
                    == BluetoothState::Connected;
                !counts || self.devices[at].aap_retry_count < u32::MAX
            },
        }
    }
}

// === Looking after headsets ===

/// A change that was noticed when a headset was looked at.
#[derive(Clone, Copy, Debug, PartialEq, Eq, Structural)]
pub enum HealthChange {
    Connected,
    Disconnected,
}

/// The kind of a headset, if it is supported. Headsets in the configuration are
/// taken for AirPods.
pub fn identify_supported_device(
    is_configured: bool,
    is_airpods: bool,
    nothing: Option<DeviceKind>,
) -> (kind: Option<DeviceKind>)
    ensures
        kind == if is_configured || is_airpods {
            Some(DeviceKind::AirPods)
        } else {
            nothing
        },
        kind == supported_kind(is_configured, is_airpods, nothing),
{
    if is_configured {
        return Some(DeviceKind::AirPods);
    }
    if is_airpods {
        return Some(DeviceKind::AirPods);
    }
    nothing
}

impl BluetoothManager {
    /// Tells whether a headset on an adapter is to be reported as discovered:
    /// the system is connected to it, it is supported, and it is not known yet.
    pub fn is_new_connection(&self, address: Address, connected: bool, supported: bool) -> (new:
        bool)
        requires
            self.wf(),
        ensures
            new == (connected && supported && !self@.knows(address)),
            new == self@.is_new(address, connected, supported),
    {
        connected && supported && self.find_device(address).is_none()
    }

    /// Tells whether the control connection to a headset is up or being made.
    pub fn has_aap_connection(&self, address: Address) -> (has: bool)
        requires
            self.wf(),
        ensures
            has == self@.has_aap(address),
    {
        match self.find_device(address) {
            None => false,
            Some(at) => {
                assert(self@.entry(address) == self.devices@[at as int]@);
                matches!(self.devices[at].aap_state, AAPState::Connected | AAPState::Connecting)
            },
        }
    }

    /// Tells whether a scan is to report a headset as discovered: the system is
    /// connected to it, it is supported, and it has no control connection.
    pub fn scan_reports(&self, address: Address, connected: bool, supported: bool) -> (report: bool)
        requires
            self.wf(),
        ensures
            report == (connected && supported && !self@.has_aap(address)),
            report == self@.reports(address, connected, supported),
    {
        connected && supported && !self.has_aap_connection(address)
    }

    /// The names of the adapters that can be used, which a scan looks through.
    pub fn active_adapters(&self) -> (names: Vec<SmolStr>)
        ensures
            names@.map_values(|name: SmolStr| smol_chars(name)) == self@.usable_adapters(
                self@.adapters.len(),
            ),
    {
        let mut names: Vec<SmolStr> = Vec::new();
        let mut n: usize = 0;
        assert(names@.map_values(|name: SmolStr| smol_chars(name)) =~= Seq::empty());
        while n < self.adapters.len()
            invariant
                n <= self.adapters@.len(),
                names@.map_values(|name: SmolStr| smol_chars(name)) == self@.usable_adapters(
                    n as nat,
                ),
            decreases self.adapters@.len() - n,
        {
            let info = &self.adapters[n];
            assert(info@ == self@.adapters[n as int]);
            if matches!(info.state, AdapterState::Active) {
                let ghost before = names@.map_values(|name: SmolStr| smol_chars(name));
                names.push(info.name.clone());
                assert(names@.map_values(|name: SmolStr| smol_chars(name)) =~= before.push(
                    info@.name,
                ));
            }
            n = n + 1;
        }
        names
    }

    /// Tells what changed when the system says whether it is connected to a
    /// headset.
    pub fn check_connection_health(&self, address: Address, is_connected: bool) -> (change: Option<
        HealthChange,
    >)
        requires
            self.wf(),
        ensures
            change == self@.health_change(address, is_connected),
    {
        match self.find_device(address) {
            None => None,
            Some(at) => {
                assert(self@.entry(address) == self.devices@[at as int]@);
                if self.find_adapter(&self.devices[at].adapter_name).is_none() {
                    return None;
                }
                match (self.devices[at].bluetooth_state, is_connected) {
                    (BluetoothState::Connected, false) => Some(HealthChange::Disconnected),
                    (BluetoothState::Disconnected, true) => Some(HealthChange::Connected),
                    _ => None,
                }
            },
        }
    }

    /// A headset, or the error that it is not known.
    pub fn get_device(&self, address: Address) -> (device: Result<&AirPods, AirPodsError>)
        requires
            self.wf(),
        ensures
            match device {
                Ok(d) => self@.knows(address) && d.wf() && d@ == self@.entry(address).device,
                Err(error) => !self@.knows(address) && error == AirPodsError::DeviceNotFound(
                    address,
                ),
            },
    {
        match self.device(address) {
            Some(device) => Ok(device),
            None => Err(AirPodsError::DeviceNotFound(address)),
        }
    }

    /// A headset, if it is known.
    pub fn device(&self, address: Address) -> (device: Option<&AirPods>)
        requires
            self.wf(),
        ensures
            device is Some <==> self@.knows(address),
            device matches Some(d) ==> d.wf() && d@ == self@.entry(address).device,
    {
        match self.find_device(address) {
            None => None,
            Some(at) => {
                assert(self@.entry(address) == self.devices@[at as int]@);
                Some(&self.devices[at].device)
            },
        }
    }

    /// The name of the adapter of a headset, if it is known.
    pub fn adapter_name(&self, address: Address) -> (name: Option<SmolStr>)
        requires
            self.wf(),
        ensures
            smol_text(name) == if self@.knows(address) {
                Some(self@.entry(address).adapter)
            } else {
                None
            },
    {
        match self.find_device(address) {
            None => None,
            Some(at) => {
                assert(self@.entry(address) == self.devices@[at as int]@);
                Some(self.devices[at].adapter_name.clone())
            },
        }
    }

    /// A headset, if it is known, to be changed. Its address has to stay.
    pub fn device_mut(&mut self, address: Address) -> (device: Option<&mut AirPods>)
        requires
            old(self).wf(),
        ensures
            device is Some <==> old(self)@.knows(address),
            device is None ==> final(self).wf() && final(self)@ == old(self)@,
            device matches Some(d) ==> {
                &&& d.wf()
                &&& d@ == old(self)@.entry(address).device
                &&& final(self)@ == old(self)@.with_entry(
                    address,
                    (EntryView { device: final(d)@, ..old(self)@.entry(address) }),
                )
                &&& final(d).wf() && final(d)@.address == address ==> final(self).wf()
            },
    {
        match self.find_device(address) {
            None => None,
            Some(at) => {
                let ghost before = self@.entry(address);
                assert(before == self.devices@[at as int]@);
                proof {
                    lemma_one_device_changes(*self, address, at as int);
                }
                Some(&mut self.devices[at].device)
            },
        }
    }

    /// The addresses of all the headsets.
    pub fn all_devices(&self) -> (addresses: Vec<Address>)
        ensures
            addresses@ == self@.devices.map_values(|entry: EntryView| entry.device.address),
    {
        let mut addresses: Vec<Address> = Vec::new();
        let ghost all = self@.devices.map_values(|entry: EntryView| entry.device.address);
        let mut n: usize = 0;
        while n < self.devices.len()
            invariant
                n <= self.devices@.len(),
                all == self@.devices.map_values(|entry: EntryView| entry.device.address),
                addresses@ == all.take(n as int),
            decreases self.devices@.len() - n,
        {
            assert(self.devices@[n as int]@ == self@.devices[n as int]);
            addresses.push(self.devices[n].device.address());
            n = n + 1;
            assert(all.take(n as int) =~= all.take(n - 1).push(all[n - 1]));
        }
        assert(all.take(n as int) =~= all);
        addresses
    }

    /// The number of headsets that are connected, as far as it fits.
    pub fn count_devices(&self) -> (count: u32)
        ensures
            count == self@.connected_count(self@.devices.len()) as u32,
    {
        let mut count: usize = 0;
        let mut n: usize = 0;
        while n < self.devices.len()
            invariant
                n <= self.devices@.len(),
                count <= n,
                count == self@.connected_count(n as nat),
            decreases self.devices@.len() - n,
        {
            assert(self.devices@[n as int]@ == self@.devices[n as int]);
            if self.devices[n].device.is_connected() {
                count = count + 1;
            }
            n = n + 1;
        }
        count as u32
    }
}

/// The manager after one headset on its list has changed.
proof fn lemma_one_device_changes(manager: BluetoothManager, address: Address, at: int)
    requires
        manager.wf(),
        manager@.is_device(at, address),
    ensures
        forall|after: BluetoothManager|
            {
                &&& after.adapters == manager.adapters
                &&& after.aap_connecting == manager.aap_connecting
                &&& after.studied == manager.studied
                &&& after.devices@ == manager.devices@.update(at, after.devices@[at])
            } ==> {
                &&& #[trigger] after@ == manager@.with_entry(address, after.devices@[at]@)
                &&& after.devices@[at]@ == (EntryView {
                    device: after.devices@[at].device@,
                    ..manager@.entry(address)
                }) && after.devices@[at].device.wf() && after.devices@[at]@.device.address
                    == address ==> after.wf()
            },
{
    lemma_spot(manager@, at, address);
    assert forall|after: BluetoothManager|
        {
            &&& after.adapters == manager.adapters
            &&& after.aap_connecting == manager.aap_connecting
            &&& after.studied == manager.studied
            &&& after.devices@ == manager.devices@.update(at, after.devices@[at])
        } implies {
        &&& #[trigger] after@ == manager@.with_entry(address, after.devices@[at]@)
        &&& after.devices@[at]@ == (EntryView {
            device: after.devices@[at].device@,
            ..manager@.entry(address)
        }) && after.devices@[at].device.wf() && after.devices@[at]@.device.address == address
            ==> after.wf()
    } by {
        assert(after@ =~= manager@.with_entry(address, after.devices@[at]@));
        let entry = after.devices@[at]@;
        if entry == (EntryView { device: after.devices@[at].device@, ..manager@.entry(address) })
            && after.devices@[at].device.wf() && entry.device.address == address {
            assert(manager@.entry(address) == manager.devices@[at]@);
            lemma_with_entry(manager@, address, entry);
        }
    }
}

impl BluetoothManager {
    /// Does the periodic work of every headset. `locals` are the drain rates of
    /// their sessions, in the order of `all_devices`.
    pub fn tick_all_devices(&mut self, now: Moment, locals: &Vec<Option<LocalRate>>) -> (actions:
        Vec<ManagerAction>)
        requires
            old(self).wf(),
            locals@.len() == old(self)@.devices.len(),
        ensures
            final(self).wf(),
            final(self)@ == old(self)@.after_tick(now, locals@),
            actions_view(actions@) == old(self)@.tick_actions(
                now,
                locals@,
                old(self)@.devices.len(),
            ),
    {
        let ghost start = self@;
        let mut actions: Vec<ManagerAction> = Vec::new();
        assert(actions_view(actions@) =~= Seq::empty());
        let mut n: usize = 0;
        while n < self.devices.len()
            invariant
                n <= self.devices@.len(),
                self.devices@.len() == start.devices.len(),
                locals@.len() == start.devices.len(),
                self@.adapters == start.adapters,
                self@.connecting == start.connecting,
                self@.studied == start.studied,
                self.aap_connecting@.no_duplicates(),
                forall|k: int|
                    0 <= k < self.devices@.len() ==> (#[trigger] self.devices@[k]).device.wf(),
                forall|k: int|
                    0 <= k < n ==> (#[trigger] self.devices@[k])@ == ManagerView::entry_after_tick(
                        start.devices[k],
                        now,
                        locals@[k],
                    ),
                forall|k: int|
                    n <= k < self.devices@.len() ==> (#[trigger] self.devices@[k])@
                        == start.devices[k],
                actions_view(actions@) == start.tick_actions(now, locals@, n as nat),
            decreases self.devices@.len() - n,
        {
            let ghost entry = start.devices[n as int];
            assert(self.devices@[n as int]@ == entry);
            let address = self.devices[n].device.address();
            let save = self.devices[n].device.tick(now, locals[n]);
            let ghost listed = actions_view(actions@);
            push_save(&mut actions, address, save);
            n = n + 1;
            assert(listed + Seq::<ActionView>::empty() =~= listed);
            assert(actions_view(actions@) =~= start.tick_actions(now, locals@, n as nat));
        }
        proof {
            lemma_tick(start, now, locals@);
            assert(self@ =~= start.after_tick(now, locals@));
        }
        actions
    }

    /// Gives up everything when the service stops. `locals` are the drain rates
    /// of the sessions, in the order of `all_devices`.
    pub fn cleanup(self, locals: &Vec<Option<LocalRate>>) -> (actions: Vec<ManagerAction>)
        requires
            self.wf(),
            locals@.len() == self@.devices.len(),
        ensures
            actions_view(actions@) == self@.monitor_stops(self@.adapters.len())
                + self@.device_stops(locals@, self@.devices.len()),
    {
        let ghost start = self@;
        let mut manager = self;
        let mut actions: Vec<ManagerAction> = Vec::new();
        assert(actions_view(actions@) =~= Seq::empty());
        let mut n: usize = 0;
        while n < manager.adapters.len()
            invariant
                n <= manager.adapters@.len(),
                manager@ == start,
                manager.wf(),
                actions_view(actions@) == start.monitor_stops(n as nat),
            decreases manager.adapters@.len() - n,
        {
            let info = &manager.adapters[n];
            assert(info@ == start.adapters[n as int]);
            let ghost listed = actions_view(actions@);
            if info.monitored {
                actions.push(ManagerAction::StopMonitor(info.name.clone()));
            }
            n = n + 1;
            assert(actions_view(actions@) =~= start.monitor_stops(n as nat));
        }
        let ghost stops = actions_view(actions@);
        assert(stops + start.device_stops(locals@, 0) =~= stops);
        let mut k: usize = 0;
        while k < manager.devices.len()
            invariant
                k <= manager.devices@.len(),
                manager.devices@.len() == start.devices.len(),
                locals@.len() == start.devices.len(),
                forall|i: int|
                    k <= i < manager.devices@.len() ==> (#[trigger] manager.devices@[i])@
                        == start.devices[i] && manager.devices@[i].device.wf(),
                actions_view(actions@) == stops + start.device_stops(locals@, k as nat),
            decreases manager.devices@.len() - k,
        {
            let ghost entry = start.devices[k as int];
            assert(manager.devices@[k as int]@ == entry);
            let address = manager.devices[k].device.address();
            let ghost listed = actions_view(actions@);
            if manager.devices[k].has_task {
                actions.push(ManagerAction::StopTask(address));
            }
            assert(actions_view(actions@) =~= listed + stop_task(address, entry.has_task));
            let save = manager.devices[k].device.disconnect(locals[k]);
            push_save(&mut actions, address, save);
            k = k + 1;
            assert(actions_view(actions@) =~= stops + start.device_stops(locals@, k as nat));
        }
        actions
    }
}

// === Commands ===

/// What happened, or what the user wants, with what the system says about it.
#[derive(Debug)]
pub enum ManagerCommand {
    AdapterAvailable(SmolStr),
    AdapterLost(SmolStr),
    AdapterError(SmolStr, String),
    DeviceDiscovered(Address, SmolStr, DeviceProbe),
    BluetoothConnected(Address, Option<SmolStr>),
    BluetoothDisconnected(Address, Option<LocalRate>),
    AAPConnected(Address),
    AAPDisconnected(Address, bool),
    DeviceLost(Address, Option<LocalRate>),
    EstablishAAP(Address, Pairing),
    DisconnectAAP(Address, Option<LocalRate>),
}

impl BluetoothManager {
    /// Carries a command out. Returns what is to be done, and the answer to the
    /// user. The random part of a delay is drawn if there is one.
    pub fn handle_command(&mut self, command: ManagerCommand) -> (outcome: (
        Vec<ManagerAction>,
        Result<(), AirPodsError>,
    ))
        requires
            old(self).wf(),
            old(self)@.can_take(command),
        ensures
            final(self).wf(),
            exists|jitter: u64|
                jitter < JITTER_MILLIS && (#[trigger] old(self)@.after_command(command, jitter))
                    == (CommandOutcome {
                    manager: final(self)@,
                    actions: actions_view(outcome.0@),
                    reply: outcome.1,
                }),
    {
        let jitter: u64 = random_below(JITTER_MILLIS);
        self.carry_out(command, jitter)
    }

    /// Carries a command out. `jitter` is the random part of a delay, if the
    /// command causes one.
    pub fn carry_out(&mut self, command: ManagerCommand, jitter: u64) -> (outcome: (
        Vec<ManagerAction>,
        Result<(), AirPodsError>,
    ))
        requires
            old(self).wf(),
            old(self)@.can_take(command),
            jitter < JITTER_MILLIS,
        ensures
            final(self).wf(),
            old(self)@.after_command(command, jitter) == (CommandOutcome {
                manager: final(self)@,
                actions: actions_view(outcome.0@),
                reply: outcome.1,
            }),
    {
        let none: Vec<ManagerAction> = Vec::new();
        assert(actions_view(none@) =~= Seq::empty());
        match command {
            ManagerCommand::AdapterAvailable(name) => (self.handle_adapter_available(name), Ok(())),
            ManagerCommand::AdapterLost(name) => (self.adapter_lost(name, jitter), Ok(())),
            ManagerCommand::AdapterError(name, error) => {
                self.handle_adapter_error(&name, error);
                (none, Ok(()))
            },
            ManagerCommand::DeviceDiscovered(address, name, probe) => {
                (self.handle_device_discovered(address, name, probe), Ok(()))
            },
            ManagerCommand::BluetoothConnected(address, found_on) => {
                (self.handle_bluetooth_connected(address, found_on), Ok(()))
            },
            ManagerCommand::BluetoothDisconnected(address, local) => {
                (self.handle_bluetooth_disconnected(address, local), Ok(()))
            },
            ManagerCommand::AAPConnected(address) => (self.handle_aap_connected(address), Ok(())),
            ManagerCommand::AAPDisconnected(address, is_error) => {
                (self.aap_disconnected(address, is_error, jitter), Ok(()))
            },
            ManagerCommand::DeviceLost(address, local) => {
                (self.handle_device_lost(address, local), Ok(()))
            },
            ManagerCommand::EstablishAAP(address, pairing) => {
                match self.establish_aap_connection(address, pairing) {
                    Ok(actions) => (actions, Ok(())),
                    Err(error) => (none, Err(error)),
                }
            },
            ManagerCommand::DisconnectAAP(address, local) => {
                match self.disconnect_aap(address, local) {
                    Ok(actions) => (actions, Ok(())),
                    Err(error) => (none, Err(error)),
                }
            },
        }
    }
}

} // verus!
