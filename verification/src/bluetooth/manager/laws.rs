//! What holds of every manager, whatever commands it is given.

use smol_str::SmolStr;
use vstd::prelude::*;

use super::model::{
    actions_view, doubled, fallback_adapter, opening_of, retry_base, smol_text, supported_kind,
    ActionView, AdapterStateView, AdapterView, EntryView, ManagerView,
};
use super::{
    AAPFailure, AAPState, AdapterOpening, AdapterState, BluetoothState, DeviceProbe, HealthChange,
    ManagerAction, ManagerCommand, Pairing, MAX_AAP_RETRY_DELAY_MILLIS,
};
use crate::airpods::device::{link_of, DeviceKind, Link};
use crate::battery_study::{DrainRecord, LocalRate, Moment};
use crate::bluetooth::address::Address;
use crate::error::AirPodsError;
use crate::event::{AirPodsEvent, EventView};
use crate::text::smol_chars;

verus! {

// === Lemmas ===

pub proof fn lemma_spot(manager: ManagerView, at: int, address: Address)
    requires
        manager.sound(),
        manager.is_device(at, address),
    ensures
        manager.knows(address),
        manager.spot(address) == at,
{
}

/// The mark that a connection is being made can be taken away from a headset
/// that is not being connected to.
pub proof fn lemma_not_connecting(manager: ManagerView, address: Address)
    requires
        manager.sound(),
        manager.knows(address) ==> manager.entry(address).aap != AAPState::Connecting,
    ensures
        manager.not_connecting(address).sound(),
{
    let after = manager.not_connecting(address);
    assert forall|other: Address| after.connecting.contains(other) implies after.knows(other) by {
        assert(manager.knows(other));
        assert(after.is_device(manager.spot(other), other));
    }
    assert forall|i: int|
        0 <= i < after.devices.len() && (#[trigger] after.devices[i]).aap
            == AAPState::Connecting implies after.devices[i].has_task && after.connecting.contains(
        after.devices[i].device.address,
    ) by {
        if after.devices[i].device.address == address {
            lemma_spot(manager, i, address);
        }
    }
}

/// An entry can be replaced by one for the same headset.
pub proof fn lemma_with_entry(manager: ManagerView, address: Address, entry: EntryView)
    requires
        manager.sound(),
        manager.knows(address),
        entry.device.address == address,
        entry.aap == AAPState::Connecting ==> entry.has_task && manager.connecting.contains(address),
    ensures
        manager.with_entry(address, entry).sound(),
        manager.with_entry(address, entry).knows(address),
        manager.with_entry(address, entry).spot(address) == manager.spot(address),
        entry.aap != AAPState::Connecting ==> manager.with_entry(address, entry).not_connecting(
            address,
        ).sound(),
{
    let after = manager.with_entry(address, entry);
    let at = manager.spot(address);
    assert(after.is_device(at, address));
    assert forall|other: Address| after.connecting.contains(other) implies after.knows(other) by {
        assert(manager.knows(other));
        assert(after.is_device(manager.spot(other), other));
    }
    assert(after.sound());
    lemma_spot(after, at, address);
    if entry.aap != AAPState::Connecting {
        lemma_not_connecting(after, address);
    }
}

/// A headset can be taken off the list.
pub proof fn lemma_without_device(manager: ManagerView, address: Address)
    requires
        manager.sound(),
        manager.knows(address),
    ensures
        manager.without(address).not_connecting(address).sound(),
{
    let at = manager.spot(address);
    let after = manager.without(address).not_connecting(address);
    assert forall|other: Address| after.connecting.contains(other) implies after.knows(other) by {
        assert(manager.knows(other));
        let k = manager.spot(other);
        assert(after.is_device(if k < at { k } else { k - 1 }, other));
    }
    assert forall|i: int|
        0 <= i < after.devices.len() && (#[trigger] after.devices[i]).aap
            == AAPState::Connecting implies after.devices[i].has_task && after.connecting.contains(
        after.devices[i].device.address,
    ) by {
        let k = if i < at { i } else { i + 1 };
        assert(after.devices[i] == manager.devices[k]);
    }
    assert forall|i: int, j: int| 0 <= i < j < after.devices.len() implies (
    #[trigger] after.devices[i]).device.address != (#[trigger] after.devices[j]).device.address by {
        let k = if i < at { i } else { i + 1 };
        let l = if j < at { j } else { j + 1 };
        assert(after.devices[i] == manager.devices[k]);
        assert(after.devices[j] == manager.devices[l]);
    }
}

/// A headset that is known can be marked as being connected to.
pub proof fn lemma_marked(manager: ManagerView, address: Address)
    requires
        manager.sound(),
        manager.knows(address),
    ensures
        (ManagerView { connecting: manager.connecting.insert(address), ..manager }).sound(),
{
    let after = ManagerView { connecting: manager.connecting.insert(address), ..manager };
    assert forall|other: Address| after.connecting.contains(other) implies after.knows(other) by {
        assert(manager.knows(other));
        assert(after.is_device(manager.spot(other), other));
    }
}

/// The entry of an adapter can be replaced by one with the same name.
pub proof fn lemma_with_adapter(manager: ManagerView, name: Seq<char>, adapter: AdapterView)
    requires
        manager.sound(),
        manager.has_adapter(name),
        adapter.name == name,
    ensures
        manager.with_adapter(name, adapter).sound(),
{
    let after = manager.with_adapter(name, adapter);
    assert forall|other: Address| after.connecting.contains(other) implies after.knows(other) by {
        assert(manager.knows(other));
        assert(after.is_device(manager.spot(other), other));
    }
}

/// The loss of an adapter leaves the headsets on the list.
pub proof fn lemma_loss(manager: ManagerView, name: Seq<char>)
    requires
        manager.sound(),
    ensures
        (ManagerView { devices: manager.devices_after_loss(name), ..manager }).sound(),
{
    let after = ManagerView { devices: manager.devices_after_loss(name), ..manager };
    assert forall|other: Address| after.connecting.contains(other) implies after.knows(other) by {
        assert(manager.knows(other));
        assert(after.is_device(manager.spot(other), other));
    }
    assert forall|i: int|
        0 <= i < after.devices.len() && (#[trigger] after.devices[i]).aap
            == AAPState::Connecting implies after.devices[i].has_task && after.connecting.contains(
        after.devices[i].device.address,
    ) by {
        assert(manager.devices[i].aap == AAPState::Connecting);
    }
    assert forall|i: int, j: int| 0 <= i < j < after.devices.len() implies (
    #[trigger] after.devices[i]).device.address != (#[trigger] after.devices[j]).device.address by {
        assert(manager.devices[i].device.address != manager.devices[j].device.address);
    }
}

pub proof fn lemma_reconnects_agree(a: ManagerView, b: ManagerView, name: Seq<char>, n: nat)
    requires
        a.devices == b.devices,
    ensures
        a.reconnects(name, n) == b.reconnects(name, n),
    decreases n,
{
    if n > 0 {
        lemma_reconnects_agree(a, b, name, (n - 1) as nat);
    }
}

pub proof fn lemma_tick(manager: ManagerView, now: Moment, locals: Seq<Option<LocalRate>>)
    requires
        manager.sound(),
    ensures
        manager.after_tick(now, locals).sound(),
{
    let after = manager.after_tick(now, locals);
    assert forall|other: Address| after.connecting.contains(other) implies after.knows(other) by {
        assert(manager.knows(other));
        assert(after.is_device(manager.spot(other), other));
    }
    assert forall|i: int|
        0 <= i < after.devices.len() && (#[trigger] after.devices[i]).aap
            == AAPState::Connecting implies after.devices[i].has_task && after.connecting.contains(
        after.devices[i].device.address,
    ) by {
        assert(manager.devices[i].aap == AAPState::Connecting);
    }
    assert forall|i: int, j: int| 0 <= i < j < after.devices.len() implies (
    #[trigger] after.devices[i]).device.address != (#[trigger] after.devices[j]).device.address by {
        assert(manager.devices[i].device.address != manager.devices[j].device.address);
    }
}

pub proof fn lemma_entry_spares_others(
    manager: ManagerView,
    address: Address,
    entry: EntryView,
    other: Address,
)
    requires
        manager.sound(),
        manager.knows(address),
        entry.device.address == address,
        other != address,
    ensures
        same_device(manager, manager.with_entry(address, entry), other),
{
    let after = manager.with_entry(address, entry);
    if manager.knows(other) {
        let k = manager.spot(other);
        assert(after.is_device(k, other));
        assert forall|i: int| after.is_device(i, other) implies i == k by {
            assert(manager.is_device(i, other));
        }
    }
    if after.knows(other) {
        assert(manager.is_device(after.spot(other), other));
    }
}

/// Two managers with the same list know the same of each headset.
pub proof fn lemma_same_list(a: ManagerView, b: ManagerView, address: Address)
    requires
        a.sound(),
        a.devices == b.devices,
    ensures
        a.knows(address) == b.knows(address),
        a.knows(address) ==> a.spot(address) == b.spot(address),
{
    if a.knows(address) {
        assert(b.is_device(a.spot(address), address));
        assert(a.is_device(b.spot(address), address));
    }
    if b.knows(address) {
        assert(a.is_device(b.spot(address), address));
    }
}

pub proof fn lemma_reconnects_contain(manager: ManagerView, name: Seq<char>, n: nat, at: int)
    requires
        0 <= at < n <= manager.devices.len(),
        ManagerView::wants_reconnect(manager.devices[at], name),
    ensures
        manager.reconnects(name, n).contains(
            ActionView::EstablishAAP(manager.devices[at].device.address),
        ),
    decreases n,
{
    let wanted = ActionView::EstablishAAP(manager.devices[at].device.address);
    let before = manager.reconnects(name, (n - 1) as nat);
    let all = manager.reconnects(name, n);
    if at == n - 1 {
        assert(all.last() == wanted);
        assert(all[all.len() - 1] == wanted);
    } else {
        lemma_reconnects_contain(manager, name, (n - 1) as nat, at);
        let k = before.index_of(wanted);
        assert(all[k] == wanted);
    }
}

pub proof fn lemma_lost_is_sound(manager: ManagerView, name: Seq<char>, jitter: u64)
    requires
        manager.sound(),
    ensures
        manager.after_adapter_lost(name, jitter).0.sound(),
{
    if manager.has_adapter(name) {
        let before = manager.adapter(name);
        let adapter = AdapterView {
            state: AdapterStateView::Lost,
            monitored: false,
            retry_count: (before.retry_count + 1) as u32,
            ..before
        };
        lemma_with_adapter(manager, name, adapter);
        lemma_loss(manager.with_adapter(name, adapter), name);
    }
}

// === Laws ===

/// The delays never get shorter from one retry to the next, and they stay below
/// the longest delay.
pub proof fn law_delays_grow(earlier: nat, later: nat)
    requires
        earlier <= later,
    ensures
        2000 <= retry_base(earlier) <= retry_base(later) <= MAX_AAP_RETRY_DELAY_MILLIS,
{
    reveal_with_fuel(doubled, 5);
}

/// While a control connection is being made, another one to the same headset is
/// refused.
pub proof fn law_no_second_connection(manager: ManagerView, address: Address)
    ensures
        manager.after_establish(address).refusal(address) == Some(AirPodsError::AlreadyConnecting),
{
}

/// The headset that a command is about, if it is about one.
pub open spec fn subject(command: ManagerCommand) -> Option<Address> {
    match command {
        ManagerCommand::AdapterAvailable(_) => None,
        ManagerCommand::AdapterLost(_) => None,
        ManagerCommand::AdapterError(_, _) => None,
        ManagerCommand::DeviceDiscovered(address, _, _) => Some(address),
        ManagerCommand::BluetoothConnected(address, _) => Some(address),
        ManagerCommand::BluetoothDisconnected(address, _) => Some(address),
        ManagerCommand::AAPConnected(address) => Some(address),
        ManagerCommand::AAPDisconnected(address, _) => Some(address),
        ManagerCommand::DeviceLost(address, _) => Some(address),
        ManagerCommand::EstablishAAP(address, _) => Some(address),
        ManagerCommand::DisconnectAAP(address, _) => Some(address),
    }
}

/// Whether the same is known of a headset on both sides.
pub open spec fn same_device(a: ManagerView, b: ManagerView, address: Address) -> bool {
    &&& a.knows(address) == b.knows(address)
    &&& a.knows(address) ==> a.entry(address) == b.entry(address)
    &&& a.connecting.contains(address) == b.connecting.contains(address)
}

/// A command that is about one headset leaves all the others as they are.
pub proof fn law_other_headsets_are_left_alone(
    manager: ManagerView,
    command: ManagerCommand,
    jitter: u64,
    other: Address,
)
    requires
        manager.sound(),
        subject(command) is Some,
        subject(command) != Some(other),
    ensures
        same_device(manager, manager.after_command(command, jitter).manager, other),
{
    let address = subject(command)->0;
    let after = manager.after_command(command, jitter).manager;
    if manager.knows(address) {
        if command is DeviceLost {
            let at = manager.spot(address);
            if manager.knows(other) {
                let k = manager.spot(other);
                assert(after.is_device(if k < at { k } else { k - 1 }, other));
                assert forall|i: int| after.is_device(i, other) implies i == if k < at {
                    k
                } else {
                    k - 1
                } by {
                    assert(manager.is_device(if i < at { i } else { i + 1 }, other));
                }
            }
            if after.knows(other) {
                let i = after.spot(other);
                assert(manager.is_device(if i < at { i } else { i + 1 }, other));
            }
        } else if after.devices == manager.devices {
            lemma_same_list(manager, after, other);
        } else {
            let entry = after.devices[manager.spot(address)];
            let changed = manager.with_entry(address, entry);
            lemma_entry_spares_others(manager, address, entry, other);
            assert(after.devices =~= changed.devices);
            if manager.knows(other) {
                assert(after.is_device(manager.spot(other), other));
                assert forall|i: int| after.is_device(i, other) implies i == manager.spot(other) by {
                    assert(manager.is_device(i, other));
                }
            }
            if after.knows(other) {
                assert(manager.is_device(after.spot(other), other));
            }
        }
    } else if after.devices == manager.devices {
        lemma_same_list(manager, after, other);
    } else {
        if manager.knows(other) {
            assert(after.is_device(manager.spot(other), other));
            assert forall|i: int| after.is_device(i, other) implies i == manager.spot(other) by {
                assert(manager.is_device(i, other));
            }
        }
        if after.knows(other) {
            assert(manager.is_device(after.spot(other), other));
        }
    }
}

/// A headset that is gone is forgotten: it is neither known nor being connected
/// to.
pub proof fn law_lost_headset_is_forgotten(
    manager: ManagerView,
    address: Address,
    local: Option<LocalRate>,
)
    requires
        manager.sound(),
    ensures
        !manager.after_device_lost(address, local).0.knows(address),
        !manager.after_device_lost(address, local).0.connecting.contains(address),
{
    let after = manager.after_device_lost(address, local).0;
    if manager.knows(address) {
        let at = manager.spot(address);
        if after.knows(address) {
            let i = after.spot(address);
            let k = if i < at { i } else { i + 1 };
            assert(manager.is_device(k, address));
        }
    } else {
        lemma_same_list(manager, after, address);
    }
}

/// A headset that the system has disconnected is not connected to, and a control
/// connection to it is refused until the system has connected it again.
pub proof fn law_disconnected_headset_is_refused(
    manager: ManagerView,
    address: Address,
    local: Option<LocalRate>,
)
    requires
        manager.sound(),
    ensures
        ({
            let after = manager.after_bluetooth_disconnected(address, local).0;
            &&& after.refusal(address) is Some
            &&& !after.has_aap(address)
            &&& after.knows(address) ==> !after.entry(address).device.connected && after.entry(
                address,
            ).device.link is None
        }),
{
    let after = manager.after_bluetooth_disconnected(address, local).0;
    if manager.knows(address) {
        let before = manager.entry(address);
        let entry = EntryView {
            device: before.device.after_disconnect(local),
            bluetooth: BluetoothState::Disconnected,
            aap: AAPState::Disconnected,
            has_task: false,
            ..before
        };
        lemma_with_entry(manager, address, entry);
        lemma_same_list(manager.with_entry(address, entry), after, address);
    } else {
        lemma_same_list(manager, after, address);
    }
}

/// The loss of an adapter breaks the control connections of its headsets, and
/// touches no other headset.
pub proof fn law_adapter_loss_breaks_its_connections(
    manager: ManagerView,
    name: Seq<char>,
    jitter: u64,
    address: Address,
)
    requires
        manager.sound(),
        manager.has_adapter(name),
        manager.knows(address),
    ensures
        ({
            let after = manager.after_adapter_lost(name, jitter).0;
            let before = manager.entry(address);
            &&& after.knows(address)
            &&& after.entry(address) == if before.adapter == name {
                EntryView {
                    aap: AAPState::Failed(AAPFailure::AdapterLost),
                    has_task: false,
                    ..before
                }
            } else {
                before
            }
        }),
{
    let after = manager.after_adapter_lost(name, jitter).0;
    let at = manager.spot(address);
    assert(after.is_device(at, address));
    assert forall|i: int| after.is_device(i, address) implies i == at by {
        assert(manager.is_device(i, address));
    }
}

/// When a lost adapter is back, a control connection to each of its headsets
/// that the system is still connected to is asked for. It is refused only if one
/// was being made when the adapter was lost.
pub proof fn law_returning_adapter_reconnects(
    manager: ManagerView,
    name: Seq<char>,
    jitter: u64,
    address: Address,
)
    requires
        manager.sound(),
        manager.has_adapter(name),
        manager.knows(address),
        manager.entry(address).adapter == name,
        manager.entry(address).bluetooth == BluetoothState::Connected,
    ensures
        manager.after_adapter_lost(name, jitter).0.after_adapter_available(name).1.contains(
            ActionView::EstablishAAP(address),
        ),
        manager.after_adapter_lost(name, jitter).0.after_adapter_available(name).0.refusal(address)
            == if manager.connecting.contains(address) {
            Some(AirPodsError::AlreadyConnecting)
        } else {
            None
        },
{
    let lost = manager.after_adapter_lost(name, jitter).0;
    let at = manager.spot(address);
    assert(lost.is_adapter(manager.adapter_spot(name), name));
    assert(lost.has_adapter(name));
    let wanted = ActionView::EstablishAAP(address);
    lemma_reconnects_contain(lost, name, lost.devices.len(), at);
    let reconnects = lost.reconnects(name, lost.devices.len());
    let all = lost.after_adapter_available(name).1;
    let k = reconnects.index_of(wanted);
    assert(all[all.len() - reconnects.len() + k] == wanted);
    law_adapter_loss_breaks_its_connections(manager, name, jitter, address);
    lemma_lost_is_sound(manager, name, jitter);
    let back = lost.after_adapter_available(name).0;
    lemma_same_list(lost, back, address);
    let at_adapter = lost.adapter_spot(name);
    assert(back.is_adapter(at_adapter, name));
    assert forall|i: int| back.is_adapter(i, name) implies i == at_adapter by {
        assert(lost.is_adapter(i, name));
    }
}

/// Every command keeps the tables sound: nothing is listed twice, a connection
/// is being made only to headsets that are known, and it has a task of its own.
pub proof fn law_commands_keep_the_tables_sound(
    manager: ManagerView,
    command: ManagerCommand,
    jitter: u64,
)
    requires
        manager.sound(),
    ensures
        manager.after_command(command, jitter).manager.sound(),
{
    let after = manager.after_command(command, jitter).manager;
    match command {
        ManagerCommand::AdapterAvailable(name) => {
            let text = smol_chars(name);
            if manager.has_adapter(text) {
                lemma_with_adapter(manager, text, after.adapters[manager.adapter_spot(text)]);
            }
        },
        ManagerCommand::AdapterLost(name) => {
            lemma_lost_is_sound(manager, smol_chars(name), jitter);
        },
        ManagerCommand::AdapterError(name, _) => {
            let text = smol_chars(name);
            if manager.has_adapter(text) {
                lemma_with_adapter(manager, text, after.adapters[manager.adapter_spot(text)]);
            }
        },
        ManagerCommand::DeviceDiscovered(address, _, _) => {
            assert forall|other: Address|
                after.connecting.contains(other) implies after.knows(other) by {
                assert(manager.knows(other));
                assert(after.is_device(manager.spot(other), other));
            }
            assert forall|i: int| 0 <= i < manager.devices.len() && after.devices
                != manager.devices implies (#[trigger] after.devices[i]).device.address
                != address by {
                assert(!manager.is_device(i, address));
            }
        },
        ManagerCommand::DeviceLost(address, _) => {
            if manager.knows(address) {
                lemma_without_device(manager, address);
            } else {
                lemma_not_connecting(manager, address);
            }
        },
        ManagerCommand::EstablishAAP(address, _) => {
            if manager.knows(address) && after != manager {
                let entry = after.devices[manager.spot(address)];
                let marked = ManagerView {
                    connecting: manager.connecting.insert(address),
                    ..manager
                };
                lemma_marked(manager, address);
                lemma_spot(marked, manager.spot(address), address);
                lemma_with_entry(marked, address, entry);
                assert(after =~= marked.with_entry(address, entry));
            }
        },
        _ => {
            let address = subject(command)->0;
            if manager.knows(address) {
                lemma_with_entry(manager, address, after.devices[manager.spot(address)]);
            } else {
                lemma_not_connecting(manager, address);
            }
        },
    }
}

/// A control connection that is up starts its count of failures anew.
pub proof fn law_success_resets_the_count(manager: ManagerView, address: Address)
    requires
        manager.sound(),
        manager.knows(address),
    ensures
        ({
            let after = manager.after_aap_connected(address).0;
            &&& after.knows(address)
            &&& after.entry(address).retry_count == 0
            &&& after.has_aap(address)
            &&& !after.connecting.contains(address)
        }),
{
    let entry = EntryView {
        aap: AAPState::Connected,
        retry_count: 0,
        ..manager.entry(address)
    };
    lemma_with_entry(manager, address, entry);
    let after = manager.after_aap_connected(address).0;
    lemma_same_list(manager.with_entry(address, entry), after, address);
}

// === Laws of what is known ===

/// A headset is known if there is an entry with its address, and its entry is that
/// one; the same holds of adapters and their names.
pub proof fn law_entries_are_found(
    manager: ManagerView,
    at: int,
    address: Address,
    name: Seq<char>,
)
    requires
        manager.sound(),
    ensures
        manager.knows(address) ==> manager.entry(address).device.address == address,
        0 <= at < manager.devices.len() && manager.devices[at].device.address == address
            ==> manager.knows(address) && manager.entry(address) == manager.devices[at],
        manager.has_adapter(name) ==> manager.adapter(name).name == name,
        0 <= at < manager.adapters.len() && manager.adapters[at].name == name
            ==> manager.has_adapter(name) && manager.adapter(name) == manager.adapters[at],
{
    if 0 <= at < manager.devices.len() && manager.devices[at].device.address == address {
        assert(manager.is_device(at, address));
    }
    if 0 <= at < manager.adapters.len() && manager.adapters[at].name == name {
        assert(manager.is_adapter(at, name));
    }
}

/// What an action says is what it holds.
pub proof fn law_action_says_what_it_holds(
    address: Address,
    event: AirPodsEvent,
    name: SmolStr,
    millis: u64,
    record: DrainRecord,
)
    ensures
        ManagerAction::Emit(address, event)@ == ActionView::Emit(address, event@),
        ManagerAction::StartMonitor(name)@ == ActionView::StartMonitor(smol_chars(name)),
        ManagerAction::StopMonitor(name)@ == ActionView::StopMonitor(smol_chars(name)),
        ManagerAction::InitializeAdapter(name)@ == ActionView::InitializeAdapter(smol_chars(name)),
        ManagerAction::CheckConnectedDevices(name)@ == ActionView::CheckConnectedDevices(
            smol_chars(name),
        ),
        ManagerAction::RecoverAdapter(name, millis)@ == ActionView::RecoverAdapter(
            smol_chars(name),
            millis,
        ),
        ManagerAction::RetryAdapter(name, millis)@ == ActionView::RetryAdapter(
            smol_chars(name),
            millis,
        ),
        ManagerAction::Discover(address, name)@ == ActionView::Discover(address, smol_chars(name)),
        ManagerAction::EstablishAAP(address)@ == ActionView::EstablishAAP(address),
        ManagerAction::RetryAAP(address, millis)@ == ActionView::RetryAAP(address, millis),
        ManagerAction::StartTask(address)@ == ActionView::StartTask(address),
        ManagerAction::StopTask(address)@ == ActionView::StopTask(address),
        ManagerAction::Save(address, record)@ == ActionView::Save(address, record),
{
}

/// A list of actions says what each of them says, in order.
pub proof fn law_every_action_is_listed(actions: Seq<ManagerAction>, n: int)
    ensures
        actions_view(actions).len() == actions.len(),
        0 <= n < actions.len() ==> actions_view(actions)[n] == actions[n]@,
{
}

/// What is known about the state of an adapter is that state.
pub proof fn law_adapter_state_says_what_it_is(error: String, text: SmolStr)
    ensures
        AdapterState::Active@ is Active,
        AdapterState::Lost@ is Lost,
        AdapterState::Failed(error)@ == AdapterStateView::Failed(error@),
        smol_text(Some(text)) == Some(smol_chars(text)),
        smol_text(None) is None,
{
}

// === Laws of the delays ===

/// The first delay is two seconds. It doubles with each of the first four
/// failures, and stays at thirty-two seconds from there on.
pub proof fn law_delays_double_four_times(failures: nat)
    ensures
        retry_base(0) == 2000,
        failures < 4 ==> retry_base(failures + 1) == 2 * retry_base(failures),
        failures >= 4 ==> retry_base(failures) == 32000,
{
    reveal_with_fuel(doubled, 6);
}

// === Laws of discoveries ===

/// A supported headset that was not known, discovered on a known adapter while the
/// system is connected to it, is taken in as a headset of the kind that was found,
/// whichever that is, with the name that the system gives or else its address. It
/// stands at the end of the list, and a control connection is asked for.
pub proof fn law_discovered_headset_is_taken_in(
    manager: ManagerView,
    address: Address,
    adapter: Seq<char>,
    probe: DeviceProbe,
)
    requires
        manager.sound(),
        !manager.knows(address),
        manager.has_adapter(adapter),
        probe.kind is Some,
        probe.connected,
    ensures
        ({
            let (after, actions) = manager.after_device_discovered(address, adapter, probe);
            let entry = after.entry(address);
            &&& after.knows(address)
            &&& Some(entry.device.kind) == probe.kind
            &&& entry.device.kind is AirPods ==> link_of(entry.device.kind) == Link::AirPods
            &&& entry.device.kind is Nothing ==> link_of(entry.device.kind) == Link::Nothing
            &&& entry.device.address == address
            &&& probe.name matches Some(name) ==> entry.device.name == name@
            &&& probe.name is None ==> entry.device.name == address.text()
            &&& !entry.device.connected
            &&& entry.device.link is None
            &&& entry.device.battery is None
            &&& entry.device.noise_mode is None
            &&& entry.device.ear_detection is None
            &&& entry.device.tracker.studied == manager.studied
            &&& entry.bluetooth is Connected
            &&& entry.aap is Disconnected
            &&& entry.adapter == adapter
            &&& entry.retry_count == 0
            &&& !entry.has_task
            &&& after.devices.len() == manager.devices.len() + 1
            &&& after.devices.last() == entry
            &&& after.devices.drop_last() == manager.devices
            &&& after.adapters == manager.adapters
            &&& after.connecting == manager.connecting
            &&& after.studied == manager.studied
            &&& actions == seq![ActionView::EstablishAAP(address)]
        }),
{
    let after = manager.after_device_discovered(address, adapter, probe).0;
    let at = manager.devices.len() as int;
    assert(after.is_device(at, address));
    assert forall|i: int| after.is_device(i, address) implies i == at by {
        if i < at {
            assert(manager.is_device(i, address));
        }
    }
    assert(after.devices.drop_last() =~= manager.devices);
}

/// A discovery changes nothing if the headset is known, the adapter is not, the
/// headset is not supported, or the system is not connected to it.
pub proof fn law_other_discoveries_are_passed_over(
    manager: ManagerView,
    address: Address,
    adapter: Seq<char>,
    probe: DeviceProbe,
)
    requires
        manager.knows(address) || !manager.has_adapter(adapter) || probe.kind is None
            || !probe.connected,
    ensures
        manager.after_device_discovered(address, adapter, probe) == (
            manager,
            Seq::<ActionView>::empty(),
        ),
        manager.discovery_counts(address, adapter) <==> !manager.knows(address)
            && manager.has_adapter(adapter),
{
}

/// Once the system has connected a headset that is known, a control connection to
/// it is asked for, and nothing but that it is connected is noted. One that is not
/// known is reported as discovered on the adapter where it was found, if it was.
pub proof fn law_connected_headset_is_connected_to(
    manager: ManagerView,
    address: Address,
    found_on: Option<Seq<char>>,
)
    requires
        manager.sound(),
    ensures
        ({
            let (after, actions) = manager.after_bluetooth_connected(address, found_on);
            if manager.knows(address) {
                &&& after.knows(address)
                &&& after.entry(address) == EntryView {
                    bluetooth: BluetoothState::Connected,
                    ..manager.entry(address)
                }
                &&& after.connecting == manager.connecting
                &&& after.adapters == manager.adapters
                &&& actions == seq![ActionView::EstablishAAP(address)]
            } else {
                &&& after == manager
                &&& found_on matches Some(adapter) ==> actions == seq![
                    ActionView::Discover(address, adapter),
                ]
                &&& found_on is None ==> actions.len() == 0
            }
        }),
{
    if manager.knows(address) {
        lemma_with_entry(
            manager,
            address,
            EntryView { bluetooth: BluetoothState::Connected, ..manager.entry(address) },
        );
    }
}

// === Laws of control connections ===

/// A replaced entry is the entry of its headset, also once the mark that a
/// connection is being made was taken away.
proof fn lemma_replaced(manager: ManagerView, address: Address, entry: EntryView)
    requires
        manager.sound(),
        manager.knows(address),
        entry.device.address == address,
        entry.aap != AAPState::Connecting,
    ensures
        ({
            let after = manager.with_entry(address, entry).not_connecting(address);
            &&& after.knows(address)
            &&& after.entry(address) == entry
            &&& !after.connecting.contains(address)
            &&& after.adapters == manager.adapters
            &&& after.studied == manager.studied
            &&& after.devices.len() == manager.devices.len()
        }),
{
    lemma_with_entry(manager, address, entry);
    let replaced = manager.with_entry(address, entry);
    lemma_same_list(replaced, replaced.not_connecting(address), address);
}

/// A control connection that is up is noted and told to listeners, and the failures
/// are forgotten; the headset is otherwise as before. Of a headset that is not
/// known only the mark that a connection is being made goes.
pub proof fn law_connection_that_is_up(manager: ManagerView, address: Address)
    requires
        manager.sound(),
    ensures
        ({
            let (after, actions) = manager.after_aap_connected(address);
            &&& !after.connecting.contains(address)
            &&& after.adapters == manager.adapters
            &&& manager.knows(address) ==> {
                &&& after.knows(address)
                &&& after.entry(address) == EntryView {
                    aap: AAPState::Connected,
                    retry_count: 0,
                    ..manager.entry(address)
                }
                &&& actions == seq![ActionView::Emit(address, EventView::DeviceConnected)]
            }
            &&& !manager.knows(address) ==> after.devices == manager.devices && actions.len() == 0
        }),
{
    if manager.knows(address) {
        lemma_replaced(
            manager,
            address,
            EntryView { aap: AAPState::Connected, retry_count: 0, ..manager.entry(address) },
        );
    }
}

/// A control connection that an error ended is tried again while the system is
/// still connected to the headset: one more failure is counted, and the delay is
/// that of the failures so far, with the random part on top.
pub proof fn law_broken_connection_is_tried_again(
    manager: ManagerView,
    address: Address,
    jitter: u64,
)
    requires
        manager.sound(),
        manager.knows(address),
        manager.entry(address).bluetooth is Connected,
        manager.entry(address).retry_count < u32::MAX,
        jitter < 1000,
    ensures
        ({
            let (after, actions) = manager.after_aap_disconnected(address, true, jitter);
            let failures = (manager.entry(address).retry_count + 1) as u32;
            &&& after.knows(address)
            &&& after.entry(address) == EntryView {
                aap: AAPState::WaitingToReconnect,
                retry_count: failures,
                ..manager.entry(address)
            }
            &&& !after.connecting.contains(address)
            &&& actions.len() == 1
            &&& actions[0] matches ActionView::RetryAAP(whom, millis) && whom == address && millis
                == retry_base(failures as nat) + jitter
        }),
{
    let retries = (manager.entry(address).retry_count + 1) as u32;
    lemma_replaced(
        manager,
        address,
        EntryView {
            aap: AAPState::WaitingToReconnect,
            retry_count: retries,
            ..manager.entry(address)
        },
    );
    law_delays_grow(retries as nat, retries as nat);
}

/// A control connection that ended without an error, or after the system has
/// disconnected the headset, is not tried again, and the failures are forgotten.
pub proof fn law_ended_connection_is_left(
    manager: ManagerView,
    address: Address,
    is_error: bool,
    jitter: u64,
)
    requires
        manager.sound(),
        manager.knows(address) ==> !is_error || manager.entry(address).bluetooth is Disconnected,
    ensures
        ({
            let (after, actions) = manager.after_aap_disconnected(address, is_error, jitter);
            &&& actions.len() == 0
            &&& !after.connecting.contains(address)
            &&& manager.knows(address) ==> {
                &&& after.knows(address)
                &&& after.entry(address) == EntryView {
                    aap: AAPState::Disconnected,
                    retry_count: 0,
                    ..manager.entry(address)
                }
            }
            &&& !manager.knows(address) ==> after.devices == manager.devices
        }),
{
    if manager.knows(address) {
        lemma_replaced(
            manager,
            address,
            EntryView { aap: AAPState::Disconnected, retry_count: 0, ..manager.entry(address) },
        );
    }
}

/// What is done about a headset that goes: its task is stopped if it has one, what
/// was measured is entered in the study if there is something to enter, and
/// listeners are told if they are to be.
pub open spec fn farewell(entry: EntryView, local: Option<LocalRate>, told: bool) -> Seq<
    ActionView,
> {
    let address = entry.device.address;
    (if entry.has_task {
        seq![ActionView::StopTask(address)]
    } else {
        Seq::empty()
    }) + (match entry.device.record_of(local) {
        Some(record) => seq![ActionView::Save(address, record)],
        None => Seq::empty(),
    }) + (if told {
        seq![ActionView::Emit(address, EventView::DeviceDisconnected)]
    } else {
        Seq::empty()
    })
}

/// A headset that the system has disconnected is noted as disconnected in every
/// respect, and its task is stopped and its battery data are saved. Listeners are
/// told if it was connected for them.
pub proof fn law_system_disconnects_a_headset(
    manager: ManagerView,
    address: Address,
    local: Option<LocalRate>,
)
    requires
        manager.sound(),
        manager.knows(address),
    ensures
        ({
            let (after, actions) = manager.after_bluetooth_disconnected(address, local);
            let before = manager.entry(address);
            let entry = after.entry(address);
            &&& after.knows(address)
            &&& entry.bluetooth is Disconnected
            &&& entry.aap is Disconnected
            &&& !entry.has_task
            &&& !entry.device.connected
            &&& entry.device.link is None
            &&& entry.device == before.device.after_disconnect(local)
            &&& entry.adapter == before.adapter
            &&& entry.retry_count == before.retry_count
            &&& !after.connecting.contains(address)
            &&& after.adapters == manager.adapters
            &&& actions == farewell(before, local, before.device.connected)
        }),
{
    let before = manager.entry(address);
    lemma_replaced(
        manager,
        address,
        EntryView {
            device: before.device.after_disconnect(local),
            bluetooth: BluetoothState::Disconnected,
            aap: AAPState::Disconnected,
            has_task: false,
            ..before
        },
    );
}

/// A control connection that the user has given up is noted as disconnected, while
/// the system stays connected to the headset. The task is stopped, the battery data
/// are saved, and listeners are told in any case.
pub proof fn law_user_disconnects_a_headset(
    manager: ManagerView,
    address: Address,
    local: Option<LocalRate>,
)
    requires
        manager.sound(),
        manager.knows(address),
    ensures
        ({
            let (after, actions) = manager.after_disconnect_aap(address, local);
            let before = manager.entry(address);
            let entry = after.entry(address);
            &&& after.knows(address)
            &&& entry.bluetooth == before.bluetooth
            &&& entry.aap is Disconnected
            &&& !entry.has_task
            &&& !entry.device.connected
            &&& entry.device.link is None
            &&& entry.device == before.device.after_disconnect(local)
            &&& entry.adapter == before.adapter
            &&& entry.retry_count == before.retry_count
            &&& !after.connecting.contains(address)
            &&& after.adapters == manager.adapters
            &&& actions == farewell(before, local, true)
        }),
{
    let before = manager.entry(address);
    lemma_replaced(
        manager,
        address,
        EntryView {
            device: before.device.after_disconnect(local),
            aap: AAPState::Disconnected,
            has_task: false,
            ..before
        },
    );
}

/// The task of a headset that is gone is stopped, its battery data are saved, and
/// listeners are told. The other headsets stay on the list in their order. Of a
/// headset that is not known nobody is told.
pub proof fn law_gone_headset_is_reported(
    manager: ManagerView,
    address: Address,
    local: Option<LocalRate>,
)
    ensures
        ({
            let (after, actions) = manager.after_device_lost(address, local);
            &&& after.adapters == manager.adapters
            &&& after.studied == manager.studied
            &&& !after.connecting.contains(address)
            &&& manager.knows(address) ==> {
                let at = manager.spot(address);
                &&& actions == farewell(manager.entry(address), local, true)
                &&& after.devices.len() == manager.devices.len() - 1
                &&& forall|i: int| 0 <= i < at ==> after.devices[i] == manager.devices[i]
                &&& forall|i: int|
                    at <= i < manager.devices.len() - 1 ==> after.devices[i] == manager.devices[i
                        + 1]
            }
            &&& !manager.knows(address) ==> after.devices == manager.devices && actions.len() == 0
        }),
{
    if manager.knows(address) {
        assert(manager.is_device(manager.spot(address), address));
    }
}

/// A control connection is out of the question for the first of these reasons that
/// holds: one is being made already, the headset is not known, its adapter is not
/// known, the adapter is not in use, or the system is not connected to the headset.
/// Otherwise it is possible, and made if the headset is paired.
pub proof fn law_refusals_have_their_reasons(
    manager: ManagerView,
    address: Address,
    pairing: Pairing,
)
    ensures
        ({
            let refusal = manager.refusal(address);
            let busy = manager.connecting.contains(address);
            let known = manager.knows(address);
            let entry = manager.entry(address);
            let placed = manager.has_adapter(entry.adapter);
            let usable = manager.adapter(entry.adapter).state is Active;
            let connected = entry.bluetooth is Connected;
            &&& busy ==> refusal == Some(AirPodsError::AlreadyConnecting)
            &&& !busy && !known ==> refusal == Some(AirPodsError::DeviceNotFound(address))
            &&& !busy && known && !placed ==> refusal == Some(AirPodsError::AdapterNotFound)
            &&& !busy && known && placed && !usable ==> refusal == Some(
                AirPodsError::AdapterNotAvailable,
            )
            &&& !busy && known && placed && usable && !connected ==> refusal == Some(
                AirPodsError::DeviceNotConnected,
            )
            &&& refusal is None <==> !busy && known && placed && usable && connected
            &&& refusal is Some ==> manager.refusal_with(address, pairing) == refusal
            &&& refusal is None ==> manager.refusal_with(address, Pairing::NotPaired) == Some(
                AirPodsError::DeviceNotPaired,
            )
            &&& refusal is None ==> manager.refusal_with(address, Pairing::Unavailable) == Some(
                AirPodsError::DeviceUnavailable,
            )
            &&& refusal is None ==> manager.refusal_with(address, Pairing::Paired) is None
        }),
{
}

/// A control connection that is being made is marked as such and has a task; the
/// headset is otherwise as before, and the marks of the others stay.
pub proof fn law_connection_that_is_being_made(
    manager: ManagerView,
    address: Address,
    other: Address,
)
    requires
        manager.sound(),
        manager.knows(address),
    ensures
        ({
            let after = manager.after_establish(address);
            &&& after.knows(address)
            &&& after.entry(address) == EntryView {
                aap: AAPState::Connecting,
                has_task: true,
                ..manager.entry(address)
            }
            &&& after.connecting.contains(address)
            &&& other != address ==> after.connecting.contains(other)
                == manager.connecting.contains(other)
            &&& after.adapters == manager.adapters
            &&& after.has_aap(address)
        }),
{
    let marked = ManagerView { connecting: manager.connecting.insert(address), ..manager };
    let entry = EntryView { aap: AAPState::Connecting, has_task: true, ..manager.entry(address) };
    lemma_marked(manager, address);
    lemma_same_list(manager, marked, address);
    lemma_with_entry(marked, address, entry);
    assert(manager.after_establish(address) =~= marked.with_entry(address, entry));
}

/// A headset has a control connection if it is known and the connection is up or
/// being made, and in no other state.
pub proof fn law_headsets_with_a_control_connection(manager: ManagerView, address: Address)
    ensures
        manager.has_aap(address) ==> manager.knows(address),
        manager.knows(address) ==> (manager.has_aap(address) <==> manager.entry(address).aap
            is Connected || manager.entry(address).aap is Connecting),
{
}

/// A look at a headset on a known adapter shows that the system has connected or
/// disconnected it since, and shows nothing if that is not so.
pub proof fn law_look_shows_what_changed(manager: ManagerView, address: Address)
    ensures
        ({
            let seen = manager.knows(address) && manager.has_adapter(
                manager.entry(address).adapter,
            );
            let was = manager.entry(address).bluetooth is Connected;
            &&& seen && was ==> manager.health_change(address, false) == Some(
                HealthChange::Disconnected,
            ) && manager.health_change(address, true) is None
            &&& seen && !was ==> manager.health_change(address, true) == Some(
                HealthChange::Connected,
            ) && manager.health_change(address, false) is None
            &&& !seen ==> manager.health_change(address, true) is None && manager.health_change(
                address,
                false,
            ) is None
        }),
{
}

/// The end of a control connection counts as a failure if it is tried again, and
/// there is room for it unless the count is full.
pub proof fn law_room_for_failures(
    manager: ManagerView,
    address: Address,
    is_error: bool,
    name: Seq<char>,
)
    ensures
        manager.can_count(address, is_error) <==> !(is_error && manager.knows(address)
            && manager.entry(address).bluetooth is Connected && manager.entry(address).retry_count
            == 0xffff_ffff),
        manager.can_count_adapter(name) <==> !(manager.has_adapter(name) && manager.adapter(
            name,
        ).retry_count == 0xffff_ffff),
{
}

// === Laws of adapters ===

proof fn lemma_adapter_replaced(manager: ManagerView, name: Seq<char>, adapter: AdapterView)
    requires
        manager.sound(),
        manager.has_adapter(name),
        adapter.name == name,
    ensures
        manager.with_adapter(name, adapter).has_adapter(name),
        manager.with_adapter(name, adapter).adapter(name) == adapter,
        forall|other: Seq<char>|
            other != name ==> #[trigger] manager.with_adapter(name, adapter).has_adapter(other)
                == manager.has_adapter(other),
        forall|other: Seq<char>|
            other != name && manager.has_adapter(other) ==> #[trigger] manager.with_adapter(
                name,
                adapter,
            ).adapter(other) == manager.adapter(other),
{
    let after = manager.with_adapter(name, adapter);
    let at = manager.adapter_spot(name);
    assert(after.is_adapter(at, name));
    assert forall|i: int| after.is_adapter(i, name) implies i == at by {
        if i != at {
            assert(manager.is_adapter(i, name));
        }
    }
    assert forall|other: Seq<char>| other != name implies #[trigger] after.has_adapter(other)
        == manager.has_adapter(other) by {
        if manager.has_adapter(other) {
            assert(after.is_adapter(manager.adapter_spot(other), other));
        }
        if after.has_adapter(other) {
            assert(manager.is_adapter(after.adapter_spot(other), other));
        }
    }
    assert forall|other: Seq<char>|
        other != name && manager.has_adapter(other) implies #[trigger] after.adapter(other)
        == manager.adapter(other) by {
        let k = manager.adapter_spot(other);
        assert(after.is_adapter(k, other));
        assert forall|i: int| after.is_adapter(i, other) implies i == k by {
            assert(manager.is_adapter(i, other));
        }
    }
}

/// An adapter that is known and available is in use and listened to, and its
/// failures are forgotten. It is listened to anew only if it was not before. Then
/// the headsets on it are looked for, and the control connections that are to be
/// made again are. An adapter that is not known is set up first.
pub proof fn law_adapter_that_is_available(
    manager: ManagerView,
    name: Seq<char>,
    other: Seq<char>,
)
    requires
        manager.sound(),
    ensures
        ({
            let (after, actions) = manager.after_adapter_available(name);
            if manager.has_adapter(name) {
                let opening = if manager.adapter(name).monitored {
                    seq![ActionView::CheckConnectedDevices(name)]
                } else {
                    seq![ActionView::StartMonitor(name), ActionView::CheckConnectedDevices(name)]
                };
                &&& after.has_adapter(name)
                &&& after.adapter(name) == (AdapterView {
                    name,
                    state: AdapterStateView::Active,
                    monitored: true,
                    retry_count: 0,
                })
                &&& other != name ==> after.has_adapter(other) == manager.has_adapter(other)
                &&& other != name && manager.has_adapter(other) ==> after.adapter(other)
                    == manager.adapter(other)
                &&& after.devices == manager.devices
                &&& after.connecting == manager.connecting
                &&& actions == opening + manager.reconnects(name, manager.devices.len())
            } else {
                &&& after == manager
                &&& actions == seq![ActionView::InitializeAdapter(name)]
            }
        }),
{
    if manager.has_adapter(name) {
        let before = manager.adapter(name);
        let adapter = AdapterView {
            state: AdapterStateView::Active,
            monitored: true,
            retry_count: 0,
            ..before
        };
        assert(manager.is_adapter(manager.adapter_spot(name), name));
        lemma_adapter_replaced(manager, name, adapter);
        let actions = manager.after_adapter_available(name).1;
        let opening = if before.monitored {
            seq![ActionView::CheckConnectedDevices(name)]
        } else {
            seq![ActionView::StartMonitor(name), ActionView::CheckConnectedDevices(name)]
        };
        assert(actions =~= opening + manager.reconnects(name, manager.devices.len()));
    }
}

/// Once an adapter is back, a control connection is asked for to each of its
/// headsets that the system is connected to and whose connection is broken or
/// ended, in the order of the list, and to no other headset.
pub proof fn law_headsets_to_be_connected_again(manager: ManagerView, name: Seq<char>, n: nat)
    ensures
        manager.reconnects(name, 0).len() == 0,
        ({
            let entry = manager.devices[n as int];
            let wanted = entry.adapter == name && entry.bluetooth is Connected && (entry.aap
                is Failed || entry.aap is Disconnected);
            manager.reconnects(name, n + 1) == manager.reconnects(name, n) + if wanted {
                seq![ActionView::EstablishAAP(entry.device.address)]
            } else {
                Seq::empty()
            }
        }),
{
    let entry = manager.devices[n as int];
    let before = manager.reconnects(name, n);
    assert(before.push(ActionView::EstablishAAP(entry.device.address)) =~= before + seq![
        ActionView::EstablishAAP(entry.device.address),
    ]);
    assert(before + Seq::<ActionView>::empty() =~= before);
}

/// A lost adapter is noted as lost and not listened to any more, and one more
/// failure is counted. It is looked for after the delay of its failures so far, with
/// the random part on top. Before that its monitor is stopped if it had one, and the
/// headsets on it are dealt with. The loss of an adapter that is not known changes
/// nothing.
pub proof fn law_adapter_that_is_lost(
    manager: ManagerView,
    name: Seq<char>,
    jitter: u64,
    other: Seq<char>,
)
    requires
        manager.sound(),
        manager.can_count_adapter(name),
        jitter < 1000,
    ensures
        ({
            let (after, actions) = manager.after_adapter_lost(name, jitter);
            if manager.has_adapter(name) {
                let before = manager.adapter(name);
                let failures = (before.retry_count + 1) as u32;
                let opening = if before.monitored {
                    seq![ActionView::StopMonitor(name)]
                } else {
                    Seq::empty()
                };
                &&& after.has_adapter(name)
                &&& after.adapter(name) == (AdapterView {
                    name,
                    state: AdapterStateView::Lost,
                    monitored: false,
                    retry_count: failures,
                })
                &&& other != name ==> after.has_adapter(other) == manager.has_adapter(other)
                &&& other != name && manager.has_adapter(other) ==> after.adapter(other)
                    == manager.adapter(other)
                &&& after.connecting == manager.connecting
                &&& actions.len() > 0
                &&& actions.last() matches ActionView::RecoverAdapter(which, millis) && which == name
                    && millis == retry_base(failures as nat) + jitter
                &&& actions.drop_last() == opening + manager.loss_actions(
                    name,
                    manager.devices.len(),
                )
            } else {
                after == manager && actions.len() == 0
            }
        }),
{
    if manager.has_adapter(name) {
        let before = manager.adapter(name);
        let adapter = AdapterView {
            state: AdapterStateView::Lost,
            monitored: false,
            retry_count: (before.retry_count + 1) as u32,
            ..before
        };
        assert(manager.is_adapter(manager.adapter_spot(name), name));
        lemma_adapter_replaced(manager, name, adapter);
        let changed = manager.with_adapter(name, adapter);
        let after = manager.after_adapter_lost(name, jitter).0;
        assert(after.adapters == changed.adapters);
        lemma_same_adapters(changed, after, name);
        lemma_same_adapters(changed, after, other);
        lemma_with_adapter(manager, name, adapter);
        law_delays_grow(adapter.retry_count as nat, adapter.retry_count as nat);
        let actions = manager.after_adapter_lost(name, jitter).1;
        let opening = if before.monitored {
            seq![ActionView::StopMonitor(name)]
        } else {
            Seq::empty()
        };
        assert(actions.drop_last() =~= opening + manager.loss_actions(name, manager.devices.len()));
    }
}

proof fn lemma_same_adapters(a: ManagerView, b: ManagerView, name: Seq<char>)
    requires
        a.adapters == b.adapters,
        forall|i: int, j: int|
            0 <= i < j < a.adapters.len() ==> (#[trigger] a.adapters[i]).name != (
            #[trigger] a.adapters[j]).name,
    ensures
        a.has_adapter(name) == b.has_adapter(name),
        a.has_adapter(name) ==> a.adapter(name) == b.adapter(name),
{
    if a.has_adapter(name) {
        assert(b.is_adapter(a.adapter_spot(name), name));
        assert(a.is_adapter(b.adapter_spot(name), name));
    }
    if b.has_adapter(name) {
        assert(a.is_adapter(b.adapter_spot(name), name));
    }
}

/// For each headset on a lost adapter, in the order of the list, the task is
/// stopped if there is one, and listeners are told of the error. Nothing is done
/// about the others.
pub proof fn law_headsets_on_a_lost_adapter(manager: ManagerView, name: Seq<char>, n: nat)
    ensures
        manager.loss_actions(name, 0).len() == 0,
        ({
            let entry = manager.devices[n as int];
            let address = entry.device.address;
            let error = ActionView::Emit(address, EventView::DeviceError);
            manager.loss_actions(name, n + 1) == manager.loss_actions(name, n) + if entry.adapter
                != name {
                Seq::empty()
            } else if entry.has_task {
                seq![ActionView::StopTask(address), error]
            } else {
                seq![error]
            }
        }),
{
    let entry = manager.devices[n as int];
    let address = entry.device.address;
    let error = ActionView::Emit(address, EventView::DeviceError);
    let before = manager.loss_actions(name, n);
    assert(before + seq![ActionView::StopTask(address)] + seq![error] =~= before + seq![
        ActionView::StopTask(address),
        error,
    ]);
    assert(before + Seq::<ActionView>::empty() + seq![error] =~= before + seq![error]);
    assert(before + Seq::<ActionView>::empty() =~= before);
}

/// An error of an adapter is noted with its text, and nothing else changes. Of an
/// adapter that is not known nothing is noted.
pub proof fn law_adapter_error_is_noted(
    manager: ManagerView,
    name: Seq<char>,
    error: Seq<char>,
    other: Seq<char>,
)
    requires
        manager.sound(),
    ensures
        ({
            let after = manager.after_adapter_error(name, error);
            if manager.has_adapter(name) {
                let before = manager.adapter(name);
                &&& after.has_adapter(name)
                &&& after.adapter(name) == (AdapterView {
                    name,
                    state: AdapterStateView::Failed(error),
                    monitored: before.monitored,
                    retry_count: before.retry_count,
                })
                &&& other != name ==> after.has_adapter(other) == manager.has_adapter(other)
                &&& other != name && manager.has_adapter(other) ==> after.adapter(other)
                    == manager.adapter(other)
                &&& after.devices == manager.devices
                &&& after.connecting == manager.connecting
            } else {
                after == manager
            }
        }),
{
    if manager.has_adapter(name) {
        assert(manager.is_adapter(manager.adapter_spot(name), name));
        lemma_adapter_replaced(
            manager,
            name,
            AdapterView { state: AdapterStateView::Failed(error), ..manager.adapter(name) },
        );
    }
}

/// An adapter that was set up is in use and listened to, whether it was known or
/// not, and the headsets on it are looked for. One that could not be powered is
/// tried again after five seconds, and one that is missing is left.
pub proof fn law_adapter_that_is_set_up(manager: ManagerView, name: Seq<char>, other: Seq<char>)
    requires
        manager.sound(),
    ensures
        ({
            let (after, actions) = manager.after_initialize(name, AdapterOpening::Ready);
            &&& after.has_adapter(name)
            &&& after.adapter(name) == (AdapterView {
                name,
                state: AdapterStateView::Active,
                monitored: true,
                retry_count: 0,
            })
            &&& other != name ==> after.has_adapter(other) == manager.has_adapter(other)
            &&& other != name && manager.has_adapter(other) ==> after.adapter(other)
                == manager.adapter(other)
            &&& after.devices == manager.devices
            &&& after.connecting == manager.connecting
            &&& after.studied == manager.studied
            &&& after.sound()
            &&& actions == seq![
                ActionView::StartMonitor(name),
                ActionView::CheckConnectedDevices(name),
            ]
        }),
        manager.after_initialize(name, AdapterOpening::PowerFailed) == (
            manager,
            seq![ActionView::RetryAdapter(name, 5000)],
        ),
        manager.after_initialize(name, AdapterOpening::Missing) == (
            manager,
            Seq::<ActionView>::empty(),
        ),
{
    let after = manager.after_initialize(name, AdapterOpening::Ready).0;
    let adapter = AdapterView {
        name,
        state: AdapterStateView::Active,
        monitored: true,
        retry_count: 0,
    };
    if manager.has_adapter(name) {
        lemma_adapter_replaced(manager, name, adapter);
        lemma_with_adapter(manager, name, adapter);
    } else {
        let at = manager.adapters.len() as int;
        assert(after.is_adapter(at, name));
        assert forall|i: int| after.is_adapter(i, name) implies i == at by {
            if i < at {
                assert(manager.is_adapter(i, name));
            }
        }
        if manager.has_adapter(other) {
            let k = manager.adapter_spot(other);
            assert(after.is_adapter(k, other));
            assert forall|i: int| after.is_adapter(i, other) implies i == k by {
                if i < at {
                    assert(manager.is_adapter(i, other));
                }
            }
        }
        if other != name && after.has_adapter(other) {
            assert(manager.is_adapter(after.adapter_spot(other), other));
        }
        assert forall|i: int| 0 <= i < at implies (#[trigger] after.adapters[i]).name != name by {
            assert(!manager.is_adapter(i, name));
        }
        assert forall|address: Address| after.connecting.contains(address) implies after.knows(
            address,
        ) by {
            assert(manager.knows(address));
            assert(after.is_device(manager.spot(address), address));
        }
    }
}

/// An adapter that the system lists is to be set up unless it is known and in use.
pub proof fn law_adapters_to_be_set_up(manager: ManagerView, name: Seq<char>)
    ensures
        manager.wants_adapter(name) <==> !(manager.has_adapter(name) && manager.adapter(
            name,
        ).state is Active),
        fallback_adapter() == "hci0"@,
{
}

/// An adapter is ready if it is there and is on, or could be switched on, or is not
/// known to be off. It is missing only if it is not there.
pub proof fn law_adapter_is_ready(found: bool, powered: Option<bool>, switched_on: bool)
    ensures
        opening_of(found, powered, switched_on) is Missing <==> !found,
        opening_of(found, powered, switched_on) is Ready <==> found && (switched_on || powered
            != Some(false)),
        opening_of(found, Some(false), switched_on) is PowerFailed <==> found && !switched_on,
{
}

/// A headset is supported if it is in the configuration, is one of the AirPods, or
/// was recognised otherwise; only in the last case has it the kind that was
/// recognised.
pub proof fn law_supported_headsets(
    is_configured: bool,
    is_airpods: bool,
    nothing: Option<DeviceKind>,
)
    ensures
        supported_kind(is_configured, is_airpods, nothing) is Some <==> is_configured || is_airpods
            || nothing is Some,
        is_configured ==> supported_kind(is_configured, is_airpods, nothing) == Some(
            DeviceKind::AirPods,
        ),
        is_airpods ==> supported_kind(is_configured, is_airpods, nothing) == Some(
            DeviceKind::AirPods,
        ),
        !is_configured && !is_airpods ==> supported_kind(is_configured, is_airpods, nothing)
            == nothing,
{
}

/// Only a supported headset that the system is connected to is reported as
/// discovered: on its adapter if it is not known yet, and by a scan if it has no
/// control connection.
pub proof fn law_headsets_that_are_reported(
    manager: ManagerView,
    address: Address,
    connected: bool,
    supported: bool,
)
    ensures
        manager.is_new(address, connected, supported) ==> connected && supported
            && !manager.knows(address),
        manager.reports(address, connected, supported) ==> connected && supported
            && !manager.has_aap(address),
        !manager.knows(address) ==> (manager.is_new(address, connected, supported) <==> connected
            && supported),
        !manager.has_aap(address) ==> (manager.reports(address, connected, supported)
            <==> connected && supported),
{
}

/// The adapters that can be used are those in use, in the order of the list.
pub proof fn law_usable_adapters_are_those_in_use(manager: ManagerView, n: nat)
    ensures
        manager.usable_adapters(0).len() == 0,
        manager.usable_adapters(n + 1) == manager.usable_adapters(n)
            + if manager.adapters[n as int].state is Active {
            seq![manager.adapters[n as int].name]
        } else {
            Seq::empty()
        },
{
    let before = manager.usable_adapters(n);
    let name = manager.adapters[n as int].name;
    assert(before.push(name) =~= before + seq![name]);
    assert(before + Seq::<Seq<char>>::empty() =~= before);
}

// === Laws of all the headsets ===

/// Each connected headset counts one, and no other counts.
pub proof fn law_connected_headsets_are_counted(manager: ManagerView, n: nat)
    ensures
        manager.connected_count(0) == 0,
        manager.devices[n as int].device.connected ==> manager.connected_count(n + 1)
            == manager.connected_count(n) + 1,
        !manager.devices[n as int].device.connected ==> manager.connected_count(n + 1)
            == manager.connected_count(n),
{
}

/// From time to time each connected headset whose battery data are due saves them;
/// the others, and everything else, stay as they are.
pub proof fn law_due_headsets_save(
    manager: ManagerView,
    now: Moment,
    locals: Seq<Option<LocalRate>>,
    n: int,
)
    requires
        0 <= n < manager.devices.len(),
        locals.len() == manager.devices.len(),
    ensures
        ({
            let after = manager.after_tick(now, locals);
            let entry = manager.devices[n];
            let saves = entry.device.connected && entry.device.save_due(5, now);
            let before = manager.tick_actions(now, locals, n as nat);
            let address = entry.device.address;
            &&& after.devices.len() == manager.devices.len()
            &&& saves ==> after.devices[n] == EntryView {
                device: entry.device.after_save(locals[n]),
                ..entry
            }
            &&& !saves ==> after.devices[n] == entry
            &&& after.adapters == manager.adapters
            &&& after.connecting == manager.connecting
            &&& after.studied == manager.studied
            &&& manager.tick_actions(now, locals, 0).len() == 0
            &&& manager.tick_actions(now, locals, (n + 1) as nat) == before + if saves {
                match entry.device.record_of(locals[n]) {
                    Some(record) => seq![ActionView::Save(address, record)],
                    None => Seq::empty(),
                }
            } else {
                Seq::empty()
            }
        }),
{
}

/// When the service stops, the monitor of each adapter that has one is stopped, in
/// the order of the list.
pub proof fn law_monitors_are_stopped(manager: ManagerView, n: nat)
    ensures
        manager.monitor_stops(0).len() == 0,
        manager.monitor_stops(n + 1) == manager.monitor_stops(n)
            + if manager.adapters[n as int].monitored {
            seq![ActionView::StopMonitor(manager.adapters[n as int].name)]
        } else {
            Seq::empty()
        },
{
}

/// When the service stops, the task of each headset that has one is stopped and its
/// battery data are saved, in the order of the list.
pub proof fn law_headsets_are_stopped(
    manager: ManagerView,
    locals: Seq<Option<LocalRate>>,
    n: nat,
)
    ensures
        manager.device_stops(locals, 0).len() == 0,
        manager.device_stops(locals, n + 1) == manager.device_stops(locals, n) + farewell(
            manager.devices[n as int],
            locals[n as int],
            false,
        ),
{
    let entry = manager.devices[n as int];
    let before = manager.device_stops(locals, n);
    assert(manager.device_stops(locals, n + 1) =~= before + farewell(
        entry,
        locals[n as int],
        false,
    ));
}

// === Laws of the commands ===

/// A command that reports something is carried out as that report, with what came
/// with it, and is answered without an error.
pub proof fn law_reports_are_carried_out(
    manager: ManagerView,
    jitter: u64,
    address: Address,
    name: SmolStr,
    error: String,
    probe: DeviceProbe,
    found_on: Option<SmolStr>,
    local: Option<LocalRate>,
    is_error: bool,
)
    ensures
        ({
            let text = smol_chars(name);
            let available = manager.after_command(ManagerCommand::AdapterAvailable(name), jitter);
            let lost = manager.after_command(ManagerCommand::AdapterLost(name), jitter);
            let failed = manager.after_command(ManagerCommand::AdapterError(name, error), jitter);
            let discovered = manager.after_command(
                ManagerCommand::DeviceDiscovered(address, name, probe),
                jitter,
            );
            let connected = manager.after_command(
                ManagerCommand::BluetoothConnected(address, found_on),
                jitter,
            );
            let disconnected = manager.after_command(
                ManagerCommand::BluetoothDisconnected(address, local),
                jitter,
            );
            let up = manager.after_command(ManagerCommand::AAPConnected(address), jitter);
            let down = manager.after_command(
                ManagerCommand::AAPDisconnected(address, is_error),
                jitter,
            );
            let gone = manager.after_command(ManagerCommand::DeviceLost(address, local), jitter);
            let found = match found_on {
                Some(adapter) => Some(smol_chars(adapter)),
                None => None,
            };
            &&& (available.manager, available.actions) == manager.after_adapter_available(text)
            &&& (lost.manager, lost.actions) == manager.after_adapter_lost(text, jitter)
            &&& failed.manager == manager.after_adapter_error(text, error@)
            &&& failed.actions.len() == 0
            &&& (discovered.manager, discovered.actions) == manager.after_device_discovered(
                address,
                text,
                probe,
            )
            &&& (connected.manager, connected.actions) == manager.after_bluetooth_connected(
                address,
                found,
            )
            &&& (disconnected.manager, disconnected.actions)
                == manager.after_bluetooth_disconnected(address, local)
            &&& (up.manager, up.actions) == manager.after_aap_connected(address)
            &&& (down.manager, down.actions) == manager.after_aap_disconnected(
                address,
                is_error,
                jitter,
            )
            &&& (gone.manager, gone.actions) == manager.after_device_lost(address, local)
            &&& available.reply is Ok && lost.reply is Ok && failed.reply is Ok
            &&& discovered.reply is Ok && connected.reply is Ok && disconnected.reply is Ok
            &&& up.reply is Ok && down.reply is Ok && gone.reply is Ok
        }),
{
}

/// A discovery that is carried out as a command takes the headset in with the kind
/// that was found, so the connection that is opened to it is that of its kind.
pub proof fn law_discovery_command_keeps_the_kind(
    manager: ManagerView,
    jitter: u64,
    address: Address,
    name: SmolStr,
    probe: DeviceProbe,
)
    requires
        manager.sound(),
        !manager.knows(address),
        manager.has_adapter(smol_chars(name)),
        probe.connected,
        probe.kind is Some,
    ensures
        ({
            let outcome = manager.after_command(
                ManagerCommand::DeviceDiscovered(address, name, probe),
                jitter,
            );
            &&& outcome.manager.knows(address)
            &&& Some(outcome.manager.entry(address).device.kind) == probe.kind
            &&& outcome.actions == seq![ActionView::EstablishAAP(address)]
        }),
{
    law_discovered_headset_is_taken_in(manager, address, smol_chars(name), probe);
}

/// What the user wants is done or refused: a control connection is made if nothing
/// speaks against it, with a task of its own, and given up if the headset is known.
/// A refusal names its reason and changes nothing.
pub proof fn law_wishes_are_done_or_refused(
    manager: ManagerView,
    jitter: u64,
    address: Address,
    pairing: Pairing,
    local: Option<LocalRate>,
)
    ensures
        ({
            let made = manager.after_command(
                ManagerCommand::EstablishAAP(address, pairing),
                jitter,
            );
            let given_up = manager.after_command(
                ManagerCommand::DisconnectAAP(address, local),
                jitter,
            );
            &&& match manager.refusal_with(address, pairing) {
                Some(reason) => {
                    &&& made.manager == manager
                    &&& made.actions.len() == 0
                    &&& made.reply == Err::<(), AirPodsError>(reason)
                },
                None => {
                    &&& made.manager == manager.after_establish(address)
                    &&& made.actions == seq![ActionView::StartTask(address)]
                    &&& made.reply is Ok
                },
            }
            &&& manager.knows(address) ==> {
                &&& (given_up.manager, given_up.actions) == manager.after_disconnect_aap(
                    address,
                    local,
                )
                &&& given_up.reply is Ok
            }
            &&& !manager.knows(address) ==> {
                &&& given_up.manager == manager
                &&& given_up.actions.len() == 0
                &&& given_up.reply == Err::<(), AirPodsError>(AirPodsError::DeviceNotFound(address))
            }
        }),
{
}

/// A command can be taken unless it reports a failure whose count is full.
pub proof fn law_commands_that_can_be_taken(manager: ManagerView, command: ManagerCommand)
    ensures
        command matches ManagerCommand::AdapterLost(name) ==> manager.can_take(command)
            == manager.can_count_adapter(smol_chars(name)),
        command matches ManagerCommand::AAPDisconnected(address, is_error) ==> manager.can_take(
            command,
        ) == manager.can_count(address, is_error),
        !(command is AdapterLost) && !(command is AAPDisconnected) ==> manager.can_take(command),
{
}

} // verus!
