//! Recognition of Nothing/CMF headsets.

use vstd::prelude::*;

use crate::airpods::device::{model_of_name, DeviceKind, NothingModel};

verus! {

/// The serial port service of the control channel.
pub const NOTHING_SPP_UUID: u128 = 0xaeac4a03_dff5_498f_843a_34487cf133eb;

/// The Fast Pair service.
pub const NOTHING_FASTPAIR_UUID: u128 = 0xdf21fe2c_2515_4fdb_8886_f12c4d67927c;

/// Whether one of the services is offered only by Nothing/CMF headsets.
pub open spec fn offers_service(uuids: Seq<u128>) -> bool {
    uuids.contains(NOTHING_SPP_UUID) || uuids.contains(NOTHING_FASTPAIR_UUID)
}

/// The text of a name, if there is one.
pub open spec fn name_text(name: Option<&str>) -> Option<Seq<char>> {
    match name {
        Some(n) => Some(n@),
        None => None,
    }
}

/// The kind of a device, from its name and its services.
pub open spec fn recognised(name: Option<Seq<char>>, uuids: Seq<u128>) -> Option<DeviceKind> {
    let named = match name {
        Some(n) => model_of_name(n),
        None => None,
    };
    match named {
        Some(model) => Some(DeviceKind::Nothing { model }),
        None => if offers_service(uuids) {
            Some(DeviceKind::Nothing { model: NothingModel::Generic })
        } else {
            None
        },
    }
}

fn offers(uuids: &[u128]) -> (offered: bool)
    ensures
        offered == offers_service(uuids@),
{
    let mut n: usize = 0;
    while n < uuids.len()
        invariant
            n <= uuids@.len(),
            forall|k: int|
                0 <= k < n ==> uuids@[k] != NOTHING_SPP_UUID && uuids@[k] != NOTHING_FASTPAIR_UUID,
        decreases uuids@.len() - n,
    {
        if uuids[n] == NOTHING_SPP_UUID || uuids[n] == NOTHING_FASTPAIR_UUID {
            assert(uuids@.contains(uuids@[n as int]));
            return true;
        }
        n = n + 1;
    }
    false
}

/// Tells the kind of a device from its name and its services. Where the device
/// has no name its alias takes the place. Services that could not be read are
/// passed as none.
pub fn identify(name: Option<&str>, alias: Option<&str>, uuids: &[u128]) -> (kind: Option<
    DeviceKind,
>)
    ensures
        kind == recognised(
            if name is Some {
                name_text(name)
            } else {
                name_text(alias)
            },
            uuids@,
        ),
{
    let name = match name {
        Some(n) => Some(n),
        None => alias,
    };
    let named = match name {
        Some(n) => NothingModel::from_name(n),
        None => None,
    };
    let model = match named {
        Some(model) => model,
        None => NothingModel::Generic,
    };
    if offers(uuids) {
        return Some(DeviceKind::Nothing { model });
    }
    if named.is_some() {
        return Some(DeviceKind::Nothing { model });
    }
    None
}

/// A device is recognised by its name or by one of two services. The name alone
/// tells the model; a device that only its services give away is a generic one,
/// and the services cannot take back what the name says.
pub proof fn law_name_or_service_gives_away(name: Option<Seq<char>>, uuids: Seq<u128>)
    ensures
        ({
            let named = name matches Some(n) && model_of_name(n) is Some;
            let served = uuids.contains(0xaeac4a03_dff5_498f_843a_34487cf133eb) || uuids.contains(
                0xdf21fe2c_2515_4fdb_8886_f12c4d67927c,
            );
            &&& recognised(name, uuids) is Some <==> named || served
            &&& named ==> recognised(name, uuids) == Some(
                DeviceKind::Nothing { model: model_of_name(name->0)->0 },
            )
            &&& !named && served ==> recognised(name, uuids) == Some(
                DeviceKind::Nothing { model: NothingModel::Generic },
            )
        }),
{
}

/// The text of a name is the name.
pub proof fn law_name_is_its_text(name: &str)
    ensures
        name_text(Some(name)) == Some(name@),
        name_text(None) is None,
{
}

} // verus!
