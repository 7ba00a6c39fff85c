//! What can go wrong with a request.

use vstd::prelude::*;
use vstd::string::*;

use crate::bluetooth::address::Address;

verus! {

/// A request that the kind of the device does not allow.
#[derive(Clone, Copy, Debug, PartialEq, Eq, Structural)]
pub enum Unsupported {
    /// There is no such level.
    AncLevel(u8),
    /// Levels on a device that has modes only.
    AncLevels,
    EqPresets,
    Ring,
    /// Feature flags on a device that has none.
    FeatureFlags,
}

/// Errors of the service.
#[derive(Clone, Copy, Debug, PartialEq)]
pub enum AirPodsError {
    ManagerShutdown,
    DeviceNotFound(Address),
    AlreadyConnecting,
    AdapterNotFound,
    AdapterNotAvailable,
    DeviceNotConnected,
    DeviceNotPaired,
    /// The adapter does not know the device.
    DeviceUnavailable,
    RequestTimeout,
    ConnectionClosed,
    ConnectionLost,
    FeatureNotSupported(Unsupported),
}

/// The decimal digits of a number.
pub open spec fn decimal(n: nat) -> Seq<char>
    decreases n,
{
    if n < 10 {
        seq![('0' as u32 + n) as char]
    } else {
        decimal(n / 10).push(('0' as u32 + n % 10) as char)
    }
}

fn digit_text(value: u8) -> (digit: &'static str)
    requires
        value < 10,
    ensures
        digit@ == seq![('0' as u32 + value) as char],
{
    proof {
        reveal_strlit("0");
        reveal_strlit("1");
        reveal_strlit("2");
        reveal_strlit("3");
        reveal_strlit("4");
        reveal_strlit("5");
        reveal_strlit("6");
        reveal_strlit("7");
        reveal_strlit("8");
        reveal_strlit("9");
    }
    let digit = match value {
        0 => "0",
        1 => "1",
        2 => "2",
        3 => "3",
        4 => "4",
        5 => "5",
        6 => "6",
        7 => "7",
        8 => "8",
        _ => "9",
    };
    assert(digit@ =~= seq![('0' as u32 + value) as char]);
    digit
}

fn decimal_text(value: u8) -> (text: String)
    ensures
        text@ == decimal(value as nat),
    decreases value,
{
    if value < 10 {
        digit_text(value).to_owned()
    } else {
        let mut text = decimal_text(value / 10);
        let ghost before = text@;
        text.append(digit_text(value % 10));
        assert(text@ =~= before.push(('0' as u32 + value % 10) as char));
        text
    }
}

impl Unsupported {
    /// What the user is told.
    pub open spec fn text(self) -> Seq<char> {
        match self {
            Unsupported::AncLevel(level) => "ANC level "@ + decimal(level as nat),
            Unsupported::AncLevels => "Nothing/CMF ANC levels are not supported by AirPods"@,
            Unsupported::EqPresets => "Nothing/CMF EQ presets are not supported by AirPods"@,
            Unsupported::Ring => "Nothing/CMF ring is not supported by AirPods"@,
            Unsupported::FeatureFlags =>
                "AirPods feature bitmap is not supported by Nothing/CMF devices"@,
        }
    }

    /// Writes what the user is told.
    pub fn message(&self) -> (text: String)
        ensures
            text@ == self.text(),
    {
        match *self {
            Unsupported::AncLevel(level) => {
                let mut text = "ANC level ".to_owned();
                text.append(decimal_text(level).as_str());
                text
            },
            Unsupported::AncLevels => {
                "Nothing/CMF ANC levels are not supported by AirPods".to_owned()
            },
            Unsupported::EqPresets => {
                "Nothing/CMF EQ presets are not supported by AirPods".to_owned()
            },
            Unsupported::Ring => "Nothing/CMF ring is not supported by AirPods".to_owned(),
            Unsupported::FeatureFlags => {
                "AirPods feature bitmap is not supported by Nothing/CMF devices".to_owned()
            },
        }
    }
}

/// The decimal digits of a number make that number, and none of them but the
/// only one is a zero in front.
pub proof fn law_decimal_digits_make_the_number(n: nat)
    ensures
        decimal(n).len() > 0,
        forall|k: int| 0 <= k < decimal(n).len() ==> '0' <= #[trigger] decimal(n)[k] <= '9',
        n < 10 ==> decimal(n).len() == 1 && decimal(n)[0] as int == '0' as int + n,
        n >= 10 ==> decimal(n).drop_last() == decimal(n / 10) && decimal(n).last() as int
            == '0' as int + n % 10,
        n > 0 ==> decimal(n)[0] != '0',
    decreases n,
{
    if n >= 10 {
        law_decimal_digits_make_the_number(n / 10);
        let front = decimal(n / 10);
        assert(decimal(n).drop_last() =~= front);
        assert forall|k: int| 0 <= k < decimal(n).len() implies '0' <= #[trigger] decimal(n)[k]
            <= '9' by {
            if k < front.len() {
                assert(decimal(n)[k] == front[k]);
            }
        }
        assert(decimal(n)[0] == front[0]);
    }
}

/// A refused level is named in the message, and every other message says which
/// kind of device cannot do what.
pub proof fn law_messages_name_what_is_refused(level: u8)
    ensures
        Unsupported::AncLevel(level).text() == "ANC level "@ + decimal(level as nat),
        Unsupported::AncLevels.text() == "Nothing/CMF ANC levels are not supported by AirPods"@,
        Unsupported::EqPresets.text() == "Nothing/CMF EQ presets are not supported by AirPods"@,
        Unsupported::Ring.text() == "Nothing/CMF ring is not supported by AirPods"@,
        Unsupported::FeatureFlags.text()
            == "AirPods feature bitmap is not supported by Nothing/CMF devices"@,
{
}

} // verus!
