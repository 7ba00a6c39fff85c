//! Bluetooth device addresses.

use vstd::prelude::*;
use vstd::string::*;

verus! {

/// Address of a Bluetooth device, most significant byte first.
#[derive(Clone, Copy, Debug, Eq, Hash)]
pub struct Address(pub [u8; 6]);

impl PartialEq for Address {
    fn eq(&self, other: &Self) -> (same: bool) {
        let same = self.0[0] == other.0[0] && self.0[1] == other.0[1] && self.0[2] == other.0[2]
            && self.0[3] == other.0[3] && self.0[4] == other.0[4] && self.0[5] == other.0[5];
        assert(same ==> self.0 =~= other.0);
        same
    }
}

impl vstd::std_specs::cmp::PartialEqSpecImpl for Address {
    open spec fn obeys_eq_spec() -> bool {
        true
    }

    open spec fn eq_spec(&self, other: &Self) -> bool {
        *self == *other
    }
}

/// The digit for a value below sixteen.
pub open spec fn hex_digit(value: int) -> char {
    if value < 10 {
        ('0' as u32 + value) as char
    } else {
        ('A' as u32 + value - 10) as char
    }
}

/// The two digits of a byte.
pub open spec fn byte_text(byte: u8) -> Seq<char> {
    seq![hex_digit(byte as int / 16), hex_digit(byte as int % 16)]
}

/// The first `n` bytes as pairs of digits with colons between them.
pub open spec fn bytes_text(bytes: Seq<u8>, n: nat) -> Seq<char>
    decreases n,
{
    if n == 0 {
        Seq::empty()
    } else if n == 1 {
        byte_text(bytes[0])
    } else {
        bytes_text(bytes, (n - 1) as nat).push(':') + byte_text(bytes[n - 1])
    }
}

fn hex_digit_text(value: u8) -> (digit: &'static str)
    requires
        value < 16,
    ensures
        digit@ == seq![hex_digit(value as int)],
{
    proof {
        reveal_strlit("0");
        reveal_strlit("1");
        reveal_strlit("2");
        reveal_strlit("3");
        reveal_strlit("4");
        reveal_strlit("5");
        reveal_strlit("6");
        reveal_strlit("7");
        reveal_strlit("8");
        reveal_strlit("9");
        reveal_strlit("A");
        reveal_strlit("B");
        reveal_strlit("C");
        reveal_strlit("D");
        reveal_strlit("E");
        reveal_strlit("F");
    }
    let digit = match value {
        0 => "0",
        1 => "1",
        2 => "2",
        3 => "3",
        4 => "4",
        5 => "5",
        6 => "6",
        7 => "7",
        8 => "8",
        9 => "9",
        10 => "A",
        11 => "B",
        12 => "C",
        13 => "D",
        14 => "E",
        _ => "F",
    };
    assert(digit@ =~= seq![hex_digit(value as int)]);
    digit
}

impl Address {
    /// The address as text: six pairs of upper case digits with colons between
    /// them.
    pub open spec fn text(self) -> Seq<char> {
        bytes_text(self.0@, 6)
    }

    /// Writes the address as text.
    pub fn to_text(&self) -> (text: String)
        ensures
            text@ == self.text(),
    {
        let mut text = String::new();
        let mut n: usize = 0;
        while n < 6
            invariant
                n <= 6,
                text@ == bytes_text(self.0@, n as nat),
            decreases 6 - n,
        {
            let ghost before = text@;
            if n > 0 {
                proof {
                    reveal_strlit(":");
                }
                text.append(":");
            }
            let ghost opened = text@;
            text.append(hex_digit_text(self.0[n] / 16));
            text.append(hex_digit_text(self.0[n] % 16));
            assert(text@ =~= opened + byte_text(self.0@[n as int]));
            assert(n > 0 ==> opened =~= before.push(':'));
            assert(n == 0 ==> text@ =~= byte_text(self.0@[0]));
            n = n + 1;
        }
        text
    }
}

/// The text of an address is seventeen characters long. Each byte is written with
/// two digits, the high one first, ten to fifteen as the letters from A to F, and
/// there is a colon between two bytes.
pub proof fn law_address_is_written_in_pairs(address: Address, k: int)
    requires
        0 <= k < 6,
    ensures
        ({
            let text = address.text();
            let high = address.0@[k] as int / 16;
            let low = address.0@[k] as int % 16;
            &&& text.len() == 17
            &&& text[3 * k] as int == if high < 10 { 0x30 + high } else { 0x41 + high - 10 }
            &&& text[3 * k + 1] as int == if low < 10 { 0x30 + low } else { 0x41 + low - 10 }
            &&& k < 5 ==> text[3 * k + 2] == ':'
        }),
{
    reveal_with_fuel(bytes_text, 7);
}

/// Different addresses are written differently.
pub proof fn law_addresses_are_told_apart(a: Address, b: Address)
    requires
        a.text() == b.text(),
    ensures
        a == b,
{
    assert forall|k: int| 0 <= k < 6 implies a.0@[k] == b.0@[k] by {
        law_address_is_written_in_pairs(a, k);
        law_address_is_written_in_pairs(b, k);
    }
    assert(a.0@ =~= b.0@);
    assert(a.0 =~= b.0);
}

} // verus!
