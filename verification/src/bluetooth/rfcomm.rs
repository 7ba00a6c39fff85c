//! The serial control channel of Nothing/CMF devices.

use vstd::prelude::*;

use crate::bluetooth::address::{byte_text, bytes_text, Address};
use crate::text::chars_of;

verus! {

/// Bytes on their way to or from a device, kept inline while they are few.
#[verifier::external_body]
pub struct Packet {
    inner: smallvec::SmallVec<[u8; 64]>,
}

/// The bytes that a packet's `smallvec::SmallVec` holds, first byte first.
pub uninterp spec fn packet_bytes(packet: Packet) -> Seq<u8>;

impl View for Packet {
    type V = Seq<u8>;

    open spec fn view(&self) -> Seq<u8> {
        packet_bytes(*self)
    }
}

/// `smallvec::SmallVec::from_slice` copies the elements of a slice, in their
/// order, into a new vector.
#[verifier::external_body]
fn small_vec_from_slice(bytes: &[u8]) -> (packet: Packet)
    ensures
        packet_bytes(packet) == bytes@,
{
    Packet { inner: smallvec::SmallVec::from_slice(bytes) }
}

/// `smallvec::SmallVec::as_slice` hands out the whole vector as a slice.
#[verifier::external_body]
fn small_vec_as_slice(packet: &Packet) -> (bytes: &[u8])
    ensures
        bytes@ == packet_bytes(*packet),
{
    packet.inner.as_slice()
}

impl Packet {
    /// Creates a packet that holds the given bytes.
    pub fn from_slice(bytes: &[u8]) -> (packet: Packet)
        ensures
            packet@ == bytes@,
    {
        small_vec_from_slice(bytes)
    }

    /// The bytes of the packet.
    pub fn as_slice(&self) -> (bytes: &[u8])
        ensures
            bytes@ == self@,
    {
        small_vec_as_slice(self)
    }
}

// === Socket addresses ===

/// An address as the kernel takes it, least significant byte first.
#[derive(Clone, Copy, Debug)]
pub struct BdAddr {
    pub b: [u8; 6],
}

/// Why a text is not an address.
#[derive(Clone, Copy, Debug, PartialEq, Eq, Structural)]
pub enum AddressError {
    /// A part of the text is not a byte in hexadecimal.
    InvalidPart,
    /// There are not six parts.
    InvalidLength,
}

/// The parts of a text between its colons.
pub open spec fn parts(text: Seq<char>) -> Seq<Seq<char>>
    decreases text.len(),
{
    if text.len() == 0 {
        seq![Seq::empty()]
    } else {
        let before = parts(text.drop_last());
        if text.last() == ':' {
            before.push(Seq::empty())
        } else {
            before.drop_last().push(before.last().push(text.last()))
        }
    }
}

/// The value of a hexadecimal digit.
pub open spec fn digit_value(c: char) -> Option<int> {
    if '0' <= c && c <= '9' {
        Some(c as int - '0' as int)
    } else if 'a' <= c && c <= 'f' {
        Some(c as int - 'a' as int + 10)
    } else if 'A' <= c && c <= 'F' {
        Some(c as int - 'A' as int + 10)
    } else {
        None
    }
}

/// The number that hexadecimal digits make, if they all are digits.
pub open spec fn digits_value(digits: Seq<char>) -> Option<int>
    decreases digits.len(),
{
    if digits.len() == 0 {
        Some(0)
    } else {
        match (digits_value(digits.drop_last()), digit_value(digits.last())) {
            (Some(high), Some(low)) => Some(16 * high + low),
            _ => None,
        }
    }
}

/// The digits of a part, which may have a plus sign in front.
pub open spec fn part_digits(part: Seq<char>) -> Seq<char> {
    if part.len() > 1 && part[0] == '+' {
        part.skip(1)
    } else {
        part
    }
}

/// The byte that a part stands for, if it is one.
pub open spec fn part_value(part: Seq<char>) -> Option<u8> {
    match digits_value(part_digits(part)) {
        Some(value) => if part.len() > 0 && value <= u8::MAX {
            Some(value as u8)
        } else {
            None
        },
        None => None,
    }
}

/// The address that a text stands for, or what is wrong with the text.
pub open spec fn address_of(text: Seq<char>) -> Result<Seq<u8>, AddressError> {
    let found = parts(text);
    if exists|k: int| 0 <= k < found.len() && part_value(#[trigger] found[k]) is None {
        Err(AddressError::InvalidPart)
    } else if found.len() != 6 {
        Err(AddressError::InvalidLength)
    } else {
        Ok(Seq::new(6, |k: int| part_value(found[k])->0))
    }
}

proof fn lemma_digits_value_grows(digits: Seq<char>, n: int)
    requires
        0 <= n <= digits.len(),
    ensures
        digits_value(digits) matches Some(whole) ==> (digits_value(digits.take(n)) matches Some(
            front,
        ) && 0 <= front <= whole),
    decreases digits.len() - n,
{
    lemma_digits_value_nonnegative(digits.take(n));
    if n == digits.len() {
        assert(digits.take(n) =~= digits);
    } else {
        lemma_digits_value_grows(digits, n + 1);
        assert(digits.take(n + 1).drop_last() =~= digits.take(n));
    }
}

proof fn lemma_digits_value_nonnegative(digits: Seq<char>)
    ensures
        digits_value(digits) matches Some(value) ==> 0 <= value,
    decreases digits.len(),
{
    if digits.len() > 0 {
        lemma_digits_value_nonnegative(digits.drop_last());
    }
}

fn read_digit(c: char) -> (value: Option<u8>)
    ensures
        value is Some <==> digit_value(c) is Some,
        value matches Some(v) ==> v == digit_value(c)->0 && v < 16,
{
    if '0' <= c && c <= '9' {
        Some(c as u8 - 48)
    } else if 'a' <= c && c <= 'f' {
        Some(c as u8 - 87)
    } else if 'A' <= c && c <= 'F' {
        Some(c as u8 - 55)
    } else {
        None
    }
}

fn read_part(part: &Vec<char>) -> (value: Option<u8>)
    ensures
        value == part_value(part@),
{
    if part.len() == 0 {
        return None;
    }
    let first: usize = if part.len() > 1 && part[0] == '+' { 1 } else { 0 };
    let ghost digits = part_digits(part@);
    assert(part@.skip(first as int) =~= digits);
    let mut value: u32 = 0;
    let mut n: usize = first;
    assert(digits.take(0) =~= Seq::empty());
    while n < part.len()
        invariant
            first <= n <= part@.len(),
            digits == part_digits(part@),
            digits == part@.skip(first as int),
            value <= u8::MAX,
            digits_value(digits.take(n - first)) == Some(value as int),
        decreases part@.len() - n,
    {
        proof {
            assert(digits.take(n + 1 - first).drop_last() =~= digits.take(n - first));
            assert(digits.take(n + 1 - first).last() == part@[n as int]);
            lemma_digits_value_grows(digits, n + 1 - first);
            lemma_digits_value_nonnegative(digits);
        }
        match read_digit(part[n]) {
            None => {
                return None;
            },
            Some(digit) => {
                value = 16 * value + digit as u32;
            },
        }
        if value > 255 {
            return None;
        }
        n = n + 1;
    }
    assert(digits.take(n - first) =~= digits);
    Some(value as u8)
}

fn split_parts(text: &Vec<char>) -> (found: Vec<Vec<char>>)
    ensures
        found@.len() == parts(text@).len(),
        forall|k: int| 0 <= k < found@.len() ==> (#[trigger] found@[k])@ == parts(text@)[k],
{
    let mut found: Vec<Vec<char>> = Vec::new();
    let mut current: Vec<char> = Vec::new();
    let mut n: usize = 0;
    assert(text@.take(0) =~= Seq::empty());
    assert(parts(text@.take(0)) =~= seq![current@]);
    while n < text.len()
        invariant
            n <= text@.len(),
            parts(text@.take(n as int)).len() == found@.len() + 1,
            parts(text@.take(n as int)).last() == current@,
            forall|k: int|
                0 <= k < found@.len() ==> (#[trigger] found@[k])@ == parts(text@.take(n as int))[k],
        decreases text@.len() - n,
    {
        let ghost before = parts(text@.take(n as int));
        proof {
            assert(text@.take(n + 1).drop_last() =~= text@.take(n as int));
            assert(text@.take(n + 1).last() == text@[n as int]);
        }
        if text[n] == ':' {
            found.push(current);
            current = Vec::new();
            assert(parts(text@.take(n + 1)).last() =~= current@);
        } else {
            current.push(text[n]);
        }
        n = n + 1;
    }
    assert(text@.take(n as int) =~= text@);
    found.push(current);
    found
}

/// Reads an address that is written as six bytes in hexadecimal with colons
/// between them, most significant byte first.
pub fn parse_bdaddr(address: &str) -> (parsed: Result<BdAddr, AddressError>)
    ensures
        match address_of(address@) {
            Ok(bytes) => parsed matches Ok(found) && found.b@ == bytes.reverse(),
            Err(error) => parsed == Err::<BdAddr, AddressError>(error),
        },
{
    let text = chars_of(address);
    let found = split_parts(&text);
    let ghost all = parts(address@);
    let mut bytes: Vec<u8> = Vec::new();
    let mut n: usize = 0;
    while n < found.len()
        invariant
            n <= found@.len(),
            all == parts(address@),
            found@.len() == all.len(),
            forall|k: int| 0 <= k < found@.len() ==> (#[trigger] found@[k])@ == all[k],
            bytes@.len() == n,
            forall|k: int| 0 <= k < n ==> part_value(#[trigger] all[k]) == Some(bytes@[k]),
        decreases found@.len() - n,
    {
        match read_part(&found[n]) {
            None => {
                assert(part_value(all[n as int]) is None);
                return Err(AddressError::InvalidPart);
            },
            Some(byte) => {
                bytes.push(byte);
            },
        }
        n = n + 1;
    }
    if bytes.len() != 6 {
        return Err(AddressError::InvalidLength);
    }
    let b: [u8; 6] = [bytes[5], bytes[4], bytes[3], bytes[2], bytes[1], bytes[0]];
    assert(b@ =~= bytes@.reverse());
    assert(address_of(address@)->Ok_0 =~= bytes@);
    Ok(BdAddr { b })
}

/// A text without a colon, put behind another text and a colon, is one more
/// part.
proof fn lemma_one_more_part(front: Seq<char>, back: Seq<char>)
    requires
        forall|k: int| 0 <= k < back.len() ==> back[k] != ':',
    ensures
        parts(front.push(':') + back) == parts(front).push(back),
    decreases back.len(),
{
    let whole = front.push(':') + back;
    if back.len() == 0 {
        assert(whole =~= front.push(':'));
        assert(whole.drop_last() =~= front);
        assert(back =~= Seq::empty());
    } else {
        let shorter = back.drop_last();
        lemma_one_more_part(front, shorter);
        assert(whole.drop_last() =~= front.push(':') + shorter);
        assert(whole.last() == back.last());
        assert(shorter.push(back.last()) =~= back);
        assert(parts(front).push(shorter).drop_last() =~= parts(front));
    }
}

proof fn lemma_byte_text_is_a_part(byte: u8)
    ensures
        part_value(byte_text(byte)) == Some(byte),
        parts(byte_text(byte)) == seq![byte_text(byte)],
        byte_text(byte)[0] != ':',
        byte_text(byte)[1] != ':',
{
    let text = byte_text(byte);
    let high = byte as int / 16;
    let low = byte as int % 16;
    assert(digit_value(text[0]) == Some(high));
    assert(digit_value(text[1]) == Some(low));
    assert(text.drop_last() =~= seq![text[0]]);
    assert(text.drop_last().drop_last() =~= Seq::empty());
    assert(digits_value(text.drop_last()) == Some(high)) by {
        reveal_with_fuel(digits_value, 3);
    }
    assert(digits_value(text) == Some(16 * high + low));
    assert(parts(text) == seq![text]) by {
        let none = Seq::<char>::empty();
        assert(parts(none) =~= seq![none]);
        assert(parts(text.drop_last()) =~= seq![none.push(text[0])]);
        assert(none.push(text[0]).push(text[1]) =~= text);
        assert(parts(text) =~= seq![text]);
    }
}

proof fn lemma_bytes_text_parts(bytes: Seq<u8>, n: nat)
    requires
        1 <= n <= bytes.len(),
    ensures
        parts(bytes_text(bytes, n)) == Seq::new(n, |k: int| byte_text(bytes[k])),
    decreases n,
{
    lemma_byte_text_is_a_part(bytes[n - 1]);
    if n == 1 {
        assert(parts(bytes_text(bytes, n)) =~= Seq::new(n, |k: int| byte_text(bytes[k])));
    } else {
        lemma_bytes_text_parts(bytes, (n - 1) as nat);
        lemma_one_more_part(bytes_text(bytes, (n - 1) as nat), byte_text(bytes[n - 1]));
        assert(parts(bytes_text(bytes, n)) =~= Seq::new(n, |k: int| byte_text(bytes[k])));
    }
}

/// Reading the text of an address gives the address back.
pub proof fn law_address_text_is_read_back(address: Address)
    ensures
        address_of(address.text()) == Ok::<Seq<u8>, AddressError>(address.0@),
{
    let bytes = address.0@;
    lemma_bytes_text_parts(bytes, 6);
    let found = parts(address.text());
    assert forall|k: int| 0 <= k < found.len() implies part_value(#[trigger] found[k]) == Some(
        bytes[k],
    ) by {
        lemma_byte_text_is_a_part(bytes[k]);
    }
    assert(address_of(address.text())->Ok_0 =~= bytes);
}

// === Connecting ===

/// Milliseconds that one attempt to connect may take.
pub const CONNECT_TIMEOUT_MILLIS: u64 = 8000;

/// Milliseconds that sending a packet may take.
pub const WRITE_TIMEOUT_MILLIS: u64 = 10_000;

/// Number of bytes that are read at once.
pub const READ_BUF_SIZE: usize = 512;

/// The channels that are tried: those that are asked for, or the first one.
pub open spec fn tried_channels(channels: Seq<u8>) -> Seq<u8> {
    if channels.len() == 0 {
        seq![1u8]
    } else {
        channels
    }
}

/// The attempts to connect to one of a list of channels. `E` is the type of the
/// errors that end an attempt.
#[derive(Debug)]
pub struct ConnectAttempts<E> {
    channels: Vec<u8>,
    tried: usize,
    last_err: Option<E>,
}

/// How far the attempts have come.
#[verifier::ext_equal]
pub struct AttemptsView<E> {
    /// The channels that are still to be tried, in order.
    pub left: Seq<u8>,
    pub last_err: Option<E>,
}

impl<E> View for ConnectAttempts<E> {
    type V = AttemptsView<E>;

    closed spec fn view(&self) -> AttemptsView<E> {
        AttemptsView { left: self.channels@.skip(self.tried as int), last_err: self.last_err }
    }
}

impl<E> ConnectAttempts<E> {
    /// No more channels were tried than there are.
    pub closed spec fn wf(self) -> bool {
        self.tried <= self.channels@.len()
    }

    /// Begins the attempts.
    pub fn new(channels: &[u8]) -> (attempts: ConnectAttempts<E>)
        ensures
            attempts.wf(),
            attempts@ == (AttemptsView { left: tried_channels(channels@), last_err: None::<E> }),
    {
        let mut list: Vec<u8> = Vec::new();
        if channels.len() == 0 {
            list.push(1);
        } else {
            list.extend_from_slice(channels);
        }
        assert(list@ =~= tried_channels(channels@));
        let attempts = ConnectAttempts { channels: list, tried: 0, last_err: None };
        assert(attempts@.left =~= tried_channels(channels@));
        attempts
    }

    /// The channel to be tried next, if there is one left.
    pub fn next_channel(&mut self) -> (channel: Option<u8>)
        requires
            old(self).wf(),
        ensures
            final(self).wf(),
            final(self)@.last_err == old(self)@.last_err,
            if old(self)@.left.len() > 0 {
                &&& channel == Some(old(self)@.left[0])
                &&& final(self)@.left == old(self)@.left.skip(1)
            } else {
                &&& channel is None
                &&& final(self)@.left == old(self)@.left
            },
    {
        if self.tried < self.channels.len() {
            let channel: u8 = self.channels[self.tried];
            self.tried = self.tried + 1;
            assert(self@.left =~= old(self)@.left.skip(1));
            Some(channel)
        } else {
            None
        }
    }

    /// Takes note of the error that ended an attempt.
    pub fn failed(&mut self, error: E)
        requires
            old(self).wf(),
        ensures
            final(self).wf(),
            final(self)@ == (AttemptsView { last_err: Some(error), ..old(self)@ }),
    {
        self.last_err = Some(error);
    }

    /// The error once every attempt has failed: the last one, or a general one if
    /// there was none.
    pub fn give_up(self, general: E) -> (error: E)
        ensures
            error == match self@.last_err {
                Some(last) => last,
                None => general,
            },
    {
        match self.last_err {
            Some(last) => last,
            None => general,
        }
    }
}

/// The flags of a descriptor with one of them set or cleared.
pub fn with_flag(flags: i32, flag: i32, enabled: bool) -> (changed: i32)
    ensures
        changed == if enabled {
            flags | flag
        } else {
            flags & !flag
        },
{
    if enabled {
        flags | flag
    } else {
        flags & !flag
    }
}

// === Laws of addresses and channels ===

/// Parts put together again, with colons between them.
pub open spec fn joined(found: Seq<Seq<char>>) -> Seq<char>
    decreases found.len(),
{
    if found.len() <= 1 {
        found[0]
    } else {
        joined(found.drop_last()).push(':') + found.last()
    }
}

/// The parts of a text have no colons, and put together again they make the text.
pub proof fn law_parts_make_the_text(text: Seq<char>)
    ensures
        parts(text).len() > 0,
        joined(parts(text)) == text,
        forall|n: int, k: int|
            0 <= n < parts(text).len() && 0 <= k < parts(text)[n].len() ==> #[trigger] parts(
                text,
            )[n][k] != ':',
    decreases text.len(),
{
    let found = parts(text);
    if text.len() == 0 {
        assert(joined(found) =~= text);
    } else {
        let front = text.drop_last();
        let before = parts(front);
        law_parts_make_the_text(front);
        assert(front.push(text.last()) =~= text);
        if text.last() == ':' {
            assert(found.drop_last() =~= before);
            assert(joined(found) =~= text);
            assert forall|n: int, k: int|
                0 <= n < found.len() && 0 <= k < found[n].len() implies #[trigger] found[n][k]
                != ':' by {
                if n < before.len() {
                    assert(found[n][k] == before[n][k]);
                }
            }
        } else {
            let last = before.last();
            assert(found.drop_last() =~= before.drop_last());
            assert(found.last() == last.push(text.last()));
            assert(joined(found) =~= text);
            assert forall|n: int, k: int|
                0 <= n < found.len() && 0 <= k < found[n].len() implies #[trigger] found[n][k]
                != ':' by {
                if n < before.len() - 1 {
                    assert(found[n][k] == before[n][k]);
                } else if k < last.len() {
                    assert(found[n][k] == before[n][k]);
                }
            }
        }
    }
}

/// The digits are those from zero to nine, and the letters from A to F in either
/// case for ten to fifteen.
pub proof fn law_digits_by_number(c: char)
    ensures
        0x30 <= c as int <= 0x39 ==> digit_value(c) == Some(c as int - 0x30),
        0x41 <= c as int <= 0x46 ==> digit_value(c) == Some(c as int - 0x41 + 10),
        0x61 <= c as int <= 0x66 ==> digit_value(c) == Some(c as int - 0x61 + 10),
        digit_value(c) is Some ==> (0x30 <= c as int <= 0x39 || 0x41 <= c as int <= 0x46 || 0x61
            <= c as int <= 0x66),
{
}

/// A part is a byte if it is one digit or two, the high one first. Two digits may
/// have a plus sign in front. A part that is empty, or has something else in it,
/// is none.
pub proof fn law_part_is_a_byte(high: char, low: char)
    ensures
        part_value(Seq::empty()) is None,
        part_value(seq![low]) == match digit_value(low) {
            Some(l) => Some(l as u8),
            None => None,
        },
        digit_value(high) matches Some(h) ==> (digit_value(low) matches Some(l) ==> {
            &&& part_value(seq![high, low]) == Some((16 * h + l) as u8)
            &&& part_value(seq!['+', high, low]) == Some((16 * h + l) as u8)
        }),
        high != '+' && (digit_value(high) is None || digit_value(low) is None) ==> part_value(
            seq![high, low],
        ) is None,
{
    reveal_with_fuel(digits_value, 4);
    let one = seq![low];
    assert(one.drop_last() =~= Seq::empty());
    assert(part_digits(one) =~= one);
    let two = seq![high, low];
    assert(two.drop_last() =~= seq![high]);
    assert(seq![high].drop_last() =~= Seq::empty());
    let signed = seq!['+', high, low];
    assert(part_digits(signed) =~= two);
}

/// Each digit behind others makes sixteen times what they make, and one more
/// digit.
pub proof fn law_digits_are_hexadecimal(digits: Seq<char>, last: char)
    ensures
        digits_value(Seq::empty()) == Some(0int),
        digits_value(digits.push(last)) is Some <==> digits_value(digits) is Some && digit_value(
            last,
        ) is Some,
        digits_value(digits.push(last)) matches Some(value) ==> value == 16 * digits_value(
            digits,
        )->0 + digit_value(last)->0,
{
    assert(digits.push(last).drop_last() =~= digits);
}

/// A text is an address exactly if it has six parts and each is a byte; the bytes
/// are those of the parts, in order. A part that is no byte is reported before a
/// wrong number of parts.
pub proof fn law_six_bytes_make_an_address(text: Seq<char>)
    ensures
        ({
            let found = parts(text);
            let all_bytes = forall|k: int|
                0 <= k < found.len() ==> part_value(#[trigger] found[k]) is Some;
            &&& address_of(text) is Ok <==> found.len() == 6 && all_bytes
            &&& address_of(text) == Err::<Seq<u8>, AddressError>(AddressError::InvalidPart)
                <==> !all_bytes
            &&& address_of(text) == Err::<Seq<u8>, AddressError>(AddressError::InvalidLength)
                <==> found.len() != 6 && all_bytes
            &&& address_of(text) matches Ok(bytes) ==> bytes.len() == 6 && forall|k: int|
                0 <= k < 6 ==> Some(#[trigger] bytes[k]) == part_value(found[k])
        }),
{
    let found = parts(text);
    if exists|k: int| 0 <= k < found.len() && part_value(#[trigger] found[k]) is None {
    } else {
        assert forall|k: int| 0 <= k < found.len() implies part_value(
            #[trigger] found[k],
        ) is Some by {}
    }
}

/// The channels that are asked for are tried as they are; if none is asked for,
/// the first one is tried.
pub proof fn law_asked_channels_are_tried(channels: Seq<u8>)
    ensures
        channels.len() > 0 ==> tried_channels(channels) == channels,
        channels.len() == 0 ==> tried_channels(channels).len() == 1 && tried_channels(channels)[0]
            == 1,
{
}

} // verus!
