//! Packets, socket addresses and attempts to connect.

use kairpods::bluetooth::address::Address;
use kairpods::bluetooth::rfcomm::{
    parse_bdaddr, with_flag, AddressError, ConnectAttempts, Packet,
};

#[test]
fn packets_hold_their_bytes() {
    let few = [1u8, 2, 3];
    assert_eq!(Packet::from_slice(&few).as_slice(), &few);
    let many: Vec<u8> = (0..200).collect();
    assert_eq!(Packet::from_slice(&many).as_slice(), &many[..]);
    assert!(Packet::from_slice(&[]).as_slice().is_empty());
}

#[test]
fn addresses_are_reversed() {
    let parsed = parse_bdaddr("00:1A:7D:da:71:13").unwrap();
    assert_eq!(parsed.b, [0x13, 0x71, 0xDA, 0x7D, 0x1A, 0x00]);
    let address = Address([1, 0x20, 3, 0xF4, 5, 0xAB]);
    let mut back = parse_bdaddr(&address.to_text()).unwrap().b;
    back.reverse();
    assert_eq!(back, address.0);
}

#[test]
fn parts_may_have_a_sign_and_zeros() {
    assert_eq!(parse_bdaddr("+1:0011:f:0:00:FF").unwrap().b, [0xFF, 0, 0, 0xF, 0x11, 1]);
    assert_eq!(parse_bdaddr("+:11:f:0:00:FF").err(), Some(AddressError::InvalidPart));
}

#[test]
fn wrong_addresses_are_refused() {
    for text in ["", "00:1A:7D:DA:71:1G", "00:1A:7D:DA:71:", "00:1A:7D:DA:71:113", "00:-1:7D:DA:71:13"] {
        assert_eq!(parse_bdaddr(text).err(), Some(AddressError::InvalidPart), "{text}");
    }
    for text in ["00", "00:1A:7D:DA:71", "00:1A:7D:DA:71:13:14"] {
        assert_eq!(parse_bdaddr(text).err(), Some(AddressError::InvalidLength), "{text}");
    }
}

#[test]
fn channels_are_tried_in_order() {
    let mut attempts: ConnectAttempts<&str> = ConnectAttempts::new(&[5, 3]);
    assert_eq!(attempts.next_channel(), Some(5));
    attempts.failed("first");
    assert_eq!(attempts.next_channel(), Some(3));
    attempts.failed("second");
    assert_eq!(attempts.next_channel(), None);
    assert_eq!(attempts.give_up("general"), "second");
    let mut attempts: ConnectAttempts<&str> = ConnectAttempts::new(&[]);
    assert_eq!(attempts.next_channel(), Some(1));
    assert_eq!(attempts.next_channel(), None);
    assert_eq!(attempts.give_up("general"), "general");
}

#[test]
fn flags_are_set_and_cleared() {
    assert_eq!(with_flag(0b0101, 0b0010, true), 0b0111);
    assert_eq!(with_flag(0b0111, 0b0010, false), 0b0101);
    assert_eq!(with_flag(0b0101, 0b0010, false), 0b0101);
}
