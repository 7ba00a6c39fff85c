//! The ring that keeps the newest items.

use kairpods::ringbuf::Ring;
use kairpods::text::{decode_text, trim_padding};

#[test]
fn newest_items_stay() {
    let mut ring: Ring<u8, 3> = Ring::new();
    assert!(ring.is_empty());
    assert_eq!(ring.last(), None);
    for n in 1..=5 {
        ring.push(n);
    }
    assert_eq!(ring.to_vec(), [3, 4, 5]);
    assert_eq!(ring.len(), 3);
    assert_eq!(ring.get(0), 3);
    assert_eq!(ring.last(), Some(5));
    ring.truncate_front(2);
    assert_eq!(ring.to_vec(), [4, 5]);
    ring.push(6);
    ring.push(7);
    assert_eq!(ring.to_vec(), [5, 6, 7]);
    ring.clear();
    assert_eq!(ring.len(), 0);
}

#[test]
fn text_is_decoded_and_trimmed() {
    assert_eq!(decode_text("h\u{e4}".as_bytes()), Some("h\u{e4}"));
    assert_eq!(decode_text(&[0xc3]), None);
    assert_eq!(trim_padding("\u{3000} a b\u{a0}\0\0"), "a b");
    assert_eq!(trim_padding("\0a"), "\0a");
}
