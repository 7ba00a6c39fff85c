//! Frames of the Nothing/CMF control channel.
//!
//! A frame is an eight byte header, a payload of up to 255 bytes, and, for
//! frames of the checked kind, a checksum in little-endian order:
//!
//! | offset | field                                   |
//! |--------|-----------------------------------------|
//! | 0      | start byte                              |
//! | 1, 2   | kind and version                        |
//! | 3, 4   | command, little-endian                  |
//! | 5      | length of the payload                   |
//! | 6      | unused                                  |
//! | 7      | operation identifier                    |
//! | 8..    | payload, followed by the checksum if any|

use vstd::prelude::*;

use crate::airpods::protocol::{BatteryInfo, BatteryState, BatteryStatus, NoiseControlMode};
use crate::bluetooth::rfcomm::Packet;
use crate::text::{
    decode_text, law_nulls_are_dropped_at_the_end, law_trimmed_text_lost_only_white_space,
    trim_padding, trimmed, white_space, without_nulls,
};
use vstd::utf8::{decode_utf8, valid_utf8};

verus! {

pub const FRAME_START: u8 = 0x55;

pub const FRAME_KIND: u8 = 0x60;

pub const FRAME_VERSION: u8 = 0x01;

pub const HEADER_LEN: usize = 8;

pub const CRC_LEN: usize = 2;

pub const CMD_READ_BATTERY: u16 = 49159;

pub const CMD_READ_ANC: u16 = 49182;

pub const CMD_READ_FIRMWARE: u16 = 49218;

pub const CMD_READ_LISTENING_MODE: u16 = 49232;

pub const CMD_RING: u16 = 61442;

pub const CMD_SET_ANC: u16 = 61455;

pub const CMD_SET_LISTENING_MODE: u16 = 61469;

pub const EVT_BATTERY: u16 = 57345;

pub const EVT_BATTERY_ALT: u16 = 16391;

pub const EVT_ANC: u16 = 57347;

pub const EVT_ANC_ALT: u16 = 16414;

pub const EVT_LISTENING_MODE: u16 = 16464;

pub const EVT_EQ: u16 = 16415;

pub const EVT_FIRMWARE: u16 = 16450;

// === Checksum ===

/// One shift of the checksum register.
pub open spec fn crc_shift(crc: u16) -> u16 {
    if crc & 1 != 0 {
        (crc >> 1) ^ 0xa001
    } else {
        crc >> 1
    }
}

/// `n` shifts of the checksum register.
pub open spec fn crc_shifts(crc: u16, n: nat) -> u16
    decreases n,
{
    if n == 0 {
        crc
    } else {
        crc_shift(crc_shifts(crc, (n - 1) as nat))
    }
}

/// The checksum of a byte sequence: reflected CRC-16 with polynomial 0xa001,
/// starting from all ones.
pub open spec fn crc_of(bytes: Seq<u8>) -> u16
    decreases bytes.len(),
{
    if bytes.len() == 0 {
        0xffff
    } else {
        crc_shifts(crc_of(bytes.drop_last()) ^ (bytes.last() as u16), 8)
    }
}

/// Computes the checksum of a buffer.
pub fn crc16(buffer: &[u8]) -> (crc: u16)
    ensures
        crc == crc_of(buffer@),
{
    let mut crc: u16 = 0xffff;
    let mut n: usize = 0;
    while n < buffer.len()
        invariant
            n <= buffer@.len(),
            crc == crc_of(buffer@.take(n as int)),
        decreases buffer@.len() - n,
    {
        let ghost before = crc;
        crc = crc ^ (buffer[n] as u16);
        let ghost mixed = crc;
        let mut k: usize = 0;
        while k < 8
            invariant
                k <= 8,
                crc == crc_shifts(mixed, k as nat),
            decreases 8 - k,
        {
            crc = if crc & 1 != 0 {
                (crc >> 1) ^ 0xa001
            } else {
                crc >> 1
            };
            k = k + 1;
        }
        n = n + 1;
        proof {
            let upto = buffer@.take(n as int);
            assert(upto.drop_last() =~= buffer@.take(n - 1));
            assert(upto.last() == buffer@[n - 1]);
        }
    }
    assert(buffer@.take(n as int) =~= buffer@);
    crc
}

// === Frames ===

/// A frame that arrived whole.
#[derive(Debug, Clone, PartialEq, Eq)]
pub struct Frame {
    pub command: u16,
    pub operation_id: u8,
    pub payload: Vec<u8>,
}

/// What a frame says.
pub struct FrameView {
    pub command: u16,
    pub operation_id: u8,
    pub payload: Seq<u8>,
}

impl View for Frame {
    type V = FrameView;

    open spec fn view(&self) -> FrameView {
        FrameView {
            command: self.command,
            operation_id: self.operation_id,
            payload: self.payload@,
        }
    }
}

/// What a list of frames says.
pub open spec fn frames_view(frames: Seq<Frame>) -> Seq<FrameView> {
    frames.map_values(|frame: Frame| frame@)
}

/// The number whose little-endian bytes are `low` and `high`.
pub open spec fn le16(low: u8, high: u8) -> u16 {
    (low + 256 * high) as u16
}

/// Whether the frame at the front of `bytes` carries a checksum.
pub open spec fn carries_crc(bytes: Seq<u8>) -> bool {
    bytes[1] == FRAME_KIND && bytes[2] == FRAME_VERSION
}

/// The length of the frame at the front of `bytes`.
pub open spec fn frame_len(bytes: Seq<u8>) -> int {
    HEADER_LEN + bytes[5] + if carries_crc(bytes) {
        CRC_LEN as int
    } else {
        0int
    }
}

/// Whether `bytes` begins with a frame of which nothing is missing.
pub open spec fn frame_complete(bytes: Seq<u8>) -> bool {
    bytes.len() >= HEADER_LEN && bytes.len() >= frame_len(bytes)
}

/// Whether the frame at the front of `bytes` has no checksum or the right one.
pub open spec fn frame_intact(bytes: Seq<u8>) -> bool {
    let len = frame_len(bytes);
    carries_crc(bytes) ==> le16(bytes[len - 2], bytes[len - 1]) == crc_of(bytes.take(len - CRC_LEN))
}

/// What the frame at the front of `bytes` says.
pub open spec fn frame_at(bytes: Seq<u8>) -> FrameView {
    FrameView {
        command: le16(bytes[3], bytes[4]),
        operation_id: bytes[7],
        payload: bytes.subrange(HEADER_LEN as int, HEADER_LEN + bytes[5]),
    }
}

/// What a byte stream holds: the intact frames in it, and the unfinished frame
/// at its end. Bytes before a start byte are skipped, and so is a frame with a
/// wrong checksum.
pub open spec fn scan(bytes: Seq<u8>) -> (Seq<FrameView>, Seq<u8>)
    decreases bytes.len(),
{
    if bytes.len() == 0 {
        (Seq::empty(), Seq::empty())
    } else if bytes[0] != FRAME_START {
        scan(bytes.skip(1))
    } else if !frame_complete(bytes) {
        (Seq::empty(), bytes)
    } else {
        let rest = scan(bytes.skip(frame_len(bytes)));
        if frame_intact(bytes) {
            (seq![frame_at(bytes)] + rest.0, rest.1)
        } else {
            rest
        }
    }
}

/// Collects the bytes of a stream and cuts them into frames.
#[derive(Debug)]
pub struct Framer {
    buf: Vec<u8>,
}

impl View for Framer {
    type V = Seq<u8>;

    closed spec fn view(&self) -> Seq<u8> {
        self.buf@
    }
}

impl Default for Framer {
    fn default() -> (framer: Framer)
        ensures
            framer@ == Seq::<u8>::empty(),
    {
        Framer { buf: Vec::new() }
    }
}

/// Copies a part of a vector.
fn copy_range(bytes: &Vec<u8>, from: usize, to: usize) -> (part: Vec<u8>)
    requires
        from <= to <= bytes@.len(),
    ensures
        part@ == bytes@.subrange(from as int, to as int),
{
    let mut part: Vec<u8> = Vec::new();
    let mut n: usize = from;
    while n < to
        invariant
            from <= n <= to <= bytes@.len(),
            part@ == bytes@.subrange(from as int, n as int),
        decreases to - n,
    {
        part.push(bytes[n]);
        n = n + 1;
        assert(bytes@.subrange(from as int, n as int) =~= bytes@.subrange(from as int, n - 1).push(
            bytes@[n - 1],
        ));
    }
    part
}

impl Framer {
    /// Takes in the next bytes of the stream and returns the frames that are
    /// now complete. An unfinished frame is kept for the next call.
    pub fn push(&mut self, bytes: &[u8]) -> (frames: Vec<Frame>)
        ensures
            frames_view(frames@) == scan(old(self)@ + bytes@).0,
            final(self)@ == scan(old(self)@ + bytes@).1,
    {
        self.buf.extend_from_slice(bytes);
        let ghost all = self.buf@;
        assert(all =~= old(self)@ + bytes@);
        let mut frames: Vec<Frame> = Vec::new();
        let mut pos: usize = 0;
        let len: usize = self.buf.len();
        assert(all.skip(0) =~= all);
        assert(frames_view(frames@) + scan(all.skip(0)).0 =~= scan(all).0);
        loop
            invariant
                self.buf@ == all,
                len == all.len(),
                pos <= len,
                scan(all).0 == frames_view(frames@) + scan(all.skip(pos as int)).0,
                scan(all).1 == scan(all.skip(pos as int)).1,
            ensures
                scan(all.skip(pos as int)).0.len() == 0,
                scan(all.skip(pos as int)).1 == all.skip(pos as int),
            decreases len - pos,
        {
            let ghost rest = all.skip(pos as int);
            if pos == len {
                assert(rest =~= Seq::empty());
                break;
            }
            if self.buf[pos] != FRAME_START {
                assert(rest.skip(1) =~= all.skip(pos + 1));
                pos = pos + 1;
                continue;
            }
            if len - pos < HEADER_LEN {
                break;
            }
            let payload_len: usize = self.buf[pos + 5] as usize;
            let has_crc = self.buf[pos + 1] == FRAME_KIND && self.buf[pos + 2] == FRAME_VERSION;
            let crc_len: usize = if has_crc { CRC_LEN } else { 0 };
            let total_len: usize = HEADER_LEN + payload_len + crc_len;
            assert(total_len == frame_len(rest));
            if len - pos < total_len {
                break;
            }
            let raw = copy_range(&self.buf, pos, pos + total_len);
            assert(raw@ =~= rest.take(total_len as int));
            assert(rest.skip(total_len as int) =~= all.skip(pos + total_len));
            pos = pos + total_len;
            if has_crc {
                let expected_crc: u16 = (raw[total_len - 2] as u16) + 256 * (
                raw[total_len - 1] as u16);
                let body = copy_range(&raw, 0, total_len - CRC_LEN);
                assert(body@ =~= rest.take(total_len - CRC_LEN));
                let actual_crc: u16 = crc16(body.as_slice());
                if expected_crc != actual_crc {
                    continue;
                }
            }
            let frame = Frame {
                command: (raw[3] as u16) + 256 * (raw[4] as u16),
                operation_id: raw[7],
                payload: copy_range(&raw, HEADER_LEN, HEADER_LEN + payload_len),
            };
            proof {
                assert(frame.payload@ =~= frame_at(rest).payload);
                let view = frames_view(frames@);
                assert(frames_view(frames@.push(frame)) =~= view.push(frame@));
                assert(view.push(frame@) + scan(all.skip(pos as int)).0 =~= view + (
                seq![frame_at(rest)] + scan(all.skip(pos as int)).0));
            }
            frames.push(frame);
        }
        let kept = copy_range(&self.buf, pos, len);
        assert(kept@ =~= all.skip(pos as int));
        assert(frames_view(frames@) =~= scan(all).0);
        self.buf = kept;
        frames
    }
}

/// The part of a payload that fits in one frame.
pub open spec fn payload_cut(payload: Seq<u8>) -> Seq<u8> {
    if payload.len() <= u8::MAX {
        payload
    } else {
        payload.take(u8::MAX as int)
    }
}

/// Header and payload of a checked frame.
pub open spec fn encode_body(command: u16, payload: Seq<u8>, operation_id: u8) -> Seq<u8> {
    seq![
        FRAME_START,
        FRAME_KIND,
        FRAME_VERSION,
        (command % 256) as u8,
        (command / 256) as u8,
        payload.len() as u8,
        0x00,
        operation_id,
    ] + payload
}

/// A whole checked frame.
pub open spec fn encode(command: u16, payload: Seq<u8>, operation_id: u8) -> Seq<u8> {
    let body = encode_body(command, payload, operation_id);
    let crc = crc_of(body);
    body + seq![(crc % 256) as u8, (crc / 256) as u8]
}

/// Builds a checked frame. Of a payload that is too long for one frame, only
/// the first 255 bytes are sent.
pub fn build(command: u16, payload: &[u8], operation_id: u8) -> (packet: Packet)
    ensures
        packet@ == encode(command, payload_cut(payload@), operation_id),
{
    let payload_len: usize = if payload.len() <= 255 { payload.len() } else { 255 };
    let mut bytes: Vec<u8> = Vec::with_capacity(HEADER_LEN + payload_len + CRC_LEN);
    bytes.push(FRAME_START);
    bytes.push(FRAME_KIND);
    bytes.push(FRAME_VERSION);
    bytes.push((command % 256) as u8);
    bytes.push((command / 256) as u8);
    bytes.push(payload_len as u8);
    bytes.push(0x00);
    bytes.push(operation_id);
    let ghost header = bytes@;
    let mut n: usize = 0;
    assert(payload@.take(0) =~= Seq::empty());
    while n < payload_len
        invariant
            n <= payload_len <= payload@.len(),
            bytes@ == header + payload@.take(n as int),
        decreases payload_len - n,
    {
        bytes.push(payload[n]);
        n = n + 1;
        assert(payload@.take(n as int) =~= payload@.take(n - 1).push(payload@[n - 1]));
    }
    proof {
        let cut = payload_cut(payload@);
        assert(payload@.take(n as int) =~= cut);
        assert(bytes@ =~= encode_body(command, cut, operation_id));
    }
    let crc: u16 = crc16(bytes.as_slice());
    bytes.push((crc % 256) as u8);
    bytes.push((crc / 256) as u8);
    assert(bytes@ =~= encode(command, payload_cut(payload@), operation_id));
    Packet::from_slice(bytes.as_slice())
}

// === Laws of the stream ===

/// A frame at the front of a stream does not change when more bytes follow it.
proof fn lemma_front_is_stable(bytes: Seq<u8>, more: Seq<u8>)
    requires
        frame_complete(bytes),
    ensures
        frame_complete(bytes + more),
        frame_len(bytes + more) == frame_len(bytes),
        frame_intact(bytes + more) == frame_intact(bytes),
        frame_at(bytes + more) == frame_at(bytes),
        (bytes + more).skip(frame_len(bytes)) == bytes.skip(frame_len(bytes)) + more,
{
    let both = bytes + more;
    let len = frame_len(bytes);
    assert(both[1] == bytes[1] && both[2] == bytes[2] && both[5] == bytes[5]);
    if carries_crc(bytes) {
        assert(both.take(len - CRC_LEN) =~= bytes.take(len - CRC_LEN));
    }
    assert(frame_at(both).payload =~= frame_at(bytes).payload);
    assert(both.skip(len) =~= bytes.skip(len) + more);
}

/// How a stream is cut into pieces does not matter: the frames of `first`,
/// followed by those that `second` completes, are the frames of the two
/// together, and the same unfinished frame is left.
pub proof fn law_pieces_do_not_matter(first: Seq<u8>, second: Seq<u8>)
    ensures
        scan(first + second).0 == scan(first).0 + scan(scan(first).1 + second).0,
        scan(first + second).1 == scan(scan(first).1 + second).1,
    decreases first.len(),
{
    let both = first + second;
    if first.len() == 0 {
        assert(both =~= second);
        assert(scan(first).1 + second =~= second);
        assert(scan(first).0 + scan(second).0 =~= scan(second).0);
    } else if first[0] != FRAME_START {
        assert(both.skip(1) =~= first.skip(1) + second);
        law_pieces_do_not_matter(first.skip(1), second);
    } else if !frame_complete(first) {
        assert(scan(first).0 + scan(both).0 =~= scan(both).0);
    } else {
        let len = frame_len(first);
        let tail = first.skip(len);
        lemma_front_is_stable(first, second);
        law_pieces_do_not_matter(tail, second);
        let left = scan(tail).1 + second;
        if frame_intact(first) {
            let here = seq![frame_at(first)];
            assert(here + (scan(tail).0 + scan(left).0) =~= (here + scan(tail).0) + scan(left).0);
        }
    }
}

/// What a stream leaves behind is the beginning of a frame that is not
/// complete yet, so there is never more of it than one frame has bytes.
pub proof fn law_leftover_is_unfinished(bytes: Seq<u8>)
    ensures
        ({
            let left = scan(bytes).1;
            &&& left.len() > 0 ==> left[0] == FRAME_START && !frame_complete(left)
            &&& left.len() < HEADER_LEN + u8::MAX + CRC_LEN
            &&& scan(left) == (Seq::<FrameView>::empty(), left)
        }),
    decreases bytes.len(),
{
    if bytes.len() == 0 {
    } else if bytes[0] != FRAME_START {
        law_leftover_is_unfinished(bytes.skip(1));
    } else if frame_complete(bytes) {
        law_leftover_is_unfinished(bytes.skip(frame_len(bytes)));
    }
}

/// A built frame is read back as it was built, up to the part of its payload
/// that fits in a frame: it is the first to come out, and the stream that
/// follows it loses nothing.
pub proof fn law_build_then_read(
    command: u16,
    payload: Seq<u8>,
    operation_id: u8,
    following: Seq<u8>,
)
    ensures
        ({
            let kept = payload_cut(payload);
            let read = scan(encode(command, kept, operation_id) + following);
            &&& read.0 == seq![FrameView { command, operation_id, payload: kept }] + scan(
                following,
            ).0
            &&& read.1 == scan(following).1
        }),
{
    let kept = payload_cut(payload);
    let body = encode_body(command, kept, operation_id);
    let bytes = encode(command, kept, operation_id);
    let crc = crc_of(body);
    assert(bytes.len() == HEADER_LEN + kept.len() + CRC_LEN);
    assert(bytes[5] == kept.len());
    assert(frame_len(bytes) == bytes.len());
    assert(bytes.take(bytes.len() - CRC_LEN) =~= body);
    assert(le16((crc % 256) as u8, (crc / 256) as u8) == crc);
    assert(le16((command % 256) as u8, (command / 256) as u8) == command);
    assert(frame_at(bytes).payload =~= kept);
    lemma_front_is_stable(bytes, following);
    let both = bytes + following;
    assert(both.skip(frame_len(both)) =~= following);
    assert(both[0] == FRAME_START);
}

/// The bytes of a number of frames, one after the other.
pub open spec fn stream_of(frames: Seq<FrameView>) -> Seq<u8>
    decreases frames.len(),
{
    if frames.len() == 0 {
        Seq::empty()
    } else {
        let frame = frames.first();
        encode(frame.command, frame.payload, frame.operation_id) + stream_of(frames.drop_first())
    }
}

/// Frames that are sent one after the other are read back one after the other,
/// and nothing is left.
pub proof fn law_frames_are_read_in_order(frames: Seq<FrameView>)
    requires
        forall|n: int| 0 <= n < frames.len() ==> (#[trigger] frames[n]).payload.len() <= u8::MAX,
    ensures
        scan(stream_of(frames)) == (frames, Seq::<u8>::empty()),
    decreases frames.len(),
{
    if frames.len() > 0 {
        let frame = frames.first();
        let rest = frames.drop_first();
        law_frames_are_read_in_order(rest);
        law_build_then_read(frame.command, frame.payload, frame.operation_id, stream_of(rest));
        assert(seq![frame] + rest =~= frames);
    }
}

/// Bytes without a start byte are skipped: whatever follows them is read as if
/// they had not been there.
pub proof fn law_noise_is_skipped(noise: Seq<u8>, following: Seq<u8>)
    requires
        forall|k: int| 0 <= k < noise.len() ==> noise[k] != FRAME_START,
    ensures
        scan(noise + following) == scan(following),
    decreases noise.len(),
{
    let both = noise + following;
    if noise.len() == 0 {
        assert(both =~= following);
    } else {
        assert(both[0] == noise[0]);
        assert(both.skip(1) =~= noise.skip(1) + following);
        law_noise_is_skipped(noise.skip(1), following);
    }
}

// === Laws of the checksum ===

proof fn lemma_shifts_are_injective(a: u16, b: u16, n: nat)
    requires
        a != b,
    ensures
        crc_shifts(a, n) != crc_shifts(b, n),
    decreases n,
{
    if n > 0 {
        lemma_shifts_are_injective(a, b, (n - 1) as nat);
        let x = crc_shifts(a, (n - 1) as nat);
        let y = crc_shifts(b, (n - 1) as nat);
        assert(x != y ==> crc_shift(x) != crc_shift(y)) by (bit_vector);
    }
}

/// A buffer and a copy of it in which a single byte was changed have
/// different checksums.
pub proof fn law_checksum_sees_one_changed_byte(bytes: Seq<u8>, at: int, changed: u8)
    requires
        0 <= at < bytes.len(),
        changed != bytes[at],
    ensures
        crc_of(bytes.update(at, changed)) != crc_of(bytes),
    decreases bytes.len(),
{
    let other = bytes.update(at, changed);
    let front = bytes.drop_last();
    let last = bytes.last();
    if at == bytes.len() - 1 {
        assert(other.drop_last() =~= front);
        let crc = crc_of(front);
        assert(last != changed ==> crc ^ (last as u16) != crc ^ (changed as u16)) by (bit_vector);
        lemma_shifts_are_injective(crc ^ (changed as u16), crc ^ (last as u16), 8);
    } else {
        assert(other.drop_last() =~= front.update(at, changed));
        law_checksum_sees_one_changed_byte(front, at, changed);
        let a = crc_of(other.drop_last());
        let b = crc_of(front);
        assert(a != b ==> a ^ (last as u16) != b ^ (last as u16)) by (bit_vector);
        lemma_shifts_are_injective(a ^ (last as u16), b ^ (last as u16), 8);
    }
}

/// A built frame of which one byte was changed on the way is dropped, and what
/// follows it is read. The bytes that say where a frame begins, of what kind it
/// is and how long it is are left aside: with one of them changed, the stream
/// is cut at other places.
pub proof fn law_changed_frame_is_dropped(
    command: u16,
    payload: Seq<u8>,
    operation_id: u8,
    at: int,
    changed: u8,
    following: Seq<u8>,
)
    requires
        payload.len() <= u8::MAX,
        0 <= at < encode(command, payload, operation_id).len(),
        at != 0 && at != 1 && at != 2 && at != 5,
        changed != encode(command, payload, operation_id)[at],
    ensures
        scan(encode(command, payload, operation_id).update(at, changed) + following) == scan(
            following,
        ),
{
    let body = encode_body(command, payload, operation_id);
    let crc = crc_of(body);
    let bytes = encode(command, payload, operation_id).update(at, changed);
    let len = bytes.len();
    assert(frame_len(bytes) == len);
    assert(le16((crc % 256) as u8, (crc / 256) as u8) == crc);
    if at < body.len() {
        assert(bytes.take(len - CRC_LEN) =~= body.update(at, changed));
        law_checksum_sees_one_changed_byte(body, at, changed);
    } else {
        assert(bytes.take(len - CRC_LEN) =~= body);
    }
    assert(!frame_intact(bytes));
    lemma_front_is_stable(bytes, following);
    let both = bytes + following;
    assert(both.skip(frame_len(both)) =~= following);
    assert(both[0] == FRAME_START);
}

// === Payloads ===

/// A battery report with the state of one more component. Component numbers
/// that no part of a headset has are passed over.
pub open spec fn with_component(info: BatteryInfo, component: u8, value: u8) -> BatteryInfo {
    let state = BatteryState {
        level: (value % 128) as u8,
        status: if value >= 128 {
            BatteryStatus::Charging
        } else {
            BatteryStatus::Normal
        },
    };
    if component == 0x02 {
        BatteryInfo { left: state, ..info }
    } else if component == 0x03 {
        BatteryInfo { right: state, ..info }
    } else if component == 0x04 {
        BatteryInfo { case: state, ..info }
    } else if component == 0x06 {
        BatteryInfo { headphone: state, ..info }
    } else {
        info
    }
}

/// The battery report made of the first `n` pairs of component and value,
/// where a later pair takes the place of an earlier one.
pub open spec fn battery_of(pairs: Seq<u8>, n: nat) -> BatteryInfo
    decreases n,
{
    if n == 0 {
        BatteryInfo::absent()
    } else {
        with_component(battery_of(pairs, (n - 1) as nat), pairs[2 * n - 2], pairs[2 * n - 1])
    }
}

/// The number of pairs that a battery payload holds: as many as it announces,
/// unless it is too short for them.
pub open spec fn battery_pairs(payload: Seq<u8>) -> nat {
    let room = (payload.len() - 1) / 2;
    if payload[0] as int <= room {
        payload[0] as nat
    } else {
        room as nat
    }
}

/// The battery report in a payload. Only an empty payload has none.
pub open spec fn reported_battery(payload: Seq<u8>) -> Option<BatteryInfo> {
    if payload.len() > 0 {
        Some(battery_of(payload.skip(1), battery_pairs(payload)))
    } else {
        None
    }
}

/// Reads a battery payload: a count, and pairs of component and value. The top
/// bit of a value says that the component is charging.
pub fn parse_battery(payload: &[u8]) -> (battery: Option<BatteryInfo>)
    ensures
        battery == reported_battery(payload@),
{
    if payload.len() == 0 {
        return None;
    }
    let room: usize = (payload.len() - 1) / 2;
    let count: usize = if (payload[0] as usize) <= room {
        payload[0] as usize
    } else {
        room
    };
    let mut info = BatteryInfo::new();
    let mut n: usize = 0;
    while n < count
        invariant
            n <= count,
            count == battery_pairs(payload@),
            2 * count + 1 <= payload@.len() <= usize::MAX,
            info == battery_of(payload@.skip(1), n as nat),
        decreases count - n,
    {
        let component: u8 = payload[2 * n + 1];
        let value: u8 = payload[2 * n + 2];
        let state = BatteryState {
            level: value % 128,
            status: if value >= 128 {
                BatteryStatus::Charging
            } else {
                BatteryStatus::Normal
            },
        };
        if component == 0x02 {
            info.left = state;
        } else if component == 0x03 {
            info.right = state;
        } else if component == 0x04 {
            info.case = state;
        } else if component == 0x06 {
            info.headphone = state;
        }
        n = n + 1;
    }
    Some(info)
}

/// Reads a firmware payload: a version text, which may be padded with null
/// characters and white space. There is none if nothing else is in it.
pub fn parse_firmware(payload: &[u8]) -> (firmware: Option<String>)
    ensures
        firmware is Some <==> reported_firmware(payload@) is Some,
        firmware matches Some(text) ==> text@ == reported_firmware(payload@)->0,
{
    match decode_text(payload) {
        None => None,
        Some(text) => {
            let kept = trim_padding(text);
            if kept.is_empty() {
                None
            } else {
                Some(kept.to_owned())
            }
        },
    }
}

/// The version text in a firmware payload. There is none if the payload is not
/// text, or if nothing is left of the text without its padding.
pub open spec fn reported_firmware(payload: Seq<u8>) -> Option<Seq<char>> {
    let text = trimmed(without_nulls(decode_utf8(payload)));
    if valid_utf8(payload) && text.len() > 0 {
        Some(text)
    } else {
        None
    }
}

/// The noise cancelling level that a status byte stands for.
pub open spec fn level_of_status(status: u8) -> Option<u8> {
    if status == 0x05 {
        Some(1u8)
    } else if status == 0x07 {
        Some(2u8)
    } else if status == 0x03 {
        Some(3u8)
    } else if status == 0x01 {
        Some(4u8)
    } else if status == 0x02 {
        Some(5u8)
    } else if status == 0x04 {
        Some(6u8)
    } else {
        None
    }
}

/// The status byte that decides the level in a noise control report. The mode
/// byte decides if it says off or transparency; otherwise a strength entry
/// does, where the report has one.
pub open spec fn deciding_status(payload: Seq<u8>) -> Option<u8> {
    if payload.len() < 2 {
        None
    } else if payload[1] == 0x05 || payload[1] == 0x07 {
        Some(payload[1])
    } else if payload.len() > 3 && payload[3] == 0x02 {
        if payload.len() > 4 {
            Some(payload[4])
        } else {
            None
        }
    } else {
        Some(payload[1])
    }
}

/// The level that a noise control report gives.
pub open spec fn reported_level(payload: Seq<u8>) -> Option<u8> {
    match deciding_status(payload) {
        Some(status) => level_of_status(status),
        None => None,
    }
}

/// Reads the noise cancelling level from a noise control report.
pub fn parse_anc_level(payload: &[u8]) -> (level: Option<u8>)
    ensures
        level == reported_level(payload@),
{
    if payload.len() < 2 {
        return None;
    }
    let mode_status: u8 = payload[1];
    if mode_status == 0x05 || mode_status == 0x07 {
        return anc_status_to_level(mode_status);
    }
    let status: u8 = if payload.len() > 3 && payload[3] == 0x02 {
        if payload.len() <= 4 {
            return None;
        }
        payload[4]
    } else {
        mode_status
    };
    anc_status_to_level(status)
}

/// The noise cancelling level that a status byte stands for.
pub fn anc_status_to_level(status: u8) -> (level: Option<u8>)
    ensures
        level == level_of_status(status),
{
    match status {
        0x05 => Some(1),
        0x07 => Some(2),
        0x03 => Some(3),
        0x01 => Some(4),
        0x02 => Some(5),
        0x04 => Some(6),
        _ => None,
    }
}

/// The equaliser preset in a report. Only an empty report has none.
pub open spec fn reported_preset(payload: Seq<u8>) -> Option<u8> {
    if payload.len() > 0 {
        Some(payload[0])
    } else {
        None
    }
}

/// Reads the equaliser preset, which is the first byte of its report.
pub fn parse_eq_preset(payload: &[u8]) -> (preset: Option<u8>)
    ensures
        preset == reported_preset(payload@),
{
    if payload.len() == 0 {
        None
    } else {
        Some(payload[0])
    }
}

/// The noise control mode that a level belongs to.
pub open spec fn mode_of_level(level: u8) -> Option<NoiseControlMode> {
    if level == 1 {
        Some(NoiseControlMode::Off)
    } else if level == 2 {
        Some(NoiseControlMode::Transparency)
    } else if 3 <= level <= 5 {
        Some(NoiseControlMode::Active)
    } else if level == 6 {
        Some(NoiseControlMode::Adaptive)
    } else {
        None
    }
}

/// The noise control mode that a level belongs to.
pub fn anc_level_to_mode(level: u8) -> (mode: Option<NoiseControlMode>)
    ensures
        mode == mode_of_level(level),
{
    match level {
        1 => Some(NoiseControlMode::Off),
        2 => Some(NoiseControlMode::Transparency),
        3..=5 => Some(NoiseControlMode::Active),
        6 => Some(NoiseControlMode::Adaptive),
        _ => None,
    }
}

/// The level that is chosen for a noise control mode.
pub open spec fn level_of_mode(mode: NoiseControlMode) -> u8 {
    match mode {
        NoiseControlMode::Off => 1,
        NoiseControlMode::Transparency => 2,
        NoiseControlMode::Active => 4,
        NoiseControlMode::Adaptive => 6,
    }
}

/// The level that is chosen for a noise control mode.
pub fn mode_to_anc_level(mode: NoiseControlMode) -> (level: u8)
    ensures
        level == level_of_mode(mode),
{
    match mode {
        NoiseControlMode::Off => 1,
        NoiseControlMode::Transparency => 2,
        NoiseControlMode::Active => 4,
        NoiseControlMode::Adaptive => 6,
    }
}

/// The status byte of a level.
pub open spec fn status_of_level(level: u8) -> Option<u8> {
    if level == 1 {
        Some(0x05u8)
    } else if level == 2 {
        Some(0x07u8)
    } else if level == 3 {
        Some(0x03u8)
    } else if level == 4 {
        Some(0x01u8)
    } else if level == 5 {
        Some(0x02u8)
    } else if level == 6 {
        Some(0x04u8)
    } else {
        None
    }
}

/// The payload that sets a level, if there is such a level.
pub fn anc_level_to_payload(level: u8) -> (payload: Option<[u8; 3]>)
    ensures
        payload is Some <==> 1 <= level <= 6,
        payload matches Some(bytes) ==> bytes@ == seq![0x01u8, status_of_level(level)->0, 0x00u8],
{
    let status: u8 = match level {
        1 => 0x05,
        2 => 0x07,
        3 => 0x03,
        4 => 0x01,
        5 => 0x02,
        6 => 0x04,
        _ => {
            return None;
        },
    };
    let bytes: [u8; 3] = [0x01, status, 0x00];
    assert(bytes@ =~= seq![0x01u8, status, 0x00u8]);
    Some(bytes)
}

/// The payload that sets the strength of a level at which noise is cancelled,
/// if there is such a level.
pub fn anc_level_to_strength_payload(level: u8) -> (payload: Option<[u8; 3]>)
    ensures
        payload is Some <==> 3 <= level <= 6,
        payload matches Some(bytes) ==> bytes@ == seq![0x02u8, status_of_level(level)->0, 0x00u8],
{
    let status: u8 = match level {
        3 => 0x03,
        4 => 0x01,
        5 => 0x02,
        6 => 0x04,
        _ => {
            return None;
        },
    };
    let bytes: [u8; 3] = [0x02, status, 0x00];
    assert(bytes@ =~= seq![0x02u8, status, 0x00u8]);
    Some(bytes)
}

/// The payload that chooses an equaliser preset.
pub fn listening_mode_payload(preset: u8) -> (payload: [u8; 2])
    ensures
        payload@ == seq![preset, 0x00u8],
{
    let payload: [u8; 2] = [preset, 0x00];
    assert(payload@ =~= seq![preset, 0x00u8]);
    payload
}

/// The payload that starts or stops the ringing.
pub fn ring_payload(enabled: bool) -> (payload: [u8; 2])
    ensures
        payload@ == seq![0x02u8, if enabled { 1u8 } else { 0u8 }],
{
    let flag: u8 = if enabled { 1 } else { 0 };
    let payload: [u8; 2] = [0x02, flag];
    assert(payload@ =~= seq![0x02u8, flag]);
    payload
}

// === Laws of the payloads ===

/// A device that reports the payload that set its level reports that level.
pub proof fn law_level_survives_the_wire(level: u8)
    requires
        1 <= level <= 6,
    ensures
        reported_level(seq![0x01u8, status_of_level(level)->0, 0x00u8]) == Some(level),
{
}

/// A report in which the strength entry repeats the mode entry gives the level
/// of both.
pub proof fn law_strength_repeats_level(level: u8)
    requires
        1 <= level <= 6,
    ensures
        reported_level(
            seq![
                0x01u8,
                status_of_level(level)->0,
                0x00u8,
                0x02u8,
                status_of_level(level)->0,
                0x00u8,
            ],
        ) == Some(level),
{
}

/// Status bytes and levels stand for each other.
pub proof fn law_status_and_level_agree(status: u8, level: u8)
    ensures
        level_of_status(status) == Some(level) <==> status_of_level(level) == Some(status),
{
}

/// The level chosen for a mode belongs to that mode, and can be sent.
pub proof fn law_chosen_level_belongs_to_mode(mode: NoiseControlMode)
    ensures
        mode_of_level(level_of_mode(mode)) == Some(mode),
        status_of_level(level_of_mode(mode)) is Some,
{
}

/// Every level that a device can report belongs to a mode.
pub proof fn law_reported_level_has_mode(payload: Seq<u8>)
    ensures
        reported_level(payload) matches Some(level) ==> mode_of_level(level) is Some,
{
}

// === Laws of the battery report ===

/// Whether pair `j` of a battery payload is there, is announced, and is about a
/// component.
pub open spec fn pair_names(payload: Seq<u8>, j: int, component: u8) -> bool {
    0 <= j < payload[0] && 2 * j + 2 < payload.len() && payload[2 * j + 1] == component
}

proof fn lemma_unnamed_component(payload: Seq<u8>, n: nat, component: u8)
    requires
        n <= battery_pairs(payload),
        payload.len() > 0,
        forall|j: int| 0 <= j < n ==> !pair_names(payload, j, component),
    ensures
        ({
            let info = battery_of(payload.skip(1), n);
            let nothing = BatteryState { level: 0, status: BatteryStatus::Disconnected };
            &&& component == 2 ==> info.left == nothing
            &&& component == 3 ==> info.right == nothing
            &&& component == 4 ==> info.case == nothing
            &&& component == 6 ==> info.headphone == nothing
        }),
    decreases n,
{
    if n > 0 {
        assert(!pair_names(payload, n - 1, component));
        lemma_unnamed_component(payload, (n - 1) as nat, component);
    }
}

proof fn lemma_last_pair(payload: Seq<u8>, n: nat, k: int, component: u8)
    requires
        0 <= k < n <= battery_pairs(payload),
        payload.len() > 0,
        component == payload[2 * k + 1],
        forall|j: int| k < j < n ==> !pair_names(payload, j, component),
    ensures
        ({
            let info = battery_of(payload.skip(1), n);
            let value = payload[2 * k + 2];
            let state = BatteryState {
                level: value & 0x7f,
                status: if value & 0x80 != 0 {
                    BatteryStatus::Charging
                } else {
                    BatteryStatus::Normal
                },
            };
            &&& component == 2 ==> info.left == state
            &&& component == 3 ==> info.right == state
            &&& component == 4 ==> info.case == state
            &&& component == 6 ==> info.headphone == state
        }),
    decreases n,
{
    if k == n - 1 {
        let value = payload[2 * k + 2];
        assert(value & 0x7f == value % 128) by (bit_vector);
        assert((value & 0x80 != 0) == (value >= 128)) by (bit_vector);
    } else {
        assert(!pair_names(payload, n - 1, component));
        lemma_last_pair(payload, (n - 1) as nat, k, component);
    }
}

/// A pair in a battery payload gives the state of its component, unless a later
/// pair does: the low seven bits of the value are the level, and the top bit says
/// whether the component is charging.
pub proof fn law_last_pair_decides(payload: Seq<u8>, k: int, component: u8)
    requires
        pair_names(payload, k, component),
        forall|j: int| k < j ==> !pair_names(payload, j, component),
    ensures
        reported_battery(payload) matches Some(info) && {
            let value = payload[2 * k + 2];
            let state = BatteryState {
                level: value & 0x7f,
                status: if value & 0x80 != 0 {
                    BatteryStatus::Charging
                } else {
                    BatteryStatus::Normal
                },
            };
            &&& component == 2 ==> info.left == state
            &&& component == 3 ==> info.right == state
            &&& component == 4 ==> info.case == state
            &&& component == 6 ==> info.headphone == state
        },
{
    lemma_last_pair(payload, battery_pairs(payload), k, component);
}

/// A component that no pair of a battery payload is about is not connected.
pub proof fn law_unnamed_component_is_absent(payload: Seq<u8>, component: u8)
    requires
        payload.len() > 0,
        forall|j: int| !pair_names(payload, j, component),
    ensures
        reported_battery(payload) matches Some(info) && {
            let nothing = BatteryState { level: 0, status: BatteryStatus::Disconnected };
            &&& component == 2 ==> info.left == nothing
            &&& component == 3 ==> info.right == nothing
            &&& component == 4 ==> info.case == nothing
            &&& component == 6 ==> info.headphone == nothing
        },
{
    lemma_unnamed_component(payload, battery_pairs(payload), component);
}

/// A battery payload with a single pair reports the component of that pair, with
/// the level and the charging bit of its value, and no other component. That
/// holds for the headphone of an over-ear headset as for the others, and a
/// component number that no part of a headset has reports nothing. Without a
/// count there is no report.
pub proof fn law_single_pair_reports_its_component(component: u8, value: u8)
    ensures
        reported_battery(seq![1u8, component, value]) matches Some(info) && {
            let state = BatteryState {
                level: value & 0x7f,
                status: if value & 0x80 != 0 {
                    BatteryStatus::Charging
                } else {
                    BatteryStatus::Normal
                },
            };
            let nothing = BatteryState { level: 0, status: BatteryStatus::Disconnected };
            &&& info.left == if component == 2 { state } else { nothing }
            &&& info.right == if component == 3 { state } else { nothing }
            &&& info.case == if component == 4 { state } else { nothing }
            &&& info.headphone == if component == 6 { state } else { nothing }
        },
        reported_battery(Seq::empty()) is None,
{
    let payload = seq![1u8, component, value];
    assert(pair_names(payload, 0, component));
    law_last_pair_decides(payload, 0, component);
    if component != 2 {
        law_unnamed_component_is_absent(payload, 2);
    }
    if component != 3 {
        law_unnamed_component_is_absent(payload, 3);
    }
    if component != 4 {
        law_unnamed_component_is_absent(payload, 4);
    }
    if component != 6 {
        law_unnamed_component_is_absent(payload, 6);
    }
}

// === Laws of levels, modes and presets ===

/// Each level of noise control belongs to the mode that its place in the list
/// says: off, transparency, three levels of cancelling, and adaptive.
pub proof fn law_levels_belong_to_modes(level: u8)
    ensures
        mode_of_level(level) == Some(NoiseControlMode::Off) <==> level == 1,
        mode_of_level(level) == Some(NoiseControlMode::Transparency) <==> level == 2,
        mode_of_level(level) == Some(NoiseControlMode::Active) <==> 3 <= level <= 5,
        mode_of_level(level) == Some(NoiseControlMode::Adaptive) <==> level == 6,
        mode_of_level(level) is None <==> level == 0 || level > 6,
{
}

/// The level that is chosen for a mode: the only one, or the middle one where a
/// mode has several.
pub proof fn law_chosen_level_is_the_middle_one(mode: NoiseControlMode)
    ensures
        mode_of_level(level_of_mode(mode)) == Some(mode),
        mode != NoiseControlMode::Active ==> forall|level: u8|
            #![trigger mode_of_level(level)]
            mode_of_level(level) == Some(mode) ==> level == level_of_mode(mode),
        mode == NoiseControlMode::Active ==> mode_of_level((level_of_mode(mode) - 1) as u8) == Some(
            mode,
        ) && mode_of_level((level_of_mode(mode) + 1) as u8) == Some(mode),
{
}

/// The status bytes of the levels on the wire, in both directions.
pub proof fn law_status_bytes_on_the_wire(status: u8, level: u8)
    ensures
        level_of_status(status) == Some(level) <==> {
            ||| level == 1 && status == 5
            ||| level == 2 && status == 7
            ||| level == 3 && status == 3
            ||| level == 4 && status == 1
            ||| level == 5 && status == 2
            ||| level == 6 && status == 4
        },
        status_of_level(level) == Some(status) <==> level_of_status(status) == Some(level),
{
}

/// In a noise control report the second byte decides if it says off or
/// transparency, whatever follows it. Otherwise a strength entry behind it
/// decides, and only where there is none does the second byte. A strength entry
/// that is cut off, or a report without a second byte, gives no level.
pub proof fn law_report_gives_level(payload: Seq<u8>)
    ensures
        payload.len() < 2 ==> reported_level(payload) is None,
        payload.len() >= 2 && payload[1] == 5 ==> reported_level(payload) == Some(1u8),
        payload.len() >= 2 && payload[1] == 7 ==> reported_level(payload) == Some(2u8),
        payload.len() >= 5 && payload[1] != 5 && payload[1] != 7 && payload[3] == 2 ==> {
            &&& payload[4] == 5 ==> reported_level(payload) == Some(1u8)
            &&& payload[4] == 7 ==> reported_level(payload) == Some(2u8)
            &&& payload[4] == 3 ==> reported_level(payload) == Some(3u8)
            &&& payload[4] == 1 ==> reported_level(payload) == Some(4u8)
            &&& payload[4] == 2 ==> reported_level(payload) == Some(5u8)
            &&& payload[4] == 4 ==> reported_level(payload) == Some(6u8)
            &&& payload[4] == 0 || payload[4] == 6 || payload[4] > 7 ==> reported_level(
                payload,
            ) is None
        },
        payload.len() == 4 && payload[1] != 5 && payload[1] != 7 && payload[3] == 2
            ==> reported_level(payload) is None,
        payload.len() >= 2 && !(payload.len() >= 4 && payload[3] == 2) ==> {
            &&& payload[1] == 3 ==> reported_level(payload) == Some(3u8)
            &&& payload[1] == 1 ==> reported_level(payload) == Some(4u8)
            &&& payload[1] == 2 ==> reported_level(payload) == Some(5u8)
            &&& payload[1] == 4 ==> reported_level(payload) == Some(6u8)
            &&& payload[1] == 0 || payload[1] == 6 || payload[1] > 7 ==> reported_level(
                payload,
            ) is None
        },
{
}

/// The preset is the first byte of its report, whatever follows it, so the
/// payload that chooses a preset reports that preset.
pub proof fn law_preset_is_the_first_byte(preset: u8, following: Seq<u8>)
    ensures
        reported_preset(seq![preset] + following) == Some(preset),
        reported_preset(seq![preset, 0x00u8]) == Some(preset),
        reported_preset(Seq::empty()) is None,
{
}

// === Laws of the layout ===

/// Where the parts of a built frame stand: the start byte, kind and version, the
/// command in little-endian order, the length of the payload, an unused byte, the
/// identifier, the payload, and the checksum of all that in little-endian order.
pub proof fn law_frame_layout(command: u16, payload: Seq<u8>, operation_id: u8)
    requires
        payload.len() <= 255,
    ensures
        ({
            let bytes = encode(command, payload, operation_id);
            let n = payload.len() as int;
            &&& bytes.len() == n + 10
            &&& bytes[0] == 0x55
            &&& bytes[1] == 0x60
            &&& bytes[2] == 0x01
            &&& bytes[3] + 256 * bytes[4] == command
            &&& bytes[5] == n
            &&& bytes[6] == 0
            &&& bytes[7] == operation_id
            &&& bytes.subrange(8, 8 + n) == payload
            &&& bytes[8 + n] + 256 * bytes[9 + n] == crc_of(bytes.take(8 + n))
        }),
{
    let bytes = encode(command, payload, operation_id);
    let n = payload.len() as int;
    assert(bytes.subrange(8, 8 + n) =~= payload);
    assert(bytes.take(8 + n) =~= encode_body(command, payload, operation_id));
}

/// A payload is sent whole if it fits, and cut behind its first 255 bytes if it
/// does not.
pub proof fn law_payload_is_cut_at_its_end(payload: Seq<u8>)
    ensures
        payload.len() <= 255 ==> payload_cut(payload) == payload,
        payload.len() > 255 ==> payload_cut(payload).len() == 255,
        forall|k: int|
            0 <= k < payload_cut(payload).len() ==> payload_cut(payload)[k] == payload[k],
{
}

/// A frame of another kind or version has no checksum: its header and payload
/// alone are read as a frame, and what follows is read after it.
pub proof fn law_unchecked_frame_is_read(
    header: Seq<u8>,
    payload: Seq<u8>,
    following: Seq<u8>,
)
    requires
        header.len() == 8,
        header[0] == 0x55,
        header[1] != 0x60 || header[2] != 0x01,
        header[5] == payload.len(),
    ensures
        ({
            let read = scan(header + payload + following);
            &&& read.0.len() == 1 + scan(following).0.len()
            &&& read.0[0].command == header[3] + 256 * header[4]
            &&& read.0[0].operation_id == header[7]
            &&& read.0[0].payload == payload
            &&& read.0.skip(1) == scan(following).0
            &&& read.1 == scan(following).1
        }),
{
    let bytes = header + payload + following;
    let len = 8 + payload.len() as int;
    assert(bytes[0] == header[0] && bytes[1] == header[1] && bytes[2] == header[2] && bytes[5]
        == header[5]);
    assert(frame_len(bytes) == len);
    assert(bytes.skip(len) =~= following);
    assert(frame_at(bytes).payload =~= payload);
    assert((seq![frame_at(bytes)] + scan(following).0).skip(1) =~= scan(following).0);
}

/// A frame whose checksum is not that of its bytes is passed over, and what
/// follows is read.
pub proof fn law_wrong_checksum_is_passed_over(
    header: Seq<u8>,
    payload: Seq<u8>,
    low: u8,
    high: u8,
    following: Seq<u8>,
)
    requires
        header.len() == 8,
        header[0] == 0x55,
        header[1] == 0x60,
        header[2] == 0x01,
        header[5] == payload.len(),
        low + 256 * high != crc_of(header + payload),
    ensures
        scan(header + payload + seq![low, high] + following) == scan(following),
{
    let bytes = header + payload + seq![low, high] + following;
    let len = 10 + payload.len() as int;
    assert(bytes[0] == header[0] && bytes[1] == header[1] && bytes[2] == header[2] && bytes[5]
        == header[5]);
    assert(frame_len(bytes) == len);
    assert(bytes.skip(len) =~= following);
    assert(bytes.take(len - 2) =~= header + payload);
    assert(bytes[len - 2] == low && bytes[len - 1] == high);
}

/// The checksum is the reflected CRC-16 with polynomial 0xa001 that starts from
/// all ones: a shift is linear, halves an even register, and takes a register of
/// one to the polynomial; and each byte is mixed in before eight shifts.
pub proof fn law_checksum_polynomial(a: u16, b: u16, half: u16, bytes: Seq<u8>, byte: u8)
    requires
        half < 0x8000,
    ensures
        crc_shift(a ^ b) == crc_shift(a) ^ crc_shift(b),
        crc_shift((2 * half) as u16) == half,
        crc_shift(1) == 0xa001,
        crc_of(Seq::empty()) == 0xffff,
        crc_of(bytes.push(byte)) == crc_shift(
            crc_shift(
                crc_shift(
                    crc_shift(
                        crc_shift(
                            crc_shift(
                                crc_shift(crc_shift(crc_of(bytes) ^ (byte as u16))),
                            ),
                        ),
                    ),
                ),
            ),
        ),
{
    assert(crc_shift(a ^ b) == crc_shift(a) ^ crc_shift(b)) by (bit_vector);
    let double = (2 * half) as u16;
    assert(half < 0x8000 && double == 2 * half ==> crc_shift(double) == half) by (bit_vector);
    assert(crc_shift(1) == 0xa001) by (bit_vector);
    assert(bytes.push(byte).drop_last() =~= bytes);
    reveal_with_fuel(crc_shifts, 9);
}

/// A buffer followed by its own checksum, in little-endian order, has the
/// checksum zero.
pub proof fn law_checksum_cancels_itself(bytes: Seq<u8>)
    ensures
        ({
            let crc = crc_of(bytes);
            crc_of(bytes.push((crc % 256) as u8).push((crc / 256) as u8)) == 0
        }),
{
    let crc = crc_of(bytes);
    let low = (crc % 256) as u8;
    let high = (crc / 256) as u8;
    assert(bytes.push(low).drop_last() =~= bytes);
    assert(bytes.push(low).push(high).drop_last() =~= bytes.push(low));
    reveal_with_fuel(crc_shifts, 9);
    assert(low == (crc % 256) as u8 && high == (crc / 256) as u8 ==> crc_shift(
        crc_shift(
            crc_shift(
                crc_shift(
                    crc_shift(crc_shift(crc_shift(crc_shift(crc ^ (low as u16))))),
                ),
            ),
        ),
    ) == (high as u16)) by (bit_vector);
    assert(crc_of(bytes.push(low)) == high as u16) by {
        assert(bytes.push(low).last() == low);
        assert(crc_of(bytes.push(low)) == crc_shifts(crc ^ (low as u16), 8));
    }
    assert((high as u16) ^ (high as u16) == 0) by (bit_vector);
    assert(crc_shift(0) == 0) by (bit_vector);
    assert(crc_shifts(0, 8) == 0);
    assert(crc_of(bytes.push(low).push(high)) == crc_shifts((high as u16) ^ (high as u16), 8));
}

// === Laws of the firmware report ===

/// A firmware version is the text of its payload without the padding: null
/// characters at the end, and white space around what is left. Nothing inside
/// the version is lost.
pub proof fn law_firmware_is_the_text_without_padding(payload: Seq<u8>)
    ensures
        reported_firmware(payload) is Some ==> valid_utf8(payload),
        reported_firmware(payload) matches Some(version) ==> {
            let text = decode_utf8(payload);
            let bare = without_nulls(text);
            &&& version.len() > 0
            &&& !white_space(version.first())
            &&& !white_space(version.last())
            &&& exists|from: int, to: int|
                0 <= from < to <= bare.len() && version == #[trigger] text.subrange(from, to) && (
                forall|k: int|
                    (0 <= k < from || to <= k < bare.len()) ==> white_space(#[trigger] text[k]))
            &&& forall|k: int| bare.len() <= k < text.len() ==> text[k] == '\0'
        },
        valid_utf8(payload) && reported_firmware(payload) is None ==> {
            let text = decode_utf8(payload);
            let bare = without_nulls(text);
            &&& forall|k: int| 0 <= k < bare.len() ==> white_space(#[trigger] text[k])
            &&& forall|k: int| bare.len() <= k < text.len() ==> text[k] == '\0'
        },
{
    let text = decode_utf8(payload);
    let bare = without_nulls(text);
    law_nulls_are_dropped_at_the_end(text);
    law_trimmed_text_lost_only_white_space(bare);
    let (from, to) = choose|from: int, to: int|
        0 <= from <= to <= bare.len() && trimmed(bare) == #[trigger] bare.subrange(from, to) && (
        forall|k: int|
            (0 <= k < from || to <= k < bare.len()) ==> white_space(#[trigger] bare[k]));
    assert(text.subrange(from, to) =~= bare.subrange(from, to));
    assert forall|k: int| 0 <= k < bare.len() implies text[k] == bare[k] by {}
}

} // verus!
