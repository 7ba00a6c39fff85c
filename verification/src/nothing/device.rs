//! State of a Nothing/CMF headset, and the traffic that keeps it up to date.

use vstd::prelude::*;
use vstd::string::*;

use crate::airpods::device::{AirPods, AirPodsView, DeviceKind, NothingModel, UpdateOp};
use crate::airpods::protocol::NoiseControlMode;
use crate::bluetooth::rfcomm::Packet;
use crate::error::{AirPodsError, Unsupported};
use crate::event::{event_view, AirPodsEvent, EventView};
use crate::nothing::protocol::{
    anc_level_to_mode, anc_level_to_payload, build, encode, frames_view, law_build_then_read,
    level_of_mode,
    listening_mode_payload, mode_of_level, mode_to_anc_level, parse_anc_level, parse_battery,
    parse_eq_preset, parse_firmware, reported_battery, reported_firmware, reported_level,
    reported_preset, ring_payload, scan, status_of_level, Frame, FrameView, Framer, CMD_READ_ANC,
    CMD_READ_BATTERY, CMD_READ_FIRMWARE, CMD_READ_LISTENING_MODE, CMD_RING, CMD_SET_ANC,
    CMD_SET_LISTENING_MODE, EVT_ANC, EVT_ANC_ALT, EVT_BATTERY, EVT_BATTERY_ALT, EVT_EQ,
    EVT_FIRMWARE, EVT_LISTENING_MODE,
};
use crate::text::same_text;

verus! {

/// What a Nothing/CMF headset has reported beyond battery and mode.
#[derive(Debug)]
pub struct NothingState {
    firmware: Option<String>,
    anc_level: Option<u8>,
    eq_preset: Option<u8>,
    ringing: bool,
    operation_id: u8,
}

/// What the state says.
#[verifier::ext_equal]
pub struct NothingView {
    pub firmware: Option<Seq<char>>,
    pub anc_level: Option<u8>,
    pub eq_preset: Option<u8>,
    pub ringing: bool,
    pub operation_id: u8,
}

impl NothingView {
    /// The state before the first report.
    pub open spec fn initial() -> NothingView {
        NothingView {
            firmware: None,
            anc_level: None,
            eq_preset: None,
            ringing: false,
            operation_id: 0,
        }
    }

    /// The identifier of the next request.
    pub open spec fn next_id(self) -> u8 {
        if self.operation_id == u8::MAX {
            1
        } else {
            (self.operation_id + 1) as u8
        }
    }

    /// The state after an identifier was taken.
    pub open spec fn after_id(self) -> NothingView {
        NothingView { operation_id: self.next_id(), ..self }
    }
}

/// The text of a string, if there is one.
pub open spec fn text_of(text: Option<String>) -> Option<Seq<char>> {
    match text {
        Some(t) => Some(t@),
        None => None,
    }
}

impl View for NothingState {
    type V = NothingView;

    closed spec fn view(&self) -> NothingView {
        NothingView {
            firmware: text_of(self.firmware),
            anc_level: self.anc_level,
            eq_preset: self.eq_preset,
            ringing: self.ringing,
            operation_id: self.operation_id,
        }
    }
}

impl Default for NothingState {
    fn default() -> (state: NothingState)
        ensures
            state@ == NothingView::initial(),
    {
        NothingState {
            firmware: None,
            anc_level: None,
            eq_preset: None,
            ringing: false,
            operation_id: 0,
        }
    }
}

impl NothingState {
    /// The firmware version, if it was reported.
    pub fn firmware(&self) -> (firmware: Option<String>)
        ensures
            text_of(firmware) == self@.firmware,
    {
        match &self.firmware {
            Some(text) => Some(text.as_str().to_owned()),
            None => None,
        }
    }

    /// Takes note of a firmware version. The version that it replaces is handed
    /// back.
    pub fn update_firmware(&mut self, firmware: String) -> (op: UpdateOp<String>)
        ensures
            final(self)@ == (NothingView { firmware: Some(firmware@), ..old(self)@ }),
            match old(self)@.firmware {
                None => op is Inserted,
                Some(before) => if before == firmware@ {
                    op is Noop
                } else {
                    op matches UpdateOp::Updated(prev) && prev@ == before
                },
            },
    {
        if let Some(known) = &self.firmware {
            if same_text(known.as_str(), firmware.as_str()) {
                return UpdateOp::Noop;
            }
        }
        let mut prev: Option<String> = Some(firmware);
        std::mem::swap(&mut self.firmware, &mut prev);
        match prev {
            Some(prev) => UpdateOp::Updated(prev),
            None => UpdateOp::Inserted,
        }
    }

    /// The level of noise control, if it was reported.
    pub fn anc_level(&self) -> (level: Option<u8>)
        ensures
            level == self@.anc_level,
    {
        self.anc_level
    }

    /// Takes note of a level of noise control.
    pub fn update_anc_level(&mut self, level: u8) -> (op: UpdateOp<u8>)
        ensures
            op == UpdateOp::of(old(self)@.anc_level, Some(level)),
            final(self)@ == (NothingView { anc_level: Some(level), ..old(self)@ }),
    {
        UpdateOp::apply(&mut self.anc_level, Some(level))
    }

    /// The equaliser preset, if it was reported.
    pub fn eq_preset(&self) -> (preset: Option<u8>)
        ensures
            preset == self@.eq_preset,
    {
        self.eq_preset
    }

    /// Takes note of an equaliser preset.
    pub fn update_eq_preset(&mut self, preset: u8) -> (op: UpdateOp<u8>)
        ensures
            op == UpdateOp::of(old(self)@.eq_preset, Some(preset)),
            final(self)@ == (NothingView { eq_preset: Some(preset), ..old(self)@ }),
    {
        UpdateOp::apply(&mut self.eq_preset, Some(preset))
    }

    /// Tells whether the headset was last told to ring.
    pub fn ringing(&self) -> (ringing: bool)
        ensures
            ringing == self@.ringing,
    {
        self.ringing
    }

    /// Takes note of whether the headset was told to ring.
    pub fn set_ringing(&mut self, enabled: bool)
        ensures
            final(self)@ == (NothingView { ringing: enabled, ..old(self)@ }),
    {
        self.ringing = enabled;
    }

    /// Takes the identifier of the next request. Zero is passed over.
    pub fn next_operation_id(&mut self) -> (id: u8)
        ensures
            id == old(self)@.next_id(),
            final(self)@ == old(self)@.after_id(),
    {
        let next: u8 = self.operation_id.wrapping_add(1);
        let id: u8 = if next == 0 { 1 } else { next };
        self.operation_id = id;
        id
    }
}

/// What a kind of headset can do.
#[derive(Clone, Copy, Debug, PartialEq, Eq, Structural)]
pub struct NothingSupport {
    pub battery: bool,
    pub anc: bool,
    pub firmware: bool,
    pub eq: bool,
    pub ring: bool,
    pub gestures: bool,
}

/// What listeners are shown of the state.
#[derive(Debug)]
pub struct NothingDocument {
    pub firmware: Option<String>,
    pub anc_level: Option<u8>,
    pub eq_preset: Option<u8>,
    pub ringing: bool,
    pub supports: NothingSupport,
}

impl NothingDocument {
    /// Whether the document shows a state.
    pub open spec fn shows(self, state: NothingView) -> bool {
        &&& text_of(self.firmware) == state.firmware
        &&& self.anc_level == state.anc_level
        &&& self.eq_preset == state.eq_preset
        &&& self.ringing == state.ringing
        &&& self.supports == NothingSupport {
            battery: true,
            anc: true,
            firmware: true,
            eq: true,
            ring: true,
            gestures: false,
        }
    }
}

impl NothingState {
    /// What listeners are shown of the state.
    pub fn to_json(&self) -> (document: NothingDocument)
        ensures
            document.shows(self@),
    {
        NothingDocument {
            firmware: self.firmware(),
            anc_level: self.anc_level(),
            eq_preset: self.eq_preset(),
            ringing: self.ringing(),
            supports: NothingSupport {
                battery: true,
                anc: true,
                firmware: true,
                eq: true,
                ring: true,
                gestures: false,
            },
        }
    }
}

// === Requests ===

impl NothingView {
    /// The state after `n` identifiers were taken.
    pub open spec fn after_ids(self, n: nat) -> NothingView
        decreases n,
    {
        if n == 0 {
            self
        } else {
            self.after_ids((n - 1) as nat).after_id()
        }
    }
}

/// A request to report something.
pub open spec fn read_request(command: u16, id: u8) -> Seq<u8> {
    encode(command, Seq::empty(), id)
}

/// A request to set the level of noise control.
pub open spec fn anc_request(level: u8, id: u8) -> Seq<u8> {
    encode(CMD_SET_ANC, seq![0x01u8, status_of_level(level)->0, 0x00u8], id)
}

/// A request to choose an equaliser preset.
pub open spec fn eq_request(preset: u8, id: u8) -> Seq<u8> {
    encode(CMD_SET_LISTENING_MODE, seq![preset, 0x00u8], id)
}

/// A request to start or stop the ringing.
pub open spec fn ring_request(enabled: bool, id: u8) -> Seq<u8> {
    encode(CMD_RING, seq![0x02u8, if enabled { 1u8 } else { 0u8 }], id)
}

/// What is asked for once a connection is there.
pub open spec fn initial_commands() -> Seq<u16> {
    seq![CMD_READ_BATTERY, CMD_READ_FIRMWARE, CMD_READ_ANC, CMD_READ_LISTENING_MODE]
}

/// The request that shows whether a channel is the right one.
pub fn probe_request(state: &mut NothingState) -> (packet: Packet)
    ensures
        packet@ == read_request(CMD_READ_BATTERY, old(state)@.next_id()),
        final(state)@ == old(state)@.after_id(),
{
    let id: u8 = state.next_operation_id();
    build(CMD_READ_BATTERY, &[], id)
}

/// The requests that are sent once a connection is there, in order.
pub fn request_initial_state(state: &mut NothingState) -> (packets: Vec<Packet>)
    ensures
        packets@.len() == initial_commands().len(),
        forall|n: int|
            0 <= n < packets@.len() ==> (#[trigger] packets@[n])@ == read_request(
                initial_commands()[n],
                old(state)@.after_ids(n as nat).next_id(),
            ),
        final(state)@ == old(state)@.after_ids(initial_commands().len()),
{
    let commands: [u16; 4] = [
        CMD_READ_BATTERY,
        CMD_READ_FIRMWARE,
        CMD_READ_ANC,
        CMD_READ_LISTENING_MODE,
    ];
    assert(commands@ =~= initial_commands());
    let ghost start = state@;
    let mut packets: Vec<Packet> = Vec::new();
    let mut n: usize = 0;
    while n < 4
        invariant
            n <= 4,
            commands@ == initial_commands(),
            packets@.len() == n,
            state@ == start.after_ids(n as nat),
            forall|k: int|
                0 <= k < n ==> (#[trigger] packets@[k])@ == read_request(
                    initial_commands()[k],
                    start.after_ids(k as nat).next_id(),
                ),
        decreases 4 - n,
    {
        let id: u8 = state.next_operation_id();
        packets.push(build(commands[n], &[], id));
        n = n + 1;
    }
    packets
}

/// The request for a level of noise control. The identifier is taken only if
/// there is such a level.
pub fn set_anc_level(state: &mut NothingState, level: u8) -> (request: Result<
    Packet,
    AirPodsError,
>)
    ensures
        match request {
            Ok(packet) => {
                &&& 1 <= level <= 6
                &&& packet@ == anc_request(level, old(state)@.next_id())
                &&& final(state)@ == old(state)@.after_id()
            },
            Err(error) => {
                &&& !(1 <= level <= 6)
                &&& error == AirPodsError::FeatureNotSupported(Unsupported::AncLevel(level))
                &&& final(state)@ == old(state)@
            },
        },
{
    match anc_level_to_payload(level) {
        None => Err(AirPodsError::FeatureNotSupported(Unsupported::AncLevel(level))),
        Some(payload) => {
            let id: u8 = state.next_operation_id();
            Ok(build(CMD_SET_ANC, &payload, id))
        },
    }
}

/// The request for a noise control mode: one for the level that stands for it.
pub fn set_noise_control(state: &mut NothingState, mode: NoiseControlMode) -> (request: Result<
    Packet,
    AirPodsError,
>)
    ensures
        request matches Ok(packet) && packet@ == anc_request(
            level_of_mode(mode),
            old(state)@.next_id(),
        ),
        final(state)@ == old(state)@.after_id(),
{
    let level: u8 = mode_to_anc_level(mode);
    set_anc_level(state, level)
}

/// The request for an equaliser preset.
pub fn set_eq_preset(state: &mut NothingState, preset: u8) -> (packet: Packet)
    ensures
        packet@ == eq_request(preset, old(state)@.next_id()),
        final(state)@ == old(state)@.after_id(),
{
    let id: u8 = state.next_operation_id();
    build(CMD_SET_LISTENING_MODE, &listening_mode_payload(preset), id)
}

/// The request that starts or stops the ringing.
pub fn set_ring(state: &mut NothingState, enabled: bool) -> (packet: Packet)
    ensures
        packet@ == ring_request(enabled, old(state)@.next_id()),
        final(state)@ == old(state)@.after_id(),
{
    let id: u8 = state.next_operation_id();
    build(CMD_RING, &ring_payload(enabled), id)
}

proof fn lemma_id_after(state: NothingView, n: nat)
    requires
        n > 0,
    ensures
        state.after_ids(n).operation_id == (state.operation_id + n - 1) % 255 + 1,
    decreases n,
{
    if n == 1 {
        reveal_with_fuel(NothingView::after_ids, 2);
    } else {
        lemma_id_after(state, (n - 1) as nat);
    }
}

/// No request has the identifier zero, and among any 255 requests in a row no
/// two have the same.
pub proof fn law_requests_are_told_apart(state: NothingView, i: nat, j: nat)
    requires
        i < j < i + 255,
    ensures
        state.after_ids(i).next_id() != 0,
        state.after_ids(i).next_id() != state.after_ids(j).next_id(),
{
    lemma_id_after(state, i + 1);
    lemma_id_after(state, j + 1);
}

/// The first identifier is one, and each is followed by the next number, with one
/// behind the greatest. Taking an identifier changes nothing else.
pub proof fn law_identifiers_count_up(state: NothingView)
    ensures
        NothingView::initial().next_id() == 1,
        state.next_id() == state.operation_id % 255 + 1,
        state.after_id().operation_id == state.next_id(),
        state.after_id().firmware == state.firmware,
        state.after_id().anc_level == state.anc_level,
        state.after_id().eq_preset == state.eq_preset,
        state.after_id().ringing == state.ringing,
{
}

/// Before the first report nothing is known, and the headset does not ring.
pub proof fn law_nothing_is_known_at_first()
    ensures
        NothingView::initial().firmware is None,
        NothingView::initial().anc_level is None,
        NothingView::initial().eq_preset is None,
        !NothingView::initial().ringing,
{
}

/// The bytes of a request are read as a single frame, with nothing left over.
pub proof fn law_request_is_one_frame(command: u16, payload: Seq<u8>, id: u8)
    requires
        payload.len() <= 255,
    ensures
        scan(encode(command, payload, id)) == (
            seq![FrameView { command, operation_id: id, payload }],
            Seq::<u8>::empty(),
        ),
{
    let bytes = encode(command, payload, id);
    law_build_then_read(command, payload, id, Seq::empty());
    assert(bytes + Seq::<u8>::empty() =~= bytes);
    let frame = seq![FrameView { command, operation_id: id, payload }];
    assert(frame + Seq::<FrameView>::empty() =~= frame);
}

/// A request to report something is a frame with that command, the identifier of
/// the request, and no payload.
pub proof fn law_read_request_asks_for_its_command(command: u16, id: u8)
    ensures
        scan(read_request(command, id)) == (
            seq![FrameView { command, operation_id: id, payload: Seq::empty() }],
            Seq::<u8>::empty(),
        ),
{
    law_request_is_one_frame(command, Seq::empty(), id);
}

/// Once a connection is there, the battery, the firmware, the level of noise
/// control and the preset are asked for, in this order and each once.
pub proof fn law_everything_is_asked_for_once(state: NothingView, n: int)
    requires
        0 <= n < 4,
    ensures
        initial_commands().len() == 4,
        scan(read_request(initial_commands()[n], state.after_ids(n as nat).next_id())).0 == seq![
            FrameView {
                command: if n == 0 {
                    0xc007
                } else if n == 1 {
                    0xc042
                } else if n == 2 {
                    0xc01e
                } else {
                    0xc050
                },
                operation_id: ((state.operation_id + n) % 255 + 1) as u8,
                payload: Seq::empty(),
            },
        ],
{
    law_read_request_asks_for_its_command(
        initial_commands()[n],
        state.after_ids(n as nat).next_id(),
    );
    lemma_id_after(state, (n + 1) as nat);
}

/// A request for a level of noise control is a frame whose payload, if it were
/// reported, would give that level.
pub proof fn law_level_request_names_its_level(level: u8, id: u8)
    requires
        1 <= level <= 6,
    ensures
        ({
            let read = scan(anc_request(level, id));
            &&& read.0.len() == 1
            &&& read.0[0].command == 0xf00f
            &&& read.0[0].operation_id == id
            &&& read.0[0].payload.len() == 3
            &&& read.0[0].payload[0] == 1
            &&& read.0[0].payload[2] == 0
            &&& reported_level(read.0[0].payload) == Some(level)
            &&& read.1.len() == 0
        }),
{
    let payload = seq![0x01u8, status_of_level(level)->0, 0x00u8];
    law_request_is_one_frame(CMD_SET_ANC, payload, id);
}

/// A request for a preset is a frame whose payload, if it were reported, would
/// give that preset.
pub proof fn law_preset_request_names_its_preset(preset: u8, id: u8)
    ensures
        ({
            let read = scan(eq_request(preset, id));
            &&& read.0.len() == 1
            &&& read.0[0].command == 0xf01d
            &&& read.0[0].operation_id == id
            &&& read.0[0].payload == seq![preset, 0u8]
            &&& reported_preset(read.0[0].payload) == Some(preset)
            &&& read.1.len() == 0
        }),
{
    law_request_is_one_frame(CMD_SET_LISTENING_MODE, seq![preset, 0x00u8], id);
}

/// A request about the ringing is a frame that says one to start it and zero to
/// stop it.
pub proof fn law_ring_request_says_start_or_stop(enabled: bool, id: u8)
    ensures
        ({
            let read = scan(ring_request(enabled, id));
            &&& read.0.len() == 1
            &&& read.0[0].command == 0xf002
            &&& read.0[0].operation_id == id
            &&& read.0[0].payload.len() == 2
            &&& read.0[0].payload[0] == 2
            &&& read.0[0].payload[1] == 1 <==> enabled
            &&& read.0[0].payload[1] == 0 <==> !enabled
            &&& read.1.len() == 0
        }),
{
    law_request_is_one_frame(CMD_RING, seq![0x02u8, if enabled { 1u8 } else { 0u8 }], id);
}

// === Search for the control channel ===

/// The channels on which a device may answer, in the order in which they are
/// tried.
pub open spec fn channels_of(kind: DeviceKind) -> Seq<u8> {
    match kind {
        DeviceKind::Nothing { model: NothingModel::CmfHeadphonePro } => seq![17u8, 28u8, 12u8, 13u8],
        _ => Seq::new(30, |n: int| (n + 1) as u8),
    }
}

/// The channels on which a device may answer, in the order in which they are
/// tried.
pub fn channels_for(kind: DeviceKind) -> (channels: Vec<u8>)
    ensures
        channels@ == channels_of(kind),
{
    let mut channels: Vec<u8> = Vec::new();
    match kind {
        DeviceKind::Nothing { model: NothingModel::CmfHeadphonePro } => {
            channels.push(17);
            channels.push(28);
            channels.push(12);
            channels.push(13);
        },
        _ => {
            let mut n: u8 = 0;
            while n < 30
                invariant
                    n <= 30,
                    channels@ == Seq::new(n as nat, |k: int| (k + 1) as u8),
                decreases 30 - n,
            {
                n = n + 1;
                channels.push(n);
                assert(channels@ =~= Seq::new(n as nat, |k: int| (k + 1) as u8));
            }
        },
    }
    assert(channels@ =~= channels_of(kind));
    channels
}

/// A headset of the known model is tried on its four channels, the usual one
/// first. Any other device is tried on each of the first thirty channels once, in
/// ascending order.
pub proof fn law_channels_of_a_device(kind: DeviceKind, n: int)
    ensures
        kind == (DeviceKind::Nothing { model: NothingModel::CmfHeadphonePro }) ==> {
            &&& channels_of(kind).len() == 4
            &&& channels_of(kind)[0] == 17
            &&& channels_of(kind)[1] == 28
            &&& channels_of(kind)[2] == 12
            &&& channels_of(kind)[3] == 13
        },
        kind != (DeviceKind::Nothing { model: NothingModel::CmfHeadphonePro }) ==> {
            &&& channels_of(kind).len() == 30
            &&& 0 <= n < 30 ==> channels_of(kind)[n] == n + 1
        },
{
}

/// The search for the channel on which a device speaks the control protocol.
/// Each channel is tried once, and once more if a Fast Pair answer shows that
/// the device is awake. `E` is the type of the errors that stop an attempt.
#[derive(Debug)]
pub struct ChannelScan<E> {
    channels: Vec<u8>,
    tried: usize,
    saw_fastpair: bool,
    last_err: Option<E>,
}

/// How far a search has come.
#[verifier::ext_equal]
pub struct ScanView<E> {
    pub channels: Seq<u8>,
    pub tried: nat,
    pub saw_fastpair: bool,
    pub last_err: Option<E>,
}

impl<E> ScanView<E> {
    /// The channel to be tried next.
    pub open spec fn upcoming(self) -> Option<u8> {
        let count = self.channels.len();
        if self.tried < count {
            Some(self.channels[self.tried as int])
        } else if self.tried < 2 * count && self.saw_fastpair {
            Some(self.channels[self.tried - count])
        } else {
            None
        }
    }
}

/// Whether an answer is one of Fast Pair.
pub open spec fn is_fastpair(bytes: Seq<u8>) -> bool {
    bytes.len() >= 2 && bytes[0] == 0x03 && bytes[1] == 0x01
}

impl<E> View for ChannelScan<E> {
    type V = ScanView<E>;

    closed spec fn view(&self) -> ScanView<E> {
        ScanView {
            channels: self.channels@,
            tried: self.tried as nat,
            saw_fastpair: self.saw_fastpair,
            last_err: self.last_err,
        }
    }
}

impl<E> ChannelScan<E> {
    /// The list of channels is short, and the attempts are counted.
    pub closed spec fn wf(self) -> bool {
        self.channels@.len() <= 30 && self.tried <= 2 * self.channels@.len()
    }

    /// Begins a search for a kind of device.
    pub fn new(kind: DeviceKind) -> (search: ChannelScan<E>)
        ensures
            search.wf(),
            search@ == (ScanView {
                channels: channels_of(kind),
                tried: 0,
                saw_fastpair: false,
                last_err: None::<E>,
            }),
    {
        ChannelScan {
            channels: channels_for(kind),
            tried: 0,
            saw_fastpair: false,
            last_err: None,
        }
    }

    /// The channel to be tried next, if there is one left.
    pub fn next_channel(&mut self) -> (channel: Option<u8>)
        requires
            old(self).wf(),
        ensures
            final(self).wf(),
            channel == old(self)@.upcoming(),
            final(self)@ == if channel is Some {
                ScanView { tried: old(self)@.tried + 1, ..old(self)@ }
            } else {
                old(self)@
            },
    {
        let count: usize = self.channels.len();
        if self.tried < count {
            let channel: u8 = self.channels[self.tried];
            self.tried = self.tried + 1;
            Some(channel)
        } else if self.tried < 2 * count && self.saw_fastpair {
            let channel: u8 = self.channels[self.tried - count];
            self.tried = self.tried + 1;
            Some(channel)
        } else {
            None
        }
    }

    /// Takes note of the error that stopped an attempt.
    pub fn failed(&mut self, error: E)
        requires
            old(self).wf(),
        ensures
            final(self).wf(),
            final(self)@ == (ScanView { last_err: Some(error), ..old(self)@ }),
    {
        self.last_err = Some(error);
    }

    /// Looks at the first answer on a channel. If it holds a frame the search is
    /// over: the frames are returned, with the framer that has read them.
    pub fn answered(&mut self, bytes: &[u8]) -> (found: Option<(Framer, Vec<Frame>)>)
        requires
            old(self).wf(),
        ensures
            final(self).wf(),
            found is Some <==> scan(bytes@).0.len() > 0,
            found matches Some((framer, frames)) ==> {
                &&& frames_view(frames@) == scan(bytes@).0
                &&& framer@ == scan(bytes@).1
                &&& final(self)@ == old(self)@
            },
            found is None ==> final(self)@ == (ScanView {
                saw_fastpair: old(self)@.saw_fastpair || is_fastpair(bytes@),
                ..old(self)@
            }),
    {
        let mut framer = Framer::default();
        let frames = framer.push(bytes);
        assert(Seq::<u8>::empty() + bytes@ =~= bytes@);
        assert(frames_view(frames@).len() == frames@.len());
        if frames.len() == 0 {
            if bytes.len() >= 2 && bytes[0] == 0x03 && bytes[1] == 0x01 {
                self.saw_fastpair = true;
            }
            None
        } else {
            Some((framer, frames))
        }
    }

    /// The error of a search that found nothing: the last one, or a timeout if
    /// there was none.
    pub fn give_up(self, timeout: E) -> (error: E)
        ensures
            error == match self@.last_err {
                Some(last) => last,
                None => timeout,
            },
    {
        match self.last_err {
            Some(last) => last,
            None => timeout,
        }
    }
}

/// The channels are tried in turn, each at most twice, and only once as long as
/// no Fast Pair answer was seen.
pub proof fn law_channels_are_tried_in_turn<E>(search: ScanView<E>)
    ensures
        search.upcoming() matches Some(channel) ==> {
            &&& channel == search.channels[search.tried as int % search.channels.len() as int]
            &&& search.tried < 2 * search.channels.len()
            &&& !search.saw_fastpair ==> search.tried < search.channels.len()
        },
        search.tried < search.channels.len() ==> search.upcoming() is Some,
{
    let count = search.channels.len() as int;
    let tried = search.tried as int;
    if 0 <= tried < count {
        vstd::arithmetic::div_mod::lemma_small_mod(tried as nat, count as nat);
    } else if count <= tried < 2 * count {
        vstd::arithmetic::div_mod::lemma_small_mod((tried - count) as nat, count as nat);
        vstd::arithmetic::div_mod::lemma_mod_add_multiples_vanish(tried - count, count);
    }
}

/// A search ends once every channel was tried, unless a Fast Pair answer asks for
/// a second round; and it ends after that in any case.
pub proof fn law_second_round_needs_fast_pair<E>(search: ScanView<E>)
    ensures
        search.upcoming() is Some <==> search.tried < search.channels.len() || (search.saw_fastpair
            && search.tried < 2 * search.channels.len()),
{
}

/// A Fast Pair answer is one that begins with the bytes three and one.
pub proof fn law_fast_pair_answers(first: u8, second: u8, following: Seq<u8>)
    ensures
        is_fastpair(seq![first, second] + following) <==> first == 3 && second == 1,
        !is_fastpair(Seq::empty()),
        !is_fastpair(seq![first]),
{
}

// === Reports ===

/// What a frame makes of a device, and what listeners are told.
pub open spec fn after_frame(device: AirPodsView, frame: FrameView) -> (
    AirPodsView,
    Option<EventView>,
) {
    let command = frame.command;
    let payload = frame.payload;
    let state = device.nothing;
    if command == EVT_BATTERY || command == EVT_BATTERY_ALT {
        match reported_battery(payload) {
            Some(battery) => (
                AirPodsView { battery: Some(battery), ..device },
                if device.battery == Some(battery) {
                    None
                } else {
                    Some(EventView::BatteryUpdated(battery))
                },
            ),
            None => (device, None),
        }
    } else if command == EVT_ANC || command == EVT_ANC_ALT {
        match reported_level(payload) {
            Some(level) => {
                let noise_mode = match mode_of_level(level) {
                    Some(mode) => Some(mode),
                    None => device.noise_mode,
                };
                (
                    AirPodsView {
                        nothing: NothingView { anc_level: Some(level), ..state },
                        noise_mode,
                        ..device
                    },
                    if device.noise_mode != noise_mode {
                        Some(EventView::NoiseControlChanged(noise_mode->0))
                    } else if state.anc_level != Some(level) {
                        Some(EventView::DeviceInfoChanged)
                    } else {
                        None
                    },
                )
            },
            None => (device, None),
        }
    } else if command == EVT_FIRMWARE {
        match reported_firmware(payload) {
            Some(text) => (
                AirPodsView { nothing: NothingView { firmware: Some(text), ..state }, ..device },
                if state.firmware == Some(text) {
                    None
                } else {
                    Some(EventView::DeviceInfoChanged)
                },
            ),
            None => (device, None),
        }
    } else if command == EVT_EQ || command == EVT_LISTENING_MODE {
        match reported_preset(payload) {
            Some(preset) => (
                AirPodsView { nothing: NothingView { eq_preset: Some(preset), ..state }, ..device },
                if state.eq_preset == Some(preset) {
                    None
                } else {
                    Some(EventView::DeviceInfoChanged)
                },
            ),
            None => (device, None),
        }
    } else {
        (device, None)
    }
}

/// Takes in what a frame reports. Returns what listeners are to be told.
pub fn process_frame(device: &mut AirPods, frame: &Frame) -> (event: Option<AirPodsEvent>)
    requires
        old(device).wf(),
    ensures
        final(device).wf(),
        final(device)@ == after_frame(old(device)@, frame@).0,
        event_view(event) == after_frame(old(device)@, frame@).1,
{
    let payload = frame.payload.as_slice();
    if frame.command == EVT_BATTERY || frame.command == EVT_BATTERY_ALT {
        if let Some(battery) = parse_battery(payload) {
            if device.update_battery_info(Some(battery)).is_updated() {
                return Some(AirPodsEvent::BatteryUpdated(battery));
            }
        }
    } else if frame.command == EVT_ANC || frame.command == EVT_ANC_ALT {
        if let Some(level) = parse_anc_level(payload) {
            let level_changed = device.nothing_mut().update_anc_level(level).is_updated();
            if let Some(mode) = anc_level_to_mode(level) {
                if device.update_noise_mode(Some(mode)).is_updated() {
                    return Some(AirPodsEvent::NoiseControlChanged(mode));
                }
            }
            if level_changed {
                return Some(AirPodsEvent::DeviceInfoChanged);
            }
        }
    } else if frame.command == EVT_FIRMWARE {
        if let Some(firmware) = parse_firmware(payload) {
            if device.nothing_mut().update_firmware(firmware).is_updated() {
                return Some(AirPodsEvent::DeviceInfoChanged);
            }
        }
    } else if frame.command == EVT_EQ || frame.command == EVT_LISTENING_MODE {
        if let Some(preset) = parse_eq_preset(payload) {
            if device.nothing_mut().update_eq_preset(preset).is_updated() {
                return Some(AirPodsEvent::DeviceInfoChanged);
            }
        }
    }
    None
}

/// A report that says nothing new is passed over in silence: once a frame has
/// been taken in, the same frame changes nothing and tells nothing.
pub proof fn law_repeated_frame_is_silent(device: AirPodsView, frame: FrameView)
    ensures
        after_frame(after_frame(device, frame).0, frame) == (
            after_frame(device, frame).0,
            None::<EventView>,
        ),
{
}

/// Listeners are told of a frame exactly when it changes what is known about
/// the device.
pub proof fn law_listeners_learn_of_change(device: AirPodsView, frame: FrameView)
    ensures
        after_frame(device, frame).1 is Some <==> after_frame(device, frame).0 != device,
{
    let after = after_frame(device, frame).0;
    if after.nothing == device.nothing && after.battery == device.battery && after.noise_mode
        == device.noise_mode {
        assert(after =~= device);
    }
}

/// A battery frame replaces the battery report, and nothing else. Listeners are
/// told of the new report if it differs from the last one.
pub proof fn law_battery_frame_is_taken_in(device: AirPodsView, frame: FrameView)
    requires
        frame.command == 0xe001 || frame.command == 0x4007,
    ensures
        ({
            let (after, event) = after_frame(device, frame);
            match reported_battery(frame.payload) {
                Some(battery) => {
                    &&& after == AirPodsView { battery: Some(battery), ..device }
                    &&& device.battery != Some(battery) ==> event == Some(
                        EventView::BatteryUpdated(battery),
                    )
                    &&& device.battery == Some(battery) ==> event is None
                },
                None => after == device && event is None,
            }
        }),
{
}

/// A noise control frame gives the level and the mode that the level belongs to.
/// Listeners are told of a new mode, or else of a new level.
pub proof fn law_noise_frame_is_taken_in(device: AirPodsView, frame: FrameView)
    requires
        frame.command == 0xe003 || frame.command == 0x401e,
    ensures
        ({
            let (after, event) = after_frame(device, frame);
            match reported_level(frame.payload) {
                Some(level) => {
                    let mode = if level == 1 {
                        NoiseControlMode::Off
                    } else if level == 2 {
                        NoiseControlMode::Transparency
                    } else if level == 6 {
                        NoiseControlMode::Adaptive
                    } else {
                        NoiseControlMode::Active
                    };
                    &&& after.nothing.anc_level == Some(level)
                    &&& after.noise_mode == Some(mode)
                    &&& device.noise_mode != Some(mode) ==> event == Some(
                        EventView::NoiseControlChanged(mode),
                    )
                    &&& device.noise_mode == Some(mode) && device.nothing.anc_level != Some(level)
                        ==> event == Some(EventView::DeviceInfoChanged)
                    &&& device.noise_mode == Some(mode) && device.nothing.anc_level == Some(level)
                        ==> event is None
                    &&& after == AirPodsView {
                        noise_mode: after.noise_mode,
                        nothing: NothingView {
                            anc_level: after.nothing.anc_level,
                            ..device.nothing
                        },
                        ..device
                    }
                },
                None => after == device && event is None,
            }
        }),
{
}

/// A firmware frame gives the version, and nothing else. Listeners are told if it
/// is another one.
pub proof fn law_firmware_frame_is_taken_in(device: AirPodsView, frame: FrameView)
    requires
        frame.command == 0x4042,
    ensures
        ({
            let (after, event) = after_frame(device, frame);
            match reported_firmware(frame.payload) {
                Some(version) => {
                    &&& after == AirPodsView {
                        nothing: NothingView { firmware: Some(version), ..device.nothing },
                        ..device
                    }
                    &&& device.nothing.firmware != Some(version) ==> event == Some(
                        EventView::DeviceInfoChanged,
                    )
                    &&& device.nothing.firmware == Some(version) ==> event is None
                },
                None => after == device && event is None,
            }
        }),
{
}

/// An equaliser frame gives the preset, and nothing else. Listeners are told if it
/// is another one.
pub proof fn law_preset_frame_is_taken_in(device: AirPodsView, frame: FrameView)
    requires
        frame.command == 0x401f || frame.command == 0x4050,
    ensures
        ({
            let (after, event) = after_frame(device, frame);
            if frame.payload.len() > 0 {
                let preset = frame.payload[0];
                &&& after == AirPodsView {
                    nothing: NothingView { eq_preset: Some(preset), ..device.nothing },
                    ..device
                }
                &&& device.nothing.eq_preset != Some(preset) ==> event == Some(
                    EventView::DeviceInfoChanged,
                )
                &&& device.nothing.eq_preset == Some(preset) ==> event is None
            } else {
                after == device && event is None
            }
        }),
{
}

/// A frame with any other command changes nothing and tells nothing.
pub proof fn law_other_frames_are_passed_over(device: AirPodsView, frame: FrameView)
    requires
        frame.command != 0xe001,
        frame.command != 0x4007,
        frame.command != 0xe003,
        frame.command != 0x401e,
        frame.command != 0x4042,
        frame.command != 0x401f,
        frame.command != 0x4050,
    ensures
        after_frame(device, frame) == (device, None::<EventView>),
{
}

/// What listeners are shown of a state is what was reported, and what a headset
/// of this kind can do: everything but gestures.
pub proof fn law_state_is_shown_as_it_is(document: NothingDocument, state: NothingView)
    requires
        document.shows(state),
    ensures
        document.firmware matches Some(version) ==> state.firmware == Some(version@),
        document.firmware is None ==> state.firmware is None,
        document.anc_level == state.anc_level,
        document.eq_preset == state.eq_preset,
        document.ringing == state.ringing,
        document.supports.battery,
        document.supports.anc,
        document.supports.firmware,
        document.supports.eq,
        document.supports.ring,
        !document.supports.gestures,
{
}

} // verus!
