//! Messages between peers and the state of the link to the peer.
//!
//! Packet layout: [msg_type: u8][payload...]
//! Type 0x01 = InputBundle: [frame: u32 LE][input0: u16][input1: u16][input2: u16] = 11 bytes
//!   input0 = latest_frame, input1 = latest_frame-1, input2 = latest_frame-2 (redundancy)
//! Type 0x02 = CharSelect: [char_id: u8][ready: u8] = 3 bytes
//! Type 0x03 = Checksum:   [frame: u32 LE][hash: u64 LE] = 13 bytes
//! Type 0x04 = StartGame:  [local_player: u8] = 2 bytes
use vstd::prelude::*;

verus! {

pub const MSG_INPUT: u8 = 0x01;

pub const MSG_CHAR_SELECT: u8 = 0x02;

pub const MSG_CHECKSUM: u8 = 0x03;

pub const MSG_START_GAME: u8 = 0x04;

// ---------------------------------------------------------------------------
// Little-endian integers
// ---------------------------------------------------------------------------

/// The `u16` whose little-endian bytes start at `at`.
pub open spec fn le_u16(b: Seq<u8>, at: int) -> u16 {
    (b[at] + b[at + 1] * 256) as u16
}

/// The `u32` whose little-endian bytes start at `at`.
pub open spec fn le_u32(b: Seq<u8>, at: int) -> u32 {
    (b[at] + b[at + 1] * 0x100 + b[at + 2] * 0x1_0000 + b[at + 3] * 0x100_0000) as u32
}

/// The `u64` whose little-endian bytes start at `at`.
pub open spec fn le_u64(b: Seq<u8>, at: int) -> u64 {
    (le_u32(b, at) + le_u32(b, at + 4) * 0x1_0000_0000) as u64
}

/// The little-endian bytes of a `u16`.
pub open spec fn u16_bytes(x: u16) -> Seq<u8> {
    seq![(x % 0x100) as u8, (x / 0x100) as u8]
}

/// The little-endian bytes of a `u32`.
pub open spec fn u32_bytes(x: u32) -> Seq<u8> {
    seq![
        (x % 0x100) as u8,
        (x / 0x100 % 0x100) as u8,
        (x / 0x1_0000 % 0x100) as u8,
        (x / 0x100_0000) as u8,
    ]
}

/// The little-endian bytes of a `u64`.
pub open spec fn u64_bytes(x: u64) -> Seq<u8> {
    u32_bytes((x % 0x1_0000_0000) as u32) + u32_bytes((x / 0x1_0000_0000) as u32)
}

fn u16_from_le(b0: u8, b1: u8) -> (r: u16)
    ensures
        r == le_u16(seq![b0, b1], 0),
{
    b0 as u16 + b1 as u16 * 256
}

fn u32_from_le(b0: u8, b1: u8, b2: u8, b3: u8) -> (r: u32)
    ensures
        r == le_u32(seq![b0, b1, b2, b3], 0),
{
    b0 as u32 + b1 as u32 * 0x100 + b2 as u32 * 0x1_0000 + b3 as u32 * 0x100_0000
}

fn push_u16(buf: &mut Vec<u8>, x: u16)
    ensures
        final(buf)@ == old(buf)@ + u16_bytes(x),
{
    buf.push((x % 0x100) as u8);
    buf.push((x / 0x100) as u8);
    assert(buf@ =~= old(buf)@ + u16_bytes(x));
}

fn push_u32(buf: &mut Vec<u8>, x: u32)
    ensures
        final(buf)@ == old(buf)@ + u32_bytes(x),
{
    buf.push((x % 0x100) as u8);
    buf.push((x / 0x100 % 0x100) as u8);
    buf.push((x / 0x1_0000 % 0x100) as u8);
    buf.push((x / 0x100_0000) as u8);
    assert(buf@ =~= old(buf)@ + u32_bytes(x));
}

fn push_u64(buf: &mut Vec<u8>, x: u64)
    ensures
        final(buf)@ == old(buf)@ + u64_bytes(x),
{
    push_u32(buf, (x % 0x1_0000_0000) as u32);
    push_u32(buf, (x / 0x1_0000_0000) as u32);
    assert(buf@ =~= old(buf)@ + u64_bytes(x));
}

/// Reading back the little-endian bytes of a number gives the number.
pub proof fn lemma_le_roundtrip(a: u16, b: u32, c: u64)
    ensures
        le_u16(u16_bytes(a), 0) == a,
        le_u32(u32_bytes(b), 0) == b,
        le_u64(u64_bytes(c), 0) == c,
{
    assert((a % 0x100) as u8 + (a / 0x100) as u8 * 256 == a) by (bit_vector);
    assert((b % 0x100) as u8 + (b / 0x100 % 0x100) as u8 * 0x100 + (b / 0x1_0000 % 0x100) as u8
        * 0x1_0000 + (b / 0x100_0000) as u8 * 0x100_0000 == b) by (bit_vector);
    let lo = (c % 0x1_0000_0000) as u32;
    let hi = (c / 0x1_0000_0000) as u32;
    assert((lo % 0x100) as u8 + (lo / 0x100 % 0x100) as u8 * 0x100 + (lo / 0x1_0000 % 0x100) as u8
        * 0x1_0000 + (lo / 0x100_0000) as u8 * 0x100_0000 == lo) by (bit_vector);
    assert((hi % 0x100) as u8 + (hi / 0x100 % 0x100) as u8 * 0x100 + (hi / 0x1_0000 % 0x100) as u8
        * 0x1_0000 + (hi / 0x100_0000) as u8 * 0x100_0000 == hi) by (bit_vector);
    assert((c % 0x1_0000_0000) as u32 + (c / 0x1_0000_0000) as u32 * 0x1_0000_0000int == c)
        by (bit_vector);
    let s = u64_bytes(c);
    assert(s.subrange(0, 4) =~= u32_bytes(lo));
    assert(s.subrange(4, 8) =~= u32_bytes(hi));
}

// ---------------------------------------------------------------------------
// Messages
// ---------------------------------------------------------------------------

/// An input bundle payload: the frame, then the latest input and the two
/// before it, each little-endian.
pub open spec fn spec_parse_input_bundle(payload: Seq<u8>) -> Option<(u32, [u16; 3])> {
    if payload.len() < 10 {
        None
    } else {
        Some((le_u32(payload, 0), [le_u16(payload, 4), le_u16(payload, 6), le_u16(payload, 8)]))
    }
}

/// A checksum payload: the frame, then the hash, little-endian.
pub open spec fn spec_parse_checksum(payload: Seq<u8>) -> Option<(u32, u64)> {
    if payload.len() < 12 {
        None
    } else {
        Some((le_u32(payload, 0), le_u64(payload, 4)))
    }
}

/// Parse an input bundle message payload.
/// Returns (frame, [input0, input1, input2]) where input0 is the latest frame.
pub fn parse_input_bundle(payload: &[u8]) -> (r: Option<(u32, [u16; 3])>)
    ensures
        r == spec_parse_input_bundle(payload@),
{
    if payload.len() < 10 {
        return None;
    }
    let frame = u32_from_le(payload[0], payload[1], payload[2], payload[3]);
    let i0 = u16_from_le(payload[4], payload[5]);
    let i1 = u16_from_le(payload[6], payload[7]);
    let i2 = u16_from_le(payload[8], payload[9]);
    Some((frame, [i0, i1, i2]))
}

/// Parse a checksum message payload.
pub fn parse_checksum(payload: &[u8]) -> (r: Option<(u32, u64)>)
    ensures
        r == spec_parse_checksum(payload@),
{
    if payload.len() < 12 {
        return None;
    }
    let frame = u32_from_le(payload[0], payload[1], payload[2], payload[3]);
    let lo = u32_from_le(payload[4], payload[5], payload[6], payload[7]);
    let hi = u32_from_le(payload[8], payload[9], payload[10], payload[11]);
    let hash = lo as u64 + hi as u64 * 0x1_0000_0000;
    Some((frame, hash))
}

/// An input bundle message: the type byte, the frame and the three inputs.
pub open spec fn input_bundle_bytes(frame: u32, inputs: [u16; 3]) -> Seq<u8> {
    seq![MSG_INPUT] + u32_bytes(frame) + u16_bytes(inputs[0]) + u16_bytes(inputs[1]) + u16_bytes(
        inputs[2],
    )
}

/// A checksum message: the type byte, the frame and the hash.
pub open spec fn checksum_bytes(frame: u32, hash: u64) -> Seq<u8> {
    seq![MSG_CHECKSUM] + u32_bytes(frame) + u64_bytes(hash)
}

/// An input bundle (current frame + 2 previous for redundancy).
pub fn encode_input_bundle(frame: u32, inputs: [u16; 3]) -> (r: Vec<u8>)
    ensures
        r@ == input_bundle_bytes(frame, inputs),
{
    let mut buf: Vec<u8> = Vec::new();
    buf.push(MSG_INPUT);
    push_u32(&mut buf, frame);
    push_u16(&mut buf, inputs[0]);
    push_u16(&mut buf, inputs[1]);
    push_u16(&mut buf, inputs[2]);
    assert(buf@ =~= input_bundle_bytes(frame, inputs));
    buf
}

/// A character selection message.
pub fn encode_char_select(char_id: u8, ready: bool) -> (r: Vec<u8>)
    ensures
        r@ == seq![MSG_CHAR_SELECT, char_id, if ready { 1u8 } else { 0u8 }],
{
    let ready_byte: u8 = if ready {
        1
    } else {
        0
    };
    let mut buf: Vec<u8> = Vec::new();
    buf.push(MSG_CHAR_SELECT);
    buf.push(char_id);
    buf.push(ready_byte);
    assert(buf@ =~= seq![MSG_CHAR_SELECT, char_id, ready_byte]);
    buf
}

/// A checksum message for desync detection.
pub fn encode_checksum(frame: u32, hash: u64) -> (r: Vec<u8>)
    ensures
        r@ == checksum_bytes(frame, hash),
{
    let mut buf: Vec<u8> = Vec::new();
    buf.push(MSG_CHECKSUM);
    push_u32(&mut buf, frame);
    push_u64(&mut buf, hash);
    assert(buf@ =~= checksum_bytes(frame, hash));
    buf
}

/// A game start message with the receiver's player index.
pub fn encode_start_game(remote_player_idx: u8) -> (r: Vec<u8>)
    ensures
        r@ == seq![MSG_START_GAME, remote_player_idx],
{
    let mut buf: Vec<u8> = Vec::new();
    buf.push(MSG_START_GAME);
    buf.push(remote_player_idx);
    assert(buf@ =~= seq![MSG_START_GAME, remote_player_idx]);
    buf
}

/// A received packet's type byte and payload; an empty packet has neither.
pub fn split_message(data: &[u8]) -> (r: Option<(u8, Vec<u8>)>)
    ensures
        data@.len() == 0 ==> r is None,
        data@.len() > 0 ==> (r matches Some((t, payload)) && t == data@[0] && payload@
            == data@.subrange(1, data@.len() as int)),
{
    if data.len() == 0 {
        return None;
    }
    let mut payload: Vec<u8> = Vec::new();
    let mut k: usize = 1;
    while k < data.len()
        invariant
            1 <= k <= data@.len(),
            payload@ == data@.subrange(1, k as int),
        decreases data@.len() - k,
    {
        payload.push(data[k]);
        k += 1;
        assert(payload@ =~= data@.subrange(1, k as int));
    }
    Some((data[0], payload))
}

/// An input bundle read back is the frame and inputs it was made from.
pub proof fn lemma_input_bundle_roundtrip(frame: u32, inputs: [u16; 3])
    ensures
        ({
            let m = input_bundle_bytes(frame, inputs);
            &&& m.len() == 11
            &&& m[0] == MSG_INPUT
            &&& spec_parse_input_bundle(m.subrange(1, 11)) == Some((frame, inputs))
        }),
{
    let m = input_bundle_bytes(frame, inputs);
    let p = m.subrange(1, 11);
    lemma_le_roundtrip(inputs[0], frame, 0);
    lemma_le_roundtrip(inputs[1], frame, 0);
    lemma_le_roundtrip(inputs[2], frame, 0);
    assert(p.subrange(0, 4) =~= u32_bytes(frame));
    assert(p.subrange(4, 6) =~= u16_bytes(inputs[0]));
    assert(p.subrange(6, 8) =~= u16_bytes(inputs[1]));
    assert(p.subrange(8, 10) =~= u16_bytes(inputs[2]));
    assert([le_u16(p, 4), le_u16(p, 6), le_u16(p, 8)] =~= inputs);
}

/// A checksum message read back is the frame and hash it was made from.
pub proof fn lemma_checksum_roundtrip(frame: u32, hash: u64)
    ensures
        ({
            let m = checksum_bytes(frame, hash);
            &&& m.len() == 13
            &&& m[0] == MSG_CHECKSUM
            &&& spec_parse_checksum(m.subrange(1, 13)) == Some((frame, hash))
        }),
{
    let m = checksum_bytes(frame, hash);
    let p = m.subrange(1, 13);
    lemma_le_roundtrip(0, frame, hash);
    assert(p.subrange(0, 4) =~= u32_bytes(frame));
    assert(p.subrange(4, 12) =~= u64_bytes(hash));
}

// ---------------------------------------------------------------------------
// The link to the peer
// ---------------------------------------------------------------------------

#[derive(Clone, Copy, Debug, PartialEq, Eq, Structural)]
pub enum ConnectionState {
    Connecting,
    WaitingForPeer,
    Connected,
    Disconnected,
}

/// Which peer we are linked to, identified by its 128-bit id, and the
/// connection state.
#[derive(Clone, Copy, Debug, PartialEq, Eq, Structural)]
pub struct PeerLink {
    pub peer: Option<u128>,
    pub connection_state: ConnectionState,
}

impl PeerLink {
    /// No peer yet, connecting to the signaling server.
    pub fn new() -> (r: PeerLink)
        ensures
            r.peer is None,
            r.connection_state == ConnectionState::Connecting,
    {
        PeerLink { peer: None, connection_state: ConnectionState::Connecting }
    }

    /// A peer connected: it becomes our peer.
    pub fn peer_connected(&mut self, peer: u128)
        ensures
            final(self).peer == Some(peer),
            final(self).connection_state == ConnectionState::Connected,
    {
        self.peer = Some(peer);
        self.connection_state = ConnectionState::Connected;
    }

    /// A peer disconnected: if it was ours, we are disconnected.
    pub fn peer_disconnected(&mut self, peer: u128)
        ensures
            old(self).peer == Some(peer) ==> final(self).peer is None
                && final(self).connection_state == ConnectionState::Disconnected,
            old(self).peer != Some(peer) ==> *final(self) == *old(self),
    {
        if self.peer == Some(peer) {
            self.peer = None;
            self.connection_state = ConnectionState::Disconnected;
        }
    }

    /// After the peer changes of a poll: still connecting without a peer
    /// means waiting for one.
    pub fn settle(&mut self)
        ensures
            (old(self).peer is None && old(self).connection_state == ConnectionState::Connecting)
                ==> final(self).connection_state == ConnectionState::WaitingForPeer
                && final(self).peer is None,
            !(old(self).peer is None && old(self).connection_state == ConnectionState::Connecting)
                ==> *final(self) == *old(self),
    {
        if self.peer.is_none() && self.connection_state == ConnectionState::Connecting {
            self.connection_state = ConnectionState::WaitingForPeer;
        }
    }

    pub fn is_connected(&self) -> (r: bool)
        ensures
            r == (self.connection_state == ConnectionState::Connected),
    {
        self.connection_state == ConnectionState::Connected
    }
}

} // verus!
