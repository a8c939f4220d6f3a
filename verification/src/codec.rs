//! Framing of one protocol event: a 4-byte discriminant followed by an
//! optional fixed-size payload, with little-endian integer fields (the byte
//! order of every platform the kernel protocol is defined for here).

use vstd::prelude::*;
use vstd::slice::slice_to_vec;

verus! {

/// The kernel protocol's event discriminants. The position of each variant
/// in this enumeration is its wire code: the numbering is part of the wire
/// contract and must never be reordered.
#[derive(Clone, Copy, Debug, PartialEq, Eq, Structural)]
pub enum EventType {
    LegacyCreate,
    Destroy,
    Start,
    Stop,
    Open,
    Close,
    Output,
    LegacyOutput,
    LegacyInput,
    GetReport,
    GetReportReply,
    Create2,
    Input2,
    SetReport,
    SetReportReply,
}

impl EventType {
    /// The discriminant value that leads an event of this type on the wire.
    pub open spec fn code(self) -> u32 {
        match self {
            EventType::LegacyCreate => 0,
            EventType::Destroy => 1,
            EventType::Start => 2,
            EventType::Stop => 3,
            EventType::Open => 4,
            EventType::Close => 5,
            EventType::Output => 6,
            EventType::LegacyOutput => 7,
            EventType::LegacyInput => 8,
            EventType::GetReport => 9,
            EventType::GetReportReply => 10,
            EventType::Create2 => 11,
            EventType::Input2 => 12,
            EventType::SetReport => 13,
            EventType::SetReportReply => 14,
        }
    }

    /// Returns the wire code of this event type.
    pub fn wire_code(self) -> (r: u32)
        ensures
            r == self.code(),
    {
        match self {
            EventType::LegacyCreate => 0,
            EventType::Destroy => 1,
            EventType::Start => 2,
            EventType::Stop => 3,
            EventType::Open => 4,
            EventType::Close => 5,
            EventType::Output => 6,
            EventType::LegacyOutput => 7,
            EventType::LegacyInput => 8,
            EventType::GetReport => 9,
            EventType::GetReportReply => 10,
            EventType::Create2 => 11,
            EventType::Input2 => 12,
            EventType::SetReport => 13,
            EventType::SetReportReply => 14,
        }
    }
}

/// The two bytes of `v`, least significant first.
pub open spec fn u16_le_bytes(v: u16) -> Seq<u8> {
    seq![(v & 0xff) as u8, ((v >> 8) & 0xff) as u8]
}

/// The four bytes of `v`, least significant first.
pub open spec fn u32_le_bytes(v: u32) -> Seq<u8> {
    seq![
        (v & 0xff) as u8,
        ((v >> 8) & 0xff) as u8,
        ((v >> 16) & 0xff) as u8,
        ((v >> 24) & 0xff) as u8,
    ]
}

/// The 16-bit value whose little-endian bytes are `b0`, `b1`.
pub open spec fn u16_from_le(b0: u8, b1: u8) -> u16 {
    (b0 as u16) | ((b1 as u16) << 8)
}

/// The 32-bit value whose little-endian bytes are `b0` through `b3`.
pub open spec fn u32_from_le(b0: u8, b1: u8, b2: u8, b3: u8) -> u32 {
    (b0 as u32) | ((b1 as u32) << 8) | ((b2 as u32) << 16) | ((b3 as u32) << 24)
}

/// Reading the little-endian bytes of a 16-bit value back recovers the value.
pub proof fn lemma_u16_le_round_trip(v: u16)
    ensures
        u16_from_le(u16_le_bytes(v)[0], u16_le_bytes(v)[1]) == v,
{
    let b0: u8 = (v & 0xff) as u8;
    let b1: u8 = ((v >> 8) & 0xff) as u8;
    assert((b0 as u16) | ((b1 as u16) << 8) == v) by (bit_vector)
        requires
            b0 == (v & 0xff) as u8,
            b1 == ((v >> 8) & 0xff) as u8,
    ;
}

/// Reading the little-endian bytes of a 32-bit value back recovers the value.
pub proof fn lemma_u32_le_round_trip(v: u32)
    ensures
        u32_from_le(
            u32_le_bytes(v)[0],
            u32_le_bytes(v)[1],
            u32_le_bytes(v)[2],
            u32_le_bytes(v)[3],
        ) == v,
{
    let b0: u8 = (v & 0xff) as u8;
    let b1: u8 = ((v >> 8) & 0xff) as u8;
    let b2: u8 = ((v >> 16) & 0xff) as u8;
    let b3: u8 = ((v >> 24) & 0xff) as u8;
    assert((b0 as u32) | ((b1 as u32) << 8) | ((b2 as u32) << 16) | ((b3 as u32) << 24) == v)
        by (bit_vector)
        requires
            b0 == (v & 0xff) as u8,
            b1 == ((v >> 8) & 0xff) as u8,
            b2 == ((v >> 16) & 0xff) as u8,
            b3 == ((v >> 24) & 0xff) as u8,
    ;
}

/// Appends the two little-endian bytes of `v` to `out`.
pub fn push_u16_le(out: &mut Vec<u8>, v: u16)
    ensures
        final(out)@ == old(out)@ + u16_le_bytes(v),
{
    proof {
        assert(v & 0xff < 256 && (v >> 8) & 0xff < 256) by (bit_vector);
    }
    out.push((v & 0xff) as u8);
    out.push(((v >> 8) & 0xff) as u8);
    assert(out@ =~= old(out)@ + u16_le_bytes(v));
}

/// Appends the four little-endian bytes of `v` to `out`.
pub fn push_u32_le(out: &mut Vec<u8>, v: u32)
    ensures
        final(out)@ == old(out)@ + u32_le_bytes(v),
{
    proof {
        assert(v & 0xff < 256 && (v >> 8) & 0xff < 256 && (v >> 16) & 0xff < 256 && (v >> 24)
            & 0xff < 256) by (bit_vector);
    }
    out.push((v & 0xff) as u8);
    out.push(((v >> 8) & 0xff) as u8);
    out.push(((v >> 16) & 0xff) as u8);
    out.push(((v >> 24) & 0xff) as u8);
    assert(out@ =~= old(out)@ + u32_le_bytes(v));
}

/// Reads the 16-bit value stored little-endian at offset `i` of `b`.
pub fn read_u16_le(b: &[u8], i: usize) -> (r: u16)
    requires
        i + 2 <= b@.len(),
    ensures
        r == u16_from_le(b@[i as int], b@[i + 1]),
{
    (b[i] as u16) | ((b[i + 1] as u16) << 8)
}

/// Reads the 32-bit value stored little-endian at offset `i` of `b`.
pub fn read_u32_le(b: &[u8], i: usize) -> (r: u32)
    requires
        i + 4 <= b@.len(),
    ensures
        r == u32_from_le(b@[i as int], b@[i + 1], b@[i + 2], b@[i + 3]),
{
    (b[i] as u32) | ((b[i + 1] as u32) << 8) | ((b[i + 2] as u32) << 16) | ((b[i + 3] as u32)
        << 24)
}

/// `n` zero bytes.
pub open spec fn zero_bytes(n: nat) -> Seq<u8> {
    Seq::new(n, |i: int| 0u8)
}

/// `s` followed by zero bytes up to a total length of `n`.
pub open spec fn pad_zero(s: Seq<u8>, n: nat) -> Seq<u8>
    recommends
        s.len() <= n,
{
    s + zero_bytes((n - s.len()) as nat)
}

/// Copies `data` into a fresh buffer of exactly `size` bytes, zero-filled
/// past the end of `data`.
pub fn zero_padded(data: &[u8], size: usize) -> (r: Vec<u8>)
    requires
        data@.len() <= size,
    ensures
        r@ == pad_zero(data@, size as nat),
        r@.len() == size,
{
    let mut r = slice_to_vec(data);
    assert(r@ =~= pad_zero(data@, r@.len()));
    while r.len() < size
        invariant
            data@.len() <= r@.len() <= size,
            r@ == pad_zero(data@, r@.len()),
        decreases size - r@.len(),
    {
        r.push(0u8);
        assert(r@ =~= pad_zero(data@, r@.len()));
    }
    assert(r@ =~= pad_zero(data@, size as nat));
    r
}

/// A buffer of `n` zero bytes.
pub fn zero_vec(n: usize) -> (r: Vec<u8>)
    ensures
        r@ == zero_bytes(n as nat),
        r@.len() == n,
{
    let mut r: Vec<u8> = Vec::new();
    assert(r@ =~= zero_bytes(r@.len()));
    while r.len() < n
        invariant
            r@.len() <= n,
            r@ == zero_bytes(r@.len()),
        decreases n - r@.len(),
    {
        r.push(0u8);
        assert(r@ =~= zero_bytes(r@.len()));
    }
    assert(r@ =~= zero_bytes(n as nat));
    r
}

/// The framed bytes of one event: the 4-byte discriminant, then the payload
/// verbatim if there is one.
pub open spec fn event_bytes(event_type: EventType, payload: Option<Seq<u8>>) -> Seq<u8> {
    match payload {
        Some(p) => u32_le_bytes(event_type.code()) + p,
        None => u32_le_bytes(event_type.code()),
    }
}

/// Frames one event for the channel.
pub fn encode_event(event_type: EventType, data: Option<Vec<u8>>) -> (r: Vec<u8>)
    ensures
        r@ == event_bytes(event_type, (match data {
            Some(d) => Some(d@),
            None => None,
        })),
{
    let mut event: Vec<u8> = Vec::new();
    let code: u32 = event_type.wire_code();
    push_u32_le(&mut event, code);
    assert(event@ =~= u32_le_bytes(event_type.code()));
    match data {
        Some(mut data_vec) => {
            let ghost payload = data_vec@;
            event.append(&mut data_vec);
            assert(event@ =~= u32_le_bytes(event_type.code()) + payload);
        },
        None => {},
    }
    event
}

} // verus!
