//! The fixed-layout payload of a Create2 event: field order, exact sizes and
//! zero padding are the kernel ABI and must match it bit for bit.

use vstd::prelude::*;
use vstd::slice::{slice_subrange, slice_to_vec};

use crate::codec::{
    u16_from_le, u16_le_bytes, u32_from_le, u32_le_bytes, lemma_u16_le_round_trip,
    lemma_u32_le_round_trip, push_u16_le, push_u32_le, read_u16_le, read_u32_le,
};

verus! {

/// Capacity of the device-name field, in bytes.
pub const NAME_SIZE: usize = 128;

/// Capacity of the physical-location field, in bytes.
pub const PHYS_SIZE: usize = 64;

/// Capacity of the unique-identifier field, in bytes.
pub const UNIQ_SIZE: usize = 64;

/// Capacity of the report-descriptor field, in bytes.
pub const HID_MAX_DESCRIPTOR_SIZE: usize = 4096;

/// Total size of an encoded Create2 payload, in bytes.
pub const CREATE2_PAYLOAD_SIZE: usize = NAME_SIZE + PHYS_SIZE + UNIQ_SIZE + 2 + 2 + 4 + 4 + 4 + 4
    + HID_MAX_DESCRIPTOR_SIZE;

/// Transport identifiers the emulated device claims to be attached through.
/// The position of each variant is its wire code.
#[derive(Clone, Copy, Debug, PartialEq, Eq, Structural)]
pub enum Bus {
    Pci,
    IsaPnp,
    Usb,
    Hil,
    Bluetooth,
    Virtual,
}

impl Bus {
    /// The code that stands for this transport in the `bus` field.
    pub open spec fn code(self) -> u16 {
        match self {
            Bus::Pci => 0,
            Bus::IsaPnp => 1,
            Bus::Usb => 2,
            Bus::Hil => 3,
            Bus::Bluetooth => 4,
            Bus::Virtual => 5,
        }
    }

    /// Returns the wire code of this transport.
    pub fn wire_code(self) -> (r: u16)
        ensures
            r == self.code(),
    {
        match self {
            Bus::Pci => 0,
            Bus::IsaPnp => 1,
            Bus::Usb => 2,
            Bus::Hil => 3,
            Bus::Bluetooth => 4,
            Bus::Virtual => 5,
        }
    }
}

/// Mathematical model of a Create2 payload: each buffer as the byte sequence
/// it holds, already padded to its fixed capacity.
#[verifier::ext_equal]
pub ghost struct Create2ReqModel {
    pub name: Seq<u8>,
    pub phys: Seq<u8>,
    pub uniq: Seq<u8>,
    pub rd_size: u16,
    pub bus: u16,
    pub vendor: u32,
    pub product: u32,
    pub version: u32,
    pub country: u32,
    pub rd_data: Seq<u8>,
}

impl Create2ReqModel {
    /// Every buffer fills its fixed capacity exactly.
    pub open spec fn wf(self) -> bool {
        &&& self.name.len() == NAME_SIZE
        &&& self.phys.len() == PHYS_SIZE
        &&& self.uniq.len() == UNIQ_SIZE
        &&& self.rd_data.len() == HID_MAX_DESCRIPTOR_SIZE
    }

    /// The encoded bytes: the fields in wire order, integers little-endian,
    /// with no padding between fields.
    pub open spec fn encoded(self) -> Seq<u8> {
        self.name + self.phys + self.uniq + u16_le_bytes(self.rd_size) + u16_le_bytes(self.bus)
            + u32_le_bytes(self.vendor) + u32_le_bytes(self.product) + u32_le_bytes(self.version)
            + u32_le_bytes(self.country) + self.rd_data
    }
}

/// The payload model that a sequence of exactly [`CREATE2_PAYLOAD_SIZE`]
/// bytes describes, read against the documented layout.
pub open spec fn decoded(b: Seq<u8>) -> Create2ReqModel
    recommends
        b.len() == CREATE2_PAYLOAD_SIZE,
{
    Create2ReqModel {
        name: b.subrange(0, 128),
        phys: b.subrange(128, 192),
        uniq: b.subrange(192, 256),
        rd_size: u16_from_le(b[256], b[257]),
        bus: u16_from_le(b[258], b[259]),
        vendor: u32_from_le(b[260], b[261], b[262], b[263]),
        product: u32_from_le(b[264], b[265], b[266], b[267]),
        version: u32_from_le(b[268], b[269], b[270], b[271]),
        country: u32_from_le(b[272], b[273], b[274], b[275]),
        rd_data: b.subrange(276, 4372),
    }
}

/// Encoding a well-formed payload and reading the bytes back against the
/// documented layout recovers every field exactly.
pub proof fn lemma_create2_round_trip(m: Create2ReqModel)
    requires
        m.wf(),
    ensures
        m.encoded().len() == CREATE2_PAYLOAD_SIZE,
        decoded(m.encoded()) == m,
{
    let e = m.encoded();
    assert(e.len() == CREATE2_PAYLOAD_SIZE);
    assert(e.subrange(0, 128) =~= m.name);
    assert(e.subrange(128, 192) =~= m.phys);
    assert(e.subrange(192, 256) =~= m.uniq);
    assert(e.subrange(256, 258) =~= u16_le_bytes(m.rd_size));
    assert(e.subrange(258, 260) =~= u16_le_bytes(m.bus));
    assert(e.subrange(260, 264) =~= u32_le_bytes(m.vendor));
    assert(e.subrange(264, 268) =~= u32_le_bytes(m.product));
    assert(e.subrange(268, 272) =~= u32_le_bytes(m.version));
    assert(e.subrange(272, 276) =~= u32_le_bytes(m.country));
    assert(e.subrange(276, 4372) =~= m.rd_data);
    lemma_u16_le_round_trip(m.rd_size);
    lemma_u16_le_round_trip(m.bus);
    lemma_u32_le_round_trip(m.vendor);
    lemma_u32_le_round_trip(m.product);
    lemma_u32_le_round_trip(m.version);
    lemma_u32_le_round_trip(m.country);
    assert(decoded(e) =~= m);
}

/// The payload of a Create2 event. Each buffer is kept at its fixed capacity
/// ([`Create2Req::wf`]); an oversized input is a rejection at construction,
/// never a truncation here.
pub struct Create2Req {
    pub name: Vec<u8>,
    pub phys: Vec<u8>,
    pub uniq: Vec<u8>,
    pub rd_size: u16,
    pub bus: u16,
    pub vendor: u32,
    pub product: u32,
    pub version: u32,
    pub country: u32,
    pub rd_data: Vec<u8>,
}

impl View for Create2Req {
    type V = Create2ReqModel;

    open spec fn view(&self) -> Create2ReqModel {
        Create2ReqModel {
            name: self.name@,
            phys: self.phys@,
            uniq: self.uniq@,
            rd_size: self.rd_size,
            bus: self.bus,
            vendor: self.vendor,
            product: self.product,
            version: self.version,
            country: self.country,
            rd_data: self.rd_data@,
        }
    }
}

impl Create2Req {
    /// Every buffer fills its fixed capacity exactly.
    pub open spec fn wf(&self) -> bool {
        self@.wf()
    }

    /// Serializes the payload in wire order.
    pub fn encode(&self) -> (r: Vec<u8>)
        requires
            self.wf(),
        ensures
            r@ == self@.encoded(),
            r@.len() == CREATE2_PAYLOAD_SIZE,
    {
        let mut out: Vec<u8> = slice_to_vec(self.name.as_slice());
        let mut rest: Vec<u8> = slice_to_vec(self.phys.as_slice());
        out.append(&mut rest);
        let mut rest: Vec<u8> = slice_to_vec(self.uniq.as_slice());
        out.append(&mut rest);
        push_u16_le(&mut out, self.rd_size);
        push_u16_le(&mut out, self.bus);
        push_u32_le(&mut out, self.vendor);
        push_u32_le(&mut out, self.product);
        push_u32_le(&mut out, self.version);
        push_u32_le(&mut out, self.country);
        let mut rest: Vec<u8> = slice_to_vec(self.rd_data.as_slice());
        out.append(&mut rest);
        assert(out@ =~= self@.encoded());
        out
    }

    /// Reads a payload back from its encoded bytes. Returns `None` exactly
    /// when `bytes` does not have the size of a Create2 payload.
    pub fn parse(bytes: &[u8]) -> (r: Option<Create2Req>)
        ensures
            r is Some <==> bytes@.len() == CREATE2_PAYLOAD_SIZE,
            (r matches Some(req) ==> req@ == decoded(bytes@) && req.wf()),
    {
        if bytes.len() != CREATE2_PAYLOAD_SIZE {
            return None;
        }
        let req = Create2Req {
            name: slice_to_vec(slice_subrange(bytes, 0, 128)),
            phys: slice_to_vec(slice_subrange(bytes, 128, 192)),
            uniq: slice_to_vec(slice_subrange(bytes, 192, 256)),
            rd_size: read_u16_le(bytes, 256),
            bus: read_u16_le(bytes, 258),
            vendor: read_u32_le(bytes, 260),
            product: read_u32_le(bytes, 264),
            version: read_u32_le(bytes, 268),
            country: read_u32_le(bytes, 272),
            rd_data: slice_to_vec(slice_subrange(bytes, 276, 4372)),
        };
        assert(req@ =~= decoded(bytes@));
        Some(req)
    }
}

} // verus!
