//! The device lifecycle: at most one live device per handle. `create`
//! validates its inputs, registers the device and produces the framed
//! Create2 event; `destroy` unregisters from any state and produces the
//! framed Destroy event. Writing the bytes to the channel is the caller's
//! part; every byte produced here is pinned down exactly.

use vstd::prelude::*;
use vstd::string::StringSliceAdditionalSpecFns;

use crate::codec::{
    encode_event, event_bytes, pad_zero, zero_bytes, zero_padded, zero_vec, EventType,
};
use crate::request::{
    Bus, Create2Req, Create2ReqModel, CREATE2_PAYLOAD_SIZE, HID_MAX_DESCRIPTOR_SIZE, NAME_SIZE,
    PHYS_SIZE, UNIQ_SIZE,
};

verus! {

/// Why an operation was rejected before any event bytes were produced.
#[derive(Clone, Copy, Debug, PartialEq, Eq, Structural)]
pub enum UhidError {
    /// `create` was called while a device is already registered.
    AlreadyCreated,
    /// The device name is longer than [`NAME_SIZE`] bytes; `len` is its
    /// actual length.
    InvalidName { len: usize },
    /// The report descriptor is longer than [`HID_MAX_DESCRIPTOR_SIZE`]
    /// bytes; `len` is its actual length.
    InvalidDescriptor { len: usize },
}

/// The Create2 payload that `create` builds: the name and the descriptor at
/// the start of their zero-filled buffers, `phys` and `uniq` left empty,
/// `version` and `country` fixed at zero.
pub open spec fn create2_request_model(
    vendor: u32,
    product: u32,
    name: Seq<u8>,
    rdesc: Seq<u8>,
    bus: u16,
) -> Create2ReqModel
    recommends
        name.len() <= NAME_SIZE,
        rdesc.len() <= HID_MAX_DESCRIPTOR_SIZE,
{
    Create2ReqModel {
        name: pad_zero(name, NAME_SIZE as nat),
        phys: zero_bytes(PHYS_SIZE as nat),
        uniq: zero_bytes(UNIQ_SIZE as nat),
        rd_size: rdesc.len() as u16,
        bus: bus,
        vendor: vendor,
        product: product,
        version: 0,
        country: 0,
        rd_data: pad_zero(rdesc, HID_MAX_DESCRIPTOR_SIZE as nat),
    }
}

/// The framed event that a successful `create` hands to the caller.
pub open spec fn create2_event_bytes(
    vendor: u32,
    product: u32,
    name: Seq<u8>,
    rdesc: Seq<u8>,
    bus: u16,
) -> Seq<u8> {
    event_bytes(
        EventType::Create2,
        Some(create2_request_model(vendor, product, name, rdesc, bus).encoded()),
    )
}

/// The framed event that `destroy` hands to the caller: the 4-byte
/// discriminant alone, no payload.
pub open spec fn destroy_event_bytes() -> Seq<u8> {
    event_bytes(EventType::Destroy, None)
}

/// One handle on the virtual-HID channel. At most one device is live per
/// handle: `create` registers it exactly once and rejects a second call
/// until `destroy` has cleared the registration.
pub struct Device {
    created: bool,
}

impl Device {
    /// Whether a device is currently registered through this handle.
    pub closed spec fn is_created(self) -> bool {
        self.created
    }

    /// A fresh handle with no device registered.
    pub fn new() -> (d: Device)
        ensures
            !d.is_created(),
    {
        Device { created: false }
    }

    /// Validates the name and the descriptor, marks the device registered
    /// and returns the framed Create2 event for the caller to write to the
    /// channel in one call. A rejected input changes nothing and yields no
    /// bytes.
    ///
    /// The lifecycle flag is set as soon as the event bytes exist, before
    /// the caller's write: a failed write leaves the handle believing a
    /// device is registered, and `destroy` — callable from any state —
    /// resolves that ambiguity.
    pub fn create(
        &mut self,
        vid: u32,
        pid: u32,
        name: &str,
        rdesc: &[u8],
        bus: Option<u16>,
    ) -> (r: Result<Vec<u8>, UhidError>)
        ensures
            r is Ok <==> !old(self).is_created() && name.spec_bytes().len() <= NAME_SIZE
                && rdesc@.len() <= HID_MAX_DESCRIPTOR_SIZE,
            old(self).is_created() ==> r == Err::<Vec<u8>, UhidError>(UhidError::AlreadyCreated)
                && *final(self) == *old(self),
            !old(self).is_created() && name.spec_bytes().len() > NAME_SIZE ==> r == Err::<
                Vec<u8>,
                UhidError,
            >((UhidError::InvalidName { len: name.spec_bytes().len() as usize }))
                && *final(self) == *old(self),
            !old(self).is_created() && name.spec_bytes().len() <= NAME_SIZE && rdesc@.len()
                > HID_MAX_DESCRIPTOR_SIZE ==> r == Err::<Vec<u8>, UhidError>(
                (UhidError::InvalidDescriptor { len: rdesc@.len() as usize }),
            ) && *final(self) == *old(self),
            r is Ok ==> final(self).is_created() && (r matches Ok(ev) && ev@
                == create2_event_bytes(vid, pid, name.spec_bytes(), rdesc@, (match bus {
                Some(b) => b,
                None => Bus::Usb.code(),
            })) && ev@.len() == 4 + CREATE2_PAYLOAD_SIZE),
    {
        if self.created {
            return Err(UhidError::AlreadyCreated);
        }
        let name_bytes: &[u8] = name.as_bytes();
        if name_bytes.len() > NAME_SIZE {
            return Err(UhidError::InvalidName { len: name_bytes.len() });
        }
        if rdesc.len() > HID_MAX_DESCRIPTOR_SIZE {
            return Err(UhidError::InvalidDescriptor { len: rdesc.len() });
        }
        self.created = true;

        let bus_code: u16 = match bus {
            Some(b) => b,
            None => Bus::Usb.wire_code(),
        };
        let req = Create2Req {
            name: zero_padded(name_bytes, NAME_SIZE),
            phys: zero_vec(PHYS_SIZE),
            uniq: zero_vec(UNIQ_SIZE),
            rd_size: rdesc.len() as u16,
            bus: bus_code,
            vendor: vid,
            product: pid,
            version: 0,
            country: 0,
            rd_data: zero_padded(rdesc, HID_MAX_DESCRIPTOR_SIZE),
        };
        assert(req@ =~= create2_request_model(
            vid,
            pid,
            name.spec_bytes(),
            rdesc@,
            bus_code,
        ));
        let payload = req.encode();
        Ok(encode_event(EventType::Create2, Some(payload)))
    }

    /// Unregisters the device — callable from any lifecycle state — and
    /// returns the framed Destroy event for the caller to write to the
    /// channel.
    pub fn destroy(&mut self) -> (r: Vec<u8>)
        ensures
            !final(self).is_created(),
            r@ == destroy_event_bytes(),
            r@.len() == 4,
    {
        self.created = false;
        encode_event(EventType::Destroy, None)
    }
}

} // verus!
