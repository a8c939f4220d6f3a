//! User-space emulation of a Human Interface Device over the kernel's UHID
//! character-device protocol.
//!
//! The kernel's virtual-HID channel carries a tagged binary event stream:
//! each event is a 4-byte discriminant followed by a fixed-layout payload
//! specific to the event type. This crate provides the byte-exact encoding
//! of that stream ([`codec`], [`request`]) and the create/destroy lifecycle
//! of a virtual device ([`device`]). Opening the channel and writing the
//! framed bytes to it is left to the caller, so every rule of the protocol
//! itself is stated and proved here.

pub mod codec;
pub mod device;
pub mod request;
