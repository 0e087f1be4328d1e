use vstd::prelude::*;

verus! {

/// Type of a control request, as encoded in bits 5..6 of `bmRequestType`.
#[derive(Debug, PartialEq, Eq, Clone, Copy, Structural)]
pub enum RequestType {
    /// A request defined by the USB standard.
    Standard,
    /// A request defined by a USB class.
    Class,
    /// A vendor-specific request.
    Vendor,
    /// Reserved.
    Reserved,
}

/// Recipient of a control request, as encoded in bits 0..4 of `bmRequestType`.
#[derive(Debug, PartialEq, Eq, Clone, Copy, Structural)]
pub enum Recipient {
    /// The device as a whole.
    Device,
    /// An interface; `index` then holds the interface number.
    Interface,
    /// An endpoint; `index` then holds the endpoint address.
    Endpoint,
    /// None of the above.
    Other,
    /// Reserved.
    Reserved,
}

/// The setup packet of one control transfer, as the USB stack hands it over.
#[derive(Debug, PartialEq, Eq, Clone, Copy, Structural)]
pub struct ControlRequest {
    /// Type of the request.
    pub request_type: RequestType,
    /// Recipient of the request.
    pub recipient: Recipient,
    /// Request code (`bRequest`).
    pub request: u8,
    /// Request value (`wValue`).
    pub value: u16,
    /// Request index (`wIndex`).
    pub index: u16,
    /// Length of the data stage (`wLength`).
    pub length: u16,
}

} // verus!
