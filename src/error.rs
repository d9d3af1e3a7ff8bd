//! Errors of the packet model.
use vstd::prelude::*;

verus! {

/// Errors met while decoding or translating packets.
#[derive(PartialEq, Eq, Structural, Debug, Clone, Copy)]
pub enum DecodeError {
    /// The radio reported a failed or missing CRC.
    InvalidCrc,
    /// A data rate that the other side cannot express.
    InvalidDataRate,
    /// A downlink without a first receive window.
    NoRx1Window,
    /// A payload that is not a proprietary (beacon) frame.
    NotBeacon,
    /// A payload too short to hold a MAC header.
    EmptyPayload,
    /// A payload longer than a LoRa frame can carry.
    PayloadTooLong,
}

} // verus!
