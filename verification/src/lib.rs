//! A safety layer over a CoAP transport engine: it marshals socket addresses
//! into the engine's tagged wire representation, tracks the lifecycle of the
//! engine's context and session resources, and builds message PDUs, so that
//! host code can drive the engine without touching raw handles.
//!
//! The engine itself (socket handling, retransmission, DTLS) is a native
//! library reached over a foreign-function boundary; this crate holds every
//! decision that can be checked — address encoding, resolution choice,
//! creation and release bookkeeping, option accumulation — while the caller
//! performs the native calls and reports their outcomes back.
use vstd::prelude::*;

pub mod addr;
pub mod net;
pub mod pdu;

verus! {

/// Package name that the targeted engine release reports about itself.
///
/// The numeric tags and structure sizes this layer emits (transport-mode
/// tags, message-type tags, wire address sizes) are those of this engine.
pub fn engine_package_name() -> (r: &'static str)
    ensures
        r@ == "libcoap"@,
{
    "libcoap"
}

/// Version that the targeted engine release reports about itself.
pub fn engine_package_version() -> (r: &'static str)
    ensures
        r@ == "4.3.0"@,
{
    "4.3.0"
}

} // verus!
