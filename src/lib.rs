//! Host-side control of a USB headset accessory: wire-format encoding of its
//! command packets, decoding of its telemetry, and the decision logic of the
//! interface claim/release lifecycle. Performing the USB transfers is left to
//! the caller, which feeds the outcomes back into the state machines here.

pub mod hex;
pub mod command;
pub mod voltage;
pub mod session;
