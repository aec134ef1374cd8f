//! Client-side implementation of the USBTMC (USB Test & Measurement Class)
//! wire protocol: message framing, sequence-tag discipline, capability
//! discovery, control-request handshakes, and the high-level read/write/ask
//! operations of an instrument session.

pub mod caps;
pub mod codec;
pub mod control;
pub mod errors;
pub mod session;
pub mod status;
pub mod usb;
