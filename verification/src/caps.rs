//! Capability model: pure parsing of the capability byte block a device
//! returns to GET_CAPABILITIES.
//!
//! The base USBTMC flags sit at fixed offsets 4 (interface capabilities) and
//! 5 (device capabilities); the USB488 flags, read only when the interface
//! protocol indicates USB488, sit at offsets 14 and 15 of the same block.

use vstd::prelude::*;

use crate::errors::ClassError;

verus! {

/// Whether bit `bit` (a power of two) is set in `b`.
pub open spec fn spec_bit_set(b: u8, bit: u8) -> bool {
    b & bit != 0
}

/// Base USBTMC capability flags.
#[derive(Clone, Copy, Debug, PartialEq, Eq, Structural)]
pub struct USBTMCCapabilities {
    /// The device supports a terminator character on read.
    pub term_char: bool,
    /// The device supports the indicator pulse request.
    pub pulse: bool,
    pub talk_only: bool,
    pub listen_only: bool,
}

/// USB488 capability flags, present only on USB488 interfaces.
#[derive(Clone, Copy, Debug, PartialEq, Eq, Structural)]
pub struct USB488Capabilities {
    /// The device claims SCPI compliance.
    pub scpi: bool,
    pub talk_only: bool,
    pub listen_only: bool,
    /// The device accepts the trigger request.
    pub trigger: bool,
}

/// The base flags held by a capability block of at least 6 bytes.
pub open spec fn spec_usbtmc_caps(block: Seq<u8>) -> USBTMCCapabilities {
    USBTMCCapabilities {
        term_char: spec_bit_set(block[5], 1),
        pulse: spec_bit_set(block[4], 4),
        talk_only: spec_bit_set(block[4], 2),
        listen_only: spec_bit_set(block[4], 1),
    }
}

/// The USB488 flags held by a capability block of at least 16 bytes.
pub open spec fn spec_usb488_caps(block: Seq<u8>) -> USB488Capabilities {
    USB488Capabilities {
        scpi: spec_bit_set(block[15], 8),
        talk_only: spec_bit_set(block[14], 2),
        listen_only: spec_bit_set(block[14], 1),
        trigger: spec_bit_set(block[14], 4),
    }
}

impl USBTMCCapabilities {
    /// The empty capability set a session starts with, before discovery.
    pub fn new() -> (r: USBTMCCapabilities)
        ensures
            r == (USBTMCCapabilities {
                term_char: false,
                pulse: false,
                talk_only: false,
                listen_only: false,
            }),
    {
        USBTMCCapabilities { term_char: false, pulse: false, talk_only: false, listen_only: false }
    }

    /// Extracts the base flags from a capability block; a block shorter than
    /// the fields being read is invalid.
    pub fn parse(block: &[u8]) -> (r: Result<USBTMCCapabilities, ClassError>)
        ensures
            block@.len() < 6 ==> r == Err::<USBTMCCapabilities, ClassError>(
                ClassError::InvalidCapabilities,
            ),
            block@.len() >= 6 ==> r == Ok::<USBTMCCapabilities, ClassError>(
                spec_usbtmc_caps(block@),
            ),
    {
        if block.len() < 6 {
            return Err(ClassError::InvalidCapabilities);
        }
        Ok(
            USBTMCCapabilities {
                term_char: block[5] & 1 != 0,
                pulse: block[4] & 4 != 0,
                talk_only: block[4] & 2 != 0,
                listen_only: block[4] & 1 != 0,
            },
        )
    }
}

impl USB488Capabilities {
    /// Extracts the USB488 flags from a capability block; a block shorter
    /// than the fields being read is invalid.
    pub fn parse(block: &[u8]) -> (r: Result<USB488Capabilities, ClassError>)
        ensures
            block@.len() < 16 ==> r == Err::<USB488Capabilities, ClassError>(
                ClassError::InvalidCapabilities,
            ),
            block@.len() >= 16 ==> r == Ok::<USB488Capabilities, ClassError>(
                spec_usb488_caps(block@),
            ),
    {
        if block.len() < 16 {
            return Err(ClassError::InvalidCapabilities);
        }
        Ok(
            USB488Capabilities {
                scpi: block[15] & 8 != 0,
                talk_only: block[14] & 2 != 0,
                listen_only: block[14] & 1 != 0,
                trigger: block[14] & 4 != 0,
            },
        )
    }
}

} // verus!
