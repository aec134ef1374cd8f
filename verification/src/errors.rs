//! Error taxonomy: transport failures from the USB layer, protocol failures
//! of the USBTMC class layer, and text-decoding failures.

use vstd::prelude::*;

use crate::status::Status;

verus! {

/// A failure reported by the underlying USB transport.  The variants mirror
/// the conditions the transport distinguishes, so that a caller can react to
/// a specific cause (a missing descriptor, a timeout) without this library
/// interpreting it further.
#[derive(Clone, Copy, Debug, PartialEq, Eq, Structural)]
pub enum TransportError {
    Io,
    InvalidParam,
    Access,
    NoDevice,
    NotFound,
    Busy,
    Timeout,
    Overflow,
    Pipe,
    Interrupted,
    NoMem,
    NotSupported,
    BadDescriptor,
    Other,
}

/// A failure in the handling of a USBTMC class operation.
#[derive(Clone, Copy, Debug, PartialEq, Eq, Structural)]
pub enum ClassError {
    /// A status byte that no control request may legally return.
    IllegalStatus,
    /// The capability block is too short for the fields being read.
    InvalidCapabilities,
    /// A bulk-in frame carries a message ID other than the expected one.
    InvalidMsgId,
    /// The zero byte is reserved and cannot be used as a terminator.
    InvalidTermChar,
    /// A frame's tag and tag-complement are inconsistent.
    TagCheckFailure,
    /// The transport wrote fewer bytes than the chunk holds.
    TruncatedBulkOut,
    /// A response ended before its declared contents.
    TruncatedControlResponse,
    /// A bulk-in frame is shorter than the fixed header size.
    TruncatedHeader,
    /// A control request returned a terminal status other than success.
    UnexpectedStatus(Status),
    /// The feature is not advertised by the device's capability set.
    UnsupportedFeature,
}

/// Any failure a session operation can surface.
#[derive(Clone, Copy, Debug, PartialEq, Eq, Structural)]
pub enum TMCError {
    /// An error occurred in a generic USB operation.
    Rusb(TransportError),
    /// An error occurred in the handling of a USBTMC class operation.
    Class(ClassError),
    /// A string response was requested but the data was not valid UTF-8.
    FromUtf8Error,
}

pub type TMCResult<T> = Result<T, TMCError>;

} // verus!
