//! Status codes returned by USBTMC class-specific control requests.

use vstd::prelude::*;

use crate::errors::ClassError;

verus! {

/// A device status code carried in the first byte of a control-request
/// response.  The known codes of the class specification get a variant of
/// their own; any other byte is kept in `Unexpected` so that diagnostics
/// never lose the raw observed code.
#[derive(Clone, Copy, Debug, PartialEq, Eq, Structural)]
pub enum Status {
    Success,
    Pending,
    Failed,
    TransferNotInProgress,
    SplitNotInProgress,
    SplitInProgress,
    Unexpected(u8),
}

/// The status code a byte stands for.
pub open spec fn spec_status_of(b: u8) -> Status {
    if b == 1 {
        Status::Success
    } else if b == 2 {
        Status::Pending
    } else if b == 0x80 {
        Status::Failed
    } else if b == 0x81 {
        Status::TransferNotInProgress
    } else if b == 0x82 {
        Status::SplitNotInProgress
    } else if b == 0x83 {
        Status::SplitInProgress
    } else {
        Status::Unexpected(b)
    }
}

impl Status {
    /// Decodes one status byte.
    pub fn from_byte(b: u8) -> (r: Status)
        ensures
            r == spec_status_of(b),
    {
        if b == 1 {
            Status::Success
        } else if b == 2 {
            Status::Pending
        } else if b == 0x80 {
            Status::Failed
        } else if b == 0x81 {
            Status::TransferNotInProgress
        } else if b == 0x82 {
            Status::SplitNotInProgress
        } else if b == 0x83 {
            Status::SplitInProgress
        } else {
            Status::Unexpected(b)
        }
    }

    /// Requires this status to be success; any other code is surfaced as an
    /// unexpected status carrying the observed code.
    pub fn check(self) -> (r: Result<(), ClassError>)
        ensures
            self == Status::Success ==> r == Ok::<(), ClassError>(()),
            self != Status::Success ==> r == Err::<(), ClassError>(
                ClassError::UnexpectedStatus(self),
            ),
    {
        match self {
            Status::Success => Ok(()),
            s => Err(ClassError::UnexpectedStatus(s)),
        }
    }
}

} // verus!
