//! Error taxonomy of the driver.

use vstd::prelude::*;

verus! {

/// Everything that can go wrong while talking to the dongle.
#[derive(Clone, Copy, Debug, PartialEq, Eq, Structural)]
pub enum RtlError {
    /// A control transfer failed or timed out.
    Transport,
    /// No supported USB device was found.
    DeviceNotFound,
    /// No catalog tuner answered its check register with the expected value.
    TunerNotFound,
    /// The operation is an explicit, currently unfilled extension point.
    UnsupportedOperation,
    /// An argument was out of its documented range.
    InvalidArgument,
    /// A register write was followed by an unexpected status value.
    ProtocolMismatch,
}

impl RtlError {
    /// A short, fixed description of the error, for callers that report it.
    pub fn describe(&self) -> (r: &'static str)
        ensures
            *self is Transport ==> r@ == "control transfer failed"@,
            *self is DeviceNotFound ==> r@ == "no supported device found"@,
            *self is TunerNotFound ==> r@ == "no known tuner detected"@,
            *self is UnsupportedOperation ==> r@ == "operation not implemented"@,
            *self is InvalidArgument ==> r@ == "argument out of range"@,
            *self is ProtocolMismatch ==> r@ == "unexpected status after write"@,
    {
        match self {
            RtlError::Transport => "control transfer failed",
            RtlError::DeviceNotFound => "no supported device found",
            RtlError::TunerNotFound => "no known tuner detected",
            RtlError::UnsupportedOperation => "operation not implemented",
            RtlError::InvalidArgument => "argument out of range",
            RtlError::ProtocolMismatch => "unexpected status after write",
        }
    }
}

} // verus!
