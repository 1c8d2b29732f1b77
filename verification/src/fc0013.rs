//! The Fitipower FC0013 tuner driver: a recognized chip whose operations
//! are all explicit, currently unfilled extension points.  Each one fails
//! with `UnsupportedOperation` rather than silently doing nothing.

use vstd::prelude::*;

use crate::error::RtlError;
use crate::tuner::TunerId;
use crate::tuner::TunerInfo;
use crate::usb::RtlSdrDeviceHandle;

verus! {

/// The FC0013 driver: only the chip's descriptor, until its operations are
/// filled in.
pub struct FC0013 {
    /// The catalog descriptor of the chip.
    pub device: TunerInfo,
}

/// The descriptor of the FC0013 in the tuner catalog.
pub fn fc0013_tuner_info() -> (r: TunerInfo)
    ensures
        r == crate::tuner::catalog_spec()[1],
{
    let r = TunerInfo { id: TunerId::Fc0013, i2c_addr: 0xc6, check_addr: 0x00, check_val: 0xa3 };
    assert(r == crate::tuner::catalog_spec()[1]);
    r
}

impl FC0013 {
    /// A fresh driver holding the chip's descriptor.
    pub fn new() -> (t: FC0013)
        ensures
            t.device == crate::tuner::catalog_spec()[1],
    {
        FC0013 { device: fc0013_tuner_info() }
    }

    /// Bring-up: an explicit, currently unfilled extension point.
    pub fn init(&mut self, _handle: &mut RtlSdrDeviceHandle) -> (r: Result<(), RtlError>)
        ensures
            r == Err::<(), RtlError>(RtlError::UnsupportedOperation),
            *final(self) == *old(self),
            *final(_handle) == *old(_handle),
    {
        Err(RtlError::UnsupportedOperation)
    }

    /// Shutdown: an explicit, currently unfilled extension point.
    pub fn exit(&mut self) -> (r: Result<(), RtlError>)
        ensures
            r == Err::<(), RtlError>(RtlError::UnsupportedOperation),
            *final(self) == *old(self),
    {
        Err(RtlError::UnsupportedOperation)
    }

    /// Tuning: an explicit, currently unfilled extension point.
    pub fn set_freq(&mut self, _freq: u32) -> (r: Result<(), RtlError>)
        ensures
            r == Err::<(), RtlError>(RtlError::UnsupportedOperation),
            *final(self) == *old(self),
    {
        Err(RtlError::UnsupportedOperation)
    }

    /// Bandwidth: an explicit, currently unfilled extension point.
    pub fn set_bandwidth(
        &mut self,
        _bw: u32,
        _rate: u32,
        _handle: &mut RtlSdrDeviceHandle,
    ) -> (r: Result<(), RtlError>)
        ensures
            r == Err::<(), RtlError>(RtlError::UnsupportedOperation),
            *final(self) == *old(self),
            *final(_handle) == *old(_handle),
    {
        Err(RtlError::UnsupportedOperation)
    }

    /// Gain: an explicit, currently unfilled extension point.
    pub fn set_gain(&mut self, _gain: u32) -> (r: Result<(), RtlError>)
        ensures
            r == Err::<(), RtlError>(RtlError::UnsupportedOperation),
            *final(self) == *old(self),
    {
        Err(RtlError::UnsupportedOperation)
    }

    /// IF gain: an explicit, currently unfilled extension point.
    pub fn set_if_gain(&mut self, _if_gain: u32) -> (r: Result<(), RtlError>)
        ensures
            r == Err::<(), RtlError>(RtlError::UnsupportedOperation),
            *final(self) == *old(self),
    {
        Err(RtlError::UnsupportedOperation)
    }

    /// Gain mode: an explicit, currently unfilled extension point.
    pub fn set_gain_mode(&mut self, _mode: bool) -> (r: Result<(), RtlError>)
        ensures
            r == Err::<(), RtlError>(RtlError::UnsupportedOperation),
            *final(self) == *old(self),
    {
        Err(RtlError::UnsupportedOperation)
    }

    /// The display name of the chip.
    pub fn display(&self) -> (r: &'static str)
        ensures
            r@ == "Fitipower FC0013"@,
    {
        "Fitipower FC0013"
    }
}

} // verus!
