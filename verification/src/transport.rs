//! The control-transfer channel the whole driver runs over: either a real
//! USB device or the simulated dongle.
//!
//! Every protocol operation is phrased against this closed pair of
//! transports.  On the simulated device the contracts below are exact; on
//! the USB device they promise only what holds of every outcome of a real
//! transfer, and the layers above are verified to handle every such outcome.

use vstd::prelude::*;

use crate::error::RtlError;
use crate::sim::SimDevice;
use crate::sim::sim_in_state;
use crate::sim::sim_in_value;
use crate::sim::sim_out_state;
use crate::usb_io::UsbSession;

verus! {

/// A control-transfer channel to a dongle.
pub enum Transport {
    /// The in-memory simulated dongle.
    Sim { dev: SimDevice },
    /// An opened USB device.
    Usb { usb: UsbSession },
}

impl Transport {
    /// Whether this channel leads to the simulated dongle.
    pub open spec fn is_sim(&self) -> bool {
        self is Sim
    }

    /// The simulated dongle behind the channel.
    pub open spec fn sim(&self) -> SimDevice {
        self->dev
    }

    /// Sends a vendor OUT request.
    pub fn control_out(&mut self, value: u16, index: u16, data: &[u8]) -> (r: Result<
        usize,
        RtlError,
    >)
        requires
            1 <= data@.len() <= 255,
        ensures
            final(self).is_sim() == old(self).is_sim(),
            old(self).is_sim() ==> sim_out_state(
                old(self).sim(),
                final(self).sim(),
                value,
                index,
                data@,
            ),
            old(self).is_sim() ==> r == if old(self).sim().fail_out {
                Err::<usize, RtlError>(RtlError::Transport)
            } else {
                Ok::<usize, RtlError>(data@.len() as usize)
            },
            r matches Ok(n) ==> n <= data@.len(),
    {
        match self {
            Transport::Sim { dev } => dev.control_out(value, index, data),
            Transport::Usb { usb } => usb.control_out(value, index, data),
        }
    }

    /// Sends a vendor IN request and returns the bytes it read.
    pub fn control_in(&mut self, value: u16, index: u16, len: u8) -> (r: Result<Vec<u8>, RtlError>)
        requires
            1 <= len,
        ensures
            final(self).is_sim() == old(self).is_sim(),
            old(self).is_sim() ==> sim_in_state(
                old(self).sim(),
                final(self).sim(),
                value,
                index,
                len,
            ),
            old(self).is_sim() ==> (r is Ok <==> sim_in_value(
                old(self).sim(),
                value,
                index,
                len,
            ) is Some),
            old(self).is_sim() ==> (r matches Ok(d) ==> Some(d@) == sim_in_value(
                old(self).sim(),
                value,
                index,
                len,
            )),
            old(self).is_sim() ==> (r matches Err(e) ==> e == RtlError::Transport),
            r matches Ok(d) ==> d@.len() == len as nat,
    {
        match self {
            Transport::Sim { dev } => {
                let r = dev.control_in(value, index, len);
                proof {
                    if r is Ok {
                        assert(sim_in_value(old(self).sim(), value, index, len) matches Some(b)
                            ==> b.len() == len as nat);
                    }
                }
                r
            },
            Transport::Usb { usb } => usb.control_in(value, index, len),
        }
    }

    /// Releases the channel: on a USB device, reattaches the kernel driver
    /// if one was detached at open time; on the simulated dongle, nothing.
    pub fn release(&mut self)
        ensures
            final(self).is_sim() == old(self).is_sim(),
            old(self).is_sim() ==> final(self).sim() == old(self).sim(),
    {
        match self {
            Transport::Sim { dev: _ } => {},
            Transport::Usb { usb } => usb.attach_kernel_driver(),
        }
    }
}

} // verus!
