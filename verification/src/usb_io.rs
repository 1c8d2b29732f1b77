//! The trusted edge to the real USB transport.
//!
//! Everything in this module that carries `#[verifier::external_body]` is a
//! thin wrapper around one `rusb` call; its contract states only what the
//! `rusb` documentation promises of every outcome.  Nothing here decides
//! anything: the protocol layer above is verified against these contracts
//! and handles every outcome a transfer can have.
//!
//! `rusb::DeviceHandle` is generic over a context trait, which keeps its
//! type from being declared to the verifier, so the opened handle lives in
//! the private field of [`UsbHandle`] and every access goes through one of
//! the wrappers below.

use vstd::prelude::*;

use crate::error::RtlError;

verus! {

/// The opened `rusb` device handle, opaque to the verifier.
#[verifier::external_body]
pub struct UsbHandle {
    dev: rusb::DeviceHandle<rusb::GlobalContext>,
}

/// Relies on rusb::open_device_with_vid_pid: returns a handle to an opened
/// device with the given vendor and product id, or `None` when no such
/// device is present or it cannot be opened.  The first call initializes
/// rusb's process-wide context, and rusb panics if that initialization
/// itself fails — an environmental condition, not reachable from any
/// argument.
#[verifier::external_body]
pub fn open_usb_device(vid: u16, pid: u16) -> (r: Option<UsbHandle>) {
    match rusb::open_device_with_vid_pid(vid, pid) {
        Some(dev) => Some(UsbHandle { dev }),
        None => None,
    }
}

/// Relies on rusb::DeviceHandle::write_control: on `Ok(n)`, `n` bytes of the
/// payload were transferred, never more than were passed.
#[verifier::external_body]
fn usb_write_control(
    h: &UsbHandle,
    request_type: u8,
    request: u8,
    value: u16,
    index: u16,
    data: &[u8],
    timeout_ms: u64,
) -> (r: Result<usize, RtlError>)
    requires
        data@.len() <= 0xffff,
    ensures
        r matches Ok(n) ==> n <= data@.len(),
{
    match h.dev.write_control(
        request_type,
        request,
        value,
        index,
        data,
        std::time::Duration::from_millis(timeout_ms),
    ) {
        Ok(n) => Ok(n),
        Err(_) => Err(RtlError::Transport),
    }
}

/// Relies on rusb::DeviceHandle::read_control: on `Ok(n)`, the first `n`
/// bytes of the buffer were filled by the completed transfer and `n` never
/// exceeds the buffer's length.  The wrapper returns the whole buffer
/// together with `n`; the caller decides whether a short read is usable.
#[verifier::external_body]
fn usb_read_control(
    h: &UsbHandle,
    request_type: u8,
    request: u8,
    value: u16,
    index: u16,
    len: u8,
    timeout_ms: u64,
) -> (r: Result<(Vec<u8>, usize), RtlError>)
    ensures
        r matches Ok(p) ==> p.0@.len() == len as nat && p.1 <= len as nat,
{
    let mut buf = vec![0u8; len as usize];
    match h.dev.read_control(
        request_type,
        request,
        value,
        index,
        &mut buf,
        std::time::Duration::from_millis(timeout_ms),
    ) {
        Ok(n) => Ok((buf, n)),
        Err(_) => Err(RtlError::Transport),
    }
}

/// Relies on rusb::DeviceHandle::kernel_driver_active: reports whether a
/// kernel driver currently claims the interface; an error reads as "no".
#[verifier::external_body]
fn usb_kernel_driver_active(h: &UsbHandle, iface: u8) -> (r: bool) {
    matches!(h.dev.kernel_driver_active(iface), Ok(true))
}

/// Relies on rusb::DeviceHandle::detach_kernel_driver: asks the kernel to
/// release the interface; reports whether the call succeeded.
#[verifier::external_body]
fn usb_detach_kernel_driver(h: &UsbHandle, iface: u8) -> (r: bool) {
    h.dev.detach_kernel_driver(iface).is_ok()
}

/// Relies on rusb::DeviceHandle::attach_kernel_driver: hands the interface
/// back to the kernel; reports whether the call succeeded.
#[verifier::external_body]
fn usb_attach_kernel_driver(h: &UsbHandle, iface: u8) -> (r: bool) {
    h.dev.attach_kernel_driver(iface).is_ok()
}

/// Relies on rusb::DeviceHandle::claim_interface: claims the interface for
/// this process; reports whether the call succeeded.
#[verifier::external_body]
fn usb_claim_interface(h: &UsbHandle, iface: u8) -> (r: bool) {
    h.dev.claim_interface(iface).is_ok()
}

/// Every control transfer is bounded by this timeout; exceeding it surfaces
/// as a transport error, never as a partial result.
pub const CTRL_TIMEOUT_MS: u64 = 300;

/// An opened USB device together with the interface the driver claims and
/// whether a kernel driver had to be detached from it.
pub struct UsbSession {
    /// The opened handle.
    pub handle: UsbHandle,
    /// The claimed interface.
    pub iface_id: u8,
    /// Whether a kernel driver was detached and must be reattached on close.
    pub kernel_driver_active: bool,
}

impl UsbSession {
    /// Wraps an opened handle and detaches a conflicting kernel driver if
    /// one is active, remembering that it was.
    pub fn new(handle: UsbHandle, iface_id: u8) -> (s: UsbSession)
        ensures
            s.iface_id == iface_id,
    {
        let mut s = UsbSession { handle, iface_id, kernel_driver_active: false };
        let _ = s.detach_kernel_driver();
        s
    }

    /// Detaches the kernel driver from the interface if one is active and
    /// remembers whether it was; the remembered flag is exactly what the
    /// probe reported, and is also returned.
    pub fn detach_kernel_driver(&mut self) -> (r: bool)
        ensures
            final(self).iface_id == old(self).iface_id,
            final(self).kernel_driver_active == r,
    {
        let active = usb_kernel_driver_active(&self.handle, self.iface_id);
        if active {
            usb_detach_kernel_driver(&self.handle, self.iface_id);
        }
        self.kernel_driver_active = active;
        active
    }

    /// Reattaches the kernel driver if it was detached at open time.
    pub fn attach_kernel_driver(&mut self)
        ensures
            final(self).iface_id == old(self).iface_id,
            !final(self).kernel_driver_active,
    {
        if self.kernel_driver_active {
            usb_attach_kernel_driver(&self.handle, self.iface_id);
            self.kernel_driver_active = false;
        }
    }

    /// Claims the interface; reports whether the claim succeeded.
    pub fn claim_interface(&mut self) -> (r: bool)
        ensures
            *final(self) == *old(self),
    {
        usb_claim_interface(&self.handle, self.iface_id)
    }

    /// Sends a vendor OUT request over the control channel.
    pub fn control_out(&mut self, value: u16, index: u16, data: &[u8]) -> (r: Result<
        usize,
        RtlError,
    >)
        requires
            1 <= data@.len() <= 255,
        ensures
            *final(self) == *old(self),
            r matches Ok(n) ==> n <= data@.len(),
    {
        usb_write_control(&self.handle, 0x40, 0, value, index, data, CTRL_TIMEOUT_MS)
    }

    /// Sends a vendor IN request over the control channel and returns the
    /// bytes it read.  A transfer that filled less than was requested is a
    /// transport error: a buffer is only used once a completed transfer has
    /// populated all of it.
    pub fn control_in(&mut self, value: u16, index: u16, len: u8) -> (r: Result<Vec<u8>, RtlError>)
        requires
            1 <= len,
        ensures
            *final(self) == *old(self),
            r matches Ok(d) ==> d@.len() == len as nat,
    {
        match usb_read_control(&self.handle, 0xc0, 0, value, index, len, CTRL_TIMEOUT_MS) {
            Ok((buf, n)) => {
                if n == len as usize {
                    Ok(buf)
                } else {
                    Err(RtlError::Transport)
                }
            },
            Err(e) => Err(e),
        }
    }
}

} // verus!
