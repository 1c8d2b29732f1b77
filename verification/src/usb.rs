//! The register-level protocol of the dongle: block-addressed register
//! writes, paged demodulator register access with its write-then-status-read
//! convention, and the emulated I2C bus used to reach the tuner chip.
//!
//! On the simulated transport every contract below is exact: it states the
//! precise transfer records that are appended to the device log and the
//! precise result of the call.

use vstd::prelude::*;

use crate::codec::block_in_index;
use crate::codec::block_out_index;
use crate::codec::demod_out_index;
use crate::codec::demod_value;
use crate::codec::encode_payload;
use crate::codec::payload_byte0;
use crate::codec::payload_byte1;
use crate::error::RtlError;
use crate::sim::SimDevice;
use crate::sim::demod_out_count;
use crate::sim::i2c_lookup;
use crate::sim::in_rec;
use crate::sim::is_demod_out;
use crate::sim::out_rec;
use crate::sim::sim_cfg_unchanged;
use crate::sim::sim_in_value;
use crate::sim::sim_out_state;
use crate::transport::Transport;

verus! {

/// Block id of the USB configuration space.
pub const BLOCK_USBB: u16 = 1;

/// Block id of the system control space.
pub const BLOCK_SYSB: u16 = 2;

/// Block id of the emulated I2C bridge.
pub const BLOCK_IICB: u8 = 6;

/// USB system control register.
pub const ADDR_USB_SYSCTL: u16 = 0x2000;

/// Bulk endpoint control register.
pub const ADDR_USB_EPA_CTL: u16 = 0x2148;

/// Bulk endpoint maximum packet size register.
pub const ADDR_USB_EPA_MAXPKT: u16 = 0x2158;

/// Demodulator power control register.
pub const ADDR_SYS_DEMOD_CTL: u16 = 0x3000;

/// Secondary demodulator power control register.
pub const ADDR_SYS_DEMOD_CTL_1: u16 = 0x300b;

/// The record of the fixed status probe that follows every demodulator
/// register write: a two-byte read of page 0x0a, address 0x01.
pub open spec fn status_probe_rec() -> crate::sim::XferRec {
    in_rec(demod_value(0x01), 0x0a, 2)
}

/// The record of a demodulator register write of `val` with width `len`.
pub open spec fn demod_out_rec(page: u8, addr: u16, val: u16, len: u8) -> crate::sim::XferRec {
    out_rec(
        demod_value(addr),
        demod_out_index(page),
        seq![payload_byte0(val, len), payload_byte1(val)],
    )
}

/// What a demodulator register write returns on the simulated device:
/// the status value, unless either the write or the probe fails.
pub open spec fn demod_write_result(pre: SimDevice) -> Result<u16, RtlError> {
    if pre.fail_out || pre.fail_in {
        Err(RtlError::Transport)
    } else {
        Ok(pre.status)
    }
}

/// How a demodulator register write changes the simulated device: exactly
/// one physical register write reaches the device, followed by the status
/// probe, whatever either returns.
pub open spec fn demod_write_state(
    pre: SimDevice,
    post: SimDevice,
    page: u8,
    addr: u16,
    val: u16,
    len: u8,
) -> bool {
    &&& post.log@ == pre.log@.push(demod_out_rec(page, addr, val, len)).push(status_probe_rec())
    &&& sim_cfg_unchanged(pre, post)
    &&& post.i2c_ptr == pre.i2c_ptr
    &&& demod_out_count(post.log@) == demod_out_count(pre.log@) + 1
}

/// What reading one tuner register over the emulated I2C bus returns on the
/// simulated device: the write phase fails when OUT transfers fail, and the
/// read phase fails independently when IN transfers fail or the register is
/// not answered.
pub open spec fn i2c_read_result(pre: SimDevice, i2c_addr: u8, reg: u8) -> Result<u8, RtlError> {
    if pre.fail_out || pre.fail_in {
        Err(RtlError::Transport)
    } else {
        match i2c_lookup(pre.i2c_regs@, i2c_addr, reg) {
            Some(v) => Ok(v),
            None => Err(RtlError::Transport),
        }
    }
}

/// A device session: the control-transfer channel together with the
/// register-level operations of the dongle.
pub struct RtlSdrDeviceHandle {
    /// The control-transfer channel.
    pub t: Transport,
}

impl RtlSdrDeviceHandle {
    /// Whether the session runs over the simulated dongle.
    pub open spec fn is_sim(&self) -> bool {
        self.t.is_sim()
    }

    /// The simulated dongle behind the session.
    pub open spec fn sim(&self) -> SimDevice {
        self.t.sim()
    }

    /// Wraps a transport in a device session.
    pub fn new(t: Transport) -> (h: RtlSdrDeviceHandle)
        ensures
            h.t == t,
    {
        RtlSdrDeviceHandle { t }
    }

    /// Writes a register in block `block`: a vendor OUT request whose value
    /// is the register address, whose index carries the block id, and whose
    /// two payload bytes are packed by the codec rule.  Returns the number
    /// of bytes transferred, or zero on failure.
    pub fn write_reg(&mut self, block: u16, addr: u16, val: u16, len: u8) -> (n: usize)
        requires
            len == 1 || len == 2,
        ensures
            final(self).is_sim() == old(self).is_sim(),
            old(self).is_sim() ==> sim_out_state(
                old(self).sim(),
                final(self).sim(),
                addr,
                block_out_index(block),
                seq![payload_byte0(val, len), payload_byte1(val)],
            ),
            old(self).is_sim() ==> n == if old(self).sim().fail_out {
                0int
            } else {
                2int
            },
            n <= 2,
    {
        let (b0, b1) = encode_payload(val, len);
        let mut d: Vec<u8> = Vec::new();
        d.push(b0);
        d.push(b1);
        assert(d@ =~= seq![payload_byte0(val, len), payload_byte1(val)]);
        match self.t.control_out(addr, (block << 8) | 0x10, d.as_slice()) {
            Ok(n) => n,
            Err(_) => 0,
        }
    }

    /// Reads a demodulator register: a vendor IN request of two bytes whose
    /// value combines the register address with the demodulator tag and
    /// whose index is the page.  The result is the big-endian recombination
    /// of the returned buffer, which is only read once the completed
    /// transfer has populated it.
    pub fn demod_read_reg(&mut self, page: u8, addr: u16) -> (r: Result<u16, RtlError>)
        ensures
            final(self).is_sim() == old(self).is_sim(),
            old(self).is_sim() ==> crate::sim::sim_in_state(
                old(self).sim(),
                final(self).sim(),
                demod_value(addr),
                page as u16,
                2,
            ),
            old(self).is_sim() ==> r == if old(self).sim().fail_in {
                Err::<u16, RtlError>(RtlError::Transport)
            } else {
                Ok::<u16, RtlError>(old(self).sim().status)
            },
    {
        proof {
            assert((page as u16) >> 8 != 6) by (bit_vector);
        }
        match self.t.control_in((addr << 8) | 0x20, page as u16, 2) {
            Ok(d) => {
                let reg: u16 = ((d[0] as u16) << 8) | (d[1] as u16);
                proof {
                    if old(self).is_sim() && !old(self).sim().fail_in {
                        let st = old(self).sim().status;
                        assert(((((st >> 8) as u8) as u16) << 8) | (((st & 0xff) as u8) as u16)
                            == st) by (bit_vector);
                    }
                }
                Ok(reg)
            },
            Err(e) => Err(e),
        }
    }

    /// Writes a demodulator register and immediately performs the fixed
    /// status probe, returning the probed status value, never the echoed
    /// write.  Exactly one physical register write reaches the device per
    /// call.
    pub fn demod_write_reg(&mut self, page: u8, addr: u16, val: u16, len: u8) -> (r: Result<
        u16,
        RtlError,
    >)
        requires
            len == 1 || len == 2,
        ensures
            final(self).is_sim() == old(self).is_sim(),
            old(self).is_sim() ==> demod_write_state(
                old(self).sim(),
                final(self).sim(),
                page,
                addr,
                val,
                len,
            ),
            old(self).is_sim() ==> r == demod_write_result(old(self).sim()),
    {
        let (b0, b1) = encode_payload(val, len);
        let mut d: Vec<u8> = Vec::new();
        d.push(b0);
        d.push(b1);
        assert(d@ =~= seq![payload_byte0(val, len), payload_byte1(val)]);
        proof {
            assert((0x10u16 | page as u16) >> 8 != 6) by (bit_vector);
        }
        let w = self.t.control_out((addr << 8) | 0x20, 0x10 | (page as u16), d.as_slice());
        let s = self.demod_read_reg(0x0a, 0x01);
        proof {
            if old(self).is_sim() {
                let l0 = old(self).sim().log@;
                let l2 = self.sim().log@;
                let o = demod_out_rec(page, addr, val, len);
                let i = status_probe_rec();
                assert((0x10u16 | (page as u16)) < 256) by (bit_vector);
                assert(is_demod_out(o));
                assert(!is_demod_out(i));
                assert(l2 == l0.push(o).push(i));
                assert(l2.drop_last() =~= l0.push(o));
                assert(l2.last() == i);
                assert(l0.push(o).drop_last() =~= l0);
                assert(l0.push(o).last() == o);
                assert(demod_out_count(l0.push(o)) == demod_out_count(l0) + 1);
                assert(demod_out_count(l2) == demod_out_count(l0) + 1);
            }
        }
        match (w, s) {
            (Ok(_), Ok(v)) => Ok(v),
            _ => Err(RtlError::Transport),
        }
    }

    /// Writes a demodulator register and checks the probed status against
    /// the expected value, making an unexpected status after a write a
    /// reportable condition.
    pub fn demod_write_reg_checked(
        &mut self,
        page: u8,
        addr: u16,
        val: u16,
        len: u8,
        expected: u16,
    ) -> (r: Result<(), RtlError>)
        requires
            len == 1 || len == 2,
        ensures
            final(self).is_sim() == old(self).is_sim(),
            old(self).is_sim() ==> demod_write_state(
                old(self).sim(),
                final(self).sim(),
                page,
                addr,
                val,
                len,
            ),
            old(self).is_sim() ==> r == (if old(self).sim().fail_out || old(self).sim().fail_in {
                Err::<(), RtlError>(RtlError::Transport)
            } else if old(self).sim().status == expected {
                Ok::<(), RtlError>(())
            } else {
                Err::<(), RtlError>(RtlError::ProtocolMismatch)
            }),
    {
        match self.demod_write_reg(page, addr, val, len) {
            Ok(st) => {
                if st == expected {
                    Ok(())
                } else {
                    Err(RtlError::ProtocolMismatch)
                }
            },
            Err(e) => Err(e),
        }
    }

    /// Writes an array of bytes to a register in block `block`.
    pub fn write_array(&mut self, block: u8, addr: u16, arr: &[u8]) -> (r: Result<usize, RtlError>)
        requires
            1 <= arr@.len() <= 255,
        ensures
            final(self).is_sim() == old(self).is_sim(),
            old(self).is_sim() ==> sim_out_state(
                old(self).sim(),
                final(self).sim(),
                addr,
                block_out_index(block as u16),
                arr@,
            ),
            old(self).is_sim() ==> r == if old(self).sim().fail_out {
                Err::<usize, RtlError>(RtlError::Transport)
            } else {
                Ok::<usize, RtlError>(arr@.len() as usize)
            },
    {
        self.t.control_out(addr, ((block as u16) << 8) | 0x10, arr)
    }

    /// Reads `len` bytes from a register in block `block`.
    pub fn read_array(&mut self, block: u8, addr: u16, len: u8) -> (r: Result<Vec<u8>, RtlError>)
        requires
            1 <= len,
        ensures
            final(self).is_sim() == old(self).is_sim(),
            old(self).is_sim() ==> crate::sim::sim_in_state(
                old(self).sim(),
                final(self).sim(),
                addr,
                block_in_index(block as u16),
                len,
            ),
            old(self).is_sim() ==> (r is Ok <==> sim_in_value(
                old(self).sim(),
                addr,
                block_in_index(block as u16),
                len,
            ) is Some),
            old(self).is_sim() ==> (r matches Ok(d) ==> Some(d@) == sim_in_value(
                old(self).sim(),
                addr,
                block_in_index(block as u16),
                len,
            )),
            old(self).is_sim() ==> (r matches Err(e) ==> e == RtlError::Transport),
            r matches Ok(d) ==> d@.len() == len as nat,
    {
        self.t.control_in(addr, (block as u16) << 8, len)
    }

    /// Writes `buf` to the device at `i2c_addr` on the emulated I2C bus.
    pub fn i2c_write(&mut self, i2c_addr: u8, buf: &[u8]) -> (r: Result<usize, RtlError>)
        requires
            1 <= buf@.len() <= 255,
        ensures
            final(self).is_sim() == old(self).is_sim(),
            old(self).is_sim() ==> sim_out_state(
                old(self).sim(),
                final(self).sim(),
                i2c_addr as u16,
                block_out_index(BLOCK_IICB as u16),
                buf@,
            ),
            old(self).is_sim() ==> r == if old(self).sim().fail_out {
                Err::<usize, RtlError>(RtlError::Transport)
            } else {
                Ok::<usize, RtlError>(buf@.len() as usize)
            },
    {
        self.write_array(BLOCK_IICB, i2c_addr as u16, buf)
    }

    /// Reads `len` bytes from the device at `i2c_addr` on the emulated I2C
    /// bus.
    pub fn i2c_read(&mut self, i2c_addr: u8, len: u8) -> (r: Result<Vec<u8>, RtlError>)
        requires
            1 <= len,
        ensures
            final(self).is_sim() == old(self).is_sim(),
            old(self).is_sim() ==> crate::sim::sim_in_state(
                old(self).sim(),
                final(self).sim(),
                i2c_addr as u16,
                block_in_index(BLOCK_IICB as u16),
                len,
            ),
            old(self).is_sim() ==> (r is Ok <==> sim_in_value(
                old(self).sim(),
                i2c_addr as u16,
                block_in_index(BLOCK_IICB as u16),
                len,
            ) is Some),
            old(self).is_sim() ==> (r matches Ok(d) ==> Some(d@) == sim_in_value(
                old(self).sim(),
                i2c_addr as u16,
                block_in_index(BLOCK_IICB as u16),
                len,
            )),
            old(self).is_sim() ==> (r matches Err(e) ==> e == RtlError::Transport),
            r matches Ok(d) ==> d@.len() == len as nat,
    {
        self.read_array(BLOCK_IICB, i2c_addr as u16, len)
    }

    /// Writes one tuner register over the emulated I2C bus: a single
    /// two-byte array write of `[reg, val]` addressed to `i2c_addr`.
    pub fn i2c_write_reg(&mut self, i2c_addr: u8, reg: u8, val: u8) -> (r: Result<usize, RtlError>)
        ensures
            final(self).is_sim() == old(self).is_sim(),
            old(self).is_sim() ==> sim_out_state(
                old(self).sim(),
                final(self).sim(),
                i2c_addr as u16,
                block_out_index(BLOCK_IICB as u16),
                seq![reg, val],
            ),
            old(self).is_sim() ==> r == if old(self).sim().fail_out {
                Err::<usize, RtlError>(RtlError::Transport)
            } else {
                Ok::<usize, RtlError>(2)
            },
    {
        let mut d: Vec<u8> = Vec::new();
        d.push(reg);
        d.push(val);
        assert(d@ =~= seq![reg, val]);
        self.i2c_write(i2c_addr, d.as_slice())
    }

    /// Reads one tuner register over the emulated I2C bus: writes the
    /// register number to `i2c_addr`, then reads one byte back from the
    /// same address.  Either phase failing surfaces as a read failure;
    /// a stale buffer value is never returned.
    pub fn i2c_read_reg(&mut self, i2c_addr: u8, reg: u8) -> (r: Result<u8, RtlError>)
        ensures
            final(self).is_sim() == old(self).is_sim(),
            old(self).is_sim() ==> r == i2c_read_result(old(self).sim(), i2c_addr, reg),
            old(self).is_sim() ==> ({
                let pre = old(self).sim();
                let post = final(self).sim();
                let wrec = out_rec(i2c_addr as u16, block_out_index(BLOCK_IICB as u16), seq![reg]);
                &&& post.log@ == if pre.fail_out {
                    pre.log@.push(wrec)
                } else {
                    pre.log@.push(wrec).push(
                        in_rec(i2c_addr as u16, block_in_index(BLOCK_IICB as u16), 1),
                    )
                }
                &&& sim_cfg_unchanged(pre, post)
                &&& post.i2c_ptr == if pre.fail_out {
                    pre.i2c_ptr
                } else {
                    Some((i2c_addr, reg))
                }
            }),
    {
        proof {
            assert(((6u16 << 8) | 0x10) >> 8 == 6) by (bit_vector);
            assert((6u16 << 8) >> 8 == 6) by (bit_vector);
            assert((i2c_addr as u16) as u8 == i2c_addr) by (bit_vector);
        }
        let mut rv: Vec<u8> = Vec::new();
        rv.push(reg);
        assert(rv@ =~= seq![reg]);
        match self.write_array(BLOCK_IICB, i2c_addr as u16, rv.as_slice()) {
            Ok(_) => {
                match self.read_array(BLOCK_IICB, i2c_addr as u16, 1) {
                    Ok(d) => Ok(d[0]),
                    Err(e) => Err(e),
                }
            },
            Err(e) => Err(e),
        }
    }

    /// Switches the demodulator's I2C repeater, which must be enabled
    /// before any tuner I2C traffic.  This is global device state: the
    /// session layer tracks the current mode.
    pub fn set_i2c_repeater(&mut self, on: bool) -> (r: Result<u16, RtlError>)
        ensures
            final(self).is_sim() == old(self).is_sim(),
            old(self).is_sim() ==> demod_write_state(
                old(self).sim(),
                final(self).sim(),
                1,
                0x01,
                if on {
                    0x18
                } else {
                    0x10
                },
                1,
            ),
            old(self).is_sim() ==> r == demod_write_result(old(self).sim()),
    {
        let val: u16 = if on {
            0x18
        } else {
            0x10
        };
        self.demod_write_reg(1, 0x01, val, 1)
    }

    /// The smoke-test register write issued right after the interface is
    /// claimed; a zero result means the control channel is not answering.
    pub fn test_write(&mut self) -> (n: usize)
        ensures
            final(self).is_sim() == old(self).is_sim(),
            old(self).is_sim() ==> sim_out_state(
                old(self).sim(),
                final(self).sim(),
                ADDR_USB_SYSCTL,
                block_out_index(BLOCK_USBB),
                seq![payload_byte0(0x09, 1), payload_byte1(0x09)],
            ),
            old(self).is_sim() ==> n == if old(self).sim().fail_out {
                0int
            } else {
                2int
            },
            n <= 2,
    {
        self.write_reg(BLOCK_USBB, ADDR_USB_SYSCTL, 0x09, 1)
    }
}

} // verus!
