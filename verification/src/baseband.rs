//! Baseband bring-up and tear-down, the streaming-FIFO flush, and
//! IF-frequency programming.
//!
//! Bring-up is best effort: the fixed sequence always runs to completion and
//! an individual write's failure does not abort later steps.  Tear-down is a
//! single register write and runs on every teardown path.

use vstd::prelude::*;

use crate::codec::block_out_index;
use crate::codec::payload_byte0;
use crate::codec::payload_byte1;
use crate::error::RtlError;
use crate::sim::SimDevice;
use crate::sim::XferRec;
use crate::sim::out_rec;
use crate::sim::sim_cfg_unchanged;
use crate::usb::ADDR_SYS_DEMOD_CTL;
use crate::usb::ADDR_SYS_DEMOD_CTL_1;
use crate::usb::ADDR_USB_EPA_CTL;
use crate::usb::ADDR_USB_EPA_MAXPKT;
use crate::usb::ADDR_USB_SYSCTL;
use crate::usb::BLOCK_SYSB;
use crate::usb::BLOCK_USBB;
use crate::usb::RtlSdrDeviceHandle;
use crate::usb::demod_out_rec;
use crate::usb::status_probe_rec;

verus! {

/// The crystal frequency of the dongle, in hertz.
pub const DEF_RTL_XTAL_FREQ: u32 = 28800000;

/// The record of a block register write of `val` with width `len`.
pub open spec fn block_write_rec(block: u16, addr: u16, val: u16, len: u8) -> XferRec {
    out_rec(addr, block_out_index(block), seq![payload_byte0(val, len), payload_byte1(val)])
}

/// The parts of the simulated device that a pure register-write sequence
/// leaves alone: everything but the transfer log.
pub open spec fn sim_preserved(pre: SimDevice, post: SimDevice) -> bool {
    &&& sim_cfg_unchanged(pre, post)
    &&& post.i2c_ptr == pre.i2c_ptr
}

/// The transfers that open the bring-up sequence: USB bulk configuration,
/// power-on, soft reset, and spectrum-inversion and adjacent-channel
/// rejection off.
pub open spec fn baseband_head_recs() -> Seq<XferRec> {
    seq![
        block_write_rec(BLOCK_USBB, ADDR_USB_SYSCTL, 0x09, 1),
        block_write_rec(BLOCK_USBB, ADDR_USB_EPA_MAXPKT, 0x0002, 2),
        block_write_rec(BLOCK_USBB, ADDR_USB_EPA_CTL, 0x1002, 2),
        block_write_rec(BLOCK_SYSB, ADDR_SYS_DEMOD_CTL_1, 0x22, 1),
        block_write_rec(BLOCK_SYSB, ADDR_SYS_DEMOD_CTL, 0xe8, 1),
        demod_out_rec(1, 0x01, 0x14, 1),
        status_probe_rec(),
        demod_out_rec(1, 0x01, 0x10, 1),
        status_probe_rec(),
        demod_out_rec(1, 0x15, 0x00, 1),
        status_probe_rec(),
        demod_out_rec(1, 0x16, 0x0000, 2),
        status_probe_rec(),
    ]
}

/// The transfers that zero the six DDC/IF-frequency registers.
pub open spec fn baseband_ddc_recs() -> Seq<XferRec> {
    Seq::new(
        12,
        |k: int|
            if k % 2 == 0 {
                demod_out_rec(1, (0x16 + k / 2) as u16, 0x00, 1)
            } else {
                status_probe_rec()
            },
    )
}

/// The transfers that load the twenty FIR coefficients.
pub open spec fn baseband_fir_recs() -> Seq<XferRec> {
    Seq::new(
        40,
        |k: int|
            if k % 2 == 0 {
                demod_out_rec(1, (0x1c + k / 2) as u16, fir_spec()[k / 2] as u16, 1)
            } else {
                status_probe_rec()
            },
    )
}

/// The transfers that close the bring-up sequence: SDR mode, the FSM
/// register, the AGC loops, the PID filter, the ADC datapath, zero-IF
/// mode, and the diagnostic clock pin.
pub open spec fn baseband_tail_recs() -> Seq<XferRec> {
    seq![
        demod_out_rec(0, 0x19, 0x05, 1),
        status_probe_rec(),
        demod_out_rec(1, 0x93, 0xf0, 1),
        status_probe_rec(),
        demod_out_rec(1, 0x94, 0x0f, 1),
        status_probe_rec(),
        demod_out_rec(1, 0x11, 0x00, 1),
        status_probe_rec(),
        demod_out_rec(1, 0x04, 0x00, 1),
        status_probe_rec(),
        demod_out_rec(0, 0x61, 0x60, 1),
        status_probe_rec(),
        demod_out_rec(0, 0x06, 0x80, 1),
        status_probe_rec(),
        demod_out_rec(1, 0xb1, 0x1b, 1),
        status_probe_rec(),
        demod_out_rec(0, 0x0d, 0x83, 1),
        status_probe_rec(),
    ]
}

/// Every transfer of the baseband bring-up sequence, in order.
pub open spec fn baseband_recs() -> Seq<XferRec> {
    baseband_head_recs() + baseband_ddc_recs() + baseband_fir_recs() + baseband_tail_recs()
}

/// The IF-frequency register value: `round(freq * 2^22 / crystal)` as a
/// 22-bit two's-complement value with an inverted sign convention.
pub open spec fn if_reg_spec(freq: u32) -> u32 {
    let rounded = (freq * 0x400000 + DEF_RTL_XTAL_FREQ / 2) / (DEF_RTL_XTAL_FREQ as int);
    (((0x400000 - (rounded % 0x400000)) % 0x400000) as u32)
}

/// Computes the IF-frequency register value of `freq`.
pub fn if_reg_value(freq: u32) -> (r: u32)
    ensures
        r == if_reg_spec(freq),
        r < 0x400000,
{
    let num: u64 = (freq as u64) * 0x400000 + (DEF_RTL_XTAL_FREQ as u64) / 2;
    let rounded: u64 = num / (DEF_RTL_XTAL_FREQ as u64);
    let r22: u64 = rounded % 0x400000;
    let val: u64 = (0x400000 - r22) % 0x400000;
    val as u32
}

impl RtlSdrDeviceHandle {
    /// Soft-resets the demodulator: asserts the reset bit, then releases it.
    pub fn demod_soft_reset(&mut self) -> (r: Result<(), RtlError>)
        ensures
            final(self).is_sim() == old(self).is_sim(),
            old(self).is_sim() ==> ({
                let pre = old(self).sim();
                let post = final(self).sim();
                &&& post.log@ == pre.log@.push(demod_out_rec(1, 0x01, 0x14, 1)).push(
                    status_probe_rec(),
                ).push(demod_out_rec(1, 0x01, 0x10, 1)).push(status_probe_rec())
                &&& sim_preserved(pre, post)
                &&& r == if pre.fail_out || pre.fail_in {
                    Err::<(), RtlError>(RtlError::Transport)
                } else {
                    Ok::<(), RtlError>(())
                }
            }),
    {
        let a = self.demod_write_reg(1, 0x01, 0x14, 1);
        let b = self.demod_write_reg(1, 0x01, 0x10, 1);
        match (a, b) {
            (Ok(_), Ok(_)) => Ok(()),
            _ => Err(RtlError::Transport),
        }
    }

    /// Programs the IF frequency: the 22-bit register value of `freq` is
    /// split over three demodulator registers, bits 21-16 first.
    pub fn set_if_freq(&mut self, freq: u32) -> (r: Result<(), RtlError>)
        ensures
            final(self).is_sim() == old(self).is_sim(),
            old(self).is_sim() ==> ({
                let pre = old(self).sim();
                let post = final(self).sim();
                let v = if_reg_spec(freq);
                &&& post.log@ == pre.log@.push(
                    demod_out_rec(1, 0x19, (((v >> 16) & 0x3f) as u16), 1),
                ).push(status_probe_rec()).push(
                    demod_out_rec(1, 0x1a, (((v >> 8) & 0xff) as u16), 1),
                ).push(status_probe_rec()).push(
                    demod_out_rec(1, 0x1b, ((v & 0xff) as u16), 1),
                ).push(status_probe_rec())
                &&& sim_preserved(pre, post)
                &&& r == if pre.fail_out || pre.fail_in {
                    Err::<(), RtlError>(RtlError::Transport)
                } else {
                    Ok::<(), RtlError>(())
                }
            }),
    {
        let v = if_reg_value(freq);
        let hi: u16 = ((v >> 16) & 0x3f) as u16;
        let mid: u16 = ((v >> 8) & 0xff) as u16;
        let lo: u16 = (v & 0xff) as u16;
        let a = self.demod_write_reg(1, 0x19, hi, 1);
        let b = self.demod_write_reg(1, 0x1a, mid, 1);
        let c = self.demod_write_reg(1, 0x1b, lo, 1);
        match (a, b, c) {
            (Ok(_), Ok(_), Ok(_)) => Ok(()),
            _ => Err(RtlError::Transport),
        }
    }

    /// Runs the fixed baseband bring-up sequence to completion: USB bulk
    /// configuration, demodulator and ADC power-on, soft reset, spectrum
    /// inversion and adjacent-channel rejection off, the six DDC/IF
    /// registers zeroed, the twenty FIR coefficients loaded, SDR mode on
    /// with digital AGC off, the FSM register initialized, the analog and
    /// IF AGC loops off, the PID filter off, the default ADC datapath,
    /// zero-IF mode with DC and IQ estimation on, and the diagnostic clock
    /// output pin off.  Best effort: a failed write does not abort the
    /// sequence, which always issues the same 83 transfers, spelled out by
    /// [`baseband_recs`].
    pub fn init_baseband(&mut self)
        ensures
            final(self).is_sim() == old(self).is_sim(),
            old(self).is_sim() ==> ({
                let pre = old(self).sim();
                let post = final(self).sim();
                &&& post.log@ == pre.log@ + baseband_recs()
                &&& sim_preserved(pre, post)
            }),
    {
        proof {
            assert(((1u16 << 8) | 0x10) >> 8 != 6) by (bit_vector);
            assert(((2u16 << 8) | 0x10) >> 8 != 6) by (bit_vector);
        }
        let ghost pre = self.sim();
        self.write_reg(BLOCK_USBB, ADDR_USB_SYSCTL, 0x09, 1);
        self.write_reg(BLOCK_USBB, ADDR_USB_EPA_MAXPKT, 0x0002, 2);
        self.write_reg(BLOCK_USBB, ADDR_USB_EPA_CTL, 0x1002, 2);
        self.write_reg(BLOCK_SYSB, ADDR_SYS_DEMOD_CTL_1, 0x22, 1);
        self.write_reg(BLOCK_SYSB, ADDR_SYS_DEMOD_CTL, 0xe8, 1);
        let _ = self.demod_soft_reset();
        let _ = self.demod_write_reg(1, 0x15, 0x00, 1);
        let _ = self.demod_write_reg(1, 0x16, 0x0000, 2);
        proof {
            if old(self).is_sim() {
                assert(self.sim().log@ =~= pre.log@ + baseband_head_recs());
            }
        }
        let ghost pre_ddc = self.sim();
        let mut i: u16 = 0;
        while i < 6
            invariant
                i <= 6,
                self.is_sim() == old(self).is_sim(),
                old(self).is_sim() ==> ({
                    &&& self.sim().log@ == pre_ddc.log@ + baseband_ddc_recs().take(2 * i)
                    &&& sim_preserved(pre_ddc, self.sim())
                }),
            decreases 6 - i,
        {
            let ghost before = self.sim().log@;
            let _ = self.demod_write_reg(1, 0x16 + i, 0x00, 1);
            proof {
                if old(self).is_sim() {
                    assert(baseband_ddc_recs()[2 * i] == demod_out_rec(1, (0x16 + i) as u16, 0x00, 1));
                    assert(baseband_ddc_recs()[2 * i + 1] == status_probe_rec());
                    assert(self.sim().log@ =~= pre_ddc.log@ + baseband_ddc_recs().take(
                        2 * (i + 1),
                    ));
                }
            }
            i = i + 1;
        }
        proof {
            if old(self).is_sim() {
                assert(baseband_ddc_recs().take(12) =~= baseband_ddc_recs());
            }
        }
        let fir = fir_coeffs();
        let ghost pre_fir = self.sim();
        let mut j: usize = 0;
        while j < 20
            invariant
                j <= 20,
                fir@ == fir_spec(),
                self.is_sim() == old(self).is_sim(),
                old(self).is_sim() ==> ({
                    &&& self.sim().log@ == pre_fir.log@ + baseband_fir_recs().take(2 * j)
                    &&& sim_preserved(pre_fir, self.sim())
                }),
            decreases 20 - j,
        {
            let _ = self.demod_write_reg(1, (0x1c + j) as u16, fir[j] as u16, 1);
            proof {
                if old(self).is_sim() {
                    assert(baseband_fir_recs()[2 * j] == demod_out_rec(
                        1,
                        (0x1c + j) as u16,
                        fir_spec()[j as int] as u16,
                        1,
                    ));
                    assert(baseband_fir_recs()[2 * j + 1] == status_probe_rec());
                    assert(self.sim().log@ =~= pre_fir.log@ + baseband_fir_recs().take(
                        2 * (j + 1),
                    ));
                }
            }
            j = j + 1;
        }
        proof {
            if old(self).is_sim() {
                assert(baseband_fir_recs().take(40) =~= baseband_fir_recs());
            }
        }
        let ghost pre_tail = self.sim();
        let _ = self.demod_write_reg(0, 0x19, 0x05, 1);
        let _ = self.demod_write_reg(1, 0x93, 0xf0, 1);
        let _ = self.demod_write_reg(1, 0x94, 0x0f, 1);
        let _ = self.demod_write_reg(1, 0x11, 0x00, 1);
        let _ = self.demod_write_reg(1, 0x04, 0x00, 1);
        let _ = self.demod_write_reg(0, 0x61, 0x60, 1);
        let _ = self.demod_write_reg(0, 0x06, 0x80, 1);
        let _ = self.demod_write_reg(1, 0xb1, 0x1b, 1);
        let _ = self.demod_write_reg(0, 0x0d, 0x83, 1);
        proof {
            if old(self).is_sim() {
                assert(self.sim().log@ =~= pre_tail.log@ + baseband_tail_recs());
                assert(self.sim().log@ =~= pre.log@ + baseband_recs());
            }
        }
    }

    /// Flushes the streaming FIFO by toggling the bulk endpoint control
    /// register: assert, then clear.
    pub fn reset_buffer(&mut self)
        ensures
            final(self).is_sim() == old(self).is_sim(),
            old(self).is_sim() ==> ({
                let pre = old(self).sim();
                let post = final(self).sim();
                &&& post.log@ == pre.log@.push(
                    block_write_rec(BLOCK_USBB, ADDR_USB_EPA_CTL, 0x1002, 2),
                ).push(block_write_rec(BLOCK_USBB, ADDR_USB_EPA_CTL, 0x0000, 2))
                &&& sim_preserved(pre, post)
            }),
    {
        proof {
            assert(((1u16 << 8) | 0x10) >> 8 != 6) by (bit_vector);
        }
        self.write_reg(BLOCK_USBB, ADDR_USB_EPA_CTL, 0x1002, 2);
        self.write_reg(BLOCK_USBB, ADDR_USB_EPA_CTL, 0x0000, 2);
    }

    /// Powers off the demodulator and the ADCs: the single write that
    /// tears the baseband down.
    pub fn deinit_baseband(&mut self) -> (n: usize)
        ensures
            final(self).is_sim() == old(self).is_sim(),
            old(self).is_sim() ==> ({
                let pre = old(self).sim();
                let post = final(self).sim();
                &&& post.log@ == pre.log@.push(
                    block_write_rec(BLOCK_SYSB, ADDR_SYS_DEMOD_CTL, 0x20, 1),
                )
                &&& sim_preserved(pre, post)
                &&& n == if pre.fail_out {
                    0int
                } else {
                    2int
                }
            }),
    {
        proof {
            assert(((2u16 << 8) | 0x10) >> 8 != 6) by (bit_vector);
        }
        self.write_reg(BLOCK_SYSB, ADDR_SYS_DEMOD_CTL, 0x20, 1)
    }
}

/// The fixed default FIR coefficient table loaded during bring-up.
pub open spec fn fir_spec() -> Seq<u8> {
    seq![
        0xca, 0xdc, 0xd7, 0xd8, 0xe0, 0xf2, 0x0e, 0x35, 0x06, 0x50, 0x9c, 0x0d, 0x71, 0x11, 0x14,
        0x71, 0x74, 0x19, 0x41, 0xa5,
    ]
}

/// The default FIR coefficient table as a vector.
pub fn fir_coeffs() -> (v: Vec<u8>)
    ensures
        v@ == fir_spec(),
{
    let v: Vec<u8> = vec![
        0xca, 0xdc, 0xd7, 0xd8, 0xe0, 0xf2, 0x0e, 0x35, 0x06, 0x50, 0x9c, 0x0d, 0x71, 0x11, 0x14,
        0x71, 0x74, 0x19, 0x41, 0xa5,
    ];
    assert(v@ =~= fir_spec());
    v
}

} // verus!
