//! The orchestrator: session lifecycle, tuner selection, and the
//! sample-rate, IF-frequency, and test-mode operations of the dongle.
//!
//! A session owns its transport and tracks the device-global I2C-repeater
//! mode explicitly: every repeater flip asserts the expected prior mode.

use vstd::prelude::*;

use crate::baseband::DEF_RTL_XTAL_FREQ;
use crate::baseband::block_write_rec;
use crate::baseband::sim_preserved;
use crate::error::RtlError;
use crate::transport::Transport;
use crate::tuner::Tuner;
use crate::tuner::TunerId;
use crate::tuner::probe_match;
use crate::usb::ADDR_SYS_DEMOD_CTL;
use crate::usb::BLOCK_SYSB;
use crate::usb::RtlSdrDeviceHandle;
use crate::usb::demod_out_rec;
use crate::usb::demod_write_state;
use crate::usb::status_probe_rec;

verus! {

/// Whether the resampler accepts a sample rate: outside the supported range
/// and inside the dead zone nothing is programmed, with no clamping.
pub open spec fn valid_sample_rate(rate: u32) -> bool {
    &&& rate > 225000
    &&& rate <= 3200000
    &&& !(rate > 300000 && rate <= 900000)
}

/// The crystal frequency scaled by 2^22: the resampler's dividend.
pub open spec fn resampler_total() -> int {
    (DEF_RTL_XTAL_FREQ as int) * 0x400000
}

/// The raw resampler ratio of a sample rate: the scaled crystal frequency
/// divided by the rate, with the low two bits cleared.
pub open spec fn rsamp_ratio_spec(rate: u32) -> u32 {
    ((resampler_total() / (rate as int)) as u32) & 0x0ffffffc
}

/// The corrected resampler ratio: the raw ratio with bit 27 echoed into
/// bit 28.  This two-step correction is preserved bit for bit.
pub open spec fn real_rsamp_ratio_spec(rate: u32) -> u32 {
    rsamp_ratio_spec(rate) | ((rsamp_ratio_spec(rate) & 0x08000000) << 1)
}

/// The sample rate the resampler actually achieves with the corrected
/// ratio.
pub open spec fn achieved_rate_spec(rate: u32) -> u32 {
    (resampler_total() / (real_rsamp_ratio_spec(rate) as int)) as u32
}

/// The vendor and product ids of the dongles this driver recognizes.
pub open spec fn known_devices_spec() -> Seq<(u16, u16)> {
    seq![(0x0bda, 0x2832), (0x0bda, 0x2838)]
}

/// The vendor and product ids of the dongles this driver recognizes, as a
/// vector.
pub fn known_devices() -> (v: Vec<(u16, u16)>)
    ensures
        v@ == known_devices_spec(),
{
    let mut v: Vec<(u16, u16)> = Vec::new();
    v.push((0x0bda, 0x2832));
    v.push((0x0bda, 0x2838));
    assert(v@ =~= known_devices_spec());
    v
}

/// The USB interface the driver claims on the dongle.
pub const INTERFACE_ID: u8 = 0;

/// The record of the smoke-test register write.
pub open spec fn test_write_rec() -> crate::sim::XferRec {
    block_write_rec(crate::usb::BLOCK_USBB, crate::usb::ADDR_USB_SYSCTL, 0x09, 1)
}

/// The transfers of one repeater flip: the mode write and its status probe.
pub open spec fn repeater_recs(on: bool) -> Seq<crate::sim::XferRec> {
    seq![
        demod_out_rec(
            1,
            0x01,
            if on {
                0x18
            } else {
                0x10
            },
            1,
        ),
        status_probe_rec(),
    ]
}

/// The transfers of the streaming-FIFO flush: assert, then clear.
pub open spec fn reset_buffer_recs() -> Seq<crate::sim::XferRec> {
    seq![
        block_write_rec(crate::usb::BLOCK_USBB, crate::usb::ADDR_USB_EPA_CTL, 0x1002, 2),
        block_write_rec(crate::usb::BLOCK_USBB, crate::usb::ADDR_USB_EPA_CTL, 0x0000, 2),
    ]
}

/// Every transfer that opening a session issues on the simulated device,
/// in the prescribed order: smoke test — with one bounded reset-and-retry
/// on a dead channel — then baseband bring-up, repeater on, the probe, the
/// selected driver's bring-up, repeater off, and, on every failure path,
/// the baseband tear-down.
pub open spec fn open_recs(pre: crate::sim::SimDevice) -> Seq<crate::sim::XferRec> {
    if pre.fail_out {
        seq![test_write_rec()] + reset_buffer_recs() + seq![test_write_rec()]
    } else {
        seq![test_write_rec()] + crate::baseband::baseband_recs() + repeater_recs(true)
            + crate::tuner::probe_recs(pre) + (match probe_match(pre) {
            Some(TunerId::R820t) => crate::r820t::r820t_init_recs(),
            _ => Seq::empty(),
        }) + repeater_recs(false) + (match probe_match(pre) {
            Some(TunerId::R820t) => Seq::empty(),
            _ => seq![block_write_rec(BLOCK_SYSB, ADDR_SYS_DEMOD_CTL, 0x20, 1)],
        })
    }
}

/// An open session with the dongle: the device handle, the active tuner if
/// one was selected, and the session's view of the device-global repeater
/// mode.
pub struct RtlSdr {
    /// The device session.
    pub handle: RtlSdrDeviceHandle,
    /// The active tuner driver, once the probe selected one.
    pub tuner: Option<Tuner>,
    /// The session's view of the I2C-repeater mode.
    pub repeater_on: bool,
    /// Whether the session has been opened and not yet closed.
    pub opened: bool,
}

impl RtlSdr {
    /// The tuner state, when present, is well formed.
    pub open spec fn wf(&self) -> bool {
        match self.tuner {
            Some(t) => t.wf(),
            None => true,
        }
    }

    /// Whether the session runs over the simulated dongle.
    pub open spec fn is_sim(&self) -> bool {
        self.handle.is_sim()
    }

    /// The simulated dongle behind the session.
    pub open spec fn sim(&self) -> crate::sim::SimDevice {
        self.handle.sim()
    }

    /// A fresh, unopened session over a transport.
    pub fn new(t: Transport) -> (r: RtlSdr)
        ensures
            r.handle.t == t,
            r.tuner is None,
            !r.repeater_on,
            !r.opened,
            r.wf(),
    {
        RtlSdr {
            handle: RtlSdrDeviceHandle::new(t),
            tuner: None,
            repeater_on: false,
            opened: false,
        }
    }

    /// Flips the device-global I2C repeater, asserting the expected prior
    /// mode: the repeater is never enabled twice nor disabled twice.
    fn set_repeater(&mut self, on: bool) -> (r: Result<u16, RtlError>)
        requires
            old(self).repeater_on == !on,
        ensures
            final(self).repeater_on == on,
            final(self).tuner == old(self).tuner,
            final(self).opened == old(self).opened,
            final(self).wf() == old(self).wf(),
            final(self).is_sim() == old(self).is_sim(),
            old(self).is_sim() ==> demod_write_state(
                old(self).sim(),
                final(self).sim(),
                1,
                0x01,
                if on {
                    0x18
                } else {
                    0x10
                },
                1,
            ),
            old(self).is_sim() ==> r == crate::usb::demod_write_result(old(self).sim()),
    {
        let r = self.handle.set_i2c_repeater(on);
        self.repeater_on = on;
        r
    }

    /// Opens the session: smoke-tests the control channel with one bounded
    /// reset-and-retry, brings the baseband up, enables the I2C repeater,
    /// probes the tuner catalog, and constructs and initializes the
    /// selected driver.  On success the session is ready and untuned; every
    /// failure tears the baseband down again and surfaces as an ordinary
    /// error, never a panic.
    pub fn open(&mut self) -> (r: Result<(), RtlError>)
        requires
            old(self).wf(),
            !old(self).repeater_on,
            !old(self).opened,
        ensures
            final(self).wf(),
            !final(self).repeater_on,
            final(self).is_sim() == old(self).is_sim(),
            r is Ok ==> final(self).opened && final(self).tuner is Some,
            r is Err ==> !final(self).opened && final(self).tuner == old(self).tuner,
            old(self).is_sim() ==> ({
                let pre = old(self).sim();
                &&& crate::sim::sim_cfg_unchanged(pre, final(self).sim())
                &&& final(self).sim().log@ == pre.log@ + open_recs(pre)
                &&& r == (if pre.fail_out {
                    Err::<(), RtlError>(RtlError::Transport)
                } else {
                    match probe_match(pre) {
                        None => Err::<(), RtlError>(RtlError::TunerNotFound),
                        Some(TunerId::Fc0013) => Err::<(), RtlError>(
                            RtlError::UnsupportedOperation,
                        ),
                        Some(TunerId::R820t) => Ok::<(), RtlError>(()),
                    }
                })
                &&& (r is Ok ==> (final(self).tuner matches Some(t) && t.spec_id()
                    == TunerId::R820t))
            }),
    {
        let ghost pre = old(self).sim();
        let mut n = self.handle.test_write();
        if n == 0 {
            self.handle.reset_buffer();
            n = self.handle.test_write();
        }
        if n == 0 {
            proof {
                if old(self).is_sim() {
                    assert(self.sim().log@ =~= pre.log@ + open_recs(pre));
                }
            }
            return Err(RtlError::Transport);
        }
        self.handle.init_baseband();
        proof {
            if old(self).is_sim() {
                assert(self.sim().log@ =~= pre.log@ + (seq![test_write_rec()]
                    + crate::baseband::baseband_recs()));
            }
        }
        let _ = self.set_repeater(true);
        proof {
            if old(self).is_sim() {
                assert(self.sim().log@ =~= pre.log@ + (seq![test_write_rec()]
                    + crate::baseband::baseband_recs() + repeater_recs(true)));
            }
        }
        let ghost before_search = self.sim();
        let found = crate::tuner::search_tuner(&mut self.handle);
        proof {
            if old(self).is_sim() {
                crate::tuner::lemma_probe_match_stable(pre, before_search, 0);
                crate::tuner::lemma_probe_recs_stable(pre, before_search, 0);
                assert(self.sim().log@ =~= pre.log@ + (seq![test_write_rec()]
                    + crate::baseband::baseband_recs() + repeater_recs(true) + crate::tuner::probe_recs(
                    pre,
                )));
            }
        }
        let ghost probed = self.sim().log@;
        match found {
            Ok(id) => {
                proof {
                    if old(self).is_sim() {
                        crate::tuner::lemma_probe_some_no_fail(pre, 0);
                    }
                }
                match self.init_tuner(id) {
                    Ok(_) => {
                        let _ = self.set_repeater(false);
                        proof {
                            if old(self).is_sim() {
                                assert(self.sim().log@ =~= probed
                                    + crate::r820t::r820t_init_recs() + repeater_recs(false));
                                assert(self.sim().log@ =~= pre.log@ + open_recs(pre));
                            }
                        }
                        self.opened = true;
                        Ok(())
                    },
                    Err(e) => {
                        let _ = self.set_repeater(false);
                        self.handle.deinit_baseband();
                        proof {
                            if old(self).is_sim() {
                                assert(self.sim().log@ =~= probed + repeater_recs(false) + seq![
                                    block_write_rec(BLOCK_SYSB, ADDR_SYS_DEMOD_CTL, 0x20, 1),
                                ]);
                                assert(self.sim().log@ =~= pre.log@ + open_recs(pre));
                            }
                        }
                        Err(e)
                    },
                }
            },
            Err(e) => {
                let _ = self.set_repeater(false);
                self.handle.deinit_baseband();
                proof {
                    if old(self).is_sim() {
                        assert(self.sim().log@ =~= probed + repeater_recs(false) + seq![
                            block_write_rec(BLOCK_SYSB, ADDR_SYS_DEMOD_CTL, 0x20, 1),
                        ]);
                        assert(self.sim().log@ =~= pre.log@ + open_recs(pre));
                    }
                }
                Err(e)
            },
        }
    }

    /// Constructs the driver for a selected catalog entry and brings it to
    /// its ready state; the driver becomes the session's active tuner
    /// exactly when its bring-up succeeded.
    pub fn init_tuner(&mut self, id: TunerId) -> (r: Result<(), RtlError>)
        requires
            old(self).wf(),
        ensures
            final(self).wf(),
            final(self).is_sim() == old(self).is_sim(),
            final(self).repeater_on == old(self).repeater_on,
            final(self).opened == old(self).opened,
            r is Ok ==> (final(self).tuner matches Some(t) && t.spec_id() == id),
            r is Err ==> final(self).tuner == old(self).tuner,
            id is Fc0013 ==> r == Err::<(), RtlError>(RtlError::UnsupportedOperation)
                && final(self).handle == old(self).handle,
            old(self).is_sim() ==> crate::sim::sim_cfg_unchanged(
                old(self).sim(),
                final(self).sim(),
            ),
            old(self).is_sim() && id is R820t ==> ({
                let pre = old(self).sim();
                &&& r == (if pre.fail_out || pre.fail_in {
                    Err::<(), RtlError>(RtlError::Transport)
                } else {
                    Ok::<(), RtlError>(())
                })
                &&& final(self).sim().log@ == pre.log@ + (if pre.fail_out || pre.fail_in {
                    seq![demod_out_rec(1, 0xb1, 0x1a, 1), status_probe_rec()]
                } else {
                    crate::r820t::r820t_init_recs()
                })
            }),
    {
        let mut t = Tuner::for_id(id);
        match t.init(&mut self.handle) {
            Ok(_) => {
                self.tuner = Some(t);
                Ok(())
            },
            Err(e) => Err(e),
        }
    }

    /// Tunes the active tuner to an RF frequency.  Without a tuner the
    /// session has nothing to tune; with one, tuning is an explicit,
    /// currently unfilled extension point of every driver.
    pub fn set_freq(&mut self, freq: u32) -> (r: Result<(), RtlError>)
        requires
            old(self).wf(),
        ensures
            final(self).wf(),
            *final(self) == *old(self),
            old(self).tuner is None ==> r == Err::<(), RtlError>(RtlError::TunerNotFound),
            old(self).tuner is Some ==> r == Err::<(), RtlError>(RtlError::UnsupportedOperation),
    {
        match &mut self.tuner {
            Some(t) => t.set_freq(freq),
            None => Err(RtlError::TunerNotFound),
        }
    }

    /// Finds the first recognized dongle on the bus, opens and claims it,
    /// and opens a session on it; a device that fails to open, claim, or
    /// answer is skipped.  `None` when no recognized device worked out.
    pub fn open_device() -> (r: Option<RtlSdr>)
        ensures
            r matches Some(s) ==> s.opened && !s.repeater_on && s.wf() && s.tuner is Some,
    {
        let devs = known_devices();
        let mut i: usize = 0;
        while i < devs.len()
            invariant
                0 <= i <= devs@.len(),
            decreases devs@.len() - i,
        {
            let (vid, pid) = devs[i];
            match crate::usb_io::open_usb_device(vid, pid) {
                Some(h) => {
                    let mut session = crate::usb_io::UsbSession::new(h, INTERFACE_ID);
                    if session.claim_interface() {
                        let mut sdr = RtlSdr::new(Transport::Usb { usb: session });
                        match sdr.open() {
                            Ok(_) => {
                                return Some(sdr);
                            },
                            Err(_) => {
                                sdr.close();
                            },
                        }
                    }
                },
                None => {},
            }
            i = i + 1;
        }
        None
    }

    /// Closes the session: shuts the tuner down, powers the baseband off,
    /// and releases the transport.  Mandatory and idempotent: it runs on
    /// every teardown path, and a second close does nothing.
    pub fn close(&mut self)
        requires
            old(self).wf(),
        ensures
            final(self).wf(),
            !final(self).opened,
            final(self).is_sim() == old(self).is_sim(),
            !old(self).opened ==> *final(self) == *old(self),
            old(self).is_sim() ==> crate::sim::sim_cfg_unchanged(
                old(self).sim(),
                final(self).sim(),
            ),
            old(self).opened && !old(self).repeater_on && old(self).is_sim()
                ==> final(self).sim().log@ == old(self).sim().log@.push(
                block_write_rec(BLOCK_SYSB, ADDR_SYS_DEMOD_CTL, 0x20, 1),
            ),
    {
        if !self.opened {
            return ;
        }
        if self.repeater_on {
            let _ = self.set_repeater(false);
        }
        match &mut self.tuner {
            Some(t) => {
                let _ = t.exit();
            },
            None => {},
        }
        self.handle.deinit_baseband();
        self.handle.t.release();
        self.opened = false;
    }

    /// Programs the resampler.  A rate outside `(225000, 3200000]` or
    /// inside the dead zone `(300000, 900000]` is rejected outright.  An
    /// accepted rate is turned into the corrected ratio, the achieved rate
    /// is forwarded to the active tuner's bandwidth setter with the
    /// repeater enabled around it, the ratio's halves are written to the
    /// two resampler registers, and a soft reset latches the change.
    /// Returns the achieved rate.
    pub fn set_sample_rate(&mut self, samp_rate: u32) -> (r: Result<u32, RtlError>)
        requires
            old(self).wf(),
            !old(self).repeater_on,
        ensures
            final(self).wf(),
            !final(self).repeater_on,
            final(self).is_sim() == old(self).is_sim(),
            final(self).opened == old(self).opened,
            final(self).tuner == old(self).tuner,
            !valid_sample_rate(samp_rate) ==> r == Err::<u32, RtlError>(RtlError::InvalidArgument)
                && *final(self) == *old(self),
            valid_sample_rate(samp_rate) ==> r == Ok::<u32, RtlError>(achieved_rate_spec(
                samp_rate,
            )),
            valid_sample_rate(samp_rate) && old(self).is_sim() ==> ({
                let pre = old(self).sim();
                let rr = real_rsamp_ratio_spec(samp_rate);
                &&& sim_preserved(pre, final(self).sim())
                &&& final(self).sim().log@ == pre.log@.push(demod_out_rec(1, 0x01, 0x18, 1)).push(
                    status_probe_rec(),
                ).push(demod_out_rec(1, 0x01, 0x10, 1)).push(status_probe_rec()).push(
                    demod_out_rec(1, 0x9f, (rr >> 16) as u16, 2),
                ).push(status_probe_rec()).push(
                    demod_out_rec(1, 0xa1, (rr & 0xffff) as u16, 2),
                ).push(status_probe_rec()).push(demod_out_rec(1, 0x01, 0x14, 1)).push(
                    status_probe_rec(),
                ).push(demod_out_rec(1, 0x01, 0x10, 1)).push(status_probe_rec())
            }),
    {
        if samp_rate <= 225000 || samp_rate > 3200000 || (samp_rate > 300000 && samp_rate
            <= 900000) {
            return Err(RtlError::InvalidArgument);
        }
        let total: u64 = (DEF_RTL_XTAL_FREQ as u64) * 0x400000;
        let q: u64 = total / (samp_rate as u64);
        proof {
            lemma_ratio_bounds(samp_rate, q);
        }
        let ratio: u32 = (q as u32) & 0x0ffffffc;
        let real_ratio: u32 = ratio | ((ratio & 0x08000000) << 1);
        proof {
            assert(q <= 0x1fffffffu64 ==> ({
                let t = (q as u32) & 0x0ffffffc;
                let rr = t | ((t & 0x08000000) << 1);
                &&& (q >= 0x18000000 ==> rr >= 0x18000000)
                &&& (0x01000000 <= q < 0x08000000 ==> rr >= 0x00fffffc)
            })) by (bit_vector);
        }
        let real_rate64: u64 = total / (real_ratio as u64);
        proof {
            vstd::arithmetic::div_mod::lemma_div_is_ordered_by_denominator(
                total as int,
                0x00fffffc,
                real_ratio as int,
            );
            assert(120795955200000int / 0x00fffffc <= 0xffffffff);
        }
        let real_rate: u32 = real_rate64 as u32;
        let _ = self.set_repeater(true);
        match &mut self.tuner {
            Some(t) => {
                let _ = t.set_bw(real_rate, samp_rate, &mut self.handle);
            },
            None => {},
        }
        let _ = self.set_repeater(false);
        let hi: u16 = #[verifier::truncate] ((real_ratio >> 16) as u16);
        let lo: u16 = #[verifier::truncate] ((real_ratio & 0xffff) as u16);
        let _ = self.handle.demod_write_reg(1, 0x9f, hi, 2);
        let _ = self.handle.demod_write_reg(1, 0xa1, lo, 2);
        let _ = self.handle.demod_soft_reset();
        Ok(real_rate)
    }

    /// Programs the demodulator's IF frequency.
    pub fn set_if_freq(&mut self, freq: u32) -> (r: Result<(), RtlError>)
        requires
            old(self).wf(),
        ensures
            final(self).wf(),
            final(self).is_sim() == old(self).is_sim(),
            final(self).repeater_on == old(self).repeater_on,
            old(self).is_sim() ==> ({
                let pre = old(self).sim();
                let post = final(self).sim();
                let v = crate::baseband::if_reg_spec(freq);
                &&& sim_preserved(pre, post)
                &&& post.log@ == pre.log@.push(
                    demod_out_rec(1, 0x19, (((v >> 16) & 0x3f) as u16), 1),
                ).push(status_probe_rec()).push(
                    demod_out_rec(1, 0x1a, (((v >> 8) & 0xff) as u16), 1),
                ).push(status_probe_rec()).push(
                    demod_out_rec(1, 0x1b, ((v & 0xff) as u16), 1),
                ).push(status_probe_rec())
                &&& r == (if pre.fail_out || pre.fail_in {
                    Err::<(), RtlError>(RtlError::Transport)
                } else {
                    Ok::<(), RtlError>(())
                })
            }),
    {
        self.handle.set_if_freq(freq)
    }

    /// Switches the demodulator between test mode, which streams a counter
    /// instead of samples, and normal SDR mode.
    pub fn set_test_mode(&mut self, on: bool) -> (r: Result<u16, RtlError>)
        requires
            old(self).wf(),
        ensures
            final(self).wf(),
            final(self).is_sim() == old(self).is_sim(),
            old(self).is_sim() ==> demod_write_state(
                old(self).sim(),
                final(self).sim(),
                0,
                0x19,
                if on {
                    0x03
                } else {
                    0x05
                },
                1,
            ),
            old(self).is_sim() ==> r == crate::usb::demod_write_result(old(self).sim()),
    {
        let val: u16 = if on {
            0x03
        } else {
            0x05
        };
        self.handle.demod_write_reg(0, 0x19, val, 1)
    }

    /// Flushes the streaming FIFO before bulk reads start.
    pub fn reset_buffer(&mut self)
        requires
            old(self).wf(),
        ensures
            final(self).wf(),
            final(self).is_sim() == old(self).is_sim(),
            old(self).is_sim() ==> sim_preserved(old(self).sim(), final(self).sim()),
            old(self).is_sim() ==> final(self).sim().log@ == old(self).sim().log@
                + reset_buffer_recs(),
    {
        self.handle.reset_buffer();
        proof {
            if old(self).is_sim() {
                assert(self.sim().log@ =~= old(self).sim().log@ + reset_buffer_recs());
            }
        }
    }

    /// A placeholder for the bulk sample reader, which is an external
    /// collaborator of this core: no samples are acquired here.
    pub fn read_sync(&self, len: usize) -> (r: Vec<u8>)
        ensures
            r@.len() == 0,
    {
        let _ = len;
        Vec::new()
    }
}

/// Bounds on the raw resampler quotient for every accepted rate: it fits
/// comfortably below bit 29, and each side of the dead zone pins it to a
/// window in which the corrected ratio cannot vanish.
proof fn lemma_ratio_bounds(rate: u32, q: u64)
    requires
        valid_sample_rate(rate),
        q == 120795955200000u64 / (rate as u64),
    ensures
        q <= 0x1fffffff,
        rate <= 300000 ==> q >= 0x18000000,
        rate > 900000 ==> 0x01000000 <= q < 0x08000000,
{
    vstd::arithmetic::div_mod::lemma_div_is_ordered_by_denominator(
        120795955200000int,
        225001,
        rate as int,
    );
    assert(120795955200000int / 225001 <= 0x1fffffff);
    if rate <= 300000 {
        vstd::arithmetic::div_mod::lemma_div_is_ordered_by_denominator(
            120795955200000int,
            rate as int,
            300000,
        );
        assert(120795955200000int / 300000 >= 0x18000000);
    }
    if rate > 900000 {
        vstd::arithmetic::div_mod::lemma_div_is_ordered_by_denominator(
            120795955200000int,
            900001,
            rate as int,
        );
        assert(120795955200000int / 900001 < 0x08000000);
        vstd::arithmetic::div_mod::lemma_div_is_ordered_by_denominator(
            120795955200000int,
            rate as int,
            3200000,
        );
        assert(120795955200000int / 3200000 >= 0x01000000);
    }
}

} // verus!
