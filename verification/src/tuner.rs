//! The tuner catalog and the probe that selects exactly one tuner.
//!
//! The catalog is a closed, ordered set of known tuner descriptors.  The
//! probe walks it in order, reads each descriptor's check register over the
//! emulated I2C bus, and selects the first tuner whose check value answers
//! exactly; a transport failure or a mismatch advances to the next
//! candidate, and no match at all is an ordinary, recoverable error.

use vstd::prelude::*;

use crate::error::RtlError;
use crate::fc0013::FC0013;
use crate::r820t::R820T;
use crate::sim::SimDevice;
use crate::sim::sim_cfg_unchanged;
use crate::usb::RtlSdrDeviceHandle;
use crate::usb::i2c_read_result;

verus! {

/// Which tuner chip a descriptor stands for.
#[derive(Clone, Copy, Debug, PartialEq, Eq, Structural)]
pub enum TunerId {
    /// The Rafael Micro R820T.
    R820t,
    /// The Fitipower FC0013.
    Fc0013,
}

/// One entry of the tuner catalog: how a chip is addressed and recognized.
#[derive(Clone, Copy, Debug, PartialEq, Eq, Structural)]
pub struct TunerInfo {
    /// Which chip this descriptor stands for.
    pub id: TunerId,
    /// The chip's I2C address.
    pub i2c_addr: u8,
    /// The register read to identify the chip.
    pub check_addr: u8,
    /// The value the check register answers when the chip is present.
    pub check_val: u8,
}

/// The catalog, in probe order.
pub open spec fn catalog_spec() -> Seq<TunerInfo> {
    seq![
        TunerInfo { id: TunerId::R820t, i2c_addr: 0x34, check_addr: 0x00, check_val: 0x69 },
        TunerInfo { id: TunerId::Fc0013, i2c_addr: 0xc6, check_addr: 0x00, check_val: 0xa3 },
    ]
}

/// The catalog as a vector, in probe order.
pub fn known_tuners() -> (v: Vec<TunerInfo>)
    ensures
        v@ == catalog_spec(),
{
    let mut v: Vec<TunerInfo> = Vec::new();
    v.push(TunerInfo { id: TunerId::R820t, i2c_addr: 0x34, check_addr: 0x00, check_val: 0x69 });
    v.push(TunerInfo { id: TunerId::Fc0013, i2c_addr: 0xc6, check_addr: 0x00, check_val: 0xa3 });
    assert(v@ =~= catalog_spec());
    v
}

/// The display name of a tuner chip.
pub fn tuner_name(id: TunerId) -> (r: &'static str)
    ensures
        id is R820t ==> r@ == "Rafael Micro R820T"@,
        id is Fc0013 ==> r@ == "Fitipower FC0013"@,
{
    match id {
        TunerId::R820t => "Rafael Micro R820T",
        TunerId::Fc0013 => "Fitipower FC0013",
    }
}

/// Which tuner the probe selects on the simulated device, scanning the
/// catalog from entry `i`: the first entry whose check register answers
/// its expected value.
pub open spec fn probe_match_from(s: SimDevice, i: int) -> Option<TunerId>
    decreases catalog_spec().len() - i,
{
    if i < 0 || i >= catalog_spec().len() {
        None
    } else {
        let info = catalog_spec()[i];
        if i2c_read_result(s, info.i2c_addr, info.check_addr) == Ok::<u8, RtlError>(
            info.check_val,
        ) {
            Some(info.id)
        } else {
            probe_match_from(s, i + 1)
        }
    }
}

/// Which tuner the probe selects on the simulated device, if any.
pub open spec fn probe_match(s: SimDevice) -> Option<TunerId> {
    probe_match_from(s, 0)
}

/// The transfers that probing one catalog entry issues: the check-register
/// address write, then — unless the write already failed — the one-byte
/// read back.
pub open spec fn probe_pair_recs(info: TunerInfo, failed_out: bool) -> Seq<crate::sim::XferRec> {
    if failed_out {
        seq![
            crate::sim::out_rec(
                info.i2c_addr as u16,
                crate::codec::block_out_index(6),
                seq![info.check_addr],
            ),
        ]
    } else {
        seq![
            crate::sim::out_rec(
                info.i2c_addr as u16,
                crate::codec::block_out_index(6),
                seq![info.check_addr],
            ),
            crate::sim::in_rec(info.i2c_addr as u16, crate::codec::block_in_index(6), 1),
        ]
    }
}

/// The transfers the probe issues on the simulated device, scanning the
/// catalog from entry `i`: each candidate is probed in order, and the scan
/// stops at the first entry whose check register answers its expected
/// value — no later candidate is probed.
pub open spec fn probe_recs_from(s: SimDevice, i: int) -> Seq<crate::sim::XferRec>
    decreases catalog_spec().len() - i,
{
    if i < 0 || i >= catalog_spec().len() {
        Seq::empty()
    } else {
        let info = catalog_spec()[i];
        probe_pair_recs(info, s.fail_out) + (if i2c_read_result(s, info.i2c_addr, info.check_addr)
            == Ok::<u8, RtlError>(info.check_val) {
            Seq::empty()
        } else {
            probe_recs_from(s, i + 1)
        })
    }
}

/// The transfers the whole probe issues on the simulated device.
pub open spec fn probe_recs(s: SimDevice) -> Seq<crate::sim::XferRec> {
    probe_recs_from(s, 0)
}

/// The probe's transfers depend only on the failure switches and the
/// tuner-side register table, which no transfer changes.
pub proof fn lemma_probe_recs_stable(s1: SimDevice, s2: SimDevice, i: int)
    requires
        sim_cfg_unchanged(s1, s2),
    ensures
        probe_recs_from(s1, i) == probe_recs_from(s2, i),
    decreases catalog_spec().len() - i,
{
    if 0 <= i < catalog_spec().len() {
        lemma_probe_recs_stable(s1, s2, i + 1);
    }
}

/// The probe's outcome depends only on the failure switches and the
/// tuner-side register table, which no transfer changes.
pub proof fn lemma_probe_match_stable(s1: SimDevice, s2: SimDevice, i: int)
    requires
        sim_cfg_unchanged(s1, s2),
    ensures
        probe_match_from(s1, i) == probe_match_from(s2, i),
    decreases catalog_spec().len() - i,
{
    if 0 <= i < catalog_spec().len() {
        lemma_probe_match_stable(s1, s2, i + 1);
    }
}

/// A probe can only select a tuner when transfers succeed in both
/// directions: a selected entry's check register answered.
pub proof fn lemma_probe_some_no_fail(s: SimDevice, i: int)
    requires
        probe_match_from(s, i) is Some,
    ensures
        !s.fail_out && !s.fail_in,
    decreases catalog_spec().len() - i,
{
    if 0 <= i < catalog_spec().len() {
        let info = catalog_spec()[i];
        if i2c_read_result(s, info.i2c_addr, info.check_addr) == Ok::<u8, RtlError>(
            info.check_val,
        ) {
        } else {
            lemma_probe_some_no_fail(s, i + 1);
        }
    }
}

/// Probes the catalog in order and selects the first tuner whose check
/// register answers its expected value.  A failed read or a mismatched
/// value advances to the next candidate; the first exact match stops the
/// scan, so no later candidate is probed; no match at all is reported as
/// `TunerNotFound`, never as a panic.
pub fn search_tuner(handle: &mut RtlSdrDeviceHandle) -> (r: Result<TunerId, RtlError>)
    ensures
        final(handle).is_sim() == old(handle).is_sim(),
        old(handle).is_sim() ==> ({
            &&& sim_cfg_unchanged(old(handle).sim(), final(handle).sim())
            &&& final(handle).sim().log@ == old(handle).sim().log@ + probe_recs(
                old(handle).sim(),
            )
            &&& r == match probe_match(old(handle).sim()) {
                Some(id) => Ok::<TunerId, RtlError>(id),
                None => Err::<TunerId, RtlError>(RtlError::TunerNotFound),
            }
        }),
{
    let tuners = known_tuners();
    let ghost pre = old(handle).sim();
    let ghost mut acc: Seq<crate::sim::XferRec> = Seq::empty();
    let mut result: Result<TunerId, RtlError> = Err(RtlError::TunerNotFound);
    let mut i: usize = 0;
    proof {
        assert(pre.log@ + acc =~= pre.log@);
    }
    while i < tuners.len()
        invariant
            tuners@ == catalog_spec(),
            0 <= i <= tuners@.len(),
            handle.is_sim() == old(handle).is_sim(),
            result is Ok ==> i == tuners@.len(),
            old(handle).is_sim() ==> sim_cfg_unchanged(pre, handle.sim()),
            old(handle).is_sim() ==> match result {
                Ok(id) => probe_match(pre) == Some(id) && handle.sim().log@ == pre.log@
                    + probe_recs(pre),
                Err(e) => e == RtlError::TunerNotFound && probe_match(pre) == probe_match_from(
                    pre,
                    i as int,
                ) && probe_recs(pre) == acc + probe_recs_from(pre, i as int)
                    && handle.sim().log@ == pre.log@ + acc,
            },
        decreases tuners@.len() - i,
    {
        let info = tuners[i];
        let ghost cur = handle.sim();
        let rr = handle.i2c_read_reg(info.i2c_addr, info.check_addr);
        proof {
            if old(handle).is_sim() {
                assert(i2c_read_result(cur, info.i2c_addr, info.check_addr) == i2c_read_result(
                    pre,
                    info.i2c_addr,
                    info.check_addr,
                ));
                assert(catalog_spec()[i as int] == info);
                assert(handle.sim().log@ =~= pre.log@ + (acc + probe_pair_recs(
                    info,
                    pre.fail_out,
                )));
            }
        }
        let mut matched = false;
        match rr {
            Ok(val) => {
                if val == info.check_val {
                    matched = true;
                }
            },
            Err(_) => {},
        }
        if matched {
            proof {
                if old(handle).is_sim() {
                    assert(probe_match_from(pre, i as int) == Some(info.id));
                    assert(probe_recs_from(pre, i as int) =~= probe_pair_recs(
                        info,
                        pre.fail_out,
                    ));
                    assert(probe_recs(pre) =~= acc + probe_pair_recs(info, pre.fail_out));
                    assert(handle.sim().log@ =~= pre.log@ + probe_recs(pre));
                }
            }
            result = Ok(info.id);
            i = tuners.len();
        } else {
            proof {
                if old(handle).is_sim() {
                    assert(i2c_read_result(pre, info.i2c_addr, info.check_addr) != Ok::<
                        u8,
                        RtlError,
                    >(info.check_val));
                    assert(probe_match_from(pre, i as int) == probe_match_from(pre, i + 1));
                    assert(probe_recs_from(pre, i as int) =~= probe_pair_recs(info, pre.fail_out)
                        + probe_recs_from(pre, i + 1));
                    acc = acc + probe_pair_recs(info, pre.fail_out);
                    assert(probe_recs(pre) =~= acc + probe_recs_from(pre, i + 1));
                }
            }
            i = i + 1;
        }
    }
    proof {
        if old(handle).is_sim() && result is Err {
            assert(probe_recs_from(pre, tuners@.len() as int) =~= Seq::<
                crate::sim::XferRec,
            >::empty());
            assert(probe_recs(pre) =~= acc);
            assert(handle.sim().log@ =~= pre.log@ + probe_recs(pre));
        }
    }
    result
}

/// The active tuner driver: a closed set of chip variants, dispatched by
/// match, since the catalog of supported chips is small and known ahead of
/// time.
pub enum Tuner {
    /// The Rafael Micro R820T driver.
    R820t(R820T),
    /// The Fitipower FC0013 driver.
    Fc0013(FC0013),
}

impl Tuner {
    /// Which chip this driver drives.
    pub open spec fn spec_id(&self) -> TunerId {
        match self {
            Tuner::R820t(_) => TunerId::R820t,
            Tuner::Fc0013(_) => TunerId::Fc0013,
        }
    }

    /// The driver for a selected catalog entry, constructed but not yet
    /// initialized.
    pub fn for_id(id: TunerId) -> (t: Tuner)
        ensures
            t.spec_id() == id,
            t.wf(),
    {
        match id {
            TunerId::R820t => Tuner::R820t(R820T::new()),
            TunerId::Fc0013 => Tuner::Fc0013(FC0013::new()),
        }
    }

    /// Whether the driver's state is well formed.
    pub open spec fn wf(&self) -> bool {
        match self {
            Tuner::R820t(t) => t.wf(),
            Tuner::Fc0013(_) => true,
        }
    }

    /// Brings the selected driver to its ready state; fails hard on any
    /// failed step, and fails with `UnsupportedOperation` on a driver whose
    /// bring-up is not yet filled in.
    pub fn init(&mut self, handle: &mut RtlSdrDeviceHandle) -> (r: Result<(), RtlError>)
        requires
            old(self).wf(),
        ensures
            final(self).wf(),
            final(self).spec_id() == old(self).spec_id(),
            final(handle).is_sim() == old(handle).is_sim(),
            old(self).spec_id() is Fc0013 ==> r == Err::<(), RtlError>(
                RtlError::UnsupportedOperation,
            ) && *final(handle) == *old(handle),
            old(handle).is_sim() ==> sim_cfg_unchanged(old(handle).sim(), final(handle).sim()),
            old(handle).is_sim() && old(self).spec_id() is R820t ==> ({
                let pre = old(handle).sim();
                &&& r == (if pre.fail_out || pre.fail_in {
                    Err::<(), RtlError>(RtlError::Transport)
                } else {
                    Ok::<(), RtlError>(())
                })
                &&& final(handle).sim().log@ == pre.log@ + (if pre.fail_out || pre.fail_in {
                    seq![
                        crate::usb::demod_out_rec(1, 0xb1, 0x1a, 1),
                        crate::usb::status_probe_rec(),
                    ]
                } else {
                    crate::r820t::r820t_init_recs()
                })
            }),
    {
        match self {
            Tuner::R820t(t) => t.init(handle),
            Tuner::Fc0013(t) => t.init(handle),
        }
    }

    /// Shuts the driver down.
    pub fn exit(&mut self) -> (r: Result<(), RtlError>)
        ensures
            final(self).wf() == old(self).wf(),
            final(self).spec_id() == old(self).spec_id(),
            old(self).spec_id() is R820t ==> r == Ok::<(), RtlError>(()),
            old(self).spec_id() is Fc0013 ==> r == Err::<(), RtlError>(
                RtlError::UnsupportedOperation,
            ),
    {
        match self {
            Tuner::R820t(t) => t.exit(),
            Tuner::Fc0013(t) => t.exit(),
        }
    }

    /// Tunes to an RF frequency: an unfilled extension point in every
    /// driver so far.
    pub fn set_freq(&mut self, freq: u32) -> (r: Result<(), RtlError>)
        ensures
            r == Err::<(), RtlError>(RtlError::UnsupportedOperation),
            *final(self) == *old(self),
    {
        match self {
            Tuner::R820t(t) => t.set_freq(freq),
            Tuner::Fc0013(t) => t.set_freq(freq),
        }
    }

    /// Programs the channel bandwidth for a sample rate: an unfilled
    /// extension point in every driver so far, failing explicitly and
    /// issuing no transfer.
    pub fn set_bw(
        &mut self,
        bw: u32,
        rate: u32,
        handle: &mut RtlSdrDeviceHandle,
    ) -> (r: Result<(), RtlError>)
        ensures
            r == Err::<(), RtlError>(RtlError::UnsupportedOperation),
            *final(self) == *old(self),
            *final(handle) == *old(handle),
    {
        match self {
            Tuner::R820t(t) => t.set_bandwidth(bw, rate, handle),
            Tuner::Fc0013(t) => t.set_bandwidth(bw, rate, handle),
        }
    }

    /// Sets the tuner gain: an unfilled extension point in every driver so
    /// far.
    pub fn set_gain(&mut self, gain: u32) -> (r: Result<(), RtlError>)
        ensures
            r == Err::<(), RtlError>(RtlError::UnsupportedOperation),
            *final(self) == *old(self),
    {
        match self {
            Tuner::R820t(t) => t.set_gain(gain),
            Tuner::Fc0013(t) => t.set_gain(gain),
        }
    }

    /// Sets the IF gain: an unfilled extension point in every driver so
    /// far.
    pub fn set_if_gain(&mut self, if_gain: u32) -> (r: Result<(), RtlError>)
        ensures
            r == Err::<(), RtlError>(RtlError::UnsupportedOperation),
            *final(self) == *old(self),
    {
        match self {
            Tuner::R820t(t) => t.set_if_gain(if_gain),
            Tuner::Fc0013(t) => t.set_if_gain(if_gain),
        }
    }

    /// Sets manual or automatic gain: an unfilled extension point in every
    /// driver so far.
    pub fn set_gain_mode(&mut self, mode: bool) -> (r: Result<(), RtlError>)
        ensures
            r == Err::<(), RtlError>(RtlError::UnsupportedOperation),
            *final(self) == *old(self),
    {
        match self {
            Tuner::R820t(t) => t.set_gain_mode(mode),
            Tuner::Fc0013(t) => t.set_gain_mode(mode),
        }
    }

    /// The display name of the driven chip.
    pub fn display(&self) -> (r: &'static str)
        ensures
            self.spec_id() is R820t ==> r@ == "Rafael Micro R820T"@,
            self.spec_id() is Fc0013 ==> r@ == "Fitipower FC0013"@,
    {
        match self {
            Tuner::R820t(t) => t.display(),
            Tuner::Fc0013(t) => t.display(),
        }
    }
}

} // verus!
