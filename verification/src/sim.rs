//! A simulated dongle.
//!
//! The simulated device receives the same vendor control transfers that a
//! real dongle would, decodes them by the wire format of [`crate::codec`],
//! and keeps an exact record of every transfer it was handed.  Its behaviour
//! is specified completely, so the contracts of the protocol layer can state
//! bit for bit what reaches the device, and tests can drive the whole driver
//! end to end without hardware.
//!
//! The tuner side of the simulated device is a fixed table of register
//! contents: reads answer from the table, writes are recorded in the log but
//! do not change it (the real tuner chip is write-only to the host, so
//! nothing in the driver ever reads back what it wrote).

use vstd::prelude::*;

use crate::error::RtlError;

verus! {

/// One control transfer as the simulated device received it.
///
/// Only the first two payload bytes of an OUT transfer are recorded,
/// together with the full payload length: register writes carry at most
/// two bytes, and of a longer burst write the record keeps the start
/// register, the first data byte, and the length.
#[derive(Clone, Copy, Debug, PartialEq, Eq, Structural)]
pub struct XferRec {
    /// True for an IN (device-to-host) transfer.
    pub dir_in: bool,
    /// The wValue field of the request.
    pub value: u16,
    /// The wIndex field of the request.
    pub index: u16,
    /// First payload byte of an OUT transfer; 0 for IN.
    pub b0: u8,
    /// Second payload byte of an OUT transfer; 0 if absent or IN.
    pub b1: u8,
    /// Payload length (OUT) or requested length (IN).
    pub len: u8,
}

/// The record of an OUT transfer carrying `data`.
pub open spec fn out_rec(value: u16, index: u16, data: Seq<u8>) -> XferRec {
    XferRec {
        dir_in: false,
        value,
        index,
        b0: data[0],
        b1: if data.len() >= 2 { data[1] } else { 0 },
        len: data.len() as u8,
    }
}

/// The record of an IN transfer requesting `len` bytes.
pub open spec fn in_rec(value: u16, index: u16, len: u8) -> XferRec {
    XferRec { dir_in: true, value, index, b0: 0, b1: 0, len }
}

/// True of a transfer that writes a demodulator register: demodulator
/// writes carry the page in the low byte of the index, while block writes
/// carry the block id in the high byte.
pub open spec fn is_demod_out(x: XferRec) -> bool {
    !x.dir_in && x.index < 256
}

/// How many demodulator register writes a transfer log holds.
pub open spec fn demod_out_count(l: Seq<XferRec>) -> nat
    decreases l.len(),
{
    if l.len() == 0 {
        0
    } else {
        demod_out_count(l.drop_last()) + if is_demod_out(l.last()) {
            1nat
        } else {
            0nat
        }
    }
}

/// The block id of the emulated I2C bridge, as it appears in the high byte
/// of a request index.
pub open spec fn i2c_block() -> u16 {
    6
}

/// Looks `(addr, reg)` up in the simulated tuner-side register table,
/// starting at entry `i`.
pub open spec fn i2c_lookup_from(table: Seq<(u8, u8, u8)>, i: int, addr: u8, reg: u8) -> Option<u8>
    decreases table.len() - i,
{
    if i < 0 || i >= table.len() {
        None
    } else if table[i].0 == addr && table[i].1 == reg {
        Some(table[i].2)
    } else {
        i2c_lookup_from(table, i + 1, addr, reg)
    }
}

/// The value the simulated tuner side holds at `(addr, reg)`, if any.
pub open spec fn i2c_lookup(table: Seq<(u8, u8, u8)>, addr: u8, reg: u8) -> Option<u8> {
    i2c_lookup_from(table, 0, addr, reg)
}

/// An in-memory dongle with fully specified behaviour.
pub struct SimDevice {
    /// Tuner-side register contents: `(i2c address, register, value)`.
    /// Reads answer from the first matching entry; a missing entry reads
    /// as a failed transfer, like an unacknowledged I2C request.
    pub i2c_regs: Vec<(u8, u8, u8)>,
    /// The register pointer last latched by a write on the I2C bridge:
    /// `(i2c address, register)`.
    pub i2c_ptr: Option<(u8, u8)>,
    /// When set, every OUT transfer fails.
    pub fail_out: bool,
    /// When set, every IN transfer fails.
    pub fail_in: bool,
    /// The value every demodulator-space read returns (the status register).
    pub status: u16,
    /// Every transfer the device was handed, in order, including failed ones.
    pub log: Vec<XferRec>,
}

/// The parts of the simulated device that no transfer changes.
pub open spec fn sim_cfg_unchanged(pre: SimDevice, post: SimDevice) -> bool {
    &&& post.i2c_regs@ == pre.i2c_regs@
    &&& post.fail_out == pre.fail_out
    &&& post.fail_in == pre.fail_in
    &&& post.status == pre.status
}

/// How an OUT transfer changes the simulated device.
pub open spec fn sim_out_state(
    pre: SimDevice,
    post: SimDevice,
    value: u16,
    index: u16,
    data: Seq<u8>,
) -> bool {
    &&& post.log@ == pre.log@.push(out_rec(value, index, data))
    &&& sim_cfg_unchanged(pre, post)
    &&& post.i2c_ptr == if !pre.fail_out && index >> 8 == i2c_block() {
        Some((value as u8, data[0]))
    } else {
        pre.i2c_ptr
    }
}

/// How an IN transfer changes the simulated device.
pub open spec fn sim_in_state(
    pre: SimDevice,
    post: SimDevice,
    value: u16,
    index: u16,
    len: u8,
) -> bool {
    &&& post.log@ == pre.log@.push(in_rec(value, index, len))
    &&& sim_cfg_unchanged(pre, post)
    &&& post.i2c_ptr == pre.i2c_ptr
}

/// What an IN transfer returns from the simulated device, or `None` when it
/// fails.  A read on the I2C bridge answers from the tuner-side table at the
/// latched register pointer; any other read answers the status value,
/// big-endian.
pub open spec fn sim_in_value(s: SimDevice, value: u16, index: u16, len: u8) -> Option<Seq<u8>> {
    if s.fail_in {
        None
    } else if index >> 8 == i2c_block() {
        match s.i2c_ptr {
            Some((a, p)) => if len == 1 && a == value as u8 {
                match i2c_lookup(s.i2c_regs@, a, p) {
                    Some(v) => Some(seq![v]),
                    None => None,
                }
            } else {
                None
            },
            None => None,
        }
    } else {
        if len == 2 {
            Some(seq![(s.status >> 8) as u8, (s.status & 0xff) as u8])
        } else {
            None
        }
    }
}

impl SimDevice {
    /// A simulated dongle whose tuner side holds `i2c_regs` and whose
    /// status register reads as `status`.
    pub fn new(i2c_regs: Vec<(u8, u8, u8)>, status: u16) -> (r: SimDevice)
        ensures
            r.i2c_regs@ == i2c_regs@,
            r.i2c_ptr is None,
            !r.fail_out,
            !r.fail_in,
            r.status == status,
            r.log@ =~= Seq::<XferRec>::empty(),
    {
        SimDevice {
            i2c_regs,
            i2c_ptr: None,
            fail_out: false,
            fail_in: false,
            status,
            log: Vec::new(),
        }
    }

    /// Hands the device an OUT transfer.
    pub fn control_out(&mut self, value: u16, index: u16, data: &[u8]) -> (r: Result<
        usize,
        RtlError,
    >)
        requires
            1 <= data@.len() <= 255,
        ensures
            sim_out_state(*old(self), *final(self), value, index, data@),
            r == if old(self).fail_out {
                Err::<usize, RtlError>(RtlError::Transport)
            } else {
                Ok::<usize, RtlError>(data@.len() as usize)
            },
    {
        let b0: u8 = data[0];
        let b1: u8 = if data.len() >= 2 {
            data[1]
        } else {
            0
        };
        let rec = XferRec { dir_in: false, value, index, b0, b1, len: data.len() as u8 };
        self.log.push(rec);
        if self.fail_out {
            Err(RtlError::Transport)
        } else {
            if index >> 8 == 6 {
                self.i2c_ptr = Some((value as u8, b0));
            }
            Ok(data.len())
        }
    }

    /// Hands the device an IN transfer requesting `len` bytes.
    pub fn control_in(&mut self, value: u16, index: u16, len: u8) -> (r: Result<Vec<u8>, RtlError>)
        requires
            1 <= len,
        ensures
            sim_in_state(*old(self), *final(self), value, index, len),
            r is Ok <==> sim_in_value(*old(self), value, index, len) is Some,
            r matches Ok(d) ==> Some(d@) == sim_in_value(*old(self), value, index, len),
            r matches Err(e) ==> e == RtlError::Transport,
    {
        let rec = XferRec { dir_in: true, value, index, b0: 0, b1: 0, len };
        self.log.push(rec);
        if self.fail_in {
            return Err(RtlError::Transport);
        }
        if index >> 8 == 6 {
            if len != 1 {
                return Err(RtlError::Transport);
            }
            match self.i2c_ptr {
                Some((a, p)) => {
                    if a != value as u8 {
                        return Err(RtlError::Transport);
                    }
                    match lookup_i2c_reg(&self.i2c_regs, a, p) {
                        Some(v) => {
                            let mut d: Vec<u8> = Vec::new();
                            d.push(v);
                            assert(d@ =~= seq![v]);
                            Ok(d)
                        },
                        None => Err(RtlError::Transport),
                    }
                },
                None => Err(RtlError::Transport),
            }
        } else {
            if len != 2 {
                return Err(RtlError::Transport);
            }
            let hi: u8 = (self.status >> 8) as u8;
            let lo: u8 = (self.status & 0xff) as u8;
            let mut d: Vec<u8> = Vec::new();
            d.push(hi);
            d.push(lo);
            assert(d@ =~= seq![hi, lo]);
            Ok(d)
        }
    }
}

/// Finds the first entry of `table` for `(addr, reg)`.
pub fn lookup_i2c_reg(table: &Vec<(u8, u8, u8)>, addr: u8, reg: u8) -> (r: Option<u8>)
    ensures
        r == i2c_lookup(table@, addr, reg),
{
    let mut i: usize = 0;
    while i < table.len()
        invariant
            0 <= i <= table@.len(),
            i2c_lookup(table@, addr, reg) == i2c_lookup_from(table@, i as int, addr, reg),
        decreases table@.len() - i,
    {
        let (a, p, v) = table[i];
        if a == addr && p == reg {
            return Some(v);
        }
        i = i + 1;
    }
    None
}

} // verus!
