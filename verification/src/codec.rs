//! Control-transfer codec: how register values and addresses are packed
//! into the fields of a vendor control request.
//!
//! A register write always carries a two-byte payload.  A one-byte write
//! repeats the low byte of the value in both payload bytes; a two-byte write
//! sends the value big-endian.  The request index carries the block id in
//! its high byte, with 0x10 set for writes.

use vstd::prelude::*;

verus! {

/// First payload byte of a register write of `val` with width `len`.
pub open spec fn payload_byte0(val: u16, len: u8) -> u8 {
    if len == 1 {
        (val & 0xff) as u8
    } else {
        (val >> 8) as u8
    }
}

/// Second payload byte of a register write of `val`.
pub open spec fn payload_byte1(val: u16) -> u8 {
    (val & 0xff) as u8
}

/// Request index of a write addressed to `block`.
pub open spec fn block_out_index(block: u16) -> u16 {
    (block << 8) | 0x10
}

/// Request index of a read addressed to `block`.
pub open spec fn block_in_index(block: u16) -> u16 {
    block << 8
}

/// Request value of a demodulator register access at `addr`.
pub open spec fn demod_value(addr: u16) -> u16 {
    (addr << 8) | 0x20
}

/// Request index of a demodulator register write on `page`.
pub open spec fn demod_out_index(page: u8) -> u16 {
    (0x10 | page) as u16
}

/// Packs a register value into the two payload bytes of a control request.
pub fn encode_payload(val: u16, len: u8) -> (r: (u8, u8))
    requires
        len == 1 || len == 2,
    ensures
        r.0 == payload_byte0(val, len),
        r.1 == payload_byte1(val),
{
    let b0: u8 = if len == 1 {
        (val & 0xff) as u8
    } else {
        (val >> 8) as u8
    };
    let b1: u8 = (val & 0xff) as u8;
    (b0, b1)
}

} // verus!
