//! The Rafael Micro R820T tuner driver: register-shadow cache, masked
//! read-modify-write, bit-reversal for burst transfers, the frequency-range
//! table, crystal-capacitance calibration, and the driver's lifecycle.
//!
//! The chip's registers are write-only to the host, so the shadow cache is
//! the only source of truth for read-modify-write: it always equals the last
//! successfully issued write.

use vstd::prelude::*;

use crate::error::RtlError;
use crate::sim::sim_cfg_unchanged;
use crate::tuner::TunerId;
use crate::tuner::TunerInfo;
use crate::usb::RtlSdrDeviceHandle;
use crate::usb::demod_out_rec;
use crate::usb::i2c_read_result;
use crate::usb::status_probe_rec;

verus! {

/// The I2C address of the R820T.
pub const R820T_I2C_ADDR: u8 = 0x34;

/// The IF frequency the demodulator is set to for this tuner, in hertz.
pub const R820T_IF_FREQ: u32 = 3570000;

/// The first chip register covered by the shadow cache.
pub const REG_SHADOW_START: u8 = 5;

/// How many chip registers the shadow cache covers.
pub const NUM_REGS: usize = 27;

/// The chips this driver family knows.
#[derive(Clone, Copy, Debug, PartialEq, Eq, Structural)]
pub enum Chip {
    /// The R820T itself.
    R820T,
    /// The R620D variant.
    R620D,
    /// The R828D variant.
    R828D,
    /// The R828 variant.
    R828,
    /// The R828S variant.
    R828S,
    /// The R820C variant.
    R820C,
}

/// Static configuration of the tuner driver.
#[derive(Clone, Copy, Debug, PartialEq, Eq, Structural)]
pub struct Config {
    /// The chip's I2C address.
    pub i2c_addr: u8,
    /// The tuner crystal frequency, in hertz.
    pub xtal: u32,
    /// Which chip variant is driven.
    pub chip: Chip,
    /// The longest I2C message the chip accepts.
    pub max_i2c_msg_len: u16,
    /// Whether predetection is used during calibration.
    pub use_predetect: bool,
}

/// One of the five crystal-capacitance candidate settings, coarsest first.
#[derive(Clone, Copy, Debug, PartialEq, Eq, Structural)]
pub enum XtalCapValue {
    /// 30 pF, low-cap mode.
    XtalLowCap30P,
    /// 20 pF, low-cap mode.
    XtalLowCap20P,
    /// 10 pF, low-cap mode.
    XtalLowCap10P,
    /// 0 pF, low-cap mode.
    XtalLowCap0P,
    /// 0 pF, high-cap mode.
    XtalHighCap0P,
}

/// One row of the frequency-range table.
#[derive(Clone, Copy, Debug, PartialEq, Eq, Structural)]
pub struct FreqRange {
    /// The lowest RF frequency of the band, in megahertz.
    pub freq: u32,
    /// Open-drain bits.
    pub open_d: u8,
    /// RF-mux and polyphase-filter bits.
    pub rf_mux_ploy: u8,
    /// Tracking-filter bits.
    pub tf_c: u8,
    /// Crystal-capacitance pattern for the 20 pF setting.
    pub xtal_cap20p: u8,
    /// Crystal-capacitance pattern for the 10 pF setting.
    pub xtal_cap10p: u8,
    /// Crystal-capacitance pattern for the 0 pF settings.
    pub xtal_cap0p: u8,
}

/// The nibble-reversal table: the bit-reversed value of each 4-bit value.
pub open spec fn rev4(n: u8) -> u8 {
    if n == 0x0 {
        0x0
    } else if n == 0x1 {
        0x8
    } else if n == 0x2 {
        0x4
    } else if n == 0x3 {
        0xc
    } else if n == 0x4 {
        0x2
    } else if n == 0x5 {
        0xa
    } else if n == 0x6 {
        0x6
    } else if n == 0x7 {
        0xe
    } else if n == 0x8 {
        0x1
    } else if n == 0x9 {
        0x9
    } else if n == 0xa {
        0x5
    } else if n == 0xb {
        0xd
    } else if n == 0xc {
        0x3
    } else if n == 0xd {
        0xb
    } else if n == 0xe {
        0x7
    } else {
        0xf
    }
}

/// The bit-reversed byte: the low nibble, reversed, becomes the high nibble
/// and the high nibble, reversed, becomes the low one.
pub open spec fn bitrev_spec(b: u8) -> u8 {
    (rev4(b & 0xf) << 4) | rev4(b >> 4)
}

/// A masked read-modify-write result: the bits of `mask` come from `val`,
/// the rest keep the shadow value.
pub open spec fn masked_val(shadow: u8, val: u8, mask: u8) -> u8 {
    (shadow & !mask) | (val & mask)
}

/// Whether chip register `reg` has a shadow entry.
pub open spec fn shadow_in_range(reg: u8) -> bool {
    REG_SHADOW_START <= reg && reg < REG_SHADOW_START + NUM_REGS
}

/// The shadow index of chip register `reg`.
pub open spec fn shadow_index(reg: u8) -> int {
    reg - REG_SHADOW_START
}

/// The known reset-default contents of the shadowed registers, starting at
/// the shadow base register.
pub open spec fn initial_regs_spec() -> Seq<u8> {
    seq![
        0x83, 0x32, 0x75, 0xc0, 0x40, 0xd6, 0x6c, 0xf5, 0x63, 0x75, 0x68, 0x6c, 0x83, 0x80, 0x00,
        0x0f, 0x00, 0xc0, 0x30, 0x48, 0xcc, 0x60, 0x00, 0x54, 0xae, 0x4a, 0xc0,
    ]
}

/// The frequency-range table, sorted ascending by band start.
pub open spec fn freq_ranges_spec() -> Seq<FreqRange> {
    seq![
        FreqRange { freq: 0, open_d: 0x08, rf_mux_ploy: 0x02, tf_c: 0xdf, xtal_cap20p: 0x02, xtal_cap10p: 0x01, xtal_cap0p: 0x00 },
        FreqRange { freq: 50, open_d: 0x08, rf_mux_ploy: 0x02, tf_c: 0xbe, xtal_cap20p: 0x02, xtal_cap10p: 0x01, xtal_cap0p: 0x00 },
        FreqRange { freq: 55, open_d: 0x08, rf_mux_ploy: 0x02, tf_c: 0x8b, xtal_cap20p: 0x02, xtal_cap10p: 0x01, xtal_cap0p: 0x00 },
        FreqRange { freq: 60, open_d: 0x08, rf_mux_ploy: 0x02, tf_c: 0x7b, xtal_cap20p: 0x02, xtal_cap10p: 0x01, xtal_cap0p: 0x00 },
        FreqRange { freq: 65, open_d: 0x08, rf_mux_ploy: 0x02, tf_c: 0x69, xtal_cap20p: 0x02, xtal_cap10p: 0x01, xtal_cap0p: 0x00 },
        FreqRange { freq: 70, open_d: 0x08, rf_mux_ploy: 0x02, tf_c: 0x58, xtal_cap20p: 0x02, xtal_cap10p: 0x01, xtal_cap0p: 0x00 },
        FreqRange { freq: 75, open_d: 0x00, rf_mux_ploy: 0x02, tf_c: 0x44, xtal_cap20p: 0x02, xtal_cap10p: 0x01, xtal_cap0p: 0x00 },
        FreqRange { freq: 80, open_d: 0x00, rf_mux_ploy: 0x02, tf_c: 0x44, xtal_cap20p: 0x02, xtal_cap10p: 0x01, xtal_cap0p: 0x00 },
        FreqRange { freq: 90, open_d: 0x00, rf_mux_ploy: 0x02, tf_c: 0x34, xtal_cap20p: 0x01, xtal_cap10p: 0x01, xtal_cap0p: 0x00 },
        FreqRange { freq: 100, open_d: 0x00, rf_mux_ploy: 0x02, tf_c: 0x34, xtal_cap20p: 0x01, xtal_cap10p: 0x01, xtal_cap0p: 0x00 },
        FreqRange { freq: 110, open_d: 0x00, rf_mux_ploy: 0x02, tf_c: 0x24, xtal_cap20p: 0x01, xtal_cap10p: 0x01, xtal_cap0p: 0x00 },
        FreqRange { freq: 120, open_d: 0x00, rf_mux_ploy: 0x02, tf_c: 0x24, xtal_cap20p: 0x01, xtal_cap10p: 0x01, xtal_cap0p: 0x00 },
        FreqRange { freq: 140, open_d: 0x00, rf_mux_ploy: 0x02, tf_c: 0x14, xtal_cap20p: 0x01, xtal_cap10p: 0x01, xtal_cap0p: 0x00 },
        FreqRange { freq: 180, open_d: 0x00, rf_mux_ploy: 0x02, tf_c: 0x13, xtal_cap20p: 0x00, xtal_cap10p: 0x00, xtal_cap0p: 0x00 },
        FreqRange { freq: 220, open_d: 0x00, rf_mux_ploy: 0x02, tf_c: 0x13, xtal_cap20p: 0x00, xtal_cap10p: 0x00, xtal_cap0p: 0x00 },
        FreqRange { freq: 250, open_d: 0x00, rf_mux_ploy: 0x02, tf_c: 0x11, xtal_cap20p: 0x00, xtal_cap10p: 0x00, xtal_cap0p: 0x00 },
        FreqRange { freq: 280, open_d: 0x00, rf_mux_ploy: 0x02, tf_c: 0x00, xtal_cap20p: 0x00, xtal_cap10p: 0x00, xtal_cap0p: 0x00 },
        FreqRange { freq: 310, open_d: 0x00, rf_mux_ploy: 0x41, tf_c: 0x00, xtal_cap20p: 0x00, xtal_cap10p: 0x00, xtal_cap0p: 0x00 },
        FreqRange { freq: 450, open_d: 0x00, rf_mux_ploy: 0x41, tf_c: 0x00, xtal_cap20p: 0x00, xtal_cap10p: 0x00, xtal_cap0p: 0x00 },
        FreqRange { freq: 588, open_d: 0x00, rf_mux_ploy: 0x40, tf_c: 0x00, xtal_cap20p: 0x00, xtal_cap10p: 0x00, xtal_cap0p: 0x00 },
        FreqRange { freq: 650, open_d: 0x00, rf_mux_ploy: 0x40, tf_c: 0x00, xtal_cap20p: 0x00, xtal_cap10p: 0x00, xtal_cap0p: 0x00 },
    ]
}

/// The index of the table row whose band holds `mhz`, scanning down from
/// row `i`: the greatest row index whose band start does not exceed `mhz`.
pub open spec fn range_index_from(mhz: u32, i: int) -> int
    decreases i,
{
    if i <= 0 {
        0
    } else if freq_ranges_spec()[i].freq <= mhz {
        i
    } else {
        range_index_from(mhz, i - 1)
    }
}

/// The index of the table row selected for `mhz`.
pub open spec fn range_index(mhz: u32) -> int {
    range_index_from(mhz, 20)
}

/// The table row selected for `mhz`.
pub open spec fn freq_range_for(mhz: u32) -> FreqRange {
    freq_ranges_spec()[range_index(mhz)]
}

/// The row selected for a frequency is the one with the greatest band start
/// not exceeding it: its start is below the target, and every row whose
/// start is below the target comes no later in the table.  Frequencies
/// above every band start select the last row.
pub proof fn lemma_range_index_greatest(mhz: u32)
    ensures
        0 <= range_index(mhz) <= 20,
        freq_ranges_spec()[range_index(mhz)].freq <= mhz,
        forall|j: int|
            0 <= j <= 20 && freq_ranges_spec()[j].freq <= mhz ==> j <= range_index(mhz),
{
    lemma_range_index_from_greatest(mhz, 20);
}

proof fn lemma_range_index_from_greatest(mhz: u32, i: int)
    requires
        0 <= i <= 20,
    ensures
        0 <= range_index_from(mhz, i) <= i,
        freq_ranges_spec()[range_index_from(mhz, i)].freq <= mhz,
        forall|j: int|
            0 <= j <= i && freq_ranges_spec()[j].freq <= mhz ==> j <= range_index_from(mhz, i),
    decreases i,
{
    if i <= 0 {
        assert(freq_ranges_spec()[0].freq == 0);
    } else if freq_ranges_spec()[i].freq <= mhz {
    } else {
        lemma_range_index_from_greatest(mhz, i - 1);
    }
}

/// The frequency-range table as a vector.
pub fn freq_ranges() -> (v: Vec<FreqRange>)
    ensures
        v@ == freq_ranges_spec(),
{
    let mut v: Vec<FreqRange> = Vec::new();
    v.push(FreqRange { freq: 0, open_d: 0x08, rf_mux_ploy: 0x02, tf_c: 0xdf, xtal_cap20p: 0x02, xtal_cap10p: 0x01, xtal_cap0p: 0x00 });
    v.push(FreqRange { freq: 50, open_d: 0x08, rf_mux_ploy: 0x02, tf_c: 0xbe, xtal_cap20p: 0x02, xtal_cap10p: 0x01, xtal_cap0p: 0x00 });
    v.push(FreqRange { freq: 55, open_d: 0x08, rf_mux_ploy: 0x02, tf_c: 0x8b, xtal_cap20p: 0x02, xtal_cap10p: 0x01, xtal_cap0p: 0x00 });
    v.push(FreqRange { freq: 60, open_d: 0x08, rf_mux_ploy: 0x02, tf_c: 0x7b, xtal_cap20p: 0x02, xtal_cap10p: 0x01, xtal_cap0p: 0x00 });
    v.push(FreqRange { freq: 65, open_d: 0x08, rf_mux_ploy: 0x02, tf_c: 0x69, xtal_cap20p: 0x02, xtal_cap10p: 0x01, xtal_cap0p: 0x00 });
    v.push(FreqRange { freq: 70, open_d: 0x08, rf_mux_ploy: 0x02, tf_c: 0x58, xtal_cap20p: 0x02, xtal_cap10p: 0x01, xtal_cap0p: 0x00 });
    v.push(FreqRange { freq: 75, open_d: 0x00, rf_mux_ploy: 0x02, tf_c: 0x44, xtal_cap20p: 0x02, xtal_cap10p: 0x01, xtal_cap0p: 0x00 });
    v.push(FreqRange { freq: 80, open_d: 0x00, rf_mux_ploy: 0x02, tf_c: 0x44, xtal_cap20p: 0x02, xtal_cap10p: 0x01, xtal_cap0p: 0x00 });
    v.push(FreqRange { freq: 90, open_d: 0x00, rf_mux_ploy: 0x02, tf_c: 0x34, xtal_cap20p: 0x01, xtal_cap10p: 0x01, xtal_cap0p: 0x00 });
    v.push(FreqRange { freq: 100, open_d: 0x00, rf_mux_ploy: 0x02, tf_c: 0x34, xtal_cap20p: 0x01, xtal_cap10p: 0x01, xtal_cap0p: 0x00 });
    v.push(FreqRange { freq: 110, open_d: 0x00, rf_mux_ploy: 0x02, tf_c: 0x24, xtal_cap20p: 0x01, xtal_cap10p: 0x01, xtal_cap0p: 0x00 });
    v.push(FreqRange { freq: 120, open_d: 0x00, rf_mux_ploy: 0x02, tf_c: 0x24, xtal_cap20p: 0x01, xtal_cap10p: 0x01, xtal_cap0p: 0x00 });
    v.push(FreqRange { freq: 140, open_d: 0x00, rf_mux_ploy: 0x02, tf_c: 0x14, xtal_cap20p: 0x01, xtal_cap10p: 0x01, xtal_cap0p: 0x00 });
    v.push(FreqRange { freq: 180, open_d: 0x00, rf_mux_ploy: 0x02, tf_c: 0x13, xtal_cap20p: 0x00, xtal_cap10p: 0x00, xtal_cap0p: 0x00 });
    v.push(FreqRange { freq: 220, open_d: 0x00, rf_mux_ploy: 0x02, tf_c: 0x13, xtal_cap20p: 0x00, xtal_cap10p: 0x00, xtal_cap0p: 0x00 });
    v.push(FreqRange { freq: 250, open_d: 0x00, rf_mux_ploy: 0x02, tf_c: 0x11, xtal_cap20p: 0x00, xtal_cap10p: 0x00, xtal_cap0p: 0x00 });
    v.push(FreqRange { freq: 280, open_d: 0x00, rf_mux_ploy: 0x02, tf_c: 0x00, xtal_cap20p: 0x00, xtal_cap10p: 0x00, xtal_cap0p: 0x00 });
    v.push(FreqRange { freq: 310, open_d: 0x00, rf_mux_ploy: 0x41, tf_c: 0x00, xtal_cap20p: 0x00, xtal_cap10p: 0x00, xtal_cap0p: 0x00 });
    v.push(FreqRange { freq: 450, open_d: 0x00, rf_mux_ploy: 0x41, tf_c: 0x00, xtal_cap20p: 0x00, xtal_cap10p: 0x00, xtal_cap0p: 0x00 });
    v.push(FreqRange { freq: 588, open_d: 0x00, rf_mux_ploy: 0x40, tf_c: 0x00, xtal_cap20p: 0x00, xtal_cap10p: 0x00, xtal_cap0p: 0x00 });
    v.push(FreqRange { freq: 650, open_d: 0x00, rf_mux_ploy: 0x40, tf_c: 0x00, xtal_cap20p: 0x00, xtal_cap10p: 0x00, xtal_cap0p: 0x00 });
    assert(v@ =~= freq_ranges_spec());
    v
}

/// The five crystal-capacitance candidates, coarsest first, each with the
/// bit pattern that selects it.
pub open spec fn xtal_caps_spec() -> Seq<(u8, XtalCapValue)> {
    seq![
        (0x0b, XtalCapValue::XtalLowCap30P),
        (0x02, XtalCapValue::XtalLowCap20P),
        (0x01, XtalCapValue::XtalLowCap10P),
        (0x00, XtalCapValue::XtalLowCap0P),
        (0x10, XtalCapValue::XtalHighCap0P),
    ]
}

/// The crystal-capacitance candidates as a vector, coarsest first.
pub fn xtal_caps() -> (v: Vec<(u8, XtalCapValue)>)
    ensures
        v@ == xtal_caps_spec(),
{
    let mut v: Vec<(u8, XtalCapValue)> = Vec::new();
    v.push((0x0b, XtalCapValue::XtalLowCap30P));
    v.push((0x02, XtalCapValue::XtalLowCap20P));
    v.push((0x01, XtalCapValue::XtalLowCap10P));
    v.push((0x00, XtalCapValue::XtalLowCap0P));
    v.push((0x10, XtalCapValue::XtalHighCap0P));
    assert(v@ =~= xtal_caps_spec());
    v
}

/// The crystal-capacitance bit pattern written for a selected setting in a
/// given band: the low-cap settings use the band's patterns, the 30 pF
/// setting additionally drives the coarse bit, and the high-cap setting
/// drives the high-cap bit.
pub open spec fn xtal_cap_pattern(sel: XtalCapValue, row: FreqRange) -> u8 {
    match sel {
        XtalCapValue::XtalLowCap30P => row.xtal_cap20p | 0x08,
        XtalCapValue::XtalLowCap20P => row.xtal_cap20p,
        XtalCapValue::XtalLowCap10P => row.xtal_cap10p,
        XtalCapValue::XtalLowCap0P => row.xtal_cap0p,
        XtalCapValue::XtalHighCap0P => row.xtal_cap0p | 0x10,
    }
}

/// Selects the table row for a target RF frequency in megahertz: the row
/// with the greatest band start not exceeding the target; targets above the
/// whole table use the last row.
pub fn pick_range(freq_mhz: u32) -> (r: FreqRange)
    ensures
        r == freq_range_for(freq_mhz),
{
    let t = freq_ranges();
    let mut i: usize = 20;
    loop
        invariant
            t@ == freq_ranges_spec(),
            0 <= i <= 20,
            range_index(freq_mhz) == range_index_from(freq_mhz, i as int),
        decreases i,
    {
        if t[i].freq <= freq_mhz {
            return t[i];
        }
        if i == 0 {
            return t[0];
        }
        proof {
            assert(range_index_from(freq_mhz, i as int) == range_index_from(
                freq_mhz,
                i as int - 1,
            ));
        }
        i = i - 1;
    }
}

/// The initial shadow contents as a vector.
pub fn initial_regs() -> (v: Vec<u8>)
    ensures
        v@ == initial_regs_spec(),
{
    let v: Vec<u8> = vec![
        0x83, 0x32, 0x75, 0xc0, 0x40, 0xd6, 0x6c, 0xf5, 0x63, 0x75, 0x68, 0x6c, 0x83, 0x80, 0x00,
        0x0f, 0x00, 0xc0, 0x30, 0x48, 0xcc, 0x60, 0x00, 0x54, 0xae, 0x4a, 0xc0,
    ];
    assert(v@ =~= initial_regs_spec());
    v
}

/// Reverses the bit order of a byte through the 4-bit-nibble lookup table,
/// as burst transfers to the chip require: its internal bit ordering is
/// reversed relative to host byte order.
pub fn bitrev(byte: u8) -> (r: u8)
    ensures
        r == bitrev_spec(byte),
{
    proof {
        assert(byte & 0xf < 16) by (bit_vector);
        assert(byte >> 4 < 16) by (bit_vector);
    }
    let lo: u8 = rev_nibble(byte & 0xf);
    let hi: u8 = rev_nibble(byte >> 4);
    (lo << 4) | hi
}

/// The nibble-reversal lookup table.
fn rev_nibble(n: u8) -> (r: u8)
    requires
        n < 16,
    ensures
        r == rev4(n),
{
    match n {
        0x0 => 0x0,
        0x1 => 0x8,
        0x2 => 0x4,
        0x3 => 0xc,
        0x4 => 0x2,
        0x5 => 0xa,
        0x6 => 0x6,
        0x7 => 0xe,
        0x8 => 0x1,
        0x9 => 0x9,
        0xa => 0x5,
        0xb => 0xd,
        0xc => 0x3,
        0xd => 0xb,
        0xe => 0x7,
        _ => 0xf,
    }
}

/// The descriptor of the R820T in the tuner catalog.
pub fn r820t_tuner_info() -> (r: TunerInfo)
    ensures
        r == crate::tuner::catalog_spec()[0],
{
    let r = TunerInfo { id: TunerId::R820t, i2c_addr: 0x34, check_addr: 0x00, check_val: 0x69 };
    assert(r == crate::tuner::catalog_spec()[0]);
    r
}

/// The R820T driver: the tuner's descriptor, its static configuration, the
/// register-shadow cache, and the mutable tuner state.
pub struct R820T {
    /// The catalog descriptor of the chip.
    pub device: TunerInfo,
    /// The driver's static configuration.
    pub config: Config,
    /// The register-shadow cache: entry `i` holds the last value
    /// successfully written to chip register `REG_SHADOW_START + i`.
    pub regs: Vec<u8>,
    /// The crystal-capacitance setting calibration selected.
    pub xtal_cap_sel: XtalCapValue,
    /// The last programmed PLL value, in kilohertz.
    pub pll: u16,
    /// The last programmed IF frequency, in hertz.
    pub int_freq: u32,
    /// The filter calibration code.
    pub fil_cal_code: u8,
    /// Which signal input is selected.
    pub input: u8,
    /// Whether the PLL reported lock during calibration.
    pub has_lock: bool,
    /// Whether the driver has been initialized.
    pub init_done: bool,
    /// The last programmed bandwidth, in hertz.
    pub bw: u32,
}

/// The parts of the driver state that a shadow update leaves alone.
pub open spec fn same_but_regs(a: R820T, b: R820T) -> bool {
    &&& a.device == b.device
    &&& a.config == b.config
    &&& a.xtal_cap_sel == b.xtal_cap_sel
    &&& a.pll == b.pll
    &&& a.int_freq == b.int_freq
    &&& a.fil_cal_code == b.fil_cal_code
    &&& a.input == b.input
    &&& a.has_lock == b.has_lock
    &&& a.init_done == b.init_done
    &&& a.bw == b.bw
}

impl R820T {
    /// The shadow covers every register it is declared to cover.
    pub open spec fn wf(&self) -> bool {
        self.regs@.len() == NUM_REGS
    }

    /// A fresh driver: the shadow is seeded from the reset-default table,
    /// and the state is uninitialized.
    pub fn new() -> (t: R820T)
        ensures
            t.wf(),
            t.regs@ == initial_regs_spec(),
            t.device == crate::tuner::catalog_spec()[0],
            t.xtal_cap_sel == XtalCapValue::XtalHighCap0P,
            !t.has_lock,
            !t.init_done,
            t.int_freq == 0,
            t.bw == 0,
    {
        R820T {
            device: r820t_tuner_info(),
            config: Config {
                i2c_addr: R820T_I2C_ADDR,
                xtal: crate::baseband::DEF_RTL_XTAL_FREQ,
                chip: Chip::R820T,
                max_i2c_msg_len: 8,
                use_predetect: false,
            },
            regs: initial_regs(),
            xtal_cap_sel: XtalCapValue::XtalHighCap0P,
            pll: 0,
            int_freq: 0,
            fil_cal_code: 0,
            input: 0,
            has_lock: false,
            init_done: false,
            bw: 0,
        }
    }

    /// Stores a value in the shadow entry of chip register `reg`; reports
    /// whether the register has a shadow entry at all.
    pub fn shadow_store(&mut self, reg: u8, val: u8) -> (ok: bool)
        requires
            old(self).wf(),
        ensures
            final(self).wf(),
            same_but_regs(*final(self), *old(self)),
            ok == shadow_in_range(reg),
            ok ==> final(self).regs@ == old(self).regs@.update(shadow_index(reg), val),
            !ok ==> final(self).regs@ == old(self).regs@,
    {
        if reg >= REG_SHADOW_START && (reg as usize) < REG_SHADOW_START as usize + NUM_REGS {
            let idx = (reg - REG_SHADOW_START) as usize;
            self.regs.set(idx, val);
            true
        } else {
            false
        }
    }

    /// Reads the shadow entry of chip register `reg`, or `None` when the
    /// register has no shadow entry: the chip itself cannot be read back.
    pub fn read_cache_reg(&self, reg: u8) -> (r: Option<u8>)
        requires
            self.wf(),
        ensures
            r == if shadow_in_range(reg) {
                Some(self.regs@[shadow_index(reg)])
            } else {
                None::<u8>
            },
    {
        if reg >= REG_SHADOW_START && (reg as usize) < REG_SHADOW_START as usize + NUM_REGS {
            Some(self.regs[(reg - REG_SHADOW_START) as usize])
        } else {
            None
        }
    }

    /// Writes one chip register over I2C and updates its shadow entry
    /// together with the transfer: the shadow changes exactly when the
    /// write was successfully issued.  A register without a shadow entry is
    /// rejected outright, with nothing read or written out of bounds.
    pub fn write_reg(
        &mut self,
        handle: &mut RtlSdrDeviceHandle,
        reg: u8,
        val: u8,
    ) -> (r: Result<(), RtlError>)
        requires
            old(self).wf(),
        ensures
            final(self).wf(),
            same_but_regs(*final(self), *old(self)),
            final(handle).is_sim() == old(handle).is_sim(),
            !shadow_in_range(reg) ==> r == Err::<(), RtlError>(RtlError::InvalidArgument)
                && *final(self) == *old(self) && *final(handle) == *old(handle),
            r is Ok ==> final(self).regs@ == old(self).regs@.update(shadow_index(reg), val),
            r is Err ==> final(self).regs@ == old(self).regs@,
            shadow_in_range(reg) && old(handle).is_sim() ==> ({
                let pre = old(handle).sim();
                let post = final(handle).sim();
                &&& crate::sim::sim_out_state(
                    pre,
                    post,
                    old(self).device.i2c_addr as u16,
                    crate::codec::block_out_index(6),
                    seq![reg, val],
                )
                &&& r == if pre.fail_out {
                    Err::<(), RtlError>(RtlError::Transport)
                } else {
                    Ok::<(), RtlError>(())
                }
            }),
    {
        if !(reg >= REG_SHADOW_START && (reg as usize) < REG_SHADOW_START as usize + NUM_REGS) {
            return Err(RtlError::InvalidArgument);
        }
        match handle.i2c_write_reg(self.device.i2c_addr, reg, val) {
            Ok(_) => {
                self.shadow_store(reg, val);
                Ok(())
            },
            Err(e) => Err(e),
        }
    }

    /// Changes a subset of a register's bits through the shadow: the new
    /// value keeps every bit outside the mask from the shadow and takes the
    /// bits inside the mask from `val`.  This is the only sound way to
    /// change part of a write-only register.  An out-of-range register is
    /// rejected outright.
    pub fn write_reg_mask(
        &mut self,
        handle: &mut RtlSdrDeviceHandle,
        reg: u8,
        val: u8,
        bit_mask: u8,
    ) -> (r: Result<(), RtlError>)
        requires
            old(self).wf(),
        ensures
            final(self).wf(),
            same_but_regs(*final(self), *old(self)),
            final(handle).is_sim() == old(handle).is_sim(),
            !shadow_in_range(reg) ==> r == Err::<(), RtlError>(RtlError::InvalidArgument)
                && *final(self) == *old(self) && *final(handle) == *old(handle),
            r is Ok ==> shadow_in_range(reg) && final(self).regs@ == old(self).regs@.update(
                shadow_index(reg),
                masked_val(old(self).regs@[shadow_index(reg)], val, bit_mask),
            ),
            r is Err ==> final(self).regs@ == old(self).regs@,
            shadow_in_range(reg) && old(handle).is_sim() ==> ({
                let pre = old(handle).sim();
                let post = final(handle).sim();
                &&& crate::sim::sim_out_state(
                    pre,
                    post,
                    old(self).device.i2c_addr as u16,
                    crate::codec::block_out_index(6),
                    seq![reg, masked_val(old(self).regs@[shadow_index(reg)], val, bit_mask)],
                )
                &&& r == if pre.fail_out {
                    Err::<(), RtlError>(RtlError::Transport)
                } else {
                    Ok::<(), RtlError>(())
                }
            }),
    {
        let rc = match self.read_cache_reg(reg) {
            Some(rc) => rc,
            None => {
                return Err(RtlError::InvalidArgument);
            },
        };
        let masked: u8 = (rc & !bit_mask) | (val & bit_mask);
        self.write_reg(handle, reg, masked)
    }

    /// Writes a burst of consecutive chip registers: one I2C array write of
    /// the start register followed by every value in chip bit order, that
    /// is, bit-reversed.  The shadow entries of the whole range are updated
    /// with the logical values exactly when the transfer was issued; a
    /// range that leaves the shadow is rejected outright.
    pub fn write(
        &mut self,
        handle: &mut RtlSdrDeviceHandle,
        reg: u8,
        vals: &[u8],
    ) -> (r: Result<(), RtlError>)
        requires
            old(self).wf(),
        ensures
            final(self).wf(),
            same_but_regs(*final(self), *old(self)),
            final(handle).is_sim() == old(handle).is_sim(),
            !burst_in_range(reg, vals@.len() as int) ==> r == Err::<(), RtlError>(
                RtlError::InvalidArgument,
            ) && *final(self) == *old(self) && *final(handle) == *old(handle),
            r is Ok ==> final(self).regs@ == burst_updated(old(self).regs@, reg, vals@),
            r is Err ==> final(self).regs@ == old(self).regs@,
            burst_in_range(reg, vals@.len() as int) && old(handle).is_sim() ==> ({
                let pre = old(handle).sim();
                let post = final(handle).sim();
                &&& post.log@ == pre.log@.push(
                    (crate::sim::XferRec {
                        dir_in: false,
                        value: old(self).device.i2c_addr as u16,
                        index: crate::codec::block_out_index(6),
                        b0: reg,
                        b1: bitrev_spec(vals@[0]),
                        len: (vals@.len() + 1) as u8,
                    }),
                )
                &&& sim_cfg_unchanged(pre, post)
                &&& post.i2c_ptr == if !pre.fail_out {
                    Some((old(self).device.i2c_addr, reg))
                } else {
                    pre.i2c_ptr
                }
                &&& r == if pre.fail_out {
                    Err::<(), RtlError>(RtlError::Transport)
                } else {
                    Ok::<(), RtlError>(())
                }
            }),
    {
        if !(reg >= REG_SHADOW_START && vals.len() >= 1 && vals.len() <= 254 && (reg as usize
            - REG_SHADOW_START as usize) + vals.len() <= NUM_REGS) {
            return Err(RtlError::InvalidArgument);
        }
        let mut data: Vec<u8> = Vec::new();
        data.push(reg);
        let mut k: usize = 0;
        while k < vals.len()
            invariant
                k <= vals@.len(),
                1 <= vals@.len() <= 254,
                data@.len() == k + 1,
                data@[0] == reg,
                k >= 1 ==> data@[1] == bitrev_spec(vals@[0]),
            decreases vals@.len() - k,
        {
            data.push(bitrev(vals[k]));
            k = k + 1;
        }
        proof {
            assert(i2c_addr_cast_identity(old(self).device.i2c_addr));
            assert(((6u16 << 8) | 0x10) >> 8 == 6) by (bit_vector);
        }
        match handle.i2c_write(self.device.i2c_addr, data.as_slice()) {
            Ok(_) => {
                let ghost orig = self.regs@;
                let mut k2: usize = 0;
                while k2 < vals.len()
                    invariant
                        k2 <= vals@.len(),
                        self.wf(),
                        same_but_regs(*self, *old(self)),
                        REG_SHADOW_START <= reg,
                        (reg - REG_SHADOW_START) + vals@.len() <= NUM_REGS,
                        self.regs@.len() == orig.len(),
                        forall|i: int|
                            0 <= i < orig.len() ==> self.regs@[i] == if shadow_index(reg) <= i
                                < shadow_index(reg) + k2 {
                                vals@[i - shadow_index(reg)]
                            } else {
                                orig[i]
                            },
                    decreases vals@.len() - k2,
                {
                    let target: u8 = reg + (k2 as u8);
                    self.shadow_store(target, vals[k2]);
                    k2 = k2 + 1;
                }
                proof {
                    assert(self.regs@ =~= burst_updated(orig, reg, vals@));
                }
                Ok(())
            },
            Err(e) => Err(e),
        }
    }

    /// Reads a burst of bytes from the chip: writes the start register,
    /// reads back, and undoes the chip's reversed bit order on each byte.
    pub fn read(
        &self,
        handle: &mut RtlSdrDeviceHandle,
        reg: u8,
        len: u8,
    ) -> (r: Result<Vec<u8>, RtlError>)
        requires
            1 <= len,
        ensures
            final(handle).is_sim() == old(handle).is_sim(),
            r matches Ok(d) ==> d@.len() == len as nat,
            old(handle).is_sim() ==> ({
                let pre = old(handle).sim();
                &&& sim_cfg_unchanged(pre, final(handle).sim())
                &&& (r is Ok <==> len == 1 && i2c_read_result(
                    pre,
                    self.device.i2c_addr,
                    reg,
                ) is Ok)
                &&& (r matches Ok(d) ==> (i2c_read_result(
                    pre,
                    self.device.i2c_addr,
                    reg,
                ) matches Ok(v)
                    && d@ == seq![bitrev_spec(v)]))
                &&& (r matches Err(e) ==> e == RtlError::Transport)
            }),
    {
        proof {
            assert(i2c_addr_cast_identity(self.device.i2c_addr));
            assert(((6u16 << 8) | 0x10) >> 8 == 6) by (bit_vector);
            assert((6u16 << 8) >> 8 == 6) by (bit_vector);
        }
        let mut rv: Vec<u8> = Vec::new();
        rv.push(reg);
        assert(rv@ =~= seq![reg]);
        match handle.i2c_write(self.device.i2c_addr, rv.as_slice()) {
            Ok(_) => {
                match handle.i2c_read(self.device.i2c_addr, len) {
                    Ok(d) => {
                        let mut out: Vec<u8> = Vec::new();
                        let mut k: usize = 0;
                        while k < d.len()
                            invariant
                                k <= d@.len(),
                                out@.len() == k,
                                forall|i: int| 0 <= i < k ==> out@[i] == bitrev_spec(d@[i]),
                            decreases d@.len() - k,
                        {
                            out.push(bitrev(d[k]));
                            k = k + 1;
                        }
                        proof {
                            if old(handle).is_sim() {
                                let pre = old(handle).sim();
                                match i2c_read_result(pre, self.device.i2c_addr, reg) {
                                    Ok(v) => {
                                        assert(d@ =~= seq![v]);
                                        assert(out@ =~= seq![bitrev_spec(v)]);
                                    },
                                    Err(_) => {},
                                }
                            }
                        }
                        Ok(out)
                    },
                    Err(e) => Err(e),
                }
            },
            Err(e) => Err(e),
        }
    }
}

/// Whether a burst write of `n` values starting at chip register `reg`
/// stays inside the shadow.
pub open spec fn burst_in_range(reg: u8, n: int) -> bool {
    &&& REG_SHADOW_START <= reg
    &&& 1 <= n <= 254
    &&& shadow_index(reg) + n <= NUM_REGS
}

/// The shadow contents after a burst write of `vals` starting at chip
/// register `reg`.
pub open spec fn burst_updated(regs: Seq<u8>, reg: u8, vals: Seq<u8>) -> Seq<u8> {
    Seq::new(
        regs.len(),
        |i: int|
            if shadow_index(reg) <= i < shadow_index(reg) + vals.len() {
                vals[i - shadow_index(reg)]
            } else {
                regs[i]
            },
    )
}

/// A byte survives the round trip through a 16-bit request value.
pub open spec fn i2c_addr_cast_identity(a: u8) -> bool {
    (a as u16) as u8 == a
}

/// Whether the PLL-lock probe of the chip at `addr` reports lock on the
/// simulated device: its lock register answers with the lock bit set.
/// Register 0x02, bit 0x40 is the chip's own lock-status convention, read
/// back over I2C during calibration.
pub open spec fn lock_detected(pre: crate::sim::SimDevice, addr: u8) -> bool {
    match i2c_read_result(pre, addr, 0x02) {
        Ok(v) => v & 0x40 != 0,
        Err(_) => false,
    }
}

/// The parts of the driver state that calibration leaves alone.
pub open spec fn same_but_cal(a: R820T, b: R820T) -> bool {
    &&& a.device == b.device
    &&& a.config == b.config
    &&& a.pll == b.pll
    &&& a.int_freq == b.int_freq
    &&& a.fil_cal_code == b.fil_cal_code
    &&& a.input == b.input
    &&& a.init_done == b.init_done
    &&& a.bw == b.bw
}

impl R820T {
    /// Reads the chip's lock register and reports whether the PLL is
    /// locked; a failed read reports no lock.
    fn check_lock(&self, handle: &mut RtlSdrDeviceHandle) -> (b: bool)
        ensures
            final(handle).is_sim() == old(handle).is_sim(),
            old(handle).is_sim() ==> ({
                &&& sim_cfg_unchanged(old(handle).sim(), final(handle).sim())
                &&& b == lock_detected(old(handle).sim(), self.device.i2c_addr)
            }),
    {
        match handle.i2c_read_reg(self.device.i2c_addr, 0x02) {
            Ok(v) => (v & 0x40) != 0,
            Err(_) => false,
        }
    }

    /// Crystal-capacitance calibration: tries the five candidate settings
    /// from coarsest to finest, retains the first one under which the PLL
    /// reports lock, and falls back to the high-cap default when none
    /// locks.  The winning selection is kept in the tuner state and reused
    /// by later band changes.
    pub fn calibrate_xtal_cap(
        &mut self,
        handle: &mut RtlSdrDeviceHandle,
    ) -> (r: Result<XtalCapValue, RtlError>)
        requires
            old(self).wf(),
        ensures
            final(self).wf(),
            same_but_cal(*final(self), *old(self)),
            final(handle).is_sim() == old(handle).is_sim(),
            r == Ok::<XtalCapValue, RtlError>(final(self).xtal_cap_sel),
            old(handle).is_sim() ==> ({
                let pre = old(handle).sim();
                let locked = !pre.fail_out && lock_detected(pre, old(self).device.i2c_addr);
                &&& sim_cfg_unchanged(pre, final(handle).sim())
                &&& final(self).xtal_cap_sel == if locked {
                    XtalCapValue::XtalLowCap30P
                } else {
                    XtalCapValue::XtalHighCap0P
                }
                &&& final(self).has_lock == locked
                &&& (pre.fail_out ==> final(self).regs@ == old(self).regs@)
                &&& (!pre.fail_out && locked ==> final(self).regs@ == old(self).regs@.update(
                    11,
                    masked_val(old(self).regs@[11], 0x0b, 0x1b),
                ))
                &&& (!pre.fail_out && !locked ==> final(self).regs@ == old(self).regs@.update(
                    11,
                    masked_val(old(self).regs@[11], 0x10, 0x1b),
                ))
            }),
    {
        proof {
            assert(forall|x: u8, y: u8, z: u8|
                ((((x & !0x1bu8) | (y & 0x1bu8)) & !0x1bu8) | (z & 0x1bu8)) == ((x & !0x1bu8) | (z
                    & 0x1bu8))) by (bit_vector);
        }
        let w1 = self.write_reg_mask(handle, 0x10, 0x0b, 0x1b);
        if w1.is_ok() {
            if self.check_lock(handle) {
                self.xtal_cap_sel = XtalCapValue::XtalLowCap30P;
                self.has_lock = true;
                return Ok(XtalCapValue::XtalLowCap30P);
            }
        }
        let w2 = self.write_reg_mask(handle, 0x10, 0x02, 0x1b);
        if w2.is_ok() {
            if self.check_lock(handle) {
                self.xtal_cap_sel = XtalCapValue::XtalLowCap20P;
                self.has_lock = true;
                return Ok(XtalCapValue::XtalLowCap20P);
            }
        }
        let w3 = self.write_reg_mask(handle, 0x10, 0x01, 0x1b);
        if w3.is_ok() {
            if self.check_lock(handle) {
                self.xtal_cap_sel = XtalCapValue::XtalLowCap10P;
                self.has_lock = true;
                return Ok(XtalCapValue::XtalLowCap10P);
            }
        }
        let w4 = self.write_reg_mask(handle, 0x10, 0x00, 0x1b);
        if w4.is_ok() {
            if self.check_lock(handle) {
                self.xtal_cap_sel = XtalCapValue::XtalLowCap0P;
                self.has_lock = true;
                return Ok(XtalCapValue::XtalLowCap0P);
            }
        }
        let w5 = self.write_reg_mask(handle, 0x10, 0x10, 0x1b);
        let _ = w5;
        self.xtal_cap_sel = XtalCapValue::XtalHighCap0P;
        self.has_lock = false;
        Ok(XtalCapValue::XtalHighCap0P)
    }

    /// Reconfigures the analog front end for a band: looks the target
    /// frequency up in the range table and applies the row's open-drain,
    /// RF-mux/polyphase, tracking-filter, and crystal-capacitance patterns
    /// through masked writes.
    pub fn apply_freq_range(
        &mut self,
        handle: &mut RtlSdrDeviceHandle,
        freq_mhz: u32,
    ) -> (r: Result<(), RtlError>)
        requires
            old(self).wf(),
        ensures
            final(self).wf(),
            same_but_regs(*final(self), *old(self)),
            final(handle).is_sim() == old(handle).is_sim(),
            old(handle).is_sim() ==> ({
                let pre = old(handle).sim();
                let row = freq_range_for(freq_mhz);
                let r0 = old(self).regs@;
                &&& sim_cfg_unchanged(pre, final(handle).sim())
                &&& (pre.fail_out ==> r == Err::<(), RtlError>(RtlError::Transport)
                    && final(self).regs@ == r0)
                &&& (!pre.fail_out ==> r == Ok::<(), RtlError>(()) && final(self).regs@
                    == r0.update(18, masked_val(r0[18], row.open_d, 0x08)).update(
                    21,
                    masked_val(r0[21], row.rf_mux_ploy, 0xc3),
                ).update(22, masked_val(r0[22], row.tf_c, 0xff)).update(
                    11,
                    masked_val(r0[11], xtal_cap_pattern(old(self).xtal_cap_sel, row), 0x1b),
                ))
            }),
    {
        let row = pick_range(freq_mhz);
        match self.write_reg_mask(handle, 0x17, row.open_d, 0x08) {
            Ok(_) => {},
            Err(e) => {
                return Err(e);
            },
        }
        match self.write_reg_mask(handle, 0x1a, row.rf_mux_ploy, 0xc3) {
            Ok(_) => {},
            Err(e) => {
                return Err(e);
            },
        }
        match self.write_reg_mask(handle, 0x1b, row.tf_c, 0xff) {
            Ok(_) => {},
            Err(e) => {
                return Err(e);
            },
        }
        let cap: u8 = match self.xtal_cap_sel {
            XtalCapValue::XtalLowCap30P => row.xtal_cap20p | 0x08,
            XtalCapValue::XtalLowCap20P => row.xtal_cap20p,
            XtalCapValue::XtalLowCap10P => row.xtal_cap10p,
            XtalCapValue::XtalLowCap0P => row.xtal_cap0p,
            XtalCapValue::XtalHighCap0P => row.xtal_cap0p | 0x10,
        };
        match self.write_reg_mask(handle, 0x10, cap, 0x1b) {
            Ok(_) => Ok(()),
            Err(e) => Err(e),
        }
    }

    /// Brings the driver to its ready state: disables the demodulator's
    /// zero-IF mode, enables only the in-phase ADC input, programs the
    /// tuner's IF frequency, and enables spectrum inversion.  Construction
    /// fails hard on any failed step, leaving the driver uninitialized.
    pub fn init(&mut self, handle: &mut RtlSdrDeviceHandle) -> (r: Result<(), RtlError>)
        requires
            old(self).wf(),
        ensures
            final(self).wf(),
            final(self).regs@ == old(self).regs@,
            final(handle).is_sim() == old(handle).is_sim(),
            r is Err ==> *final(self) == *old(self),
            r is Ok ==> final(self).init_done && final(self).int_freq == R820T_IF_FREQ
                && same_but_init(*final(self), *old(self)),
            old(handle).is_sim() ==> ({
                let pre = old(handle).sim();
                let post = final(handle).sim();
                &&& crate::baseband::sim_preserved(pre, post)
                &&& r == if pre.fail_out || pre.fail_in {
                    Err::<(), RtlError>(RtlError::Transport)
                } else {
                    Ok::<(), RtlError>(())
                }
                &&& post.log@ == pre.log@ + (if pre.fail_out || pre.fail_in {
                    seq![demod_out_rec(1, 0xb1, 0x1a, 1), status_probe_rec()]
                } else {
                    r820t_init_recs()
                })
            }),
    {
        proof {
            if old(handle).is_sim() {
                assert(r820t_init_recs().len() == 12);
            }
        }
        match handle.demod_write_reg(1, 0xb1, 0x1a, 1) {
            Ok(_) => {},
            Err(e) => {
                proof {
                    if old(handle).is_sim() {
                        assert(handle.sim().log@ =~= old(handle).sim().log@ + seq![
                            demod_out_rec(1, 0xb1, 0x1a, 1),
                            status_probe_rec(),
                        ]);
                    }
                }
                return Err(e);
            },
        }
        match handle.demod_write_reg(0, 0x08, 0x4d, 1) {
            Ok(_) => {},
            Err(e) => {
                return Err(e);
            },
        }
        match handle.set_if_freq(R820T_IF_FREQ) {
            Ok(_) => {},
            Err(e) => {
                return Err(e);
            },
        }
        match handle.demod_write_reg(1, 0x15, 0x01, 1) {
            Ok(_) => {},
            Err(e) => {
                return Err(e);
            },
        }
        proof {
            if old(handle).is_sim() {
                assert(handle.sim().log@ =~= old(handle).sim().log@ + r820t_init_recs());
            }
        }
        self.int_freq = R820T_IF_FREQ;
        self.init_done = true;
        Ok(())
    }

    /// Shuts the driver down; the session layer releases its claim on the
    /// I2C repeater.
    pub fn exit(&mut self) -> (r: Result<(), RtlError>)
        ensures
            r == Ok::<(), RtlError>(()),
            !final(self).init_done,
            final(self).regs@ == old(self).regs@,
            same_but_init(*final(self), *old(self)),
    {
        self.init_done = false;
        Ok(())
    }

    /// Tunes to an RF frequency.  The PLL synthesis this needs is an
    /// explicit, currently unfilled extension point: the call fails rather
    /// than silently doing nothing.  Band reconfiguration alone is
    /// available as [`R820T::apply_freq_range`].
    pub fn set_freq(&mut self, _freq: u32) -> (r: Result<(), RtlError>)
        ensures
            r == Err::<(), RtlError>(RtlError::UnsupportedOperation),
            *final(self) == *old(self),
    {
        Err(RtlError::UnsupportedOperation)
    }

    /// Programs the channel bandwidth: an explicit, currently unfilled
    /// extension point.  Only the wide-open threshold check (more than
    /// 7 MHz needs no narrowing filter) is known; selecting a realized
    /// bandwidth and the two filter registers is not, so either way the
    /// call fails with `UnsupportedOperation` and issues no transfer,
    /// never a silent no-op.
    pub fn set_bandwidth(
        &mut self,
        _bw: u32,
        _rate: u32,
        _handle: &mut RtlSdrDeviceHandle,
    ) -> (r: Result<(), RtlError>)
        ensures
            r == Err::<(), RtlError>(RtlError::UnsupportedOperation),
            *final(self) == *old(self),
            *final(_handle) == *old(_handle),
    {
        Err(RtlError::UnsupportedOperation)
    }

    /// Sets the tuner gain: an explicit, currently unfilled extension
    /// point.
    pub fn set_gain(&mut self, _gain: u32) -> (r: Result<(), RtlError>)
        ensures
            r == Err::<(), RtlError>(RtlError::UnsupportedOperation),
            *final(self) == *old(self),
    {
        Err(RtlError::UnsupportedOperation)
    }

    /// Sets the IF gain: an explicit, currently unfilled extension point.
    pub fn set_if_gain(&mut self, _if_gain: u32) -> (r: Result<(), RtlError>)
        ensures
            r == Err::<(), RtlError>(RtlError::UnsupportedOperation),
            *final(self) == *old(self),
    {
        Err(RtlError::UnsupportedOperation)
    }

    /// Sets manual or automatic gain: an explicit, currently unfilled
    /// extension point.
    pub fn set_gain_mode(&mut self, _mode: bool) -> (r: Result<(), RtlError>)
        ensures
            r == Err::<(), RtlError>(RtlError::UnsupportedOperation),
            *final(self) == *old(self),
    {
        Err(RtlError::UnsupportedOperation)
    }

    /// The display name of the chip.
    pub fn display(&self) -> (r: &'static str)
        ensures
            r@ == "Rafael Micro R820T"@,
    {
        "Rafael Micro R820T"
    }
}

/// The transfers the R820T's bring-up issues when every write succeeds:
/// zero-IF mode off, in-phase ADC input only, the three IF-frequency
/// registers, and spectrum inversion on.
pub open spec fn r820t_init_recs() -> Seq<crate::sim::XferRec> {
    let v = crate::baseband::if_reg_spec(R820T_IF_FREQ);
    seq![
        demod_out_rec(1, 0xb1, 0x1a, 1),
        status_probe_rec(),
        demod_out_rec(0, 0x08, 0x4d, 1),
        status_probe_rec(),
        demod_out_rec(1, 0x19, (((v >> 16) & 0x3f) as u16), 1),
        status_probe_rec(),
        demod_out_rec(1, 0x1a, (((v >> 8) & 0xff) as u16), 1),
        status_probe_rec(),
        demod_out_rec(1, 0x1b, ((v & 0xff) as u16), 1),
        status_probe_rec(),
        demod_out_rec(1, 0x15, 0x01, 1),
        status_probe_rec(),
    ]
}

/// The parts of the driver state that initialization and shutdown leave
/// alone.
pub open spec fn same_but_init(a: R820T, b: R820T) -> bool {
    &&& a.device == b.device
    &&& a.config == b.config
    &&& a.xtal_cap_sel == b.xtal_cap_sel
    &&& a.pll == b.pll
    &&& a.fil_cal_code == b.fil_cal_code
    &&& a.input == b.input
    &&& a.has_lock == b.has_lock
    &&& a.bw == b.bw
}

} // verus!
