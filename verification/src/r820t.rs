//! Driver for the Rafael Micro R820T silicon tuner.
//!
//! The chip has 32 8-bit registers; the 27 writable ones (5..=31) are
//! mirrored in a local cache so that masked read-modify-write updates
//! need no bus round trip.  All chip access is I2C through the
//! demodulator's repeater; reads come back bit-reversed.

use vstd::pervasive::VecAdditionalExecFns;
use vstd::prelude::*;

use crate::constants::BLOCK_IIC;

use crate::device::{arr_read_op, arr_write_op, Device};
use crate::error::RtlsdrError;
use crate::port::UsbPort;
use crate::tuner::{
    lemma_tuner_ops_push, lemma_tuner_ops_refl, tuner_ops_only, Tuner, TunerInfo, R820T_I2C_ADDR,
};
use crate::usb_model::{byte_at, UsbOp};
use crate::TunerGain;

verus! {

broadcast use crate::tuner::lemma_tuner_ops_trans_auto;

/// Identifier of this tuner model in probe tables.
pub const TUNER_ID: &'static str = "r820t";

/// Intermediate frequency used by the R82xx family, in Hz.
pub const R82XX_IF_FREQ: u32 = 3570000;

/// First writable register.
pub const RW_REG_START: usize = 5;

/// Number of cached (writable) registers: 5..=31.
pub const NUM_CACHE_REGS: usize = 27;

/// Version field written to register 0x13.
const VER_NUM: u8 = 49;

/// Probe identity of the R820T: answer 0x69 at register 0 of address
/// 0x34.
pub fn r820t_tuner_info() -> (r: TunerInfo)
    ensures
        r.i2c_addr == 0x34,
        r.check_addr == 0,
        r.check_val == 0x69,
{
    TunerInfo {
        id: TUNER_ID,
        name: "Rafael Micro R820T",
        i2c_addr: 0x34,
        check_addr: 0x00,
        check_val: 0x69,
    }
}

/// The 27-byte default register image loaded at init (registers
/// 0x05..=0x1f).
pub open spec fn spec_reg_init() -> Seq<u8> {
    seq![
        0x83u8, 0x32, 0x75, 0xc0, 0x40, 0xd6, 0x6c, 0xf5, 0x63, 0x75, 0x68, 0x6c, 0x83, 0x80,
        0x00, 0x0f, 0x00, 0xc0, 0x30, 0x48, 0xcc, 0x60, 0x00, 0x54, 0xae, 0x4a, 0xc0,
    ]
}

/// The 27-byte default register image loaded at init.
pub fn reg_init_image() -> (r: Vec<u8>)
    ensures
        r@ == spec_reg_init(),
{
    let mut v: Vec<u8> = Vec::new();
    v.push(0x83);
    v.push(0x32);
    v.push(0x75);
    v.push(0xc0);
    v.push(0x40);
    v.push(0xd6);
    v.push(0x6c);
    v.push(0xf5);
    v.push(0x63);
    v.push(0x75);
    v.push(0x68);
    v.push(0x6c);
    v.push(0x83);
    v.push(0x80);
    v.push(0x00);
    v.push(0x0f);
    v.push(0x00);
    v.push(0xc0);
    v.push(0x30);
    v.push(0x48);
    v.push(0xcc);
    v.push(0x60);
    v.push(0x00);
    v.push(0x54);
    v.push(0xae);
    v.push(0x4a);
    v.push(0xc0);
    proof {
        assert(v@ =~= spec_reg_init());
    }
    v
}

/// The gain values of the R820T in tenths of a dB.
pub open spec fn spec_r820t_gains() -> Seq<i32> {
    seq![
        0i32, 9, 14, 27, 37, 77, 87, 125, 144, 157, 166, 197, 207, 229, 254, 280, 297, 328, 338,
        364, 372, 386, 402, 421, 434, 439, 445, 480, 496,
    ]
}

/// Crystal-capacitor selection of the R820T.
#[derive(Debug, Clone, Copy, PartialEq, Eq, Structural)]
pub enum XtalCapValue {
    XtalLowCap30p,
    XtalLowCap20p,
    XtalLowCap10p,
    XtalLowCap0p,
    XtalHighCap0p,
}

/// The writable-register cache after overwriting registers
/// `reg .. reg + val.len()` with `val`.
pub open spec fn cache_store(regs: Seq<u8>, reg: int, val: Seq<u8>) -> Seq<u8> {
    regs.subrange(0, reg - 5) + val + regs.subrange(reg - 5 + val.len(), regs.len() as int)
}

/// A masked register update: bits of `mask` come from `val`, the rest
/// stay as cached.
pub open spec fn mask_apply(rc: u8, val: u8, mask: u8) -> u8 {
    (rc & !mask) | (val & mask)
}

/// The writable-register cache after one masked write.
pub open spec fn cache_masked(regs: Seq<u8>, reg: int, val: u8, mask: u8) -> Seq<u8> {
    regs.update(reg - 5, mask_apply(regs[reg - 5], val, mask))
}

/// The bus image of one masked register write against cache `c`: the
/// register byte followed by the applied value, which is also the new
/// cached byte.
pub open spec fn masked_op(c: Seq<u8>, reg: int, val: u8, mask: u8) -> UsbOp {
    arr_write_op(BLOCK_IIC, 0x34, seq![reg as u8, mask_apply(c[reg - 5], val, mask)])
}

/// The I2C messages of a register-block write starting at `reg`: each
/// message carries the register byte and at most seven data bytes.
pub open spec fn i2c_chunk_ops(reg: int, val: Seq<u8>) -> Seq<UsbOp>
    decreases val.len(),
{
    if val.len() == 0 {
        Seq::empty()
    } else if val.len() <= 7 {
        seq![arr_write_op(BLOCK_IIC, 0x34, seq![reg as u8] + val)]
    } else {
        seq![arr_write_op(BLOCK_IIC, 0x34, seq![reg as u8] + val.take(7))] + i2c_chunk_ops(
            reg + 7,
            val.skip(7),
        )
    }
}

/// The three PLL setup writes: clear refdiv2, select the 128 kHz
/// auto-tune clock, set the VCO current.
pub open spec fn pll_setup_ops(c: Seq<u8>) -> Seq<UsbOp> {
    let c1 = cache_masked(c, 0x10, 0x00, 0x10);
    let c2 = cache_masked(c1, 0x1a, 0x00, 0x0c);
    seq![
        masked_op(c, 0x10, 0x00, 0x10),
        masked_op(c1, 0x1a, 0x00, 0x0c),
        masked_op(c2, 0x12, 0x80, 0xe0),
    ]
}

/// The eleven standby writes of `exit`, in order.
pub open spec fn standby_ops() -> Seq<UsbOp> {
    seq![
        arr_write_op(BLOCK_IIC, 0x34, seq![0x06u8, 0xb1u8]),
        arr_write_op(BLOCK_IIC, 0x34, seq![0x05u8, 0xa0u8]),
        arr_write_op(BLOCK_IIC, 0x34, seq![0x07u8, 0x3au8]),
        arr_write_op(BLOCK_IIC, 0x34, seq![0x08u8, 0x40u8]),
        arr_write_op(BLOCK_IIC, 0x34, seq![0x09u8, 0xc0u8]),
        arr_write_op(BLOCK_IIC, 0x34, seq![0x0au8, 0x36u8]),
        arr_write_op(BLOCK_IIC, 0x34, seq![0x0cu8, 0x35u8]),
        arr_write_op(BLOCK_IIC, 0x34, seq![0x0fu8, 0x68u8]),
        arr_write_op(BLOCK_IIC, 0x34, seq![0x11u8, 0x03u8]),
        arr_write_op(BLOCK_IIC, 0x34, seq![0x17u8, 0xf4u8]),
        arr_write_op(BLOCK_IIC, 0x34, seq![0x19u8, 0x0cu8]),
    ]
}

/// The cache after the three masked writes of automatic gain.
pub open spec fn auto_gain_cache(c: Seq<u8>) -> Seq<u8> {
    cache_masked(cache_masked(cache_masked(c, 0x05, 0x00, 0x10), 0x07, 0x10, 0x10), 0x0c, 0x0b, 0x9f)
}

/// The three masked writes of automatic gain: LNA auto, mixer auto,
/// fixed VGA.
pub open spec fn auto_gain_ops(c: Seq<u8>) -> Seq<UsbOp> {
    let c1 = cache_masked(c, 0x05, 0x00, 0x10);
    let c2 = cache_masked(c1, 0x07, 0x10, 0x10);
    seq![
        masked_op(c, 0x05, 0x00, 0x10),
        masked_op(c1, 0x07, 0x10, 0x10),
        masked_op(c2, 0x0c, 0x0b, 0x9f),
    ]
}

/// One LNA gain step, in tenths of a dB.
pub open spec fn spec_lna_step(i: int) -> int {
    if i == 0 { 0 } else if i == 1 { 9 } else if i == 2 { 13 } else if i == 3 { 40 }
    else if i == 4 { 38 } else if i == 5 { 13 } else if i == 6 { 31 } else if i == 7 { 22 }
    else if i == 8 { 26 } else if i == 9 { 31 } else if i == 10 { 26 } else if i == 11 { 14 }
    else if i == 12 { 19 } else if i == 13 { 5 } else if i == 14 { 35 } else { 13 }
}

/// One mixer gain step, in tenths of a dB.
pub open spec fn spec_mixer_step(i: int) -> int {
    if i == 0 { 0 } else if i == 1 { 5 } else if i == 2 { 10 } else if i == 3 { 10 }
    else if i == 4 { 19 } else if i == 5 { 9 } else if i == 6 { 10 } else if i == 7 { 25 }
    else if i == 8 { 17 } else if i == 9 { 10 } else if i == 10 { 8 } else if i == 11 { 16 }
    else if i == 12 { 13 } else if i == 13 { 6 } else if i == 14 { 3 } else { -8 }
}

/// The alternating walk over the LNA and mixer gain tables: indices
/// grow until the accumulated steps reach the request or fifteen
/// rounds have run.
pub open spec fn gain_walk(gain: int, total: int, lna: int, mix: int, steps: int) -> (int, int)
    decreases 15 - steps,
{
    if steps >= 15 || total >= gain {
        (lna, mix)
    } else {
        let lna2 = lna + 1;
        let t2 = total + spec_lna_step(lna2);
        if t2 >= gain {
            (lna2, mix)
        } else {
            let mix2 = mix + 1;
            let t3 = t2 + spec_mixer_step(mix2);
            gain_walk(gain, t3, lna2, mix2, steps + 1)
        }
    }
}

/// The LNA and mixer indices selected for a manual gain request.
pub open spec fn spec_gain_indices(gain: int) -> (int, int) {
    gain_walk(gain, 0, 0, 0, 0)
}

/// The cache after the manual-gain write sequence.
pub open spec fn manual_gain_cache(c: Seq<u8>, gain: int) -> Seq<u8> {
    let lna = spec_gain_indices(gain).0 as u8;
    let mix = spec_gain_indices(gain).1 as u8;
    let c1 = cache_masked(c, 0x05, 0x10, 0x10);
    let c2 = cache_masked(c1, 0x07, 0x00, 0x10);
    let c3 = cache_masked(c2, 0x0c, 0x08, 0x9f);
    let c4 = cache_masked(c3, 0x05, lna, 0x0f);
    let c5 = cache_masked(c4, 0x07, mix, 0x0f);
    let c6 = cache_masked(c5, 0x05, 0x00, 0x10);
    let c7 = cache_masked(c6, 0x07, 0x10, 0x10);
    cache_masked(c7, 0x0c, 0x0b, 0x9f)
}

/// The manual-gain operations: disable both AGCs, read the chip state,
/// set the initial VGA, write the walked LNA and mixer indices, restore
/// the masked bits and the final VGA.  `d` is what the chip state read
/// delivered.
pub open spec fn manual_gain_ops(c: Seq<u8>, gain: int, d: Seq<u8>) -> Seq<UsbOp> {
    let lna = spec_gain_indices(gain).0 as u8;
    let mix = spec_gain_indices(gain).1 as u8;
    let c1 = cache_masked(c, 0x05, 0x10, 0x10);
    let c2 = cache_masked(c1, 0x07, 0x00, 0x10);
    let c3 = cache_masked(c2, 0x0c, 0x08, 0x9f);
    let c4 = cache_masked(c3, 0x05, lna, 0x0f);
    let c5 = cache_masked(c4, 0x07, mix, 0x0f);
    let c6 = cache_masked(c5, 0x05, 0x00, 0x10);
    let c7 = cache_masked(c6, 0x07, 0x10, 0x10);
    seq![
        masked_op(c, 0x05, 0x10, 0x10),
        masked_op(c1, 0x07, 0x00, 0x10),
        arr_write_op(BLOCK_IIC, 0x34, seq![0x00u8]),
        arr_read_op(BLOCK_IIC, 0x34, d),
        masked_op(c2, 0x0c, 0x08, 0x9f),
        masked_op(c3, 0x05, lna, 0x0f),
        masked_op(c4, 0x07, mix, 0x0f),
        masked_op(c5, 0x05, 0x00, 0x10),
        masked_op(c6, 0x07, 0x10, 0x10),
        masked_op(c7, 0x0c, 0x0b, 0x9f),
    ]
}

/// The byte with its bit order reversed (bit 0 to bit 7 and so on), the
/// order in which the R820T answers reads.
pub open spec fn spec_bit_reverse(b: u8) -> u8 {
    ((b & 0x01) << 7) | ((b & 0x02) << 5) | ((b & 0x04) << 3) | ((b & 0x08) << 1) | ((b & 0x10)
        >> 1) | ((b & 0x20) >> 3) | ((b & 0x40) >> 5) | ((b & 0x80) >> 7)
}

/// The byte with its bit order reversed.
pub fn bit_reverse(byte: u8) -> (r: u8)
    ensures
        r == spec_bit_reverse(byte),
{
    ((byte & 0x01) << 7) | ((byte & 0x02) << 5) | ((byte & 0x04) << 3) | ((byte & 0x08) << 1) | (
    (byte & 0x10) >> 1) | ((byte & 0x20) >> 3) | ((byte & 0x40) >> 5) | ((byte & 0x80) >> 7)
}

/// One gain step of the low-noise amplifier, in tenths of a dB.
fn lna_gain_step(i: usize) -> (r: i32)
    requires
        i < 16,
    ensures
        -10 <= r <= 50,
        r == spec_lna_step(i as int),
{
    match i {
        0 => 0,
        1 => 9,
        2 => 13,
        3 => 40,
        4 => 38,
        5 => 13,
        6 => 31,
        7 => 22,
        8 => 26,
        9 => 31,
        10 => 26,
        11 => 14,
        12 => 19,
        13 => 5,
        14 => 35,
        _ => 13,
    }
}

/// One gain step of the mixer, in tenths of a dB.
fn mixer_gain_step(i: usize) -> (r: i32)
    requires
        i < 16,
    ensures
        -10 <= r <= 50,
        r == spec_mixer_step(i as int),
{
    match i {
        0 => 0,
        1 => 5,
        2 => 10,
        3 => 10,
        4 => 19,
        5 => 9,
        6 => 10,
        7 => 25,
        8 => 17,
        9 => 10,
        10 => 8,
        11 => 16,
        12 => 13,
        13 => 6,
        14 => 3,
        _ => -8,
    }
}

/// One entry of the low-pass filter table, in Hz, widest first.
fn lp_filter_bw(i: usize) -> (r: i32)
    requires
        i < 10,
    ensures
        350_000 <= r <= 1_700_000,
        r == spec_lp_entry(i as int),
{
    match i {
        0 => 1_700_000,
        1 => 1_600_000,
        2 => 1_550_000,
        3 => 1_450_000,
        4 => 1_200_000,
        5 => 900_000,
        6 => 700_000,
        7 => 550_000,
        8 => 450_000,
        _ => 350_000,
    }
}

/// One row of the frequency-range table: open-drain, RF mux / poly mux
/// selection, tracking-filter band and crystal-capacitor codes for a
/// band of input frequencies.
struct FreqRange {
    open_d: u8,
    rf_mux_ploy: u8,
    tf_c: u8,
    xtal_cap20p: u8,
    xtal_cap10p: u8,
    xtal_cap0p: u8,
}

/// The frequency-range row covering `freq_mhz`.
spec fn spec_freq_range(freq_mhz: u32) -> FreqRange {
    if freq_mhz < 50 {
        FreqRange {
            open_d: 0x08, rf_mux_ploy: 0x02, tf_c: 0xdf, xtal_cap20p: 0x02, xtal_cap10p: 0x01,
            xtal_cap0p: 0x00,
        }
    } else if freq_mhz < 55 {
        FreqRange {
            open_d: 0x08, rf_mux_ploy: 0x02, tf_c: 0xbe, xtal_cap20p: 0x02, xtal_cap10p: 0x01,
            xtal_cap0p: 0x00,
        }
    } else if freq_mhz < 60 {
        FreqRange {
            open_d: 0x08, rf_mux_ploy: 0x02, tf_c: 0x8b, xtal_cap20p: 0x02, xtal_cap10p: 0x01,
            xtal_cap0p: 0x00,
        }
    } else if freq_mhz < 65 {
        FreqRange {
            open_d: 0x08, rf_mux_ploy: 0x02, tf_c: 0x7b, xtal_cap20p: 0x02, xtal_cap10p: 0x01,
            xtal_cap0p: 0x00,
        }
    } else if freq_mhz < 70 {
        FreqRange {
            open_d: 0x08, rf_mux_ploy: 0x02, tf_c: 0x69, xtal_cap20p: 0x02, xtal_cap10p: 0x01,
            xtal_cap0p: 0x00,
        }
    } else if freq_mhz < 75 {
        FreqRange {
            open_d: 0x08, rf_mux_ploy: 0x02, tf_c: 0x58, xtal_cap20p: 0x02, xtal_cap10p: 0x01,
            xtal_cap0p: 0x00,
        }
    } else if freq_mhz < 90 {
        FreqRange {
            open_d: 0x00, rf_mux_ploy: 0x02, tf_c: 0x44, xtal_cap20p: 0x02, xtal_cap10p: 0x01,
            xtal_cap0p: 0x00,
        }
    } else if freq_mhz < 110 {
        FreqRange {
            open_d: 0x00, rf_mux_ploy: 0x02, tf_c: 0x34, xtal_cap20p: 0x01, xtal_cap10p: 0x01,
            xtal_cap0p: 0x00,
        }
    } else if freq_mhz < 140 {
        FreqRange {
            open_d: 0x00, rf_mux_ploy: 0x02, tf_c: 0x24, xtal_cap20p: 0x01, xtal_cap10p: 0x01,
            xtal_cap0p: 0x00,
        }
    } else if freq_mhz < 180 {
        FreqRange {
            open_d: 0x00, rf_mux_ploy: 0x02, tf_c: 0x14, xtal_cap20p: 0x01, xtal_cap10p: 0x01,
            xtal_cap0p: 0x00,
        }
    } else if freq_mhz < 250 {
        FreqRange {
            open_d: 0x00, rf_mux_ploy: 0x02, tf_c: 0x13, xtal_cap20p: 0x00, xtal_cap10p: 0x00,
            xtal_cap0p: 0x00,
        }
    } else if freq_mhz < 280 {
        FreqRange {
            open_d: 0x00, rf_mux_ploy: 0x02, tf_c: 0x11, xtal_cap20p: 0x00, xtal_cap10p: 0x00,
            xtal_cap0p: 0x00,
        }
    } else if freq_mhz < 310 {
        FreqRange {
            open_d: 0x00, rf_mux_ploy: 0x02, tf_c: 0x00, xtal_cap20p: 0x00, xtal_cap10p: 0x00,
            xtal_cap0p: 0x00,
        }
    } else if freq_mhz < 588 {
        FreqRange {
            open_d: 0x00, rf_mux_ploy: 0x41, tf_c: 0x00, xtal_cap20p: 0x00, xtal_cap10p: 0x00,
            xtal_cap0p: 0x00,
        }
    } else {
        FreqRange {
            open_d: 0x00, rf_mux_ploy: 0x40, tf_c: 0x00, xtal_cap20p: 0x00, xtal_cap10p: 0x00,
            xtal_cap0p: 0x00,
        }
    }
}

/// The crystal-capacitor byte for a range row under the current
/// selection.
spec fn spec_cap_byte(fr: FreqRange, cap: XtalCapValue) -> u8 {
    match cap {
        XtalCapValue::XtalLowCap30p => fr.xtal_cap20p | 0x08,
        XtalCapValue::XtalLowCap20p => fr.xtal_cap20p | 0x08,
        XtalCapValue::XtalLowCap10p => fr.xtal_cap10p | 0x08,
        XtalCapValue::XtalHighCap0p => fr.xtal_cap0p,
        XtalCapValue::XtalLowCap0p => fr.xtal_cap0p | 0x08,
    }
}

/// The register writes of the mux selection for `freq` (Hz), in order.
pub closed spec fn mux_ops(c: Seq<u8>, freq: u32, cap: XtalCapValue) -> Seq<UsbOp> {
    let fr = spec_freq_range(freq / 1_000_000);
    let capv = spec_cap_byte(fr, cap);
    let c1 = cache_masked(c, 0x17, fr.open_d, 0x08);
    let c2 = cache_masked(c1, 0x1a, fr.rf_mux_ploy, 0xc3);
    let c3 = cache_store(c2, 0x1b, seq![fr.tf_c]);
    let c4 = cache_masked(c3, 0x10, capv, 0x0b);
    let c5 = cache_masked(c4, 0x08, 0x00, 0x3f);
    seq![
        masked_op(c, 0x17, fr.open_d, 0x08),
        masked_op(c1, 0x1a, fr.rf_mux_ploy, 0xc3),
        arr_write_op(BLOCK_IIC, 0x34, seq![0x1bu8, fr.tf_c]),
        masked_op(c3, 0x10, capv, 0x0b),
        masked_op(c4, 0x08, 0x00, 0x3f),
        masked_op(c5, 0x09, 0x00, 0x3f),
    ]
}

/// The register cache after the mux selection.
pub closed spec fn mux_cache(c: Seq<u8>, freq: u32, cap: XtalCapValue) -> Seq<u8> {
    let fr = spec_freq_range(freq / 1_000_000);
    let capv = spec_cap_byte(fr, cap);
    let c1 = cache_masked(c, 0x17, fr.open_d, 0x08);
    let c2 = cache_masked(c1, 0x1a, fr.rf_mux_ploy, 0xc3);
    let c3 = cache_store(c2, 0x1b, seq![fr.tf_c]);
    let c4 = cache_masked(c3, 0x10, capv, 0x0b);
    let c5 = cache_masked(c4, 0x08, 0x00, 0x3f);
    cache_masked(c5, 0x09, 0x00, 0x3f)
}

/// The frequency-range row covering `freq_mhz`: the row with the
/// largest start frequency not above it.
fn freq_range(freq_mhz: u32) -> (r: FreqRange)
    ensures
        r == spec_freq_range(freq_mhz),
{
    if freq_mhz < 50 {
        FreqRange {
            open_d: 0x08,
            rf_mux_ploy: 0x02,
            tf_c: 0xdf,
            xtal_cap20p: 0x02,
            xtal_cap10p: 0x01,
            xtal_cap0p: 0x00,
        }
    } else if freq_mhz < 55 {
        FreqRange {
            open_d: 0x08,
            rf_mux_ploy: 0x02,
            tf_c: 0xbe,
            xtal_cap20p: 0x02,
            xtal_cap10p: 0x01,
            xtal_cap0p: 0x00,
        }
    } else if freq_mhz < 60 {
        FreqRange {
            open_d: 0x08,
            rf_mux_ploy: 0x02,
            tf_c: 0x8b,
            xtal_cap20p: 0x02,
            xtal_cap10p: 0x01,
            xtal_cap0p: 0x00,
        }
    } else if freq_mhz < 65 {
        FreqRange {
            open_d: 0x08,
            rf_mux_ploy: 0x02,
            tf_c: 0x7b,
            xtal_cap20p: 0x02,
            xtal_cap10p: 0x01,
            xtal_cap0p: 0x00,
        }
    } else if freq_mhz < 70 {
        FreqRange {
            open_d: 0x08,
            rf_mux_ploy: 0x02,
            tf_c: 0x69,
            xtal_cap20p: 0x02,
            xtal_cap10p: 0x01,
            xtal_cap0p: 0x00,
        }
    } else if freq_mhz < 75 {
        FreqRange {
            open_d: 0x08,
            rf_mux_ploy: 0x02,
            tf_c: 0x58,
            xtal_cap20p: 0x02,
            xtal_cap10p: 0x01,
            xtal_cap0p: 0x00,
        }
    } else if freq_mhz < 90 {
        FreqRange {
            open_d: 0x00,
            rf_mux_ploy: 0x02,
            tf_c: 0x44,
            xtal_cap20p: 0x02,
            xtal_cap10p: 0x01,
            xtal_cap0p: 0x00,
        }
    } else if freq_mhz < 110 {
        FreqRange {
            open_d: 0x00,
            rf_mux_ploy: 0x02,
            tf_c: 0x34,
            xtal_cap20p: 0x01,
            xtal_cap10p: 0x01,
            xtal_cap0p: 0x00,
        }
    } else if freq_mhz < 140 {
        FreqRange {
            open_d: 0x00,
            rf_mux_ploy: 0x02,
            tf_c: 0x24,
            xtal_cap20p: 0x01,
            xtal_cap10p: 0x01,
            xtal_cap0p: 0x00,
        }
    } else if freq_mhz < 180 {
        FreqRange {
            open_d: 0x00,
            rf_mux_ploy: 0x02,
            tf_c: 0x14,
            xtal_cap20p: 0x01,
            xtal_cap10p: 0x01,
            xtal_cap0p: 0x00,
        }
    } else if freq_mhz < 250 {
        FreqRange {
            open_d: 0x00,
            rf_mux_ploy: 0x02,
            tf_c: 0x13,
            xtal_cap20p: 0x00,
            xtal_cap10p: 0x00,
            xtal_cap0p: 0x00,
        }
    } else if freq_mhz < 280 {
        FreqRange {
            open_d: 0x00,
            rf_mux_ploy: 0x02,
            tf_c: 0x11,
            xtal_cap20p: 0x00,
            xtal_cap10p: 0x00,
            xtal_cap0p: 0x00,
        }
    } else if freq_mhz < 310 {
        FreqRange {
            open_d: 0x00,
            rf_mux_ploy: 0x02,
            tf_c: 0x00,
            xtal_cap20p: 0x00,
            xtal_cap10p: 0x00,
            xtal_cap0p: 0x00,
        }
    } else if freq_mhz < 588 {
        FreqRange {
            open_d: 0x00,
            rf_mux_ploy: 0x41,
            tf_c: 0x00,
            xtal_cap20p: 0x00,
            xtal_cap10p: 0x00,
            xtal_cap0p: 0x00,
        }
    } else {
        FreqRange {
            open_d: 0x00,
            rf_mux_ploy: 0x40,
            tf_c: 0x00,
            xtal_cap20p: 0x00,
            xtal_cap10p: 0x00,
            xtal_cap0p: 0x00,
        }
    }
}

/// The target frequency rounded to the nearest kHz.
pub open spec fn spec_freq_khz(freq: u32) -> int {
    freq / 1000 + if freq % 1000 >= 500 {
        1int
    } else {
        0int
    }
}

/// The smallest mixer divider whose product with the target (in kHz)
/// falls into the VCO range, or 128 when none does.
pub open spec fn spec_mix_div(freq_khz: int) -> int {
    if 1_770_000 <= freq_khz * 2 < 3_540_000 {
        2
    } else if 1_770_000 <= freq_khz * 4 < 3_540_000 {
        4
    } else if 1_770_000 <= freq_khz * 8 < 3_540_000 {
        8
    } else if 1_770_000 <= freq_khz * 16 < 3_540_000 {
        16
    } else if 1_770_000 <= freq_khz * 32 < 3_540_000 {
        32
    } else if 1_770_000 <= freq_khz * 64 < 3_540_000 {
        64
    } else {
        128
    }
}

/// The PLL integer word for the target frequency, as the 8-bit counter
/// the chip is given: the VCO frequency over twice the reference.
pub open spec fn spec_pll_nint(freq: u32, xtal: u32) -> int
    recommends
        xtal > 0,
{
    ((freq * spec_mix_div(spec_freq_khz(freq))) / (2 * xtal)) % 256
}

/// One entry of the low-pass filter table, in Hz, widest first.
pub open spec fn spec_lp_entry(i: int) -> int {
    if i == 0 { 1_700_000 } else if i == 1 { 1_600_000 } else if i == 2 { 1_550_000 }
    else if i == 3 { 1_450_000 } else if i == 4 { 1_200_000 } else if i == 5 { 900_000 }
    else if i == 6 { 700_000 } else if i == 7 { 550_000 } else if i == 8 { 450_000 } else {
        350_000
    }
}

/// The chosen low-pass filter: the last entry still at or above the
/// residual bandwidth.
pub open spec fn spec_lp_idx(bw: int) -> int {
    if bw > 1_700_000 { 0 } else if bw > 1_600_000 { 0 } else if bw > 1_550_000 { 1 }
    else if bw > 1_450_000 { 2 } else if bw > 1_200_000 { 3 } else if bw > 900_000 { 4 }
    else if bw > 700_000 { 5 } else if bw > 550_000 { 6 } else if bw > 450_000 { 7 }
    else if bw > 350_000 { 8 } else { 9 }
}

/// The bytes written to filter registers 0x0a and 0x0b for a requested
/// bandwidth (as the driver's signed view of it).
pub open spec fn spec_bw_regs(bwi: int) -> (u8, u8) {
    if bwi > 7_000_000 {
        (0x10u8, 0x0bu8)
    } else if bwi > 6_000_000 {
        (0x10u8, 0x2au8)
    } else if bwi > 2_430_000 {
        (0x10u8, 0x6bu8)
    } else {
        let f1 = bwi > 2_050_000;
        let b1 = if f1 { bwi - 380_000 } else { bwi };
        let f2 = b1 > 1_700_000;
        let b2 = if f2 { b1 - 350_000 } else { b1 };
        let idx = spec_lp_idx(b2);
        let r1: u8 = 0x80;
        let r2: u8 = if f1 {
            r1
        } else {
            r1 | 0x20
        };
        let r3: u8 = if f2 {
            r2
        } else {
            r2 | 0x40
        };
        (0x00u8, r3 | (15 - idx) as u8)
    }
}

/// The intermediate frequency the filter selection centers on.
pub open spec fn spec_bw_if(bwi: int) -> int {
    if bwi > 7_000_000 {
        4_570_000
    } else if bwi > 6_000_000 {
        4_570_000
    } else if bwi > 2_430_000 {
        3_570_000
    } else {
        let f1 = bwi > 2_050_000;
        let b1 = if f1 { bwi - 380_000 } else { bwi };
        let f2 = b1 > 1_700_000;
        let b2 = if f2 { b1 - 350_000 } else { b1 };
        let idx = spec_lp_idx(b2);
        let add = (if f1 { 380_000int } else { 0int }) + (if f2 { 350_000int } else { 0int });
        let rb = add + spec_lp_entry(idx);
        2_300_000 + add - rb / 2
    }
}

/// What kind of reception the tuner is configured for.
#[allow(dead_code)]
enum TunerType {
    TunerRadio,
    TunerAnalogTv,
    TunerDigitalTv,
}

/// The broadcast system the demodulator expects.
#[allow(dead_code)]
enum DeliverySystem {
    SysUndefined,
    SysDvbt,
    SysDvbt2,
    SysIsdbt,
}

/// The mixer power-detector level for the reception mode: lowered for
/// the three DVB-T channels that need low discharge.
spec fn sysfreq_mixer_top(freq: u32, ds: DeliverySystem) -> u8 {
    match ds {
        DeliverySystem::SysDvbt => if freq == 506000000 || freq == 666000000 || freq
            == 818000000 {
            0x14
        } else {
            0x24
        },
        _ => 0x24,
    }
}

/// The charge-pump current for the reception mode.
spec fn sysfreq_cp_cur(freq: u32, ds: DeliverySystem) -> u8 {
    match ds {
        DeliverySystem::SysDvbt => if freq == 506000000 || freq == 666000000 || freq
            == 818000000 {
            0x28
        } else {
            0x38
        },
        _ => 0x38,
    }
}

/// The divider buffer current for the reception mode.
spec fn sysfreq_div_buf(freq: u32, ds: DeliverySystem) -> u8 {
    match ds {
        DeliverySystem::SysDvbt => if freq == 506000000 || freq == 666000000 || freq
            == 818000000 {
            0x20
        } else {
            0x30
        },
        _ => 0x30,
    }
}

/// The LNA detector threshold for the reception mode.
spec fn sysfreq_lna_vth(ds: DeliverySystem) -> u8 {
    match ds {
        DeliverySystem::SysIsdbt => 0x75,
        _ => 0x53,
    }
}

/// The register writes of the system-frequency selection, in order.
spec fn sysfreq_ops(c: Seq<u8>, freq: u32, ds: DeliverySystem, analog: bool, predet: bool) -> Seq<
    UsbOp,
> {
    let mt = sysfreq_mixer_top(freq, ds);
    let c0 = if predet {
        cache_masked(c, 0x06, 0x40, 0x40)
    } else {
        c
    };
    let pre = if predet {
        seq![masked_op(c, 0x06, 0x40, 0x40)]
    } else {
        Seq::<UsbOp>::empty()
    };
    let c1 = cache_masked(c0, 0x1d, 0xe5, 0xc7);
    let c2 = cache_masked(c1, 0x1c, mt, 0xf8);
    let c3 = cache_store(c2, 0x0d, seq![sysfreq_lna_vth(ds)]);
    let c4 = cache_store(c3, 0x0e, seq![0x75u8]);
    let c5 = cache_masked(c4, 0x05, 0x00, 0x60);
    let c6 = cache_masked(c5, 0x06, 0x00, 0x08);
    let c7 = cache_masked(c6, 0x11, sysfreq_cp_cur(freq, ds), 0x38);
    let c8 = cache_masked(c7, 0x17, sysfreq_div_buf(freq, ds), 0x30);
    let c9 = cache_masked(c8, 0x0a, 0x40, 0x60);
    let head = pre + seq![
        masked_op(c0, 0x1d, 0xe5, 0xc7),
        masked_op(c1, 0x1c, mt, 0xf8),
        arr_write_op(BLOCK_IIC, 0x34, seq![0x0du8, sysfreq_lna_vth(ds)]),
        arr_write_op(BLOCK_IIC, 0x34, seq![0x0eu8, 0x75u8]),
        masked_op(c4, 0x05, 0x00, 0x60),
        masked_op(c5, 0x06, 0x00, 0x08),
        masked_op(c6, 0x11, sysfreq_cp_cur(freq, ds), 0x38),
        masked_op(c7, 0x17, sysfreq_div_buf(freq, ds), 0x30),
        masked_op(c8, 0x0a, 0x40, 0x60),
    ];
    if !analog {
        let d1 = cache_masked(c9, 0x1d, 0x00, 0x38);
        let d2 = cache_masked(d1, 0x1c, 0x00, 0x04);
        let d3 = cache_masked(d2, 0x06, 0x00, 0x40);
        let d4 = cache_masked(d3, 0x1a, 0x30, 0x30);
        let d5 = cache_masked(d4, 0x1d, 0x18, 0x38);
        let d6 = cache_masked(d5, 0x1c, mt, 0x04);
        let d7 = cache_masked(d6, 0x1e, 14, 0x1f);
        let d8 = cache_masked(d7, 0x1a, 0x20, 0x30);
        head + seq![
            masked_op(c9, 0x1d, 0x00, 0x38),
            masked_op(d1, 0x1c, 0x00, 0x04),
            masked_op(d2, 0x06, 0x00, 0x40),
            masked_op(d3, 0x1a, 0x30, 0x30),
            masked_op(d4, 0x1d, 0x18, 0x38),
            masked_op(d5, 0x1c, mt, 0x04),
            masked_op(d6, 0x1e, 14, 0x1f),
            masked_op(d7, 0x1a, 0x20, 0x30),
            masked_op(d8, 0x10, 14, 0x04),
        ]
    } else {
        let e1 = cache_masked(c9, 0x06, 0x00, 0x40);
        let e2 = cache_masked(e1, 0x1d, 0xe5, 0x38);
        let e3 = cache_masked(e2, 0x1c, mt, 0x04);
        let e4 = cache_masked(e3, 0x1e, 14, 0x1f);
        let e5 = cache_masked(e4, 0x1a, 0x00, 0x30);
        head + seq![
            masked_op(c9, 0x06, 0x00, 0x40),
            masked_op(e1, 0x1d, 0xe5, 0x38),
            masked_op(e2, 0x1c, mt, 0x04),
            masked_op(e3, 0x1e, 14, 0x1f),
            masked_op(e4, 0x1a, 0x00, 0x30),
            masked_op(e5, 0x10, 14, 0x04),
        ]
    }
}

/// The register cache after the system-frequency selection.
spec fn sysfreq_cache(c: Seq<u8>, freq: u32, ds: DeliverySystem, analog: bool, predet: bool) -> Seq<
    u8,
> {
    let mt = sysfreq_mixer_top(freq, ds);
    let c0 = if predet {
        cache_masked(c, 0x06, 0x40, 0x40)
    } else {
        c
    };
    let c1 = cache_masked(c0, 0x1d, 0xe5, 0xc7);
    let c2 = cache_masked(c1, 0x1c, mt, 0xf8);
    let c3 = cache_store(c2, 0x0d, seq![sysfreq_lna_vth(ds)]);
    let c4 = cache_store(c3, 0x0e, seq![0x75u8]);
    let c5 = cache_masked(c4, 0x05, 0x00, 0x60);
    let c6 = cache_masked(c5, 0x06, 0x00, 0x08);
    let c7 = cache_masked(c6, 0x11, sysfreq_cp_cur(freq, ds), 0x38);
    let c8 = cache_masked(c7, 0x17, sysfreq_div_buf(freq, ds), 0x30);
    let c9 = cache_masked(c8, 0x0a, 0x40, 0x60);
    if !analog {
        let d1 = cache_masked(c9, 0x1d, 0x00, 0x38);
        let d2 = cache_masked(d1, 0x1c, 0x00, 0x04);
        let d3 = cache_masked(d2, 0x06, 0x00, 0x40);
        let d4 = cache_masked(d3, 0x1a, 0x30, 0x30);
        let d5 = cache_masked(d4, 0x1d, 0x18, 0x38);
        let d6 = cache_masked(d5, 0x1c, mt, 0x04);
        let d7 = cache_masked(d6, 0x1e, 14, 0x1f);
        let d8 = cache_masked(d7, 0x1a, 0x20, 0x30);
        cache_masked(d8, 0x10, 14, 0x04)
    } else {
        let e1 = cache_masked(c9, 0x06, 0x00, 0x40);
        let e2 = cache_masked(e1, 0x1d, 0xe5, 0x38);
        let e3 = cache_masked(e2, 0x1c, mt, 0x04);
        let e4 = cache_masked(e3, 0x1e, 14, 0x1f);
        let e5 = cache_masked(e4, 0x1a, 0x00, 0x30);
        cache_masked(e5, 0x10, 14, 0x04)
    }
}

/// Driver state of one R820T.
#[derive(Debug)]
pub struct R820T {
    pub info: TunerInfo,
    regs: Vec<u8>,
    pub freq: u32,
    int_freq: u32,
    xtal_cap_sel: XtalCapValue,
    xtal: u32,
    use_predetect: bool,
    has_lock: bool,
    fil_cal_code: u8,
    init_done: bool,
}

/// All driver state but the register cache is unchanged.
pub closed spec fn same_but_regs(a: R820T, b: R820T) -> bool {
    &&& a.info == b.info
    &&& a.freq == b.freq
    &&& a.int_freq == b.int_freq
    &&& a.xtal_cap_sel == b.xtal_cap_sel
    &&& a.xtal == b.xtal
    &&& a.use_predetect == b.use_predetect
    &&& a.has_lock == b.has_lock
    &&& a.fil_cal_code == b.fil_cal_code
    &&& a.init_done == b.init_done
}

impl R820T {
    /// The register cache holds exactly the 27 writable registers.
    pub closed spec fn cache_wf(&self) -> bool {
        self.regs@.len() == NUM_CACHE_REGS
    }

    /// The cached image of the writable registers 5..=31.
    pub closed spec fn cache(&self) -> Seq<u8> {
        self.regs@
    }

    /// Whether `init` has completed on this driver.
    pub closed spec fn spec_init_done(&self) -> bool {
        self.init_done
    }

    /// The crystal reference frequency the driver was told, in Hz.
    pub closed spec fn spec_xtal_freq(&self) -> u32 {
        self.xtal
    }

    /// The current intermediate frequency in Hz.
    pub closed spec fn spec_int_freq(&self) -> u32 {
        self.int_freq
    }

    /// Whether the last PLL programming saw the lock bit.
    pub closed spec fn spec_has_lock(&self) -> bool {
        self.has_lock
    }

    /// The filter calibration code the last calibration produced.
    pub closed spec fn spec_fil_cal(&self) -> u8 {
        self.fil_cal_code
    }

    /// The crystal-capacitor selection.
    pub closed spec fn spec_xtal_cap(&self) -> XtalCapValue {
        self.xtal_cap_sel
    }

    /// A fresh driver: default register image, nothing tuned yet.
    pub fn new() -> (r: R820T)
        ensures
            r.cache_wf(),
            r.cache() == spec_reg_init(),
            !r.spec_init_done(),
            r.spec_xtal_freq() == 0,
            r.spec_int_freq() == 0,
    {
        R820T {
            info: r820t_tuner_info(),
            regs: reg_init_image(),
            freq: 0,
            int_freq: 0,
            xtal_cap_sel: XtalCapValue::XtalLowCap30p,
            xtal: 0,
            use_predetect: false,
            has_lock: false,
            fil_cal_code: 0,
            init_done: false,
        }
    }

    /// Read a register byte from the local cache.
    pub fn read_cache_reg(&self, reg: usize) -> (r: u8)
        requires
            self.cache_wf(),
            RW_REG_START <= reg < RW_REG_START + NUM_CACHE_REGS,
        ensures
            r == self.cache()[reg - 5],
    {
        self.regs[reg - RW_REG_START]
    }

    /// Mirror a register write in the local cache.
    pub fn reg_cache_store(&mut self, reg: usize, val: &Vec<u8>)
        requires
            old(self).cache_wf(),
            RW_REG_START <= reg,
            reg + val@.len() <= RW_REG_START + NUM_CACHE_REGS,
        ensures
            final(self).cache_wf(),
            final(self).cache() == cache_store(old(self).cache(), reg as int, val@),
            same_but_regs(*old(self), *final(self)),
    {
        let base = reg - RW_REG_START;
        let mut i: usize = 0;
        while i < val.len()
            invariant
                old(self).cache_wf(),
                reg >= RW_REG_START,
                base == reg - RW_REG_START,
                base + val@.len() <= NUM_CACHE_REGS,
                i <= val@.len(),
                self.cache_wf(),
                self.cache().len() == old(self).cache().len(),
                same_but_regs(*old(self), *self),
                forall|j: int| 0 <= j < base ==> self.cache()[j] == old(self).cache()[j],
                forall|j: int| 0 <= j < i ==> self.cache()[base + j] == val@[j],
                forall|j: int|
                    base + val@.len() <= j < NUM_CACHE_REGS ==> self.cache()[j] == old(
                        self,
                    ).cache()[j],
            decreases val@.len() - i,
        {
            let b = val[i];
            self.regs.set(base + i, b);
            i = i + 1;
        }
        proof {
            assert(self.cache() =~= cache_store(old(self).cache(), reg as int, val@));
        }
    }

    /// Write `val` to chip registers starting at `reg`, chunked so that
    /// no I2C message exceeds 8 bytes (1 register byte and up to 7 data
    /// bytes), and mirror the write in the cache.  The cache is updated
    /// even when the bus write fails.
    pub fn write_regs<P: UsbPort>(
        &mut self,
        handle: &mut Device<P>,
        reg: usize,
        val: &Vec<u8>,
    ) -> (r: Result<(), RtlsdrError>)
        requires
            old(self).cache_wf(),
            RW_REG_START <= reg,
            reg + val@.len() <= RW_REG_START + NUM_CACHE_REGS,
            val@.len() >= 1,
        ensures
            final(self).cache_wf(),
            final(self).cache() == cache_store(old(self).cache(), reg as int, val@),
            same_but_regs(*old(self), *final(self)),
            tuner_ops_only(old(handle).history(), final(handle).history()),
            r matches Err(e) ==> e is Usb,
            val@.len() <= 7 && r is Ok ==> final(handle).history() == old(
                handle,
            ).history().push(
                arr_write_op(crate::constants::BLOCK_IIC, 0x34, seq![reg as u8] + val@),
            ),
            r is Ok ==> final(handle).history() == old(handle).history() + i2c_chunk_ops(
                reg as int,
                val@,
            ),
    {
        let ghost h0 = handle.history();
        self.reg_cache_store(reg, val);
        let total: usize = val.len();
        let mut val_index: usize = 0;
        let mut reg_index: usize = reg;
        proof {
            lemma_tuner_ops_refl(h0);
            assert(val@.skip(0) =~= val@);
            assert(handle.history() + i2c_chunk_ops(reg as int, val@.skip(0)) =~~= h0
                + i2c_chunk_ops(reg as int, val@));
        }
        while val_index < total
            invariant
                h0 == old(handle).history(),
                reg >= RW_REG_START,
                reg + val@.len() <= RW_REG_START + NUM_CACHE_REGS,
                total == val@.len(),
                val_index <= total,
                reg_index == reg + val_index,
                total <= 7 ==> val_index == 0 || val_index == total,
                self.cache_wf(),
                self.cache() == cache_store(old(self).cache(), reg as int, val@),
                same_but_regs(*old(self), *self),
                tuner_ops_only(h0, handle.history()),
                val_index == 0 ==> handle.history() == h0,
                total <= 7 && val_index > 0 ==> handle.history() == h0.push(
                    arr_write_op(crate::constants::BLOCK_IIC, 0x34, seq![reg as u8] + val@),
                ),
                handle.history() + i2c_chunk_ops(reg_index as int, val@.skip(val_index as int))
                    == h0 + i2c_chunk_ops(reg as int, val@),
            decreases total - val_index,
        {
            let remaining: usize = total - val_index;
            let size: usize = if remaining > 7 {
                7
            } else {
                remaining
            };
            let mut buf: Vec<u8> = Vec::new();
            buf.push(reg_index as u8);
            let mut k: usize = 0;
            while k < size
                invariant
                    total == val@.len(),
                    val_index + size <= total,
                    k <= size,
                    buf@.len() == k + 1,
                    buf@[0] == reg_index as u8,
                    forall|j: int| 0 <= j < k ==> #[trigger] buf@[j + 1] == val@[val_index + j],
                decreases size - k,
            {
                let b = val[val_index + k];
                buf.push(b);
                k = k + 1;
            }
            let ghost hcur = handle.history();
            match handle.i2c_write(R820T_I2C_ADDR, &buf) {
                Ok(_) => (),
                Err(e) => {
                    proof {
                        lemma_tuner_ops_push(
                            h0,
                            hcur,
                            arr_write_op(crate::constants::BLOCK_IIC, R820T_I2C_ADDR, buf@),
                        );
                    }
                    return Err(e);
                },
            }
            proof {
                lemma_tuner_ops_push(
                    h0,
                    hcur,
                    arr_write_op(crate::constants::BLOCK_IIC, R820T_I2C_ADDR, buf@),
                );
                if total <= 7 {
                    assert(val_index == 0);
                    assert(size == val@.len());
                    assert forall|i: int| 1 <= i < buf@.len() implies buf@[i] == val@[i - 1] by {
                        assert(buf@[(i - 1) + 1] == val@[val_index + (i - 1)]);
                    }
                    assert(buf@ =~= seq![reg as u8] + val@);
                }
                // The message just sent is the head chunk of the
                // remaining work.
                let rem = val@.skip(val_index as int);
                assert forall|j: int| 0 <= j < size implies buf@[j + 1] == rem[j] by {
                    assert(buf@[j + 1] == val@[val_index + j]);
                }
                if rem.len() <= 7 {
                    assert(buf@ =~= seq![reg_index as u8] + rem);
                    assert(rem.skip(size as int) =~= Seq::<u8>::empty());
                    assert(i2c_chunk_ops(reg_index as int, rem) =~~= seq![
                        arr_write_op(crate::constants::BLOCK_IIC, 0x34, buf@),
                    ]);
                } else {
                    assert(buf@ =~= seq![reg_index as u8] + rem.take(7));
                    assert(i2c_chunk_ops(reg_index as int, rem) =~~= seq![
                        arr_write_op(crate::constants::BLOCK_IIC, 0x34, buf@),
                    ] + i2c_chunk_ops(reg_index as int + 7, rem.skip(7)));
                }
                assert(rem.skip(size as int) =~= val@.skip(val_index as int + size as int));
                assert(handle.history() + i2c_chunk_ops(
                    reg_index as int + size as int,
                    val@.skip(val_index as int + size as int),
                ) =~~= h0 + i2c_chunk_ops(reg as int, val@));
            }
            val_index = val_index + size;
            reg_index = reg_index + size;
        }
        proof {
            assert(val@.skip(total as int) =~= Seq::<u8>::empty());
            assert(handle.history() + i2c_chunk_ops(reg_index as int, Seq::<u8>::empty())
                =~~= handle.history());
            assert(handle.history() =~~= h0 + i2c_chunk_ops(reg as int, val@));
        }
        Ok(())
    }

    /// Masked register write: bits of `bit_mask` come from `val`, the
    /// rest keep their cached value; one byte goes to the chip.
    pub fn write_reg_mask<P: UsbPort>(
        &mut self,
        handle: &mut Device<P>,
        reg: usize,
        val: u8,
        bit_mask: u8,
    ) -> (r: Result<(), RtlsdrError>)
        requires
            old(self).cache_wf(),
            RW_REG_START <= reg < RW_REG_START + NUM_CACHE_REGS,
        ensures
            final(self).cache_wf(),
            final(self).cache() == cache_masked(old(self).cache(), reg as int, val, bit_mask),
            same_but_regs(*old(self), *final(self)),
            tuner_ops_only(old(handle).history(), final(handle).history()),
            r matches Err(e) ==> e is Usb,
            r is Ok ==> final(handle).history() == old(handle).history().push(
                arr_write_op(
                    crate::constants::BLOCK_IIC,
                    0x34,
                    seq![
                        reg as u8,
                        mask_apply(old(self).cache()[reg - 5], val, bit_mask),
                    ],
                ),
            ),
    {
        let rc = self.read_cache_reg(reg);
        let applied: u8 = (rc & !bit_mask) | (val & bit_mask);
        let mut one: Vec<u8> = Vec::new();
        one.push(applied);
        let r = self.write_regs(handle, reg, &one);
        proof {
            assert(seq![reg as u8] + one@ =~= seq![reg as u8, applied]);
            assert(self.cache() =~= cache_masked(old(self).cache(), reg as int, val, bit_mask));
        }
        r
    }

    /// Write one register byte to the chip (and the cache).
    fn write_one<P: UsbPort>(&mut self, handle: &mut Device<P>, reg: usize, byte: u8) -> (r:
        Result<(), RtlsdrError>)
        requires
            old(self).cache_wf(),
            RW_REG_START <= reg < RW_REG_START + NUM_CACHE_REGS,
        ensures
            final(self).cache_wf(),
            final(self).cache() == cache_store(old(self).cache(), reg as int, seq![byte]),
            same_but_regs(*old(self), *final(self)),
            tuner_ops_only(old(handle).history(), final(handle).history()),
            r matches Err(e) ==> e is Usb,
            r is Ok ==> final(handle).history() == old(handle).history().push(
                arr_write_op(BLOCK_IIC, 0x34, seq![reg as u8, byte]),
            ),
    {
        let mut b: Vec<u8> = Vec::new();
        b.push(byte);
        let res = self.write_regs(handle, reg, &b);
        proof {
            assert(seq![reg as u8] + b@ =~= seq![reg as u8, byte]);
        }
        res
    }

    /// Read `len` register bytes from the chip: address with a one-byte
    /// write, read back, and undo the chip's bit order on every byte.
    /// Bytes the chip did not deliver read as zero.
    pub fn read_reg<P: UsbPort>(&self, handle: &mut Device<P>, reg: u8, len: u8) -> (r: Result<
        Vec<u8>,
        RtlsdrError,
    >)
        ensures
            tuner_ops_only(old(handle).history(), final(handle).history()),
            r matches Err(e) ==> e is Usb,
            r matches Ok(v) ==> v@.len() == len && exists|d: Seq<u8>|
                #![auto]
                d.len() <= len && final(handle).history() == old(handle).history().push(
                    arr_write_op(crate::constants::BLOCK_IIC, 0x34, seq![reg]),
                ).push(arr_read_op(crate::constants::BLOCK_IIC, 0x34, d)) && forall|i: int|
                    0 <= i < len ==> v@[i] == spec_bit_reverse(byte_at(d, i) as u8),
    {
        let ghost h0 = handle.history();
        let mut regv: Vec<u8> = Vec::new();
        regv.push(reg);
        match handle.i2c_write(R820T_I2C_ADDR, &regv) {
            Ok(_) => (),
            Err(e) => {
                proof {
                    lemma_tuner_ops_refl(h0);
                    lemma_tuner_ops_push(
                        h0,
                        h0,
                        arr_write_op(crate::constants::BLOCK_IIC, R820T_I2C_ADDR, regv@),
                    );
                }
                return Err(e);
            },
        }
        let ghost hw = handle.history();
        proof {
            lemma_tuner_ops_refl(h0);
            lemma_tuner_ops_push(
                h0,
                h0,
                arr_write_op(crate::constants::BLOCK_IIC, R820T_I2C_ADDR, regv@),
            );
        }
        let data = match handle.i2c_read(R820T_I2C_ADDR, len) {
            Ok(d) => d,
            Err(e) => {
                proof {
                    lemma_tuner_ops_push(
                        h0,
                        hw,
                        arr_read_op(crate::constants::BLOCK_IIC, R820T_I2C_ADDR, Seq::empty()),
                    );
                }
                return Err(e);
            },
        };
        proof {
            lemma_tuner_ops_push(
                h0,
                hw,
                arr_read_op(crate::constants::BLOCK_IIC, R820T_I2C_ADDR, data@),
            );
        }
        let mut out: Vec<u8> = Vec::new();
        let mut i: usize = 0;
        while i < len as usize
            invariant
                i <= len as usize,
                out@.len() == i,
                data@.len() <= len,
                forall|j: int| 0 <= j < i ==> out@[j] == spec_bit_reverse(byte_at(data@, j) as u8),
            decreases len as usize - i,
        {
            let b: u8 = if i < data.len() {
                data[i]
            } else {
                0
            };
            out.push(bit_reverse(b));
            i = i + 1;
        }
        proof {
            assert(regv@ =~= seq![reg]);
            assert(data@.len() <= len && handle.history() == h0.push(
                arr_write_op(crate::constants::BLOCK_IIC, 0x34, seq![reg]),
            ).push(arr_read_op(crate::constants::BLOCK_IIC, 0x34, data@)) && forall|j: int|
                0 <= j < len ==> out@[j] == spec_bit_reverse(byte_at(data@, j) as u8));
        }
        Ok(out)
    }
}

impl R820T {
    /// Select open drain, RF mux path, tracking filter and crystal
    /// capacitors for the band containing `freq` (in Hz).
    fn set_mux<P: UsbPort>(&mut self, handle: &mut Device<P>, freq: u32) -> (r: Result<
        (),
        RtlsdrError,
    >)
        requires
            old(self).cache_wf(),
        ensures
            final(self).cache_wf(),
            same_but_regs(*old(self), *final(self)),
            tuner_ops_only(old(handle).history(), final(handle).history()),
            r matches Err(e) ==> e is Usb,
            r is Ok ==> final(handle).history() == old(handle).history() + mux_ops(
                old(self).cache(),
                freq,
                old(self).xtal_cap_sel,
            ) && final(self).cache() == mux_cache(old(self).cache(), freq, old(self).xtal_cap_sel),
    {
        let ghost c0 = self.cache();
        let ghost h0 = handle.history();
        let freq_mhz = freq / 1_000_000;
        let range = freq_range(freq_mhz);
        self.write_reg_mask(handle, 0x17, range.open_d, 0x08)?;
        self.write_reg_mask(handle, 0x1a, range.rf_mux_ploy, 0xc3)?;
        self.write_one(handle, 0x1b, range.tf_c)?;
        let val: u8 = match self.xtal_cap_sel {
            XtalCapValue::XtalLowCap30p => range.xtal_cap20p | 0x08,
            XtalCapValue::XtalLowCap20p => range.xtal_cap20p | 0x08,
            XtalCapValue::XtalLowCap10p => range.xtal_cap10p | 0x08,
            XtalCapValue::XtalHighCap0p => range.xtal_cap0p,
            XtalCapValue::XtalLowCap0p => range.xtal_cap0p | 0x08,
        };
        self.write_reg_mask(handle, 0x10, val, 0x0b)?;
        self.write_reg_mask(handle, 0x08, 0x00, 0x3f)?;
        self.write_reg_mask(handle, 0x09, 0x00, 0x3f)?;
        proof {
            assert(handle.history() =~~= h0 + mux_ops(c0, freq, old(self).xtal_cap_sel));
            assert(self.cache() =~= mux_cache(c0, freq, old(self).xtal_cap_sel));
        }
        Ok(())
    }

    /// Poll the PLL lock bit, once more with a higher VCO current if
    /// the first poll came back clear.
    fn poll_lock<P: UsbPort>(&mut self, handle: &mut Device<P>) -> (r: Result<bool, RtlsdrError>)
        requires
            old(self).cache_wf(),
        ensures
            final(self).cache_wf(),
            same_but_regs(*old(self), *final(self)),
            tuner_ops_only(old(handle).history(), final(handle).history()),
            r matches Err(e) ==> e is Usb,
    {
        let d1 = self.read_reg(handle, 0x00, 3)?;
        let mut locked: bool = d1[2] & 0x40 != 0;
        if !locked {
            self.write_reg_mask(handle, 0x12, 0x80, 0xe0)?;
            let d2 = self.read_reg(handle, 0x00, 3)?;
            locked = d2[2] & 0x40 != 0;
        }
        Ok(locked)
    }

    /// The smallest mixer divider whose product with the target (in
    /// kHz) falls into the VCO range, with its base register exponent.
    fn pick_mix_div(freq_khz: u32) -> (r: (u8, u8))
        requires
            freq_khz <= 4_294_968,
        ensures
            r.0 as int == spec_mix_div(freq_khz as int),
            r.0 <= 128,
            r.1 <= 5,
    {
        if 1_770_000 <= freq_khz * 2 && freq_khz * 2 < 3_540_000 {
            (2, 0)
        } else if 1_770_000 <= freq_khz * 4 && freq_khz * 4 < 3_540_000 {
            (4, 1)
        } else if 1_770_000 <= freq_khz * 8 && freq_khz * 8 < 3_540_000 {
            (8, 2)
        } else if 1_770_000 <= freq_khz * 16 && freq_khz * 16 < 3_540_000 {
            (16, 3)
        } else if 1_770_000 <= freq_khz * 32 && freq_khz * 32 < 3_540_000 {
            (32, 4)
        } else if 1_770_000 <= freq_khz * 64 && freq_khz * 64 < 3_540_000 {
            (64, 5)
        } else {
            (128, 0)
        }
    }

    /// The PLL integer word and the fractional VCO remainder (in kHz)
    /// for the target frequency, reference and mixer divider.
    fn pll_words(freq: u32, pll_ref: u32, mix_div: u8) -> (r: (u8, u32))
        requires
            1 <= pll_ref <= 1_000_000_000,
            mix_div <= 128,
        ensures
            r.0 as int == ((freq as int) * (mix_div as int) / (2 * (pll_ref as int))) % 256,
    {
        proof {
            assert((freq as int) * (mix_div as int) <= 0xffff_ffff * 128) by (nonlinear_arith)
                requires
                    freq as int <= 0xffff_ffff,
                    mix_div as int <= 128,
            ;
        }
        let vco_freq: u64 = (freq as u64) * (mix_div as u64);
        let q: u64 = vco_freq / (2 * pll_ref as u64);
        let nint: u8 = (q % 256) as u8;
        proof {
            assert(nint as int <= q as int);
            assert((2 * (pll_ref as int)) * (q as int) <= vco_freq as int) by (nonlinear_arith)
                requires
                    q as int == (vco_freq as int) / (2 * (pll_ref as int)),
                    pll_ref as int >= 1,
            ;
            assert(2 * (pll_ref as int) * (nint as int) <= 2 * (pll_ref as int) * (q as int))
                by (nonlinear_arith)
                requires
                    nint as int <= q as int,
                    pll_ref as int >= 1,
            ;
        }
        #[verifier::truncate]
        let vco_fra: u32 = ((vco_freq - 2 * (pll_ref as u64) * (nint as u64)) / 1000) as u32;
        (nint, vco_fra)
    }

    /// The sigma-delta modulator word for the fractional VCO part:
    /// repeated subtraction of the halved reference, the divider
    /// doubling from 2 up to 0x8000.
    fn sdm_word(fra: u32, pll_ref_khz: u32) -> (sdm: u32)
        requires
            pll_ref_khz <= 1_000_001,
        ensures
            sdm <= 65535,
    {
        let mut vco_fra: u32 = fra;
        let mut sdm: u32 = 0;
        let mut n_sdm: u32 = 2;
        while vco_fra > 1 && n_sdm <= 0x8000
            invariant_except_break
                2 <= n_sdm <= 0x10000,
                n_sdm % 2 == 0,
                pll_ref_khz <= 1_000_001,
                sdm <= 65535,
                sdm * n_sdm + 131072 <= 65536 * n_sdm,
            ensures
                sdm <= 65535,
            decreases 0x10000 - n_sdm,
        {
            if vco_fra > 2 * pll_ref_khz / n_sdm {
                let t: u32 = 32768 / (n_sdm / 2);
                proof {
                    assert((t as int) * (n_sdm as int) <= 65536) by (nonlinear_arith)
                        requires
                            t as int == 32768int / ((n_sdm as int) / 2),
                            2 <= n_sdm as int,
                            (n_sdm as int) % 2 == 0,
                    ;
                    assert(((sdm + t) as int) * (n_sdm as int) <= 65535 * (n_sdm as int))
                        by (nonlinear_arith)
                        requires
                            (sdm as int) * (n_sdm as int) + 131072 <= 65536 * (n_sdm as int),
                            (t as int) * (n_sdm as int) <= 65536,
                            2 <= n_sdm as int <= 0x10000,
                    ;
                    assert((sdm as int) + (t as int) <= 65535) by (nonlinear_arith)
                        requires
                            ((sdm + t) as int) * (n_sdm as int) <= 65535 * (n_sdm as int),
                            n_sdm as int >= 2,
                            sdm as int >= 0,
                            t as int >= 0,
                    ;
                    assert(((sdm + t) as int) * (2 * (n_sdm as int)) + 131072 <= 65536 * (2 * (
                    n_sdm as int))) by (nonlinear_arith)
                        requires
                            (sdm as int) * (n_sdm as int) + 131072 <= 65536 * (n_sdm as int),
                            (t as int) * (n_sdm as int) <= 65536,
                            n_sdm as int >= 2,
                    ;
                }
                sdm = sdm + t;
                vco_fra = vco_fra - 2 * pll_ref_khz / n_sdm;
                if n_sdm >= 0x8000 {
                    break ;
                }
            } else {
                proof {
                    assert((sdm as int) * (2 * (n_sdm as int)) + 131072 <= 65536 * (2 * (
                    n_sdm as int))) by (nonlinear_arith)
                        requires
                            (sdm as int) * (n_sdm as int) + 131072 <= 65536 * (n_sdm as int),
                            n_sdm as int >= 2,
                            sdm as int >= 0,
                    ;
                }
            }
            n_sdm = n_sdm * 2;
        }
        sdm
    }

    /// Program the PLL to synthesize `freq` (in Hz).  Fails with a
    /// driver error exactly when the integer divider word overflows
    /// (`spec_pll_nint > 63`); a missing lock is not an error, it is
    /// recorded in the driver state.
    #[verifier::rlimit(100)]
    fn set_pll<P: UsbPort>(&mut self, handle: &mut Device<P>, freq: u32) -> (r: Result<
        (),
        RtlsdrError,
    >)
        requires
            old(self).cache_wf(),
            0 < old(self).xtal <= 1_000_000_000,
        ensures
            final(self).cache_wf(),
            final(self).info == old(self).info,
            final(self).freq == old(self).freq,
            final(self).int_freq == old(self).int_freq,
            final(self).xtal_cap_sel == old(self).xtal_cap_sel,
            final(self).xtal == old(self).xtal,
            final(self).use_predetect == old(self).use_predetect,
            final(self).fil_cal_code == old(self).fil_cal_code,
            final(self).init_done == old(self).init_done,
            tuner_ops_only(old(handle).history(), final(handle).history()),
            r is Ok ==> spec_pll_nint(freq, old(self).xtal) <= 63,
            r matches Err(e) && e is RtlsdrErr ==> spec_pll_nint(freq, old(self).xtal) > 63,
            r is Ok ==> exists|t: Seq<UsbOp>|
                #![auto]
                final(handle).history() == old(handle).history() + pll_setup_ops(
                    old(self).cache(),
                ) + t,
    {
        let ghost hpll0 = handle.history();
        let freq_khz: u32 = freq / 1000 + (if freq % 1000 >= 500 {
            1
        } else {
            0
        });
        let pll_ref: u32 = self.xtal;
        let pll_ref_khz: u32 = self.xtal / 1000 + (if self.xtal % 1000 >= 500 {
            1
        } else {
            0
        });

        // Clear refdiv2.
        self.write_reg_mask(handle, 0x10, 0x00, 0x10)?;

        // Set PLL auto-tune clock to 128 kHz.
        self.write_reg_mask(handle, 0x1a, 0x00, 0x0c)?;

        // Set VCO current.
        self.write_reg_mask(handle, 0x12, 0x80, 0xe0)?;
        let ghost hsetup = handle.history();
        proof {
            assert(hsetup =~~= hpll0 + pll_setup_ops(old(self).cache()));
        }

        // Smallest mixer divider whose product lands in the VCO range.
        let picked: (u8, u8) = Self::pick_mix_div(freq_khz);
        let mix_div: u8 = picked.0;
        let mut div_num: u8 = picked.1;

        let data = self.read_reg(handle, 0x00, 5)?;
        let vco_power_ref: u8 = 2;
        let vco_fine_tune: u8 = (data[4] & 0x30) >> 4;
        if vco_fine_tune > vco_power_ref {
            div_num = if div_num == 0 {
                0xff
            } else {
                div_num - 1
            };
        } else if vco_fine_tune < vco_power_ref {
            div_num = if div_num == 0xff {
                0
            } else {
                div_num + 1
            };
        }
        self.write_reg_mask(handle, 0x10, div_num << 5, 0xe0)?;

        let words: (u8, u32) = Self::pll_words(freq, pll_ref, mix_div);
        let nint: u8 = words.0;
        let vco_fra: u32 = words.1;
        proof {
            assert(pll_ref == old(self).xtal);
            assert(freq_khz == spec_freq_khz(freq));
            assert(nint == spec_pll_nint(freq, old(self).xtal));
        }

        if nint > (128 / (vco_power_ref as u8)) - 1 {
            return Err(RtlsdrError::RtlsdrErr("No valid PLL values".to_string()));
        }
        // Nint = 4 * Ni2c + Si2c + 13, with two's-complement wrap for
        // small values.
        #[verifier::truncate]
        let ni: u8 = ((nint as i32 - 13) / 4) as u8;
        #[verifier::truncate]
        let si: u8 = (nint as i32 - 4 * (ni as i32) - 13) as u8;
        let mut word: Vec<u8> = Vec::new();
        #[verifier::truncate]
        let reg14: u8 = ((ni as u32 + ((si << 6) as u32)) & 0xff) as u8;
        word.push(reg14);
        self.write_regs(handle, 0x14, &word)?;

        // Enable the sigma-delta modulator only for a fractional part.
        if vco_fra == 0 {
            self.write_reg_mask(handle, 0x12, 0x08, 0x08)?;
        } else {
            self.write_reg_mask(handle, 0x12, 0x00, 0x08)?;
        }

        // Sigma-delta word for the fractional part.
        let sdm: u32 = Self::sdm_word(vco_fra, pll_ref_khz);
        let mut hi: Vec<u8> = Vec::new();
        #[verifier::truncate]
        let sdm_hi: u8 = (sdm >> 8) as u8;
        hi.push(sdm_hi);
        self.write_regs(handle, 0x16, &hi)?;
        let mut lo: Vec<u8> = Vec::new();
        #[verifier::truncate]
        let sdm_lo: u8 = (sdm & 0xff) as u8;
        lo.push(sdm_lo);
        self.write_regs(handle, 0x15, &lo)?;

        // Poll the lock bit, once more with a higher VCO current.
        let locked: bool = self.poll_lock(handle)?;
        if !locked {
            self.has_lock = false;
            proof {
                let t = handle.history().skip(hsetup.len() as int);
                assert(handle.history() =~= hsetup + t);
                assert(handle.history() == hpll0 + pll_setup_ops(old(self).cache()) + t);
            }
            return Ok(());
        }
        self.has_lock = true;

        // Narrow PLL auto-tune clock to 8 kHz.
        self.write_reg_mask(handle, 0x1a, 0x08, 0x08)?;
        proof {
            let t = handle.history().skip(hsetup.len() as int);
            assert(handle.history() =~= hsetup + t);
            assert(handle.history() == hpll0 + pll_setup_ops(old(self).cache()) + t);
        }
        Ok(())
    }

    /// Select the TV standard (digital TV, bandwidth under 6 MHz) and
    /// run the filter calibration: up to two rounds of programming the
    /// calibration clock, running the PLL at 56 MHz and reading the
    /// 4-bit calibration code back.
    #[verifier::rlimit(60)]
    fn set_tv_standard<P: UsbPort>(
        &mut self,
        handle: &mut Device<P>,
        bw: u32,
        tuner_type: TunerType,
    ) -> (r: Result<(), RtlsdrError>)
        requires
            old(self).cache_wf(),
            0 < old(self).xtal <= 1_000_000_000,
        ensures
            final(self).cache_wf(),
            final(self).info == old(self).info,
            final(self).freq == old(self).freq,
            final(self).int_freq == 3_570_000 || final(self).int_freq == old(self).int_freq,
            r is Ok ==> final(self).int_freq == 3_570_000,
            final(self).xtal_cap_sel == old(self).xtal_cap_sel,
            final(self).xtal == old(self).xtal,
            final(self).use_predetect == old(self).use_predetect,
            final(self).init_done == old(self).init_done,
            tuner_ops_only(old(handle).history(), final(handle).history()),
            r is Ok ==> final(self).fil_cal_code != 0x0f,
    {
        // Filter settings for BW < 6 MHz.
        let if_khz: u32 = 3570;
        let filt_cal_lo: u32 = 56000;
        let filt_gain: u8 = 0x10;  // +3 dB, 6 MHz on
        let img_r: u8 = 0x00;  // image negative
        let filt_q: u8 = 0x10;  // low Q
        let hp_cor: u8 = 0x6b;  // 1.7 MHz disable, +2 cap, 1.0 MHz
        let ext_enable: u8 = 0x60;  // channel filter extension at LNA max-1
        let loop_through: u8 = 0x01;  // loop-through off
        let lt_att: u8 = 0x00;  // loop-through attenuation enabled
        let flt_ext_widest: u8 = 0x00;  // filter extension widest off
        let polyfil_cur: u8 = 0x60;  // RF poly filter current min

        // Start the calibration from the default register image.
        self.regs = reg_init_image();

        // Init flag and crystal-check result (also sets the VGA gain).
        self.write_reg_mask(handle, 0x0c, 0x00, 0x0f)?;

        // Version.
        self.write_reg_mask(handle, 0x13, VER_NUM, 0x3f)?;

        // For loop-through gain test.
        if !matches!(tuner_type, TunerType::TunerAnalogTv) {
            self.write_reg_mask(handle, 0x1d, 0x00, 0x38)?;
        }
        self.int_freq = if_khz * 1000;

        // The standard is selected only once per session, so the filter
        // is always calibrated; accept the code once it is not 0xf.
        let mut round: usize = 0;
        while round < 2
            invariant
                round <= 2,
                filt_cal_lo == 56000,
                round > 0 ==> self.fil_cal_code != 0x0f,
                self.cache_wf(),
                self.info == old(self).info,
                self.freq == old(self).freq,
                self.int_freq == 3_570_000,
                self.xtal_cap_sel == old(self).xtal_cap_sel,
                self.xtal == old(self).xtal,
                0 < self.xtal <= 1_000_000_000,
                self.use_predetect == old(self).use_predetect,
                self.init_done == old(self).init_done,
                tuner_ops_only(old(handle).history(), handle.history()),
            decreases 2 - round,
        {
            // Set the filter capacitor.
            self.write_reg_mask(handle, 0x0b, hp_cor, 0x60)?;

            // Calibration clock on.
            self.write_reg_mask(handle, 0x0f, 0x04, 0x04)?;

            // Crystal capacitor 0 pF for the PLL.
            self.write_reg_mask(handle, 0x10, 0x00, 0x03)?;

            self.set_pll(handle, filt_cal_lo * 1000)?;

            // Start and stop the calibration trigger.
            self.write_reg_mask(handle, 0x0b, 0x10, 0x10)?;
            self.write_reg_mask(handle, 0x0b, 0x00, 0x04)?;

            // Read the calibration code back.
            let data = self.read_reg(handle, 0x00, 5)?;
            self.fil_cal_code = data[4] & 0x0f;
            if self.fil_cal_code != 0x0f {
                round = 2;
            } else {
                // Narrowest setting.
                self.fil_cal_code = 0;
                round = round + 1;
            }
        }
        self.write_reg_mask(handle, 0x0a, filt_q | self.fil_cal_code, 0x1f)?;

        // Bandwidth, filter gain and high-pass corner.
        self.write_reg_mask(handle, 0x0b, hp_cor, 0xef)?;

        // Image rejection.
        self.write_reg_mask(handle, 0x07, img_r, 0x80)?;

        // filt_3dB and V6MHz.
        self.write_reg_mask(handle, 0x06, filt_gain, 0x30)?;

        // Channel filter extension.
        self.write_reg_mask(handle, 0x1e, ext_enable, 0x60)?;

        // Loop through.
        self.write_reg_mask(handle, 0x05, loop_through, 0x80)?;

        // Loop-through attenuation.
        self.write_reg_mask(handle, 0x1f, lt_att, 0x80)?;

        // Filter extension widest.
        self.write_reg_mask(handle, 0x0f, flt_ext_widest, 0x80)?;

        // RF poly filter current.
        self.write_reg_mask(handle, 0x19, polyfil_cur, 0x60)?;
        let _ = bw;
        Ok(())
    }

    /// Program LNA and mixer power detector levels, discharge currents,
    /// AGC clock and input selection for the reception mode.
    #[verifier::rlimit(100)]
    #[verifier::spinoff_prover]
    fn sysfreq_sel<P: UsbPort>(
        &mut self,
        handle: &mut Device<P>,
        freq: u32,
        tuner_type: TunerType,
        delivery_system: DeliverySystem,
    ) -> (r: Result<(), RtlsdrError>)
        requires
            old(self).cache_wf(),
        ensures
            final(self).cache_wf(),
            same_but_regs(*old(self), *final(self)),
            tuner_ops_only(old(handle).history(), final(handle).history()),
            r matches Err(e) ==> e is Usb,
            r is Ok ==> final(handle).history() == old(handle).history() + sysfreq_ops(
                old(self).cache(),
                freq,
                delivery_system,
                tuner_type matches TunerType::TunerAnalogTv,
                old(self).use_predetect,
            ) && final(self).cache() == sysfreq_cache(
                old(self).cache(),
                freq,
                delivery_system,
                tuner_type matches TunerType::TunerAnalogTv,
                old(self).use_predetect,
            ),
    {
        let ghost c0 = self.cache();
        let ghost h0 = handle.history();
        let ghost ds = delivery_system;
        let analog: bool = matches!(tuner_type, TunerType::TunerAnalogTv);
        let mixer_top: u8;
        let lna_top: u8;
        let cp_cur: u8;
        let div_buf_cur: u8;
        let lna_vth_l: u8;
        let mixer_vth_l: u8;
        let air_cable1_in: u8;
        let cable2_in: u8;
        let pre_dect: u8;
        let lna_discharge: u8;
        let filter_cur: u8;

        match delivery_system {
            DeliverySystem::SysDvbt => {
                if freq == 506000000 || freq == 666000000 || freq == 818000000 {
                    mixer_top = 0x14;  // mixer top 14, top-1, low-discharge
                    lna_top = 0xe5;  // detect bw 3, lna top 4, predet top 2
                    cp_cur = 0x28;  // 101, 0.2
                    div_buf_cur = 0x20;  // 10, 200u
                } else {
                    mixer_top = 0x24;  // mixer top 13, top-1, low-discharge
                    lna_top = 0xe5;
                    cp_cur = 0x38;  // 111, auto
                    div_buf_cur = 0x30;  // 11, 150u
                }
                lna_vth_l = 0x53;  // lna vth 0.84, vtl 0.64
                mixer_vth_l = 0x75;  // mixer vth 1.04, vtl 0.84
                air_cable1_in = 0x00;
                cable2_in = 0x00;
                pre_dect = 0x40;
                lna_discharge = 14;
                filter_cur = 0x40;  // 10, low
            },
            DeliverySystem::SysDvbt2 => {
                mixer_top = 0x24;
                lna_top = 0xe5;
                lna_vth_l = 0x53;
                mixer_vth_l = 0x75;
                air_cable1_in = 0x00;
                cable2_in = 0x00;
                pre_dect = 0x40;
                lna_discharge = 14;
                cp_cur = 0x38;
                div_buf_cur = 0x30;
                filter_cur = 0x40;
            },
            DeliverySystem::SysIsdbt => {
                mixer_top = 0x24;
                lna_top = 0xe5;
                lna_vth_l = 0x75;  // lna vth 1.04, vtl 0.84
                mixer_vth_l = 0x75;
                air_cable1_in = 0x00;
                cable2_in = 0x00;
                pre_dect = 0x40;
                lna_discharge = 14;
                cp_cur = 0x38;
                div_buf_cur = 0x30;
                filter_cur = 0x40;
            },
            DeliverySystem::SysUndefined => {
                // DVB-T 8 MHz defaults.
                mixer_top = 0x24;
                lna_top = 0xe5;
                lna_vth_l = 0x53;
                mixer_vth_l = 0x75;
                air_cable1_in = 0x00;
                cable2_in = 0x00;
                pre_dect = 0x40;
                lna_discharge = 14;
                cp_cur = 0x38;
                div_buf_cur = 0x30;
                filter_cur = 0x40;
            },
        }
        if self.use_predetect {
            self.write_reg_mask(handle, 0x06, pre_dect, 0x40)?;
        }
        self.write_reg_mask(handle, 0x1d, lna_top, 0xc7)?;
        self.write_reg_mask(handle, 0x1c, mixer_top, 0xf8)?;
        self.write_one(handle, 0x0d, lna_vth_l)?;
        self.write_one(handle, 0x0e, mixer_vth_l)?;

        // Air-IN only for Astrometa.
        self.write_reg_mask(handle, 0x05, air_cable1_in, 0x60)?;
        self.write_reg_mask(handle, 0x06, cable2_in, 0x08)?;
        self.write_reg_mask(handle, 0x11, cp_cur, 0x38)?;
        self.write_reg_mask(handle, 0x17, div_buf_cur, 0x30)?;
        self.write_reg_mask(handle, 0x0a, filter_cur, 0x60)?;

        if !analog {
            // LNA top: lowest.
            self.write_reg_mask(handle, 0x1d, 0, 0x38)?;
            // Normal mode.
            self.write_reg_mask(handle, 0x1c, 0, 0x04)?;
            // Predetect off.
            self.write_reg_mask(handle, 0x06, 0, 0x40)?;
            // AGC clock 250 Hz.
            self.write_reg_mask(handle, 0x1a, 0x30, 0x30)?;

            // LNA top 3.
            self.write_reg_mask(handle, 0x1d, 0x18, 0x38)?;

            // Discharge mode, with the mask the vendor driver uses.
            self.write_reg_mask(handle, 0x1c, mixer_top, 0x04)?;
            // LNA discharge current.
            self.write_reg_mask(handle, 0x1e, lna_discharge, 0x1f)?;
            // AGC clock 60 Hz.
            self.write_reg_mask(handle, 0x1a, 0x20, 0x30)?;
        } else {
            // Predetect off.
            self.write_reg_mask(handle, 0x06, 0, 0x40)?;
            // LNA top.
            self.write_reg_mask(handle, 0x1d, lna_top, 0x38)?;
            // Discharge mode, with the mask the vendor driver uses.
            self.write_reg_mask(handle, 0x1c, mixer_top, 0x04)?;
            // LNA discharge current.
            self.write_reg_mask(handle, 0x1e, lna_discharge, 0x1f)?;
            // AGC clock 1 kHz, external det1 cap 1u.
            self.write_reg_mask(handle, 0x1a, 0x00, 0x30)?;
        }
        self.write_reg_mask(handle, 0x10, lna_discharge, 0x04)?;
        proof {
            assert(handle.history() =~~= h0 + sysfreq_ops(c0, freq, ds, analog,
                old(self).use_predetect));
            assert(self.cache() =~= sysfreq_cache(c0, freq, ds, analog, old(self).use_predetect));
        }
        Ok(())
    }
}

impl<P: UsbPort> Tuner<P> for R820T {
    open spec fn wf(&self) -> bool {
        self.cache_wf()
    }

    open spec fn spec_if_freq(&self) -> u32 {
        self.spec_int_freq()
    }

    open spec fn spec_xtal(&self) -> u32 {
        self.spec_xtal_freq()
    }

    open spec fn spec_gains(&self) -> Seq<i32> {
        spec_r820t_gains()
    }

    open spec fn spec_tunable(&self) -> bool {
        0 < self.spec_xtal_freq() <= 1_000_000_000
    }

    open spec fn spec_tracks_xtal(&self) -> bool {
        true
    }

    fn init(&mut self, handle: &mut Device<P>) -> (r: Result<(), RtlsdrError>)
        ensures
            r is Ok ==> final(self).spec_init_done() && final(self).spec_int_freq() == 3_570_000
                && final(self).spec_fil_cal() != 0x0f && exists|h1: Seq<UsbOp>|
                #![auto]
                h1 == old(handle).history() + i2c_chunk_ops(0x05, spec_reg_init())
                    && tuner_ops_only(h1, final(handle).history()),
    {
        self.use_predetect = false;
        self.xtal_cap_sel = XtalCapValue::XtalHighCap0p;

        // Load the default register image.
        let image = reg_init_image();
        self.write_regs(handle, 0x05, &image)?;
        let ghost h1 = handle.history();

        self.set_tv_standard(handle, 3, TunerType::TunerDigitalTv)?;
        self.sysfreq_sel(handle, 0, TunerType::TunerDigitalTv, DeliverySystem::SysDvbt)?;
        self.init_done = true;
        proof {
            assert(image@ == spec_reg_init());
            assert(h1 == old(handle).history() + i2c_chunk_ops(0x05, spec_reg_init())
                && tuner_ops_only(h1, handle.history()));
        }
        Ok(())
    }

    fn get_info(&self) -> (r: Result<TunerInfo, RtlsdrError>) {
        Ok(self.info)
    }

    fn get_gains(&self) -> (r: Result<Vec<i32>, RtlsdrError>) {
        let mut v: Vec<i32> = Vec::new();
        v.push(0);
        v.push(9);
        v.push(14);
        v.push(27);
        v.push(37);
        v.push(77);
        v.push(87);
        v.push(125);
        v.push(144);
        v.push(157);
        v.push(166);
        v.push(197);
        v.push(207);
        v.push(229);
        v.push(254);
        v.push(280);
        v.push(297);
        v.push(328);
        v.push(338);
        v.push(364);
        v.push(372);
        v.push(386);
        v.push(402);
        v.push(421);
        v.push(434);
        v.push(439);
        v.push(445);
        v.push(480);
        v.push(496);
        proof {
            assert(v@ =~= spec_r820t_gains());
        }
        Ok(v)
    }

    fn read_gain(&self, handle: &mut Device<P>) -> (r: Result<i32, RtlsdrError>)
        ensures
            r matches Ok(v) ==> exists|d: Seq<u8>|
                #![auto]
                d.len() <= 4 && final(handle).history() == old(handle).history().push(
                    arr_write_op(BLOCK_IIC, 0x34, seq![0x00u8]),
                ).push(arr_read_op(BLOCK_IIC, 0x34, d)) && v == (((spec_bit_reverse(
                    byte_at(d, 3) as u8,
                ) & 0x0f) << 1) + ((spec_bit_reverse(byte_at(d, 3) as u8) & 0xf0) >> 4)) as i32,
    {
        let data = self.read_reg(handle, 0x00, 4)?;
        let b: u8 = data[3];
        proof {
            assert(((b & 0x0f) << 1) + ((b & 0xf0) >> 4) <= 45) by (bit_vector);
        }
        let gain: u8 = ((b & 0x0f) << 1) + ((b & 0xf0) >> 4);
        Ok(gain as i32)
    }

    #[verifier::rlimit(100)]
    #[verifier::spinoff_prover]
    fn set_gain(&mut self, handle: &mut Device<P>, gain: &TunerGain) -> (r: Result<
        (),
        RtlsdrError,
    >)
        ensures
            (*gain) matches TunerGain::Auto && r is Ok ==> final(self).cache() == auto_gain_cache(
                old(self).cache(),
            ) && final(handle).history() == old(handle).history() + auto_gain_ops(
                old(self).cache(),
            ),
            (*gain) matches TunerGain::Manual(g) ==> (r is Ok ==> final(self).cache()
                == manual_gain_cache(old(self).cache(), g as int) && exists|d: Seq<u8>|
                #![auto]
                final(handle).history() == old(handle).history() + manual_gain_ops(
                    old(self).cache(),
                    g as int,
                    d,
                )),
    {
        let ghost c0 = self.cache();
        let ghost h0 = handle.history();
        match gain {
            TunerGain::Auto => {
                // LNA to auto.
                self.write_reg_mask(handle, 0x05, 0, 0x10)?;
                // Mixer to auto.
                self.write_reg_mask(handle, 0x07, 0x10, 0x10)?;
                // Fixed VGA gain (about 26.5 dB).
                self.write_reg_mask(handle, 0x0c, 0x0b, 0x9f)?;
                proof {
                    assert(handle.history() =~~= h0 + auto_gain_ops(c0));
                    assert(self.cache() =~= auto_gain_cache(c0));
                }
            },
            TunerGain::Manual(gain_val) => {
                let g: i32 = *gain_val;
                // LNA auto off.
                self.write_reg_mask(handle, 0x05, 0x10, 0x10)?;
                // Mixer auto off.
                self.write_reg_mask(handle, 0x07, 0, 0x10)?;

                let rd = self.read_reg(handle, 0x00, 4)?;
                let ghost dref = choose|d: Seq<u8>|
                    #![auto]
                    d.len() <= 4 && handle.history() == h0.push(
                        masked_op(c0, 0x05, 0x10, 0x10),
                    ).push(masked_op(cache_masked(c0, 0x05, 0x10, 0x10), 0x07, 0x00, 0x10)).push(
                        arr_write_op(BLOCK_IIC, 0x34, seq![0x00u8]),
                    ).push(arr_read_op(BLOCK_IIC, 0x34, d));
                let _ = rd;

                // Fixed VGA gain for now (about 16.3 dB).
                self.write_reg_mask(handle, 0x0c, 0x08, 0x9f)?;

                // Walk the alternating LNA and mixer gain tables until
                // the accumulated steps reach the request.
                let mut total_gain: i32 = 0;
                let mut mix_index: usize = 0;
                let mut lna_index: usize = 0;
                let mut steps: usize = 0;
                while steps < 15
                    invariant_except_break
                        lna_index <= steps,
                        mix_index <= steps,
                        -50 * (steps as int) <= total_gain <= 100 * (steps as int),
                        gain_walk(
                            g as int,
                            total_gain as int,
                            lna_index as int,
                            mix_index as int,
                            steps as int,
                        ) == spec_gain_indices(g as int),
                    invariant
                        steps <= 15,
                    ensures
                        lna_index as int == spec_gain_indices(g as int).0,
                        mix_index as int == spec_gain_indices(g as int).1,
                        lna_index <= 15,
                        mix_index <= 15,
                    decreases 15 - steps,
                {
                    if total_gain >= g {
                        proof {
                            assert(gain_walk(
                                g as int,
                                total_gain as int,
                                lna_index as int,
                                mix_index as int,
                                steps as int,
                            ) == (lna_index as int, mix_index as int));
                        }
                        break ;
                    }
                    let ghost (t0, l0, m0, s0) = (
                        total_gain as int,
                        lna_index as int,
                        mix_index as int,
                        steps as int,
                    );
                    lna_index = lna_index + 1;
                    total_gain = total_gain + lna_gain_step(lna_index);

                    if total_gain >= g {
                        proof {
                            assert(gain_walk(g as int, t0, l0, m0, s0) == (
                                lna_index as int,
                                mix_index as int,
                            ));
                        }
                        break ;
                    }

                    mix_index = mix_index + 1;
                    total_gain = total_gain + mixer_gain_step(mix_index);
                    steps = steps + 1;
                    proof {
                        assert(gain_walk(g as int, t0, l0, m0, s0) == gain_walk(
                            g as int,
                            total_gain as int,
                            lna_index as int,
                            mix_index as int,
                            steps as int,
                        ));
                    }
                }

                // Set LNA gain.
                let lna_val: u8 = lna_index as u8;
                self.write_reg_mask(handle, 0x05, lna_val, 0x0f)?;

                // Set mixer gain.
                let mix_val: u8 = mix_index as u8;
                self.write_reg_mask(handle, 0x07, mix_val, 0x0f)?;

                // LNA back to the masked value.
                self.write_reg_mask(handle, 0x05, 0, 0x10)?;

                // Mixer back to the masked value.
                self.write_reg_mask(handle, 0x07, 0x10, 0x10)?;

                // Fixed VGA gain (about 26.5 dB).
                self.write_reg_mask(handle, 0x0c, 0x0b, 0x9f)?;
                proof {
                    assert(handle.history() =~~= h0 + manual_gain_ops(c0, g as int, dref));
                    assert(self.cache() =~= manual_gain_cache(c0, g as int));
                }
            },
        }
        Ok(())
    }

    fn set_freq(&mut self, handle: &mut Device<P>, freq: u32) -> (r: Result<(), RtlsdrError>)
        ensures
            r is Ok ==> spec_pll_nint(
                (freq + old(self).spec_int_freq()) as u32,
                old(self).spec_xtal_freq(),
            ) <= 63 && exists|hm: Seq<UsbOp>|
                #![auto]
                hm == old(handle).history() + mux_ops(
                    old(self).cache(),
                    (freq + old(self).spec_int_freq()) as u32,
                    old(self).spec_xtal_cap(),
                ) && tuner_ops_only(hm, final(handle).history()),
    {
        let ghost h0 = handle.history();
        let lo_freq: u32 = freq + self.int_freq;
        self.set_mux(handle, lo_freq)?;
        let ghost hm = handle.history();
        self.set_pll(handle, lo_freq)?;
        proof {
            assert(hm == h0 + mux_ops(old(self).cache(), lo_freq, old(self).spec_xtal_cap()));
        }
        Ok(())
    }

    #[verifier::rlimit(100)]
    #[verifier::spinoff_prover]
    fn set_bandwidth(&mut self, handle: &mut Device<P>, bw: u32, rate: u32) -> (r: Result<
        (),
        RtlsdrError,
    >)
        ensures
            r matches Err(e) ==> e is Usb,
            r is Ok ==> final(self).spec_int_freq() == spec_bw_if(bw as i32 as int) && final(handle).history() == old(handle).history() + seq![
                masked_op(old(self).cache(), 0x0a, spec_bw_regs(bw as i32 as int).0, 0x10),
                masked_op(
                    cache_masked(old(self).cache(), 0x0a, spec_bw_regs(bw as i32 as int).0, 0x10),
                    0x0b,
                    spec_bw_regs(bw as i32 as int).1,
                    0xef,
                ),
            ] && final(self).cache() == cache_masked(
                cache_masked(old(self).cache(), 0x0a, spec_bw_regs(bw as i32 as int).0, 0x10),
                0x0b,
                spec_bw_regs(bw as i32 as int).1,
                0xef,
            ),
    {
        let ghost c0 = self.cache();
        let ghost h0 = handle.history();
        let filt_hp_bw1: i32 = 350_000;
        let filt_hp_bw2: i32 = 380_000;
        #[verifier::truncate]
        let mut bw_i: i32 = bw as i32;
        let ghost bwi = bw_i as int;

        let (reg_0a, reg_0b): (u8, u8) = if bw_i > 7_000_000 {
            // BW: 8 MHz.
            self.int_freq = 4_570_000;
            (0x10, 0x0b)
        } else if bw_i > 6_000_000 {
            // BW: 7 MHz.
            self.int_freq = 4_570_000;
            (0x10, 0x2a)
        } else if bw_i > 1_700_000 + filt_hp_bw1 + filt_hp_bw2 {
            // BW: 6 MHz.
            self.int_freq = 3_570_000;
            (0x10, 0x6b)
        } else {
            self.int_freq = 2_300_000;
            let reg_0a: u8 = 0x00;
            let mut reg_0b: u8 = 0x80;
            let mut real_bw: i32 = 0;

            if bw_i > 1_700_000 + filt_hp_bw1 {
                bw_i = bw_i - filt_hp_bw2;
                self.int_freq = self.int_freq + filt_hp_bw2 as u32;
                real_bw = real_bw + filt_hp_bw2;
            } else {
                reg_0b = reg_0b | 0x20;
            }

            if bw_i > 1_700_000 {
                bw_i = bw_i - filt_hp_bw1;
                self.int_freq = self.int_freq + filt_hp_bw1 as u32;
                real_bw = real_bw + filt_hp_bw1;
            } else {
                reg_0b = reg_0b | 0x40;
            }

            // Select the low-pass filter: the entry before the first
            // that lies below the residual bandwidth.
            let mut lp_idx: usize = 0;
            let mut i: usize = 0;
            while i < 10
                invariant
                    i <= 10,
                    lp_idx < 10,
                    lp_idx as int == if i == 0 { 0int } else { i - 1 },
                    i >= 1 ==> bw_i <= 1_700_000,
                    i >= 2 ==> bw_i <= 1_600_000,
                    i >= 3 ==> bw_i <= 1_550_000,
                    i >= 4 ==> bw_i <= 1_450_000,
                    i >= 5 ==> bw_i <= 1_200_000,
                    i >= 6 ==> bw_i <= 900_000,
                    i >= 7 ==> bw_i <= 700_000,
                    i >= 8 ==> bw_i <= 550_000,
                    i >= 9 ==> bw_i <= 450_000,
                    i >= 10 ==> bw_i <= 350_000,
                ensures
                    lp_idx < 10,
                    lp_idx as int == spec_lp_idx(bw_i as int),
                decreases 10 - i,
            {
                if bw_i > lp_filter_bw(i) {
                    proof {
                        if i == 0 {
                            assert(lp_idx as int == spec_lp_idx(bw_i as int));
                        } else if i == 1 {
                            assert(lp_idx as int == spec_lp_idx(bw_i as int));
                        } else if i == 2 {
                            assert(lp_idx as int == spec_lp_idx(bw_i as int));
                        } else if i == 3 {
                            assert(lp_idx as int == spec_lp_idx(bw_i as int));
                        } else if i == 4 {
                            assert(lp_idx as int == spec_lp_idx(bw_i as int));
                        } else if i == 5 {
                            assert(lp_idx as int == spec_lp_idx(bw_i as int));
                        } else if i == 6 {
                            assert(lp_idx as int == spec_lp_idx(bw_i as int));
                        } else if i == 7 {
                            assert(lp_idx as int == spec_lp_idx(bw_i as int));
                        } else if i == 8 {
                            assert(lp_idx as int == spec_lp_idx(bw_i as int));
                        } else {
                            assert(lp_idx as int == spec_lp_idx(bw_i as int));
                        }
                    }
                    break ;
                }
                lp_idx = i;
                i = i + 1;
            }
            reg_0b = reg_0b | (15 - lp_idx as u8);
            let sel: i32 = lp_filter_bw(lp_idx);
            real_bw = real_bw + sel;

            self.int_freq = self.int_freq - (real_bw / 2) as u32;
            (reg_0a, reg_0b)
        };
        proof {
            assert(reg_0a == spec_bw_regs(bwi).0);
            if bwi <= 2_430_000 {
                // The flag bits merge case by case.
                if bwi > 2_050_000 {
                    if bwi - 380_000 > 1_700_000 {
                        assert(reg_0b == spec_bw_regs(bwi).1);
                    } else {
                        assert(reg_0b == spec_bw_regs(bwi).1);
                    }
                } else {
                    if bwi > 1_700_000 {
                        assert(reg_0b == spec_bw_regs(bwi).1);
                    } else {
                        assert(reg_0b == spec_bw_regs(bwi).1);
                    }
                }
            }
            assert(reg_0b == spec_bw_regs(bwi).1);
            assert(self.int_freq == spec_bw_if(bwi));
        }

        self.write_reg_mask(handle, 0x0a, reg_0a, 0x10)?;
        self.write_reg_mask(handle, 0x0b, reg_0b, 0xef)?;
        proof {
            assert(handle.history() =~~= h0 + seq![
                masked_op(c0, 0x0a, spec_bw_regs(bwi).0, 0x10),
                masked_op(
                    cache_masked(c0, 0x0a, spec_bw_regs(bwi).0, 0x10),
                    0x0b,
                    spec_bw_regs(bwi).1,
                    0xef,
                ),
            ]);
        }
        let _ = rate;
        Ok(())
    }

    fn get_if_freq(&self) -> (r: Result<u32, RtlsdrError>) {
        Ok(self.int_freq)
    }

    fn get_xtal_freq(&self) -> (r: Result<u32, RtlsdrError>) {
        Ok(self.xtal)
    }

    fn set_xtal_freq(&mut self, freq: u32) -> (r: Result<(), RtlsdrError>) {
        self.xtal = freq;
        Ok(())
    }

    fn exit(&mut self, handle: &mut Device<P>) -> (r: Result<(), RtlsdrError>)
        ensures
            final(self).spec_init_done() == old(self).spec_init_done(),
            !old(self).spec_init_done() ==> final(handle).history() == old(handle).history()
                && *final(self) == *old(self),
            old(self).spec_init_done() && r is Ok ==> final(handle).history() == old(
                handle,
            ).history() + standby_ops(),
    {
        let ghost h0 = handle.history();
        // A chip that was never brought up needs no standby sequence.
        if !self.init_done {
            proof {
                lemma_tuner_ops_refl(handle.history());
            }
            return Ok(());
        }
        self.write_one(handle, 0x06, 0xb1)?;
        self.write_one(handle, 0x05, 0xa0)?;
        self.write_one(handle, 0x07, 0x3a)?;
        self.write_one(handle, 0x08, 0x40)?;
        self.write_one(handle, 0x09, 0xc0)?;
        self.write_one(handle, 0x0a, 0x36)?;
        self.write_one(handle, 0x0c, 0x35)?;
        self.write_one(handle, 0x0f, 0x68)?;
        self.write_one(handle, 0x11, 0x03)?;
        self.write_one(handle, 0x17, 0xf4)?;
        self.write_one(handle, 0x19, 0x0c)?;
        proof {
            assert(handle.history() =~~= h0 + standby_ops());
        }
        Ok(())
    }
}

} // verus!
