//! The SDR controller: baseband bring-up and teardown, sample-rate and
//! frequency programming, direct sampling, gain, GPIO and the I2C
//! repeater discipline around every tuner operation.

use vstd::prelude::*;

use crate::constants::{BLOCK_IIC, BLOCK_SYS, BLOCK_USB, DEMOD_CTL, DEMOD_CTL_1, EEPROM_SIZE, GPD,
    GPO, GPOE, USB_EPA_CTL, USB_EPA_MAXPKT, USB_SYSCTL};
use crate::device::{arr_read_op, arr_write_op, demod_read_op, demod_write_op, demod_write_seq,
    grows, lemma_grows_refl, reg_write_op, Device};
use crate::error::RtlsdrError;
use crate::fir::{fir_coeffs_ok, pack_fir, spec_pack_fir};
use crate::port::UsbPort;
use crate::r820t::R820T;
use crate::tuner::{is_tuner_i2c_op, tuner_ops_only, Tuner, TunerInfo, TunerKind};
use crate::usb_model::{byte_at, is_ctrl_in, UsbOp};
use crate::{DirectSampleMode, TunerGain};

verus! {

broadcast use
    crate::tuner::lemma_tuner_ops_trans_auto,
    crate::device::lemma_grows_trans_auto,
    crate::device::lemma_grows_push_auto,
    crate::device::lemma_grows_concat_auto,
;

/// The USB interface claimed on open.
pub const INTERFACE_ID: u8 = 0;

/// Nominal crystal frequency of the RTL2832U, in Hz.
pub const DEF_RTL_XTAL_FREQ: u32 = 28_800_000;

/// Lowest accepted replacement crystal frequency.
pub const MIN_RTL_XTAL_FREQ: u32 = 28_799_000;

/// Highest accepted replacement crystal frequency.
pub const MAX_RTL_XTAL_FREQ: u32 = 28_801_000;

/// The default decimation-filter coefficients loaded at baseband init.
pub open spec fn spec_default_fir() -> Seq<i32> {
    seq![
        -54i32, -36i32, -41i32, -40i32, -32i32, -14i32, 14i32, 53i32, 101i32, 156i32, 215i32, 273i32,
        327i32, 372i32, 404i32, 421i32,
    ]
}

/// The default decimation-filter coefficients loaded at baseband init.
pub fn default_fir() -> (r: Vec<i32>)
    ensures
        r@ == spec_default_fir(),
        fir_coeffs_ok(r@),
{
    let mut v: Vec<i32> = Vec::new();
    v.push(-54);
    v.push(-36);
    v.push(-41);
    v.push(-40);
    v.push(-32);
    v.push(-14);
    v.push(14);
    v.push(53);
    v.push(101);
    v.push(156);
    v.push(215);
    v.push(273);
    v.push(327);
    v.push(372);
    v.push(404);
    v.push(421);
    proof {
        assert(v@ =~= spec_default_fir());
        assert(fir_coeffs_ok(v@));
    }
    v
}

/// Whether the resampler accepts `rate`: above 225 kHz, at most
/// 3.2 MHz, and outside the gap from 300 kHz to 900 kHz.
pub open spec fn valid_sample_rate(rate: u32) -> bool {
    !(rate <= 225_000 || rate > 3_200_000 || (rate > 300_000 && rate <= 900_000))
}

/// The 28-bit resampler ratio: the crystal-to-rate quotient with the
/// low two bits cleared and kept to 28 bits.
pub open spec fn spec_rsamp_ratio(xtal: u32, rate: u32) -> int
    recommends
        rate > 0,
{
    (((xtal as int) * 0x400000) / (rate as int) / 4 % 0x4000000) * 4
}

/// The effective ratio: bit 27 of the programmed ratio carries into
/// bit 28.
pub open spec fn spec_real_ratio(xtal: u32, rate: u32) -> int
    recommends
        rate > 0,
{
    spec_rsamp_ratio(xtal, rate) + if (spec_rsamp_ratio(xtal, rate) / 0x8000000) % 2 == 1 {
        0x10000000int
    } else {
        0int
    }
}

/// The sample rate actually achieved, clamped into `u32` as the driver
/// stores it.
pub open spec fn spec_real_rate(xtal: u32, rate: u32) -> int
    recommends
        rate > 0,
        spec_real_ratio(xtal, rate) > 0,
{
    if spec_real_ratio(xtal, rate) == 0 {
        u32::MAX as int
    } else {
        let exact = (xtal * 0x400000) / spec_real_ratio(xtal, rate);
        if exact > u32::MAX {
            u32::MAX as int
        } else {
            exact
        }
    }
}

/// The achieved rate differs from the exact crystal-to-ratio quotient
/// by less than one hertz: the driver stores its integer floor.
pub proof fn lemma_rate_within_one_hz(xtal: u32, rate: u32)
    requires
        valid_sample_rate(rate),
        spec_real_ratio(xtal, rate) > 0,
        spec_real_rate(xtal, rate) < u32::MAX,
    ensures
        spec_real_rate(xtal, rate) * spec_real_ratio(xtal, rate) <= xtal * 0x400000 < (
        spec_real_rate(xtal, rate) + 1) * spec_real_ratio(xtal, rate),
{
    let x = (xtal * 0x400000) as int;
    let d = spec_real_ratio(xtal, rate);
    let q = x / d;
    assert(q * d <= x < (q + 1) * d) by (nonlinear_arith)
        requires
            d > 0,
            x >= 0,
            q == x / d,
    ;
}

/// The 32-bit two's-complement word `-(freq * 2^22 / xtal)` written to
/// the intermediate-frequency registers (nominal crystal).
pub open spec fn spec_if_word(freq: u32) -> int {
    (0x1_0000_0000 - ((freq as int) * 0x400000 / 28_800_000) % 0x1_0000_0000) % 0x1_0000_0000
}

/// High six bits (of 22) of the IF word.
pub open spec fn spec_if_b1(freq: u32) -> u16 {
    (spec_if_word(freq) % 0x400000 / 0x10000) as u16
}

/// Middle byte of the IF word.
pub open spec fn spec_if_b2(freq: u32) -> u16 {
    (spec_if_word(freq) / 0x100 % 0x100) as u16
}

/// Low byte of the IF word.
pub open spec fn spec_if_b3(freq: u32) -> u16 {
    (spec_if_word(freq) % 0x100) as u16
}

/// The 16-bit two's-complement image of the sample-frequency
/// correction `-ppm * 2^24 / 10^6`, truncated toward zero as the
/// driver computes it.
pub open spec fn spec_corr_word(ppm: int) -> int {
    let offs = if ppm >= 0 {
        -((ppm * 16777216) / 1000000)
    } else {
        ((-ppm) * 16777216) / 1000000
    };
    ((offs % 65536) + 65536) % 65536
}

/// Low byte of the correction word.
pub open spec fn spec_corr_lo(ppm: int) -> u16 {
    (spec_corr_word(ppm) % 256) as u16
}

/// High six bits of the correction word.
pub open spec fn spec_corr_hi(ppm: int) -> u16 {
    (spec_corr_word(ppm) / 256 % 64) as u16
}

/// The crystal frequency corrected by `ppm` parts per million.
pub open spec fn spec_corrected_xtal(xtal: u32, ppm: int) -> int {
    (xtal * (1_000_000 + ppm)) / 1_000_000
}

/// The two demodulator operations that write the sample-frequency
/// correction word, with their dummy-read deliveries.
pub open spec fn corr_ops(ppm: int, d1: Seq<u8>, d2: Seq<u8>) -> Seq<UsbOp> {
    demod_write_seq(1, 0x3f, spec_corr_lo(ppm), 1, d1) + demod_write_seq(
        1,
        0x3e,
        spec_corr_hi(ppm),
        1,
        d2,
    )
}

/// The shape of a FIR load: 40 operations, the even positions writing
/// the packed bytes to page 1 registers 0x1c and up in order, each
/// followed by its dummy read.
pub open spec fn fir_write_shape(h0: Seq<UsbOp>, h1: Seq<UsbOp>, packed: Seq<u8>) -> bool {
    &&& h1.len() == h0.len() + 40
    &&& h1.subrange(0, h0.len() as int) == h0
    &&& forall|i: int|
        0 <= i < 20 ==> #[trigger] h1[h0.len() + 2 * i] == demod_write_op(
            1,
            (0x1c + i) as u16,
            packed[i] as u16,
            1,
        )
    &&& forall|i: int| 0 <= i < 20 ==> is_ctrl_in(#[trigger] h1[h0.len() + 2 * i + 1], 0x0120, 0x0a)
}

/// The deterministic tail of a sample-rate change: the two 16-bit
/// halves of the resampler ratio, the correction word, and the soft
/// reset pulse.
pub open spec fn rate_tail_shape(h0: Seq<UsbOp>, h1: Seq<UsbOp>, ratio: int, ppm: int) -> bool {
    exists|d1: Seq<u8>, d2: Seq<u8>, d3: Seq<u8>, d4: Seq<u8>, d5: Seq<u8>, d6: Seq<u8>|
        #![auto]
        d1.len() <= 1 && d2.len() <= 1 && d3.len() <= 1 && d4.len() <= 1 && d5.len() <= 1
            && d6.len() <= 1 && h1 == h0 + demod_write_seq(1, 0x9f, (ratio / 0x10000) as u16, 2, d1)
            + demod_write_seq(1, 0xa1, (ratio % 0x10000) as u16, 2, d2) + corr_ops(ppm, d3, d4)
            + demod_write_seq(1, 0x01, 0x14, 1, d5) + demod_write_seq(1, 0x01, 0x10, 1, d6)
}

/// The shape of enabling direct sampling: retire the tuner under a
/// repeater bracket, then disable Zero-IF, disable spectrum inversion,
/// select the in-phase ADC input and set the I/Q swap, then whatever a
/// retune appends.
pub open spec fn ds_enable_shape(h0: Seq<UsbOp>, h1: Seq<UsbOp>, swap: bool) -> bool {
    exists|hb: Seq<UsbOp>, hm: Seq<UsbOp>, d1: Seq<u8>, d2: Seq<u8>, d3: Seq<u8>, d4: Seq<u8>|
        #![auto]
        repeater_bracketed(h0, hb) && d1.len() <= 1 && d2.len() <= 1 && d3.len() <= 1 && d4.len()
            <= 1 && hm == hb + demod_write_seq(1, 0xb1, 0x1a, 1, d1) + demod_write_seq(
            1,
            0x15,
            0x00,
            1,
            d2,
        ) + demod_write_seq(0, 0x08, 0x4d, 1, d3) + demod_write_seq(
            0,
            0x06,
            if swap {
                0x90u16
            } else {
                0x80u16
            },
            1,
            d4,
        ) && grows(hm, h1)
}

/// A segment of history that turns the I2C repeater on, carries only
/// tuner I2C traffic, and turns the repeater off again: the discipline
/// around every tuner operation.
pub open spec fn repeater_bracketed(h0: Seq<UsbOp>, h1: Seq<UsbOp>) -> bool {
    exists|d1: Seq<u8>, d2: Seq<u8>, t: Seq<UsbOp>|
        #![auto]
        d1.len() <= 1 && d2.len() <= 1 && (forall|i: int|
            0 <= i < t.len() ==> is_tuner_i2c_op(#[trigger] t[i])) && h1 == h0 + demod_write_seq(
            1,
            0x01,
            0x18,
            1,
            d1,
        ) + t + demod_write_seq(1, 0x01, 0x10, 1, d2)
}

/// Stitch a repeater bracket together from its three parts.
pub proof fn lemma_repeater_bracketed(
    h0: Seq<UsbOp>,
    hon: Seq<UsbOp>,
    ht: Seq<UsbOp>,
    hf: Seq<UsbOp>,
    d1: Seq<u8>,
    d2: Seq<u8>,
)
    requires
        d1.len() <= 1,
        d2.len() <= 1,
        hon == h0 + demod_write_seq(1, 0x01, 0x18, 1, d1),
        tuner_ops_only(hon, ht),
        hf == ht + demod_write_seq(1, 0x01, 0x10, 1, d2),
    ensures
        repeater_bracketed(h0, hf),
{
    let t = ht.skip(hon.len() as int);
    assert(ht =~= hon + t);
    assert forall|i: int| 0 <= i < t.len() implies is_tuner_i2c_op(#[trigger] t[i]) by {
        assert(t[i] == ht[hon.len() + i]);
    }
    assert(hf =~= h0 + demod_write_seq(1, 0x01, 0x18, 1, d1) + t + demod_write_seq(
        1,
        0x01,
        0x10,
        1,
        d2,
    ));
}

/// Everything but the underlying register plane is unchanged.
pub closed spec fn same_config<P: UsbPort>(a: &RtlSdr<P>, b: &RtlSdr<P>) -> bool {
    &&& a.tuner == b.tuner
    &&& a.freq == b.freq
    &&& a.rate == b.rate
    &&& a.bw == b.bw
    &&& a.direct_sampling == b.direct_sampling
    &&& a.xtal == b.xtal
    &&& a.tuner_xtal == b.tuner_xtal
    &&& a.offset_freq == b.offset_freq
    &&& a.corr == b.corr
    &&& a.force_bt == b.force_bt
    &&& a.force_ds == b.force_ds
    &&& a.fir == b.fir
}

/// Helper meant to derive capture-friendly frequency and rate
/// adjustments for benchmarking; it currently selects no adjustment.
pub fn optimal_settings(freq: u32, rate: u32) -> (r: (u32, u32))
    ensures
        r == (0u32, 0u32),
{
    let _ = freq;
    let _ = rate;
    (0, 0)
}

/// The state of one open RTL2832U dongle.
pub struct RtlSdr<P: UsbPort> {
    handle: Device<P>,
    tuner: TunerKind,
    freq: u32,
    rate: u32,
    bw: u32,
    direct_sampling: DirectSampleMode,
    xtal: u32,
    tuner_xtal: u32,
    offset_freq: u32,
    corr: i32,
    force_bt: bool,
    force_ds: bool,
    fir: Vec<i32>,
}

impl<P: UsbPort> RtlSdr<P> {
    /// The USB operations issued through this controller, in order.
    pub closed spec fn history(&self) -> Seq<UsbOp> {
        self.handle.history()
    }

    /// Structural well-formedness: a usable tuner state, an in-range
    /// coefficient table, and the crystal bookkeeping inside the bounds
    /// the arithmetic relies on.
    pub closed spec fn wf(&self) -> bool {
        &&& <TunerKind as Tuner<P>>::wf(&self.tuner)
        &&& <TunerKind as Tuner<P>>::spec_tunable(&self.tuner)
        &&& <TunerKind as Tuner<P>>::spec_if_freq(&self.tuner) <= 4_570_000
        &&& fir_coeffs_ok(self.fir@)
        &&& MIN_RTL_XTAL_FREQ <= self.xtal <= MAX_RTL_XTAL_FREQ
        &&& 1_000_000 <= self.tuner_xtal <= 500_000_000
        &&& -1_000_000 < self.corr <= 1_000_000
        &&& self.offset_freq == 0
        &&& self.freq <= 0xffff_ffff - 4_570_000
    }

    /// The tuned center frequency in Hz.
    pub closed spec fn spec_freq(&self) -> u32 {
        self.freq
    }

    /// The achieved sample rate in Hz.
    pub closed spec fn spec_rate(&self) -> u32 {
        self.rate
    }

    /// The frequency correction in parts per million.
    pub closed spec fn spec_corr(&self) -> i32 {
        self.corr
    }

    /// The direct-sampling mode.
    pub closed spec fn spec_direct_sampling(&self) -> DirectSampleMode {
        self.direct_sampling
    }

    /// The RTL-side crystal frequency in Hz.
    pub closed spec fn spec_xtal(&self) -> u32 {
        self.xtal
    }

    /// A view of the underlying port.
    pub fn port_ref(&self) -> (r: &P)
        ensures
            r.history() == self.history(),
    {
        self.handle.port_ref()
    }

    /// A controller around an open register plane, with the nominal
    /// crystal, no tuner yet and everything untuned.
    pub fn new(handle: Device<P>) -> (r: RtlSdr<P>)
        ensures
            r.wf(),
            r.history() == handle.history(),
            r.spec_freq() == 0,
            r.spec_rate() == 0,
            r.spec_corr() == 0,
            r.spec_bw() == 0,
            r.spec_xtal() == DEF_RTL_XTAL_FREQ,
            r.tuner_xtal_value() == DEF_RTL_XTAL_FREQ,
            r.spec_direct_sampling() == DirectSampleMode::Off,
            !r.spec_force_ds(),
    {
        RtlSdr {
            handle,
            tuner: TunerKind::NoTuner(crate::tuner::NoTuner {  }),
            freq: 0,
            rate: 0,
            bw: 0,
            xtal: DEF_RTL_XTAL_FREQ,
            tuner_xtal: DEF_RTL_XTAL_FREQ,
            direct_sampling: DirectSampleMode::Off,
            offset_freq: 0,
            corr: 0,
            force_bt: false,
            force_ds: false,
            fir: default_fir(),
        }
    }

    /// The tuned center frequency in Hz.
    pub fn get_center_freq(&self) -> (r: u32)
        ensures
            r == self.spec_freq(),
    {
        self.freq
    }

    /// The frequency correction in parts per million.
    pub fn get_freq_correction(&self) -> (r: i32)
        ensures
            r == self.spec_corr(),
    {
        self.corr
    }

    /// The achieved sample rate in Hz.
    pub fn get_sample_rate(&self) -> (r: u32)
        ensures
            r == self.spec_rate(),
    {
        self.rate
    }

    /// The gain values the attached tuner offers.
    pub closed spec fn spec_gains(&self) -> Seq<i32> {
        <TunerKind as Tuner<P>>::spec_gains(&self.tuner)
    }

    /// The gain values the tuner offers, in tenths of a dB.
    pub fn get_tuner_gains(&self) -> (r: Result<Vec<i32>, RtlsdrError>)
        ensures
            r matches Ok(v) && v@ == self.spec_gains(),
    {
        <TunerKind as Tuner<P>>::get_gains(&self.tuner)
    }

    /// The RTL crystal frequency with the PPM correction applied.
    pub fn get_xtal_freq(&self) -> (r: u32)
        requires
            self.spec_xtal() <= 29_000_000,
            -1_000_000 < self.spec_corr() <= 1_000_000,
        ensures
            r == spec_corrected_xtal(self.spec_xtal(), self.spec_corr() as int),
    {
        proof {
            assert((self.xtal as int) * (1_000_000 + self.corr as int) <= 29_000_000 * 2_000_000)
                by (nonlinear_arith)
                requires
                    self.xtal as int <= 29_000_000,
                    self.corr as int <= 1_000_000,
            ;
            assert((self.xtal as int) * (1_000_000 + self.corr as int) >= 0) by (nonlinear_arith)
                requires
                    self.xtal as int >= 0,
                    self.corr as int > -1_000_000,
            ;
        }
        let prod: i64 = self.xtal as i64 * (1_000_000i64 + self.corr as i64);
        (prod / 1_000_000) as u32
    }

    /// The tuner crystal frequency with the PPM correction applied.
    pub fn get_tuner_xtal_freq(&self) -> (r: u32)
        requires
            1_000_000 <= self.tuner_xtal_value() <= 500_000_000,
            -1_000_000 < self.spec_corr() <= 1_000_000,
        ensures
            r == spec_corrected_xtal(self.tuner_xtal_value(), self.spec_corr() as int),
            0 < r <= 1_000_000_000,
    {
        proof {
            assert((self.tuner_xtal as int) * (1_000_000 + self.corr as int) <= 500_000_000
                * 2_000_000) by (nonlinear_arith)
                requires
                    self.tuner_xtal as int <= 500_000_000,
                    self.corr as int <= 1_000_000,
            ;
            assert((self.tuner_xtal as int) * (1_000_000 + self.corr as int) >= 1_000_000)
                by (nonlinear_arith)
                requires
                    self.tuner_xtal as int >= 1_000_000,
                    self.corr as int > -1_000_000,
            ;
        }
        let prod: i64 = self.tuner_xtal as i64 * (1_000_000i64 + self.corr as i64);
        (prod / 1_000_000) as u32
    }

    /// The stored tuner crystal frequency.
    pub closed spec fn tuner_xtal_value(&self) -> u32 {
        self.tuner_xtal
    }

    /// The stored tuner bandwidth selection (0 means: follow the rate).
    pub closed spec fn spec_bw(&self) -> u32 {
        self.bw
    }

    /// Enable or disable the demodulator's test mode (an internal
    /// counter in place of samples).
    pub fn set_testmode(&mut self, on: bool) -> (r: Result<(), RtlsdrError>)
        ensures
            r matches Err(e) ==> e is Usb,
            same_config(old(self), final(self)),
            final(self).wf() == old(self).wf(),
            final(self).spec_freq() == old(self).spec_freq(),
            final(self).spec_rate() == old(self).spec_rate(),
            final(self).spec_corr() == old(self).spec_corr(),
            exists|d: Seq<u8>|
                #![auto]
                d.len() <= 1 && final(self).history() == old(self).history() + demod_write_seq(
                    0,
                    0x19,
                    if on {
                        3u16
                    } else {
                        5u16
                    },
                    1,
                    d,
                ),
    {
        if on {
            self.handle.demod_write_reg(0, 0x19, 0x03, 1)?;
        } else {
            self.handle.demod_write_reg(0, 0x19, 0x05, 1)?;
        }
        Ok(())
    }

    /// Toggle the USB endpoint FIFO reset bits, flushing stale samples.
    pub fn reset_buffer(&mut self) -> (r: Result<(), RtlsdrError>)
        ensures
            same_config(old(self), final(self)),
            final(self).wf() == old(self).wf(),
            final(self).spec_freq() == old(self).spec_freq(),
            final(self).spec_rate() == old(self).spec_rate(),
            final(self).spec_corr() == old(self).spec_corr(),
            r is Ok ==> final(self).history() == old(self).history().push(
                reg_write_op(BLOCK_USB, USB_EPA_CTL, 0x1002, 2),
            ).push(reg_write_op(BLOCK_USB, USB_EPA_CTL, 0x0000, 2)),
            r is Err ==> grows(old(self).history(), final(self).history()),
    {
        proof {
            lemma_grows_refl(self.history());
        }
        self.handle.write_reg(BLOCK_USB, USB_EPA_CTL, 0x1002, 2)?;
        self.handle.write_reg(BLOCK_USB, USB_EPA_CTL, 0x0000, 2)?;
        Ok(())
    }

    /// One synchronous bulk read of up to `max_len` sample bytes.
    pub fn read_sync(&mut self, max_len: usize) -> (r: Result<Vec<u8>, RtlsdrError>)
        ensures
            same_config(old(self), final(self)),
            final(self).wf() == old(self).wf(),
            final(self).spec_freq() == old(self).spec_freq(),
            final(self).spec_rate() == old(self).spec_rate(),
            final(self).spec_corr() == old(self).spec_corr(),
            match r {
                Ok(data) => data@.len() <= max_len && final(self).history() == old(self).history().push(UsbOp::BulkIn { endpoint: 0x81, data: data@ }),
                Err(_) => final(self).history() == old(self).history().push(
                    UsbOp::BulkIn { endpoint: 0x81, data: Seq::empty() },
                ),
            },
    {
        self.handle.bulk_transfer(max_len)
    }

    /// Switch the I2C repeater: value 0x18 routes host I2C traffic to
    /// the tuner, 0x10 routes it back to the demodulator.
    fn set_i2c_repeater(&mut self, enable: bool) -> (r: Result<(), RtlsdrError>)
        ensures
            r matches Err(e) ==> e is Usb,
            same_config(old(self), final(self)),
            exists|d: Seq<u8>|
                #![auto]
                d.len() <= 1 && final(self).history() == old(self).history() + demod_write_seq(
                    1,
                    0x01,
                    if enable {
                        0x18u16
                    } else {
                        0x10u16
                    },
                    1,
                    d,
                ),
    {
        let val: u16 = if enable {
            0x18
        } else {
            0x10
        };
        self.handle.demod_write_reg(1, 0x01, val, 1)?;
        Ok(())
    }

    /// Program the intermediate frequency: the negated 22-bit ratio of
    /// `freq` to the nominal crystal, written high to low into three
    /// demodulator registers.
    pub fn set_if_freq(&mut self, freq: u32) -> (r: Result<(), RtlsdrError>)
        ensures
            same_config(old(self), final(self)),
            grows(old(self).history(), final(self).history()),
            r matches Err(e) ==> e is Usb,
            r is Ok ==> exists|d1: Seq<u8>, d2: Seq<u8>, d3: Seq<u8>|
                #![auto]
                d1.len() <= 1 && d2.len() <= 1 && d3.len() <= 1 && final(self).history() == old(self).history() + demod_write_seq(1, 0x19, spec_if_b1(freq), 1, d1) + demod_write_seq(
                    1,
                    0x1a,
                    spec_if_b2(freq),
                    1,
                    d2,
                ) + demod_write_seq(1, 0x1b, spec_if_b3(freq), 1, d3),
    {
        let ghost h0 = self.history();
        // Two's-complement image of -(freq * 2^22 / xtal).
        let mag: u64 = (freq as u64) * 0x400000 / 28_800_000;
        let word: u64 = (0x1_0000_0000u64 - mag % 0x1_0000_0000) % 0x1_0000_0000;
        let b1: u16 = (word % 0x400000 / 0x10000) as u16;
        let b2: u16 = (word / 0x100 % 0x100) as u16;
        let b3: u16 = (word % 0x100) as u16;
        proof {
            assert(word == spec_if_word(freq));
            assert(b1 == spec_if_b1(freq) && b2 == spec_if_b2(freq) && b3 == spec_if_b3(freq));
        }
        self.handle.demod_write_reg(1, 0x19, b1, 1)?;
        let ghost h1 = self.history();
        self.handle.demod_write_reg(1, 0x1a, b2, 1)?;
        let ghost h2 = self.history();
        self.handle.demod_write_reg(1, 0x1b, b3, 1)?;
        proof {
            let d1 = choose|d: Seq<u8>|
                d.len() <= 1 && h1 == h0 + demod_write_seq(1, 0x19, b1, 1, d);
            let d2 = choose|d: Seq<u8>|
                d.len() <= 1 && h2 == h1 + demod_write_seq(1, 0x1a, b2, 1, d);
            let d3 = choose|d: Seq<u8>|
                d.len() <= 1 && self.history() == h2 + demod_write_seq(1, 0x1b, b3, 1, d);
            assert(self.history() =~= h0 + demod_write_seq(1, 0x19, b1, 1, d1) + demod_write_seq(
                1,
                0x1a,
                b2,
                1,
                d2,
            ) + demod_write_seq(1, 0x1b, b3, 1, d3));
        }
        Ok(())
    }

    /// The 16-bit two's-complement correction word for `ppm`.
    #[verifier::rlimit(100)]
    #[verifier::spinoff_prover]
    fn corr_word(ppm: i32) -> (w: u16)
        requires
            -1_000_000 < ppm <= 1_000_000,
        ensures
            w == spec_corr_word(ppm as int),
    {
        let o64: i64 = if ppm >= 0 {
            -((ppm as i64 * 16777216) / 1000000)
        } else {
            ((-(ppm as i64)) * 16777216) / 1000000
        };
        (((o64 % 65536) + 65536) % 65536) as u16
    }

    /// Write the sample-frequency correction word for `ppm` into the
    /// two demodulator correction registers.
    #[verifier::rlimit(100)]
    #[verifier::spinoff_prover]
    fn set_sample_freq_correction(&mut self, ppm: i32) -> (r: Result<(), RtlsdrError>)
        requires
            -1_000_000 < ppm <= 1_000_000,
        ensures
            same_config(old(self), final(self)),
            grows(old(self).history(), final(self).history()),
            r matches Err(e) ==> e is Usb,
            r is Ok ==> exists|d1: Seq<u8>, d2: Seq<u8>|
                #![auto]
                d1.len() <= 1 && d2.len() <= 1 && final(self).history() == old(self).history()
                    + corr_ops(ppm as int, d1, d2),
    {
        let ghost h0 = self.history();
        let word: u16 = Self::corr_word(ppm);
        let lo: u16 = word % 256;
        let hi: u16 = word / 256 % 64;
        proof {
            assert(lo == spec_corr_lo(ppm as int) && hi == spec_corr_hi(ppm as int));
        }
        self.handle.demod_write_reg(1, 0x3f, lo, 1)?;
        let ghost h1 = self.history();
        self.handle.demod_write_reg(1, 0x3e, hi, 1)?;
        proof {
            let d1 = choose|d: Seq<u8>|
                d.len() <= 1 && h1 == h0 + demod_write_seq(1, 0x3f, lo, 1, d);
            let d2 = choose|d: Seq<u8>|
                d.len() <= 1 && self.history() == h1 + demod_write_seq(1, 0x3e, hi, 1, d);
            assert(self.history() =~= h0 + corr_ops(ppm as int, d1, d2));
        }
        Ok(())
    }

    /// Drive GPIO `gpio_pin`: configure it as an output, then set or
    /// clear its bit in the output register.  A bias tee forced on by
    /// the EEPROM cannot be turned off.
    fn set_gpio(&mut self, gpio_pin: u8, on: bool) -> (r: Result<(), RtlsdrError>)
        requires
            gpio_pin < 8,
        ensures
            same_config(old(self), final(self)),
            grows(old(self).history(), final(self).history()),
    {
        let on2 = if self.force_bt {
            true
        } else {
            on
        };
        self.set_gpio_output(gpio_pin)?;
        self.set_gpio_bit(gpio_pin, on2)?;
        Ok(())
    }

    /// Set or clear one bit of the system GPIO output register.
    fn set_gpio_bit(&mut self, gpio: u8, val: bool) -> (r: Result<(), RtlsdrError>)
        requires
            gpio < 8,
        ensures
            same_config(old(self), final(self)),
            grows(old(self).history(), final(self).history()),
    {
        proof {
            lemma_grows_refl(self.history());
        }
        let mask: u16 = 1u16 << gpio;
        let r0 = self.handle.read_reg(BLOCK_SYS, GPO, 1)?;
        let r1: u16 = if val {
            r0 | mask
        } else {
            r0 & !mask
        };
        self.handle.write_reg(BLOCK_SYS, GPO, r1, 1)?;
        Ok(())
    }

    /// Configure one GPIO pin as an output: clear its direction bit,
    /// set its enable bit.
    fn set_gpio_output(&mut self, gpio: u8) -> (r: Result<(), RtlsdrError>)
        requires
            gpio < 8,
        ensures
            same_config(old(self), final(self)),
            grows(old(self).history(), final(self).history()),
    {
        proof {
            lemma_grows_refl(self.history());
        }
        let mask: u16 = 1u16 << gpio;
        let r0 = self.handle.read_reg(BLOCK_SYS, GPD, 1)?;
        self.handle.write_reg(BLOCK_SYS, GPD, r0 & !mask, 1)?;
        let r1 = self.handle.read_reg(BLOCK_SYS, GPOE, 1)?;
        self.handle.write_reg(BLOCK_SYS, GPOE, r1 | mask, 1)?;
        Ok(())
    }

    /// Switch the bias tee (DC on the antenna port) via GPIO 0.
    pub fn set_bias_tee(&mut self, on: bool) -> (r: Result<(), RtlsdrError>)
        ensures
            same_config(old(self), final(self)),
            final(self).wf() == old(self).wf(),
            final(self).spec_freq() == old(self).spec_freq(),
            final(self).spec_rate() == old(self).spec_rate(),
            final(self).spec_corr() == old(self).spec_corr(),
            grows(old(self).history(), final(self).history()),
    {
        self.set_gpio(0, on)
    }

    /// Offset tuning is not used with R82xx tuners; the request is
    /// accepted and nothing is programmed.
    pub fn set_offset_tuning(&mut self, enable: bool) -> (r: Result<(), RtlsdrError>)
        ensures
            r is Ok,
            *final(self) == *old(self),
    {
        let _ = enable;
        Ok(())
    }

    /// Write a 16-tap coefficient table into the demodulator's FIR
    /// registers, one byte per register starting at page 1 register
    /// 0x1c.
    pub fn set_fir(&mut self, fir: &Vec<i32>) -> (r: Result<(), RtlsdrError>)
        requires
            fir_coeffs_ok(fir@),
        ensures
            same_config(old(self), final(self)),
            grows(old(self).history(), final(self).history()),
            r matches Err(e) ==> e is Usb,
            r is Ok ==> fir_write_shape(
                old(self).history(),
                final(self).history(),
                spec_pack_fir(fir@),
            ),
    {
        let ghost h0 = self.history();
        proof {
            lemma_grows_refl(h0);
        }
        let tmp = pack_fir(fir);
        let mut i: usize = 0;
        while i < 20
            invariant
                h0 == old(self).history(),
                grows(h0, self.history()),
                tmp@ == spec_pack_fir(fir@),
                i <= 20,
                same_config(old(self), self),
                self.history().len() == h0.len() + 2 * i,
                self.history().subrange(0, h0.len() as int) == h0,
                forall|j: int|
                    0 <= j < i ==> #[trigger] self.history()[h0.len() + 2 * j] == demod_write_op(
                        1,
                        (0x1c + j) as u16,
                        tmp@[j] as u16,
                        1,
                    ),
                forall|j: int|
                    0 <= j < i ==> is_ctrl_in(
                        #[trigger] self.history()[h0.len() + 2 * j + 1],
                        0x0120,
                        0x0a,
                    ),
            decreases 20 - i,
        {
            let ghost hcur = self.history();
            let b: u8 = tmp[i];
            self.handle.demod_write_reg(1, 0x1c + (i as u16), b as u16, 1)?;
            proof {
                let d = choose|d: Seq<u8>|
                    d.len() <= 1 && self.history() == hcur + demod_write_seq(
                        1,
                        (0x1c + i) as u16,
                        b as u16,
                        1,
                        d,
                    );
                assert(self.history() =~= hcur.push(
                    demod_write_op(1, (0x1c + i) as u16, b as u16, 1),
                ).push(demod_read_op(0x0a, 0x01, d)));
                assert(self.history().subrange(0, h0.len() as int) =~= hcur.subrange(
                    0,
                    h0.len() as int,
                ));
                assert(self.history()[h0.len() + 2 * (i as int)] == demod_write_op(
                    1,
                    (0x1c + i) as u16,
                    tmp@[i as int] as u16,
                    1,
                ));
                assert(((0x01u16 << 8) | 0x20u16) == 0x0120u16) by (bit_vector);
                assert(is_ctrl_in(
                    self.history()[h0.len() + 2 * (i as int) + 1],
                    0x0120,
                    0x0a,
                ));
            }
            i = i + 1;
        }
        proof {
            assert(fir_write_shape(h0, self.history(), spec_pack_fir(fir@)));
            assert(grows(h0, self.history()));
        }
        Ok(())
    }

    /// The roughly twenty-five register writes that bring the baseband
    /// up: USB endpoint configuration, demodulator power-on and reset,
    /// DDC and FIR initialisation, and the AGC and datapath defaults.
    fn init_baseband(&mut self) -> (r: Result<(), RtlsdrError>)
        ensures
            same_config(old(self), final(self)),
            grows(old(self).history(), final(self).history()),
    {
        proof {
            lemma_grows_refl(self.history());
        }
        // USB endpoint configuration.
        self.handle.write_reg(BLOCK_USB, USB_SYSCTL, 0x09, 1)?;
        self.handle.write_reg(BLOCK_USB, USB_EPA_MAXPKT, 0x0002, 2)?;
        self.handle.write_reg(BLOCK_USB, USB_EPA_CTL, 0x1002, 2)?;

        // Power on the demodulator.
        self.handle.write_reg(BLOCK_SYS, DEMOD_CTL_1, 0x22, 1)?;
        self.handle.write_reg(BLOCK_SYS, DEMOD_CTL, 0xe8, 1)?;

        // Soft reset.
        self.handle.reset_demod()?;

        // Disable spectrum inversion and adjust channel rejection.
        self.handle.demod_write_reg(1, 0x15, 0x00, 1)?;
        self.handle.demod_write_reg(1, 0x16, 0x00, 2)?;

        // Clear the DDC shift and IF registers.
        self.handle.demod_write_reg(1, 0x16, 0x00, 1)?;
        self.handle.demod_write_reg(1, 0x17, 0x00, 1)?;
        self.handle.demod_write_reg(1, 0x18, 0x00, 1)?;
        self.handle.demod_write_reg(1, 0x19, 0x00, 1)?;
        self.handle.demod_write_reg(1, 0x1a, 0x00, 1)?;
        let coeffs = default_fir();
        self.set_fir(&coeffs)?;

        // SDR mode, DAGC off.
        self.handle.demod_write_reg(0, 0x19, 0x05, 1)?;

        // FSM state-holding registers.
        self.handle.demod_write_reg(1, 0x93, 0xf0, 1)?;
        self.handle.demod_write_reg(1, 0x94, 0x0f, 1)?;

        // Disable AGC (en_dagc).
        self.handle.demod_write_reg(1, 0x11, 0x00, 1)?;

        // Disable the RF and IF AGC loop.
        self.handle.demod_write_reg(1, 0x04, 0x00, 1)?;

        // Disable the PID filter.
        self.handle.demod_write_reg(0, 0x61, 0x60, 1)?;

        // Default ADC_I/ADC_Q datapath.
        self.handle.demod_write_reg(0, 0x06, 0x80, 1)?;

        // Zero-IF mode, DC cancellation, IQ compensation.
        self.handle.demod_write_reg(1, 0xb1, 0x1b, 1)?;

        // Disable the 4.096 MHz clock output.
        self.handle.demod_write_reg(0, 0x0d, 0x83, 1)?;

        Ok(())
    }

    /// Bring the dongle up: claim the interface, probe and reset the
    /// transport, initialise the baseband, find and initialise the
    /// tuner, and read the EEPROM policy bits.
    pub fn init(&mut self) -> (r: Result<(), RtlsdrError>)
        requires
            old(self).wf(),
        ensures
            grows(old(self).history(), final(self).history()),
            r is Ok ==> final(self).wf() && final(self).spec_has_r820t() && final(self).spec_gains() == crate::r820t::spec_r820t_gains(),
            final(self).spec_freq() == old(self).spec_freq(),
            final(self).spec_rate() == old(self).spec_rate(),
            final(self).spec_corr() == old(self).spec_corr(),
    {
        proof {
            lemma_grows_refl(self.history());
        }
        self.handle.claim_interface(INTERFACE_ID)?;
        self.handle.test_write()?;
        self.init_baseband()?;
        self.set_i2c_repeater(true)?;

        let probed = self.search_tuner()?;
        match probed {
            Some(_info) => (),
            None => {
                return Err(RtlsdrError::RtlsdrErr("Failed to find tuner".to_string()));
            },
        }
        self.tuner = TunerKind::R820T(R820T::new());

        // Use the RTL clock value by default.
        self.tuner_xtal = self.xtal;
        let corrected = self.get_tuner_xtal_freq();
        <TunerKind as Tuner<P>>::set_xtal_freq(&mut self.tuner, corrected)?;

        // Disable Zero-IF mode.
        self.handle.demod_write_reg(1, 0xb1, 0x1a, 1)?;

        // Only enable the in-phase ADC input.
        self.handle.demod_write_reg(0, 0x08, 0x4d, 1)?;

        // The R82xx uses a 3.57 MHz IF for the DVB-T 6 MHz mode.
        self.set_if_freq(crate::r820t::R82XX_IF_FREQ)?;

        // Enable spectrum inversion.
        self.handle.demod_write_reg(1, 0x15, 0x01, 1)?;

        // EEPROM policy bits: bit 1 of byte 7 low forces the bias tee
        // on; bit 0 high forces direct sampling.
        let mut buf: Vec<u8> = Vec::new();
        let mut k: usize = 0;
        while k < EEPROM_SIZE
            invariant
                buf@.len() == k,
                k <= EEPROM_SIZE,
            decreases EEPROM_SIZE - k,
        {
            buf.push(0);
            k = k + 1;
        }
        self.read_eeprom_buf(&mut buf)?;
        let b7: u8 = buf[7];
        self.force_bt = b7 & 0x02 == 0;
        self.force_ds = b7 & 0x01 != 0;

        self.tuner.init(&mut self.handle)?;

        self.set_i2c_repeater(false)?;
        Ok(())
    }

    /// Read the whole EEPROM into `buf`.
    fn read_eeprom_buf(&mut self, buf: &mut Vec<u8>) -> (r: Result<(), RtlsdrError>)
        requires
            old(buf)@.len() == 256,
        ensures
            same_config(old(self), final(self)),
            final(buf)@.len() == 256,
            grows(old(self).history(), final(self).history()),
    {
        match self.handle.read_eeprom(buf, 0, EEPROM_SIZE) {
            Ok(_) => Ok(()),
            Err(e) => Err(e),
        }
    }

    /// Tear the session down: put the tuner into standby under the
    /// repeater bracket, then power off the demodulator and ADCs.
    pub fn deinit_baseband(&mut self) -> (r: Result<(), RtlsdrError>)
        requires
            old(self).wf(),
        ensures
            final(self).wf(),
            grows(old(self).history(), final(self).history()),
            r is Ok ==> exists|hb: Seq<UsbOp>|
                #![auto]
                repeater_bracketed(old(self).history(), hb) && final(self).history() == hb.push(
                    reg_write_op(BLOCK_SYS, DEMOD_CTL, 0x20, 1),
                ),
    {
        let ghost h0 = self.history();
        self.set_i2c_repeater(true)?;
        let ghost hon = self.history();
        match self.tuner.exit(&mut self.handle) {
            Ok(_) => (),
            Err(e) => {
                return Err(e);
            },
        }
        let ghost ht = self.history();
        self.set_i2c_repeater(false)?;
        let ghost hb = self.history();
        proof {
            let d1 = choose|d: Seq<u8>|
                d.len() <= 1 && hon == h0 + demod_write_seq(1, 0x01, 0x18, 1, d);
            let d2 = choose|d: Seq<u8>|
                d.len() <= 1 && hb == ht + demod_write_seq(1, 0x01, 0x10, 1, d);
            lemma_repeater_bracketed(h0, hon, ht, hb, d1, d2);
        }
        // Power off the demodulator and ADCs.
        self.handle.write_reg(BLOCK_SYS, DEMOD_CTL, 0x20, 1)?;
        Ok(())
    }

    /// Tune to `freq`: in direct-sampling mode the IF path is set to
    /// the frequency itself; otherwise the tuner synthesizes it under
    /// the repeater bracket.
    pub fn set_center_freq(&mut self, freq: u32) -> (r: Result<(), RtlsdrError>)
        requires
            old(self).wf(),
            freq <= 0xffff_ffff - 4_570_000,
        ensures
            final(self).wf(),
            grows(old(self).history(), final(self).history()),
            final(self).spec_rate() == old(self).spec_rate(),
            final(self).spec_corr() == old(self).spec_corr(),
            final(self).spec_xtal() == old(self).spec_xtal(),
            final(self).spec_direct_sampling() == old(self).spec_direct_sampling(),
            final(self).tuner_xtal_seen() == old(self).tuner_xtal_seen(),
            final(self).spec_bw() == old(self).spec_bw(),
            r is Ok ==> final(self).spec_freq() == freq,
            r is Err ==> final(self).spec_freq() == old(self).spec_freq(),
            old(self).spec_direct_sampling() == DirectSampleMode::Off && r is Ok
                ==> repeater_bracketed(old(self).history(), final(self).history()),
            old(self).spec_direct_sampling() != DirectSampleMode::Off && r is Ok ==> exists|
                d1: Seq<u8>,
                d2: Seq<u8>,
                d3: Seq<u8>,
            |
                #![auto]
                d1.len() <= 1 && d2.len() <= 1 && d3.len() <= 1 && final(self).history() == old(self).history() + demod_write_seq(1, 0x19, spec_if_b1(freq), 1, d1) + demod_write_seq(
                    1,
                    0x1a,
                    spec_if_b2(freq),
                    1,
                    d2,
                ) + demod_write_seq(1, 0x1b, spec_if_b3(freq), 1, d3),
    {
        proof {
            lemma_grows_refl(self.history());
        }
        if !matches!(self.direct_sampling, DirectSampleMode::Off) {
            self.set_if_freq(freq)?;
        } else {
            let ghost h0 = self.history();
            self.set_i2c_repeater(true)?;
            let ghost hon = self.history();
            let target = freq - self.offset_freq;
            match self.tuner.set_freq(&mut self.handle, target) {
                Ok(_) => (),
                Err(e) => {
                    return Err(e);
                },
            }
            let ghost ht = self.history();
            self.set_i2c_repeater(false)?;
            proof {
                let d1 = choose|d: Seq<u8>|
                    d.len() <= 1 && hon == h0 + demod_write_seq(1, 0x01, 0x18, 1, d);
                let d2 = choose|d: Seq<u8>|
                    d.len() <= 1 && self.history() == ht + demod_write_seq(1, 0x01, 0x10, 1, d);
                lemma_repeater_bracketed(h0, hon, ht, self.history(), d1, d2);
            }
        }
        self.freq = freq;
        Ok(())
    }

    /// Store the PPM frequency correction and apply it: program the
    /// sample-frequency correction word, hand the corrected crystal to
    /// the tuner and retune.  The stored value is `ppm` from here on,
    /// whatever the device answered.
    pub fn set_freq_correction(&mut self, ppm: i32) -> (r: Result<(), RtlsdrError>)
        requires
            old(self).wf(),
            -1_000_000 < ppm <= 1_000_000,
        ensures
            final(self).wf(),
            grows(old(self).history(), final(self).history()),
            final(self).spec_corr() == ppm,
            final(self).spec_freq() == old(self).spec_freq(),
            final(self).spec_rate() == old(self).spec_rate(),
            ppm == old(self).spec_corr() ==> r is Ok && final(self).history() == old(self).history() && same_config(old(self), final(self)),
            r is Ok && ppm != old(self).spec_corr() ==> exists|h1: Seq<UsbOp>|
                #![auto]
                (exists|d1: Seq<u8>, d2: Seq<u8>|
                    #![auto]
                    d1.len() <= 1 && d2.len() <= 1 && h1 == old(self).history() + corr_ops(
                        ppm as int,
                        d1,
                        d2,
                    )) && grows(h1, final(self).history()),
            r is Ok && ppm != old(self).spec_corr() && old(self).spec_has_r820t() ==> final(self).tuner_xtal_seen() == spec_corrected_xtal(old(self).tuner_xtal_value(), ppm as int),
    {
        proof {
            lemma_grows_refl(self.history());
        }
        if self.corr == ppm {
            return Ok(());
        }
        self.corr = ppm;
        self.set_sample_freq_correction(ppm)?;
        let ghost h1 = self.history();

        // Hand the corrected clock to the tuner.
        let corrected = self.get_tuner_xtal_freq();
        <TunerKind as Tuner<P>>::set_xtal_freq(&mut self.tuner, corrected)?;

        // Retune to apply the new correction.
        let f = self.freq;
        self.set_center_freq(f)?;
        Ok(())
    }

    /// Whether the EEPROM forces direct sampling on.
    pub closed spec fn spec_force_ds(&self) -> bool {
        self.force_ds
    }

    /// Whether an R820T was probed and installed.
    pub closed spec fn spec_has_r820t(&self) -> bool {
        self.tuner is R820T
    }

    /// The crystal reference the tuner driver currently holds.
    pub closed spec fn tuner_xtal_seen(&self) -> u32 {
        <TunerKind as Tuner<P>>::spec_xtal(&self.tuner)
    }

    /// Select a sample rate.  Rates outside the resampler's range are
    /// rejected without touching the device; an accepted rate is
    /// quantized to the achievable ratio, the tuner bandwidth follows,
    /// and the ratio, correction word and a soft reset go to the
    /// demodulator.
    #[verifier::rlimit(100)]
    #[verifier::spinoff_prover]
    pub fn set_sample_rate(&mut self, rate: u32) -> (r: Result<(), RtlsdrError>)
        requires
            old(self).wf(),
        ensures
            final(self).wf(),
            grows(old(self).history(), final(self).history()),
            final(self).spec_corr() == old(self).spec_corr(),
            final(self).spec_freq() == old(self).spec_freq(),
            final(self).spec_xtal() == old(self).spec_xtal(),
            !valid_sample_rate(rate) ==> r is Err && same_config(old(self), final(self)) && final(self).history() == old(self).history() && final(self).spec_rate() == old(self).spec_rate(),
            valid_sample_rate(rate) ==> final(self).spec_rate() == spec_real_rate(
                old(self).spec_xtal(),
                rate,
            ),
            valid_sample_rate(rate) && r is Ok ==> exists|hmid: Seq<UsbOp>|
                #![auto]
                grows(old(self).history(), hmid) && rate_tail_shape(
                    hmid,
                    final(self).history(),
                    spec_rsamp_ratio(old(self).spec_xtal(), rate),
                    old(self).spec_corr() as int,
                ),
    {
        proof {
            lemma_grows_refl(self.history());
        }
        if rate <= 225_000 || rate > 3_200_000 || (rate > 300_000 && rate <= 900_000) {
            return Err(RtlsdrError::RtlsdrErr("Invalid sample rate".to_string()));
        }
        // Quantize: clear the low two bits of the crystal-to-rate
        // quotient and keep 28 bits; bit 27 carries into bit 28 of the
        // effective ratio.
        let q: u128 = (self.xtal as u128) * 0x400000 / (rate as u128);
        let ratio: u128 = (q / 4 % 0x4000000) * 4;
        let bit27: u128 = (ratio / 0x8000000) % 2;
        let real_ratio: u128 = ratio + bit27 * 0x10000000;
        let real_rate: u32 = if real_ratio == 0 {
            0xffff_ffffu32
        } else {
            let exact: u128 = (self.xtal as u128) * 0x400000 / real_ratio;
            if exact > 0xffff_ffff {
                0xffff_ffffu32
            } else {
                exact as u32
            }
        };
        proof {
            assert(ratio == spec_rsamp_ratio(old(self).spec_xtal(), rate));
            assert(real_ratio == spec_real_ratio(old(self).spec_xtal(), rate));
            assert(real_rate == spec_real_rate(old(self).spec_xtal(), rate));
        }
        self.rate = real_rate;

        // Configure the tuner under the repeater bracket.
        self.set_i2c_repeater(true)?;
        let bwv: u32 = if self.bw > 0 {
            self.bw
        } else {
            self.rate
        };
        let rt = self.rate;
        match self.tuner.set_bandwidth(&mut self.handle, bwv, rt) {
            Ok(_) => (),
            Err(e) => {
                return Err(e);
            },
        }
        self.set_i2c_repeater(false)?;
        if matches!(self.tuner, TunerKind::R820T(_)) {
            let iff = <TunerKind as Tuner<P>>::get_if_freq(&self.tuner)?;
            self.set_if_freq(iff)?;
            let f = self.freq;
            self.set_center_freq(f)?;
        }
        let ghost hmid = self.history();

        let hi: u16 = (ratio / 0x10000) as u16;
        let lo: u16 = (ratio % 0x10000) as u16;
        self.handle.demod_write_reg(1, 0x9f, hi, 2)?;
        let ghost h1 = self.history();
        self.handle.demod_write_reg(1, 0xa1, lo, 2)?;
        let ghost h2 = self.history();

        let c = self.corr;
        self.set_sample_freq_correction(c)?;
        let ghost h3 = self.history();

        // Soft reset (bit 3).
        self.handle.demod_write_reg(1, 0x01, 0x14, 1)?;
        let ghost h4 = self.history();
        self.handle.demod_write_reg(1, 0x01, 0x10, 1)?;
        proof {
            let ghost rr = spec_rsamp_ratio(old(self).spec_xtal(), rate);
            let d1 = choose|d: Seq<u8>|
                d.len() <= 1 && h1 == hmid + demod_write_seq(1, 0x9f, (rr / 0x10000) as u16, 2, d);
            let d2 = choose|d: Seq<u8>|
                d.len() <= 1 && h2 == h1 + demod_write_seq(1, 0xa1, (rr % 0x10000) as u16, 2, d);
            let (d3, d4) = choose|d3: Seq<u8>, d4: Seq<u8>|
                d3.len() <= 1 && d4.len() <= 1 && h3 == h2 + corr_ops(c as int, d3, d4);
            let d5 = choose|d: Seq<u8>|
                d.len() <= 1 && h4 == h3 + demod_write_seq(1, 0x01, 0x14, 1, d);
            let d6 = choose|d: Seq<u8>|
                d.len() <= 1 && self.history() == h4 + demod_write_seq(1, 0x01, 0x10, 1, d);
            assert(self.history() =~= hmid + demod_write_seq(1, 0x9f, (rr / 0x10000) as u16, 2, d1)
                + demod_write_seq(1, 0xa1, (rr % 0x10000) as u16, 2, d2) + corr_ops(c as int, d3, d4)
                + demod_write_seq(1, 0x01, 0x14, 1, d5) + demod_write_seq(1, 0x01, 0x10, 1, d6));
            assert(rate_tail_shape(hmid, self.history(), rr, c as int));
        }
        Ok(())
    }

    /// Program the tuner's channel filter for `bw` (0 selects the
    /// current sample rate) and re-center the IF path.
    pub fn set_tuner_bandwidth(&mut self, bw: u32) -> (r: Result<(), RtlsdrError>)
        requires
            old(self).wf(),
        ensures
            final(self).wf(),
            grows(old(self).history(), final(self).history()),
            final(self).spec_corr() == old(self).spec_corr(),
            final(self).spec_freq() == old(self).spec_freq(),
            final(self).spec_rate() == old(self).spec_rate(),
            r is Ok ==> final(self).spec_bw() == (if bw > 0 {
                bw
            } else {
                old(self).spec_rate()
            }),
            r is Err ==> final(self).spec_bw() == old(self).spec_bw(),
            r is Ok ==> exists|hb: Seq<UsbOp>|
                #![auto]
                repeater_bracketed(old(self).history(), hb) && grows(hb, final(self).history()),
    {
        let ghost h0 = self.history();
        let bw2: u32 = if bw > 0 {
            bw
        } else {
            self.rate
        };
        self.set_i2c_repeater(true)?;
        let ghost hon = self.history();
        let rt = self.rate;
        match self.tuner.set_bandwidth(&mut self.handle, bw2, rt) {
            Ok(_) => (),
            Err(e) => {
                return Err(e);
            },
        }
        let ghost ht = self.history();
        self.set_i2c_repeater(false)?;
        let ghost hb = self.history();
        proof {
            let d1 = choose|d: Seq<u8>|
                d.len() <= 1 && hon == h0 + demod_write_seq(1, 0x01, 0x18, 1, d);
            let d2 = choose|d: Seq<u8>|
                d.len() <= 1 && hb == ht + demod_write_seq(1, 0x01, 0x10, 1, d);
            lemma_repeater_bracketed(h0, hon, ht, hb, d1, d2);
            lemma_grows_refl(hb);
        }
        if matches!(self.tuner, TunerKind::R820T(_)) {
            let iff = <TunerKind as Tuner<P>>::get_if_freq(&self.tuner)?;
            self.set_if_freq(iff)?;
            let f = self.freq;
            self.set_center_freq(f)?;
        }
        self.bw = bw2;
        Ok(())
    }

    /// Select automatic or manual tuner gain, under the repeater
    /// bracket.
    pub fn set_tuner_gain(&mut self, gain: TunerGain) -> (r: Result<(), RtlsdrError>)
        requires
            old(self).wf(),
        ensures
            final(self).wf(),
            grows(old(self).history(), final(self).history()),
            final(self).spec_corr() == old(self).spec_corr(),
            final(self).spec_freq() == old(self).spec_freq(),
            final(self).spec_rate() == old(self).spec_rate(),
            r is Ok ==> repeater_bracketed(old(self).history(), final(self).history()),
    {
        let ghost h0 = self.history();
        self.set_i2c_repeater(true)?;
        let ghost hon = self.history();
        match self.tuner.set_gain(&mut self.handle, &gain) {
            Ok(_) => (),
            Err(e) => {
                return Err(e);
            },
        }
        let ghost ht = self.history();
        self.set_i2c_repeater(false)?;
        proof {
            let d1 = choose|d: Seq<u8>|
                d.len() <= 1 && hon == h0 + demod_write_seq(1, 0x01, 0x18, 1, d);
            let d2 = choose|d: Seq<u8>|
                d.len() <= 1 && self.history() == ht + demod_write_seq(1, 0x01, 0x10, 1, d);
            lemma_repeater_bracketed(h0, hon, ht, self.history(), d1, d2);
        }
        Ok(())
    }

    /// Switch direct sampling.  Turning it on retires the tuner and
    /// routes the antenna into the ADC (OnSwap through the Q input);
    /// turning it off re-initialises the tuner.  Every transition ends
    /// with a retune at the current frequency.  An EEPROM that forces
    /// direct sampling pins the mode to OnSwap.
    pub fn set_direct_sampling(&mut self, mode: DirectSampleMode) -> (r: Result<(), RtlsdrError>)
        requires
            old(self).wf(),
        ensures
            final(self).wf(),
            grows(old(self).history(), final(self).history()),
            final(self).spec_freq() == old(self).spec_freq(),
            final(self).spec_rate() == old(self).spec_rate(),
            final(self).spec_corr() == old(self).spec_corr(),
            r is Ok && (mode == DirectSampleMode::On || mode == DirectSampleMode::OnSwap || old(self).spec_force_ds()) ==> {
                let eff = if old(self).spec_force_ds() {
                    DirectSampleMode::OnSwap
                } else {
                    mode
                };
                final(self).spec_direct_sampling() == eff && ds_enable_shape(
                    old(self).history(),
                    final(self).history(),
                    eff == DirectSampleMode::OnSwap,
                )
            },
            r is Ok && mode == DirectSampleMode::Off && !old(self).spec_force_ds() ==> final(self).spec_direct_sampling() == DirectSampleMode::Off && exists|hb: Seq<UsbOp>|
                #![auto]
                repeater_bracketed(old(self).history(), hb) && grows(hb, final(self).history()),
    {
        proof {
            lemma_grows_refl(self.history());
        }
        let eff: DirectSampleMode = if self.force_ds {
            DirectSampleMode::OnSwap
        } else {
            mode
        };
        if matches!(eff, DirectSampleMode::On) || matches!(eff, DirectSampleMode::OnSwap) {
            let ghost h0 = self.history();
            self.set_i2c_repeater(true)?;
            let ghost hon = self.history();
            match self.tuner.exit(&mut self.handle) {
                Ok(_) => (),
                Err(e) => {
                    return Err(e);
                },
            }
            let ghost ht = self.history();
            self.set_i2c_repeater(false)?;
            let ghost hb = self.history();
            proof {
                let d1 = choose|d: Seq<u8>|
                    d.len() <= 1 && hon == h0 + demod_write_seq(1, 0x01, 0x18, 1, d);
                let d2 = choose|d: Seq<u8>|
                    d.len() <= 1 && hb == ht + demod_write_seq(1, 0x01, 0x10, 1, d);
                lemma_repeater_bracketed(h0, hon, ht, hb, d1, d2);
            }
            // Disable Zero-IF mode.
            self.handle.demod_write_reg(1, 0xb1, 0x1a, 1)?;
            let ghost hz = self.history();
            // Disable spectrum inversion.
            self.handle.demod_write_reg(1, 0x15, 0x00, 1)?;
            let ghost hs = self.history();
            // Only enable the in-phase ADC input.
            self.handle.demod_write_reg(0, 0x08, 0x4d, 1)?;
            let ghost ha = self.history();
            // Swap I and Q if requested.
            let swap = matches!(eff, DirectSampleMode::OnSwap);
            let adc: u16 = if swap {
                0x90
            } else {
                0x80
            };
            self.handle.demod_write_reg(0, 0x06, adc, 1)?;
            proof {
                let d1 = choose|d: Seq<u8>|
                    d.len() <= 1 && hz == hb + demod_write_seq(1, 0xb1, 0x1a, 1, d);
                let d2 = choose|d: Seq<u8>|
                    d.len() <= 1 && hs == hz + demod_write_seq(1, 0x15, 0x00, 1, d);
                let d3 = choose|d: Seq<u8>|
                    d.len() <= 1 && ha == hs + demod_write_seq(0, 0x08, 0x4d, 1, d);
                let d4 = choose|d: Seq<u8>|
                    d.len() <= 1 && self.history() == ha + demod_write_seq(0, 0x06, adc, 1, d);
                assert(self.history() =~= hb + demod_write_seq(1, 0xb1, 0x1a, 1, d1)
                    + demod_write_seq(1, 0x15, 0x00, 1, d2) + demod_write_seq(0, 0x08, 0x4d, 1, d3)
                    + demod_write_seq(0, 0x06, adc, 1, d4));
            }
            self.direct_sampling = eff;
        } else {
            let ghost h0 = self.history();
            self.set_i2c_repeater(true)?;
            let ghost hon = self.history();
            match self.tuner.init(&mut self.handle) {
                Ok(_) => (),
                Err(e) => {
                    return Err(e);
                },
            }
            let ghost ht = self.history();
            self.set_i2c_repeater(false)?;
            let ghost hb = self.history();
            proof {
                let d1 = choose|d: Seq<u8>|
                    d.len() <= 1 && hon == h0 + demod_write_seq(1, 0x01, 0x18, 1, d);
                let d2 = choose|d: Seq<u8>|
                    d.len() <= 1 && hb == ht + demod_write_seq(1, 0x01, 0x10, 1, d);
                lemma_repeater_bracketed(h0, hon, ht, hb, d1, d2);
                lemma_grows_refl(hb);
            }
            if matches!(self.tuner, TunerKind::R820T(_)) {
                // The tuner init already restored the IF path and
                // spectrum inversion.
            } else {
                self.set_if_freq(0)?;
                // In-phase and quadrature ADC inputs.
                self.handle.demod_write_reg(0, 0x08, 0xcd, 1)?;
                // Zero-IF mode.
                self.handle.demod_write_reg(1, 0xb1, 0x1b, 1)?;
            }
            // Default ADC_I/ADC_Q datapath.
            self.handle.demod_write_reg(0, 0x06, 0x80, 1)?;
            self.direct_sampling = DirectSampleMode::Off;
        }
        let f = self.freq;
        self.set_center_freq(f)?;
        Ok(())
    }

    /// Replace the RTL and tuner crystal frequencies.  An RTL frequency
    /// other than zero is accepted only within 1 kHz of the nominal
    /// crystal; rate and tuning are reprogrammed as needed.  The tuner
    /// frequency must be zero (follow the RTL crystal) or a physical
    /// crystal rate: at least 1 MHz so that the corrected value stays a
    /// positive frequency under any in-range PPM correction, and at
    /// most 500 MHz so that the correction arithmetic cannot overflow.
    pub fn set_xtal_freq(&mut self, rtl_freq: u32, tuner_freq: u32) -> (r: Result<(), RtlsdrError>)
        requires
            old(self).wf(),
            tuner_freq == 0 || 1_000_000 <= tuner_freq <= 500_000_000,
        ensures
            final(self).wf(),
            grows(old(self).history(), final(self).history()),
            rtl_freq > 0 && !(MIN_RTL_XTAL_FREQ <= rtl_freq <= MAX_RTL_XTAL_FREQ) ==> r is Err
                && same_config(old(self), final(self)) && final(self).history() == old(self).history(),
    {
        proof {
            lemma_grows_refl(self.history());
        }
        if rtl_freq > 0 && (rtl_freq < MIN_RTL_XTAL_FREQ || rtl_freq > MAX_RTL_XTAL_FREQ) {
            return Err(
                RtlsdrError::RtlsdrErr("set_xtal_freq error: rtl_freq out of bounds".to_string()),
            );
        }
        if rtl_freq > 0 && self.xtal != rtl_freq {
            self.xtal = rtl_freq;

            // Update the crystal-dependent sample rate.
            if self.rate != 0 {
                let rt = self.rate;
                self.set_sample_rate(rt)?;
            }
        }
        let cur = <TunerKind as Tuner<P>>::get_xtal_freq(&self.tuner)?;
        if cur != tuner_freq {
            if tuner_freq == 0 {
                self.tuner_xtal = self.xtal;
            } else {
                self.tuner_xtal = tuner_freq;
            }

            // Hand the corrected clock to the tuner.
            let corrected = self.get_tuner_xtal_freq();
            <TunerKind as Tuner<P>>::set_xtal_freq(&mut self.tuner, corrected)?;

            // Update the crystal-dependent tuning.
            if self.freq != 0 {
                let f = self.freq;
                self.set_center_freq(f)?;
            }
        }
        Ok(())
    }

    /// Probe the known tuner models over I2C; the identity of the first
    /// chip that answers its check register with the expected value.
    fn search_tuner(&mut self) -> (r: Result<Option<TunerInfo>, RtlsdrError>)
        ensures
            same_config(old(self), final(self)),
            grows(old(self).history(), final(self).history()),
            r is Err ==> false,
            r matches Ok(found) ==> ((found is Some) <==> exists|d: Seq<u8>|
                #![auto]
                d.len() <= 1 && final(self).history() == old(self).history().push(
                    arr_write_op(BLOCK_IIC, 0x34, seq![0x00u8]),
                ).push(arr_read_op(BLOCK_IIC, 0x34, d)) && byte_at(d, 0) == 0x69),
            r matches Ok(found) && found matches Some(info) ==> info.i2c_addr == 0x34
                && info.check_val == 0x69,
    {
        proof {
            lemma_grows_refl(self.history());
        }
        let ghost h0 = self.history();
        let ghost w = arr_write_op(BLOCK_IIC, 0x34, seq![0x00u8]);
        let info = crate::r820t::r820t_tuner_info();
        match self.handle.i2c_read_reg(info.i2c_addr, info.check_addr) {
            Ok(val) => {
                if val == info.check_val {
                    return Ok(Some(info));
                }
                proof {
                    let d0 = choose|d: Seq<u8>|
                        #![auto]
                        d.len() <= 1 && self.history() == h0.push(w).push(
                            arr_read_op(BLOCK_IIC, 0x34, d),
                        ) && val == byte_at(d, 0);
                    assert forall|d: Seq<u8>|
                        self.history() == h0.push(w).push(
                            arr_read_op(BLOCK_IIC, 0x34, d),
                        ) implies byte_at(d, 0) != 0x69 by {
                        assert(h0.push(w).push(arr_read_op(BLOCK_IIC, 0x34, d))[h0.len() as int + 1]
                            == arr_read_op(BLOCK_IIC, 0x34, d));
                        assert(self.history()[h0.len() as int + 1] == arr_read_op(BLOCK_IIC, 0x34, d0));
                        assert(d == d0);
                    }
                }
            },
            Err(_) => {
                // A failed probe read is not fatal; the next candidate
                // (there is none today) would be probed.
                proof {
                    if self.history() == h0.push(w).push(
                        arr_read_op(BLOCK_IIC, 0x34, Seq::<u8>::empty()),
                    ) {
                        assert forall|d: Seq<u8>|
                            self.history() == h0.push(w).push(
                                arr_read_op(BLOCK_IIC, 0x34, d),
                            ) implies byte_at(d, 0) != 0x69 by {
                            assert(h0.push(w).push(arr_read_op(BLOCK_IIC, 0x34, d))[h0.len() as int + 1]
                                == arr_read_op(BLOCK_IIC, 0x34, d));
                            assert(self.history()[h0.len() as int + 1] == arr_read_op(
                                BLOCK_IIC,
                                0x34,
                                Seq::<u8>::empty(),
                            ));
                            assert(d == Seq::<u8>::empty());
                        }
                    } else {
                        assert(self.history() == h0.push(w));
                        assert forall|d: Seq<u8>|
                            self.history() != h0.push(w).push(
                                arr_read_op(BLOCK_IIC, 0x34, d),
                            ) by {
                            assert(self.history().len() == h0.len() + 1);
                        }
                    }
                }
            },
        }
        Ok(None)
    }
}

} // verus!
