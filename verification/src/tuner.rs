//! The tuner abstraction: the interface every tuner driver offers, the
//! do-nothing tuner used before probing succeeds, and the dispatch over
//! the known tuner kinds.

use vstd::prelude::*;

use crate::constants::BLOCK_IIC;
use crate::device::{grows, Device};
use crate::error::RtlsdrError;
use crate::port::UsbPort;
use crate::usb_model::UsbOp;

verus! {

/// I2C address of the R820T tuner.
pub const R820T_I2C_ADDR: u16 = 0x34;

/// Whether `op` is I2C traffic to the tuner chip: a control transfer on
/// the IIC block addressed to the tuner.
pub open spec fn is_tuner_i2c_op(op: UsbOp) -> bool {
    match op {
        UsbOp::ControlIn { value, index, .. } => value == R820T_I2C_ADDR && index == BLOCK_IIC
            << 8,
        UsbOp::ControlOut { value, index, .. } => value == R820T_I2C_ADDR && index == (BLOCK_IIC
            << 8) | 0x10,
        _ => false,
    }
}

/// `h1` continues `h0` and everything appended is tuner I2C traffic:
/// a tuner operation touches nothing but the tuner.
pub open spec fn tuner_ops_only(h0: Seq<UsbOp>, h1: Seq<UsbOp>) -> bool {
    grows(h0, h1) && forall|i: int| h0.len() <= i < h1.len() ==> is_tuner_i2c_op(#[trigger] h1[i])
}

/// Appending no operation is tuner-only traffic.
pub proof fn lemma_tuner_ops_refl(h: Seq<UsbOp>)
    ensures
        tuner_ops_only(h, h),
{
    assert(h.subrange(0, h.len() as int) =~= h);
}

/// Tuner-only traffic composes; ambient so that chains of tuner
/// operations need no explicit stitching.
pub broadcast proof fn lemma_tuner_ops_trans_auto(h0: Seq<UsbOp>, h1: Seq<UsbOp>, h2: Seq<UsbOp>)
    requires
        #[trigger] tuner_ops_only(h0, h1),
        #[trigger] tuner_ops_only(h1, h2),
    ensures
        tuner_ops_only(h0, h2),
{
    lemma_tuner_ops_trans(h0, h1, h2);
}

/// Tuner-only traffic composes.
pub proof fn lemma_tuner_ops_trans(h0: Seq<UsbOp>, h1: Seq<UsbOp>, h2: Seq<UsbOp>)
    requires
        tuner_ops_only(h0, h1),
        tuner_ops_only(h1, h2),
    ensures
        tuner_ops_only(h0, h2),
{
    assert(h2.subrange(0, h0.len() as int) =~= h1.subrange(0, h0.len() as int));
    assert forall|i: int| h0.len() <= i < h2.len() implies is_tuner_i2c_op(#[trigger] h2[i]) by {
        if i < h1.len() {
            assert(h2.subrange(0, h1.len() as int)[i] == h2[i]);
            assert(h1[i] == h2[i]);
        }
    }
}

/// One more tuner I2C operation keeps traffic tuner-only.
pub proof fn lemma_tuner_ops_push(h0: Seq<UsbOp>, h1: Seq<UsbOp>, op: UsbOp)
    requires
        tuner_ops_only(h0, h1),
        is_tuner_i2c_op(op),
    ensures
        tuner_ops_only(h0, h1.push(op)),
{
    assert(h1.push(op).subrange(0, h0.len() as int) =~= h1.subrange(0, h0.len() as int));
}

/// Identity of one supported tuner model: its probe address and the
/// check register with the value a present chip answers.
#[derive(Debug, Clone, Copy)]
pub struct TunerInfo {
    pub id: &'static str,
    pub name: &'static str,
    pub i2c_addr: u8,
    pub check_addr: u8,
    pub check_val: u8,
}

/// The interface of a tuner driver.  Every operation that touches the
/// chip appends only tuner I2C traffic to the device history; the
/// surrounding repeater discipline is the controller's duty.
pub trait Tuner<P: UsbPort>: Sized {
    /// Structural well-formedness of the driver state.
    spec fn wf(&self) -> bool;

    /// The current intermediate frequency in Hz.
    spec fn spec_if_freq(&self) -> u32;

    /// The crystal reference frequency the driver was told, in Hz.
    spec fn spec_xtal(&self) -> u32;

    /// The gain values this tuner offers, in tenths of a dB.
    spec fn spec_gains(&self) -> Seq<i32>;

    /// Whether the driver may program the oscillator: it has been told
    /// a usable crystal frequency (or needs none).
    spec fn spec_tunable(&self) -> bool;

    /// Whether the driver records the crystal value it is told (the
    /// placeholder tuner discards it).
    spec fn spec_tracks_xtal(&self) -> bool;

    /// Bring the chip up: load defaults, select the TV standard,
    /// calibrate the filter and configure the system frequency path.
    fn init(&mut self, handle: &mut Device<P>) -> (r: Result<(), RtlsdrError>)
        requires
            old(self).wf(),
            old(self).spec_tunable(),
        ensures
            final(self).wf(),
            final(self).spec_xtal() == old(self).spec_xtal(),
            final(self).spec_tunable() == old(self).spec_tunable(),
            final(self).spec_gains() == old(self).spec_gains(),
            final(self).spec_if_freq() <= 4_570_000 || final(self).spec_if_freq() == old(
                self,
            ).spec_if_freq(),
            tuner_ops_only(old(handle).history(), final(handle).history()),
    ;

    /// This tuner's identity.
    fn get_info(&self) -> (r: Result<TunerInfo, RtlsdrError>)
        ensures
            r is Ok,
    ;

    /// The supported gain values in tenths of a dB.
    fn get_gains(&self) -> (r: Result<Vec<i32>, RtlsdrError>)
        ensures
            r matches Ok(v) && v@ == self.spec_gains(),
    ;

    /// Read the momentary gain from the chip.
    fn read_gain(&self, handle: &mut Device<P>) -> (r: Result<i32, RtlsdrError>)
        requires
            self.wf(),
        ensures
            tuner_ops_only(old(handle).history(), final(handle).history()),
    ;

    /// Select automatic or manual gain.
    fn set_gain(&mut self, handle: &mut Device<P>, gain: &TunerGain) -> (r: Result<
        (),
        RtlsdrError,
    >)
        requires
            old(self).wf(),
        ensures
            final(self).wf(),
            final(self).spec_xtal() == old(self).spec_xtal(),
            final(self).spec_tunable() == old(self).spec_tunable(),
            final(self).spec_gains() == old(self).spec_gains(),
            final(self).spec_if_freq() == old(self).spec_if_freq(),
            tuner_ops_only(old(handle).history(), final(handle).history()),
    ;

    /// Tune the local oscillator so that `freq` is received.
    fn set_freq(&mut self, handle: &mut Device<P>, freq: u32) -> (r: Result<(), RtlsdrError>)
        requires
            old(self).wf(),
            old(self).spec_tunable(),
            freq as int + old(self).spec_if_freq() as int <= u32::MAX as int,
        ensures
            final(self).wf(),
            final(self).spec_xtal() == old(self).spec_xtal(),
            final(self).spec_tunable() == old(self).spec_tunable(),
            final(self).spec_gains() == old(self).spec_gains(),
            final(self).spec_if_freq() == old(self).spec_if_freq(),
            tuner_ops_only(old(handle).history(), final(handle).history()),
    ;

    /// Program the channel filter for the requested bandwidth.
    fn set_bandwidth(&mut self, handle: &mut Device<P>, bw: u32, rate: u32) -> (r: Result<
        (),
        RtlsdrError,
    >)
        requires
            old(self).wf(),
        ensures
            final(self).wf(),
            final(self).spec_xtal() == old(self).spec_xtal(),
            final(self).spec_tunable() == old(self).spec_tunable(),
            final(self).spec_gains() == old(self).spec_gains(),
            final(self).spec_if_freq() <= 4_570_000 || final(self).spec_if_freq() == old(
                self,
            ).spec_if_freq(),
            tuner_ops_only(old(handle).history(), final(handle).history()),
    ;

    /// The current intermediate frequency in Hz.
    fn get_if_freq(&self) -> (r: Result<u32, RtlsdrError>)
        ensures
            r == Ok::<u32, RtlsdrError>(self.spec_if_freq()),
    ;

    /// The crystal reference frequency in Hz.
    fn get_xtal_freq(&self) -> (r: Result<u32, RtlsdrError>)
        ensures
            r == Ok::<u32, RtlsdrError>(self.spec_xtal()),
    ;

    /// Tell the driver the (corrected) crystal reference frequency.
    fn set_xtal_freq(&mut self, freq: u32) -> (r: Result<(), RtlsdrError>)
        requires
            old(self).wf(),
        ensures
            r is Ok,
            final(self).wf(),
            final(self).spec_if_freq() == old(self).spec_if_freq(),
            final(self).spec_gains() == old(self).spec_gains(),
            old(self).spec_tracks_xtal() ==> final(self).spec_xtal() == freq,
            0 < freq <= 1_000_000_000 ==> final(self).spec_tunable(),
    ;

    /// Put the chip into standby.
    fn exit(&mut self, handle: &mut Device<P>) -> (r: Result<(), RtlsdrError>)
        requires
            old(self).wf(),
        ensures
            final(self).wf(),
            final(self).spec_xtal() == old(self).spec_xtal(),
            final(self).spec_tunable() == old(self).spec_tunable(),
            final(self).spec_gains() == old(self).spec_gains(),
            final(self).spec_if_freq() == old(self).spec_if_freq(),
            tuner_ops_only(old(handle).history(), final(handle).history()),
    ;
}

use crate::TunerGain;

/// The tuner in place before probing finds a real one: every operation
/// succeeds and does nothing.
#[derive(Debug)]
pub struct NoTuner {}

impl<P: UsbPort> Tuner<P> for NoTuner {
    open spec fn wf(&self) -> bool {
        true
    }

    open spec fn spec_if_freq(&self) -> u32 {
        0
    }

    open spec fn spec_xtal(&self) -> u32 {
        0
    }

    open spec fn spec_gains(&self) -> Seq<i32> {
        Seq::empty()
    }

    open spec fn spec_tunable(&self) -> bool {
        true
    }

    open spec fn spec_tracks_xtal(&self) -> bool {
        false
    }

    fn init(&mut self, handle: &mut Device<P>) -> (r: Result<(), RtlsdrError>) {
        proof {
            lemma_tuner_ops_refl(handle.history());
        }
        Ok(())
    }

    fn get_info(&self) -> (r: Result<TunerInfo, RtlsdrError>) {
        Ok(TunerInfo { id: "", name: "", i2c_addr: 0, check_addr: 0, check_val: 0 })
    }

    fn get_gains(&self) -> (r: Result<Vec<i32>, RtlsdrError>) {
        let v: Vec<i32> = Vec::new();
        Ok(v)
    }

    fn read_gain(&self, handle: &mut Device<P>) -> (r: Result<i32, RtlsdrError>) {
        proof {
            lemma_tuner_ops_refl(handle.history());
        }
        Ok(0)
    }

    fn set_gain(&mut self, handle: &mut Device<P>, gain: &TunerGain) -> (r: Result<
        (),
        RtlsdrError,
    >) {
        proof {
            lemma_tuner_ops_refl(handle.history());
        }
        Ok(())
    }

    fn set_freq(&mut self, handle: &mut Device<P>, freq: u32) -> (r: Result<(), RtlsdrError>) {
        proof {
            lemma_tuner_ops_refl(handle.history());
        }
        Ok(())
    }

    fn set_bandwidth(&mut self, handle: &mut Device<P>, bw: u32, rate: u32) -> (r: Result<
        (),
        RtlsdrError,
    >) {
        proof {
            lemma_tuner_ops_refl(handle.history());
        }
        Ok(())
    }

    fn get_if_freq(&self) -> (r: Result<u32, RtlsdrError>) {
        Ok(0)
    }

    fn get_xtal_freq(&self) -> (r: Result<u32, RtlsdrError>) {
        Ok(0)
    }

    fn set_xtal_freq(&mut self, freq: u32) -> (r: Result<(), RtlsdrError>) {
        Ok(())
    }

    fn exit(&mut self, handle: &mut Device<P>) -> (r: Result<(), RtlsdrError>) {
        proof {
            lemma_tuner_ops_refl(handle.history());
        }
        Ok(())
    }
}

/// The tuner attached to a dongle: a probed R820T, or none (yet).
#[derive(Debug)]
pub enum TunerKind {
    R820T(crate::r820t::R820T),
    NoTuner(NoTuner),
}

impl<P: UsbPort> Tuner<P> for TunerKind {
    open spec fn wf(&self) -> bool {
        match self {
            TunerKind::R820T(t) => <crate::r820t::R820T as Tuner<P>>::wf(t),
            TunerKind::NoTuner(t) => <NoTuner as Tuner<P>>::wf(t),
        }
    }

    open spec fn spec_if_freq(&self) -> u32 {
        match self {
            TunerKind::R820T(t) => <crate::r820t::R820T as Tuner<P>>::spec_if_freq(t),
            TunerKind::NoTuner(t) => <NoTuner as Tuner<P>>::spec_if_freq(t),
        }
    }

    open spec fn spec_xtal(&self) -> u32 {
        match self {
            TunerKind::R820T(t) => <crate::r820t::R820T as Tuner<P>>::spec_xtal(t),
            TunerKind::NoTuner(t) => <NoTuner as Tuner<P>>::spec_xtal(t),
        }
    }

    open spec fn spec_gains(&self) -> Seq<i32> {
        match self {
            TunerKind::R820T(t) => <crate::r820t::R820T as Tuner<P>>::spec_gains(t),
            TunerKind::NoTuner(t) => <NoTuner as Tuner<P>>::spec_gains(t),
        }
    }

    open spec fn spec_tunable(&self) -> bool {
        match self {
            TunerKind::R820T(t) => <crate::r820t::R820T as Tuner<P>>::spec_tunable(t),
            TunerKind::NoTuner(t) => <NoTuner as Tuner<P>>::spec_tunable(t),
        }
    }

    open spec fn spec_tracks_xtal(&self) -> bool {
        match self {
            TunerKind::R820T(t) => <crate::r820t::R820T as Tuner<P>>::spec_tracks_xtal(t),
            TunerKind::NoTuner(t) => <NoTuner as Tuner<P>>::spec_tracks_xtal(t),
        }
    }

    fn init(&mut self, handle: &mut Device<P>) -> (r: Result<(), RtlsdrError>)
        ensures
            (*old(self)) is R820T ==> (*final(self)) is R820T,
    {
        match self {
            TunerKind::R820T(t) => t.init(handle),
            TunerKind::NoTuner(t) => t.init(handle),
        }
    }

    fn get_info(&self) -> (r: Result<TunerInfo, RtlsdrError>) {
        match self {
            TunerKind::R820T(t) => <crate::r820t::R820T as Tuner<P>>::get_info(t),
            TunerKind::NoTuner(t) => <NoTuner as Tuner<P>>::get_info(t),
        }
    }

    fn get_gains(&self) -> (r: Result<Vec<i32>, RtlsdrError>) {
        match self {
            TunerKind::R820T(t) => <crate::r820t::R820T as Tuner<P>>::get_gains(t),
            TunerKind::NoTuner(t) => <NoTuner as Tuner<P>>::get_gains(t),
        }
    }

    fn read_gain(&self, handle: &mut Device<P>) -> (r: Result<i32, RtlsdrError>) {
        match self {
            TunerKind::R820T(t) => t.read_gain(handle),
            TunerKind::NoTuner(t) => t.read_gain(handle),
        }
    }

    fn set_gain(&mut self, handle: &mut Device<P>, gain: &TunerGain) -> (r: Result<
        (),
        RtlsdrError,
    >)
        ensures
            (*old(self)) is R820T ==> (*final(self)) is R820T,
    {
        match self {
            TunerKind::R820T(t) => t.set_gain(handle, gain),
            TunerKind::NoTuner(t) => t.set_gain(handle, gain),
        }
    }

    fn set_freq(&mut self, handle: &mut Device<P>, freq: u32) -> (r: Result<(), RtlsdrError>)
        ensures
            (*old(self)) is R820T ==> (*final(self)) is R820T,
    {
        match self {
            TunerKind::R820T(t) => t.set_freq(handle, freq),
            TunerKind::NoTuner(t) => t.set_freq(handle, freq),
        }
    }

    fn set_bandwidth(&mut self, handle: &mut Device<P>, bw: u32, rate: u32) -> (r: Result<
        (),
        RtlsdrError,
    >)
        ensures
            (*old(self)) is R820T ==> (*final(self)) is R820T,
    {
        match self {
            TunerKind::R820T(t) => t.set_bandwidth(handle, bw, rate),
            TunerKind::NoTuner(t) => t.set_bandwidth(handle, bw, rate),
        }
    }

    fn get_if_freq(&self) -> (r: Result<u32, RtlsdrError>) {
        match self {
            TunerKind::R820T(t) => <crate::r820t::R820T as Tuner<P>>::get_if_freq(t),
            TunerKind::NoTuner(t) => <NoTuner as Tuner<P>>::get_if_freq(t),
        }
    }

    fn get_xtal_freq(&self) -> (r: Result<u32, RtlsdrError>) {
        match self {
            TunerKind::R820T(t) => <crate::r820t::R820T as Tuner<P>>::get_xtal_freq(t),
            TunerKind::NoTuner(t) => <NoTuner as Tuner<P>>::get_xtal_freq(t),
        }
    }

    fn set_xtal_freq(&mut self, freq: u32) -> (r: Result<(), RtlsdrError>) {
        match self {
            TunerKind::R820T(t) => <crate::r820t::R820T as Tuner<P>>::set_xtal_freq(t, freq),
            TunerKind::NoTuner(t) => <NoTuner as Tuner<P>>::set_xtal_freq(t, freq),
        }
    }

    fn exit(&mut self, handle: &mut Device<P>) -> (r: Result<(), RtlsdrError>)
        ensures
            (*old(self)) is R820T ==> (*final(self)) is R820T,
    {
        match self {
            TunerKind::R820T(t) => t.exit(handle),
            TunerKind::NoTuner(t) => t.exit(handle),
        }
    }
}

} // verus!
