//! Driver library for RTL2832U-based USB software-defined-radio dongles
//! with a Rafael Micro R820T tuner, together with the pure core of the
//! `rtl_tcp` streaming protocol.
//!
//! Every device operation is modelled as a sequence of USB control
//! transfers.  The [`port::UsbPort`] trait captures that model: each
//! implementation carries a ghost history of the transfers it performed,
//! and the register plane, the tuner driver and the controller are all
//! verified against that history.

use vstd::prelude::*;

pub mod constants;
pub mod device;
pub mod error;
pub mod fir;
pub mod port;
pub mod r820t;
pub mod replay;
pub mod rtlsdr;
pub mod rusb_port;
pub mod server;
pub mod tuner;
pub mod usb_model;

verus! {

/// Number of bytes pulled from the bulk endpoint per synchronous read.
pub const DEFAULT_BUF_LENGTH: usize = 16 * 16384;

/// Selects which attached dongle to open.
#[derive(Debug, PartialEq)]
pub enum DeviceId {
    /// The n-th recognised device in bus-discovery order.
    Index(usize),
    /// The device whose serial-number string matches exactly.
    Serial(String),
    /// An externally supplied file descriptor (Unix only).
    Fd(i32),
}

/// Tuner gain selection: hardware AGC or a manual value in tenths of a dB.
#[derive(Debug)]
pub enum TunerGain {
    Auto,
    Manual(i32),
}

/// Direct-sampling mode of the RTL2832U: tuner bypassed, ADC fed directly.
#[derive(Debug, PartialEq, Eq, Structural, Clone, Copy)]
pub enum DirectSampleMode {
    Off,
    On,
    /// Swap I and Q ADC, allowing to select between two inputs.
    OnSwap,
}

/// One open RTL-SDR dongle, ready to tune and stream.
pub struct RtlSdr<P: port::UsbPort> {
    sdr: rtlsdr::RtlSdr<P>,
}

impl RtlSdr<rusb_port::RusbPort> {
    /// Open and initialise the dongle selected by `device_id`.
    pub fn open(device_id: DeviceId) -> (r: Result<RtlSdr<rusb_port::RusbPort>, error::RtlsdrError>)
        ensures
            r matches Ok(s) ==> s.wf(),
    {
        let p = rusb_port::open_port(&device_id)?;
        let dev = device::Device::new(p);
        let mut sdr = rtlsdr::RtlSdr::new(dev);
        sdr.init()?;
        Ok(RtlSdr { sdr })
    }

    /// Open the n-th recognised device in bus-discovery order.
    pub fn open_with_index(index: usize) -> (r: Result<
        RtlSdr<rusb_port::RusbPort>,
        error::RtlsdrError,
    >)
        ensures
            r matches Ok(s) ==> s.wf(),
    {
        Self::open(DeviceId::Index(index))
    }

    /// Open the device behind an externally supplied file descriptor.
    pub fn open_with_fd(fd: i32) -> (r: Result<RtlSdr<rusb_port::RusbPort>, error::RtlsdrError>)
        ensures
            r matches Ok(s) ==> s.wf(),
    {
        Self::open(DeviceId::Fd(fd))
    }
}

impl<P: port::UsbPort> RtlSdr<P> {
    /// Structural well-formedness, established by `open` and kept by
    /// every operation.
    pub closed spec fn wf(&self) -> bool {
        self.sdr.wf()
    }

    /// The USB operations issued through this dongle, in order.
    pub closed spec fn history(&self) -> Seq<usb_model::UsbOp> {
        self.sdr.history()
    }

    /// The tuned center frequency in Hz.
    pub closed spec fn spec_freq(&self) -> u32 {
        self.sdr.spec_freq()
    }

    /// The achieved sample rate in Hz.
    pub closed spec fn spec_rate(&self) -> u32 {
        self.sdr.spec_rate()
    }

    /// The frequency correction in parts per million.
    pub closed spec fn spec_corr(&self) -> i32 {
        self.sdr.spec_corr()
    }

    /// The gain values the attached tuner offers.
    pub closed spec fn spec_gains(&self) -> Seq<i32> {
        self.sdr.spec_gains()
    }

    /// The RTL-side crystal frequency in Hz.
    pub closed spec fn spec_xtal(&self) -> u32 {
        self.sdr.spec_xtal()
    }

    /// A view of the underlying port.
    pub fn port_ref(&self) -> (r: &P)
        ensures
            r.history() == self.history(),
    {
        self.sdr.port_ref()
    }

    /// Bring up a controller over an already-open port and initialise
    /// the dongle behind it.
    pub fn open_with_port(port: P) -> (r: Result<RtlSdr<P>, error::RtlsdrError>)
        ensures
            r matches Ok(s) ==> s.wf() && s.spec_gains() == r820t::spec_r820t_gains(),
    {
        let dev = device::Device::new(port);
        let mut sdr = rtlsdr::RtlSdr::new(dev);
        sdr.init()?;
        Ok(RtlSdr { sdr })
    }

    /// Shut the session down: tuner standby, demodulator powered off.
    pub fn close(&mut self) -> (r: Result<(), error::RtlsdrError>)
        requires
            old(self).wf(),
        ensures
            final(self).wf(),
    {
        self.sdr.deinit_baseband()
    }

    /// Flush the device-side sample FIFO.
    pub fn reset_buffer(&mut self) -> (r: Result<(), error::RtlsdrError>)
        ensures
            final(self).wf() == old(self).wf(),
    {
        self.sdr.reset_buffer()
    }

    /// One synchronous bulk read of up to `max_len` sample bytes.
    pub fn read_sync(&mut self, max_len: usize) -> (r: Result<Vec<u8>, error::RtlsdrError>)
        ensures
            final(self).wf() == old(self).wf(),
            r matches Ok(data) ==> data@.len() <= max_len,
    {
        self.sdr.read_sync(max_len)
    }

    /// The tuned center frequency in Hz.
    pub fn get_center_freq(&self) -> (r: u32)
        ensures
            r == self.spec_freq(),
    {
        self.sdr.get_center_freq()
    }

    /// Tune to `freq` (Hz).
    pub fn set_center_freq(&mut self, freq: u32) -> (r: Result<(), error::RtlsdrError>)
        requires
            old(self).wf(),
            freq <= 0xffff_ffff - 4_570_000,
        ensures
            final(self).wf(),
            r is Ok ==> final(self).spec_freq() == freq,
            r is Err ==> final(self).spec_freq() == old(self).spec_freq(),
            final(self).spec_rate() == old(self).spec_rate(),
            final(self).spec_corr() == old(self).spec_corr(),
    {
        self.sdr.set_center_freq(freq)
    }

    /// The gain values the tuner offers, in tenths of a dB.
    pub fn get_tuner_gains(&self) -> (r: Result<Vec<i32>, error::RtlsdrError>)
        ensures
            r matches Ok(v) && v@ == self.spec_gains(),
    {
        self.sdr.get_tuner_gains()
    }

    /// Select automatic or manual tuner gain.
    pub fn set_tuner_gain(&mut self, gain: TunerGain) -> (r: Result<(), error::RtlsdrError>)
        requires
            old(self).wf(),
        ensures
            final(self).wf(),
            final(self).spec_freq() == old(self).spec_freq(),
            final(self).spec_rate() == old(self).spec_rate(),
            final(self).spec_corr() == old(self).spec_corr(),
            r is Ok ==> rtlsdr::repeater_bracketed(old(self).history(), final(self).history()),
    {
        self.sdr.set_tuner_gain(gain)
    }

    /// The frequency correction in parts per million.
    pub fn get_freq_correction(&self) -> (r: i32)
        ensures
            r == self.spec_corr(),
    {
        self.sdr.get_freq_correction()
    }

    /// Store and apply a PPM frequency correction.  The stored value
    /// is `ppm` from here on: reading it back gives `ppm` exactly.
    pub fn set_freq_correction(&mut self, ppm: i32) -> (r: Result<(), error::RtlsdrError>)
        requires
            old(self).wf(),
            -1_000_000 < ppm <= 1_000_000,
        ensures
            final(self).wf(),
            final(self).spec_corr() == ppm,
            final(self).spec_freq() == old(self).spec_freq(),
            final(self).spec_rate() == old(self).spec_rate(),
    {
        self.sdr.set_freq_correction(ppm)
    }

    /// The achieved sample rate in Hz.
    pub fn get_sample_rate(&self) -> (r: u32)
        ensures
            r == self.spec_rate(),
    {
        self.sdr.get_sample_rate()
    }

    /// Select a sample rate; out-of-range rates are rejected without
    /// touching the device, accepted ones are quantized to the
    /// achievable ratio.
    pub fn set_sample_rate(&mut self, rate: u32) -> (r: Result<(), error::RtlsdrError>)
        requires
            old(self).wf(),
        ensures
            final(self).wf(),
            final(self).spec_freq() == old(self).spec_freq(),
            final(self).spec_corr() == old(self).spec_corr(),
            !rtlsdr::valid_sample_rate(rate) ==> r is Err && final(self).history() == old(
                self,
            ).history() && final(self).spec_rate() == old(self).spec_rate(),
            rtlsdr::valid_sample_rate(rate) ==> final(self).spec_rate() == rtlsdr::spec_real_rate(
                old(self).spec_xtal(),
                rate,
            ),
    {
        self.sdr.set_sample_rate(rate)
    }

    /// Program the tuner's channel filter for `bw` Hz (0 selects the
    /// current sample rate).
    pub fn set_tuner_bandwidth(&mut self, bw: u32) -> (r: Result<(), error::RtlsdrError>)
        requires
            old(self).wf(),
        ensures
            final(self).wf(),
            final(self).spec_freq() == old(self).spec_freq(),
            final(self).spec_rate() == old(self).spec_rate(),
            final(self).spec_corr() == old(self).spec_corr(),
    {
        self.sdr.set_tuner_bandwidth(bw)
    }

    /// Enable or disable the demodulator's test mode.
    pub fn set_testmode(&mut self, on: bool) -> (r: Result<(), error::RtlsdrError>)
        ensures
            final(self).wf() == old(self).wf(),
            final(self).spec_freq() == old(self).spec_freq(),
            final(self).spec_rate() == old(self).spec_rate(),
            final(self).spec_corr() == old(self).spec_corr(),
    {
        self.sdr.set_testmode(on)
    }

    /// Switch direct sampling; every transition ends with a retune at
    /// the current frequency.
    pub fn set_direct_sampling(&mut self, mode: DirectSampleMode) -> (r: Result<
        (),
        error::RtlsdrError,
    >)
        requires
            old(self).wf(),
        ensures
            final(self).wf(),
            final(self).spec_freq() == old(self).spec_freq(),
            final(self).spec_rate() == old(self).spec_rate(),
            final(self).spec_corr() == old(self).spec_corr(),
    {
        self.sdr.set_direct_sampling(mode)
    }

    /// Switch the bias tee (DC on the antenna port) via GPIO 0.
    pub fn set_bias_tee(&mut self, on: bool) -> (r: Result<(), error::RtlsdrError>)
        ensures
            final(self).wf() == old(self).wf(),
            final(self).spec_freq() == old(self).spec_freq(),
            final(self).spec_rate() == old(self).spec_rate(),
            final(self).spec_corr() == old(self).spec_corr(),
    {
        self.sdr.set_bias_tee(on)
    }
}

} // verus!
