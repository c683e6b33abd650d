//! The pure core of the `rtl_tcp` protocol: the 12-byte handshake, the
//! 5-byte command frames, and the application of a decoded command to
//! the driver.  The sockets and threads that move these bytes live
//! outside the library.

use vstd::prelude::*;

use crate::error::RtlsdrError;
use crate::port::UsbPort;
use crate::{DirectSampleMode, RtlSdr, TunerGain};

verus! {

/// One decoded client command of the `rtl_tcp` protocol.
#[derive(Debug, PartialEq)]
pub enum ControlMessage {
    SetFrequency(u32),
    SetSampleRate(u32),
    SetGainMode(bool),
    SetGain(i32),
    SetFreqCorrection(i32),
    SetIfGain { stage: u16, gain: i16 },
    SetTestMode(bool),
    SetAgcMode(bool),
    SetDirectSampling(u32),
    SetOffsetTuning(bool),
    SetRtlXtal(u32),
    SetTunerXtal(u32),
    SetGainByIndex(u32),
    SetBiasTee(bool),
    Shutdown,
}

/// The big-endian 32-bit payload of a command frame.
pub open spec fn spec_be32(b: Seq<u8>) -> int
    recommends
        b.len() == 4,
{
    ((b[0] * 256 + b[1]) * 256 + b[2]) * 256 + b[3]
}

/// The payload reinterpreted as a signed 32-bit value.
pub open spec fn spec_be32_signed(b: Seq<u8>) -> int
    recommends
        b.len() == 4,
{
    if spec_be32(b) >= 0x8000_0000 {
        spec_be32(b) - 0x1_0000_0000
    } else {
        spec_be32(b)
    }
}

/// The command a 5-byte frame decodes to, or nothing for an unknown
/// command byte.
pub open spec fn spec_parse_command(f: Seq<u8>) -> Option<ControlMessage>
    recommends
        f.len() == 5,
{
    let p = f.skip(1);
    let u = spec_be32(p) as u32;
    let s = spec_be32_signed(p) as i32;
    if f[0] == 0x01 {
        Some(ControlMessage::SetFrequency(u))
    } else if f[0] == 0x02 {
        Some(ControlMessage::SetSampleRate(u))
    } else if f[0] == 0x03 {
        Some(ControlMessage::SetGainMode(u != 0))
    } else if f[0] == 0x04 {
        Some(ControlMessage::SetGain(s))
    } else if f[0] == 0x05 {
        Some(ControlMessage::SetFreqCorrection(s))
    } else if f[0] == 0x06 {
        Some(
            ControlMessage::SetIfGain {
                stage: (spec_be32(p) / 0x10000) as u16,
                gain: (if spec_be32(p) % 0x10000 >= 0x8000 {
                    spec_be32(p) % 0x10000 - 0x10000
                } else {
                    spec_be32(p) % 0x10000
                }) as i16,
            },
        )
    } else if f[0] == 0x07 {
        Some(ControlMessage::SetTestMode(u != 0))
    } else if f[0] == 0x08 {
        Some(ControlMessage::SetAgcMode(u != 0))
    } else if f[0] == 0x09 {
        Some(ControlMessage::SetDirectSampling(u))
    } else if f[0] == 0x0a {
        Some(ControlMessage::SetOffsetTuning(u != 0))
    } else if f[0] == 0x0b {
        Some(ControlMessage::SetRtlXtal(u))
    } else if f[0] == 0x0c {
        Some(ControlMessage::SetTunerXtal(u))
    } else if f[0] == 0x0d {
        Some(ControlMessage::SetGainByIndex(u))
    } else if f[0] == 0x0e {
        Some(ControlMessage::SetBiasTee(u != 0))
    } else {
        None
    }
}

/// Decode one 5-byte command frame: the command byte, then the
/// big-endian 32-bit payload.
pub fn parse_command(frame: &Vec<u8>) -> (r: Option<ControlMessage>)
    requires
        frame@.len() == 5,
    ensures
        r == spec_parse_command(frame@),
{
    let cmd: u8 = frame[0];
    let b1: u32 = frame[1] as u32;
    let b2: u32 = frame[2] as u32;
    let b3: u32 = frame[3] as u32;
    let b4: u32 = frame[4] as u32;
    let param_u32: u32 = ((b1 * 256 + b2) * 256 + b3) * 256 + b4;
    let param_i32: i32 = if param_u32 >= 0x8000_0000 {
        ((param_u32 as i64) - 0x1_0000_0000i64) as i32
    } else {
        param_u32 as i32
    };
    proof {
        assert(frame@.skip(1) =~= seq![frame@[1], frame@[2], frame@[3], frame@[4]]);
        assert(param_u32 == spec_be32(frame@.skip(1)));
        assert(param_i32 == spec_be32_signed(frame@.skip(1)));
    }
    match cmd {
        0x01 => Some(ControlMessage::SetFrequency(param_u32)),
        0x02 => Some(ControlMessage::SetSampleRate(param_u32)),
        0x03 => Some(ControlMessage::SetGainMode(param_u32 != 0)),
        0x04 => Some(ControlMessage::SetGain(param_i32)),
        0x05 => Some(ControlMessage::SetFreqCorrection(param_i32)),
        0x06 => {
            let raw: u32 = param_u32 % 0x10000;
            let gain: i16 = if raw >= 0x8000 {
                ((raw as i64) - 0x10000i64) as i16
            } else {
                raw as i16
            };
            Some(ControlMessage::SetIfGain { stage: (param_u32 / 0x10000) as u16, gain })
        },
        0x07 => Some(ControlMessage::SetTestMode(param_u32 != 0)),
        0x08 => Some(ControlMessage::SetAgcMode(param_u32 != 0)),
        0x09 => Some(ControlMessage::SetDirectSampling(param_u32)),
        0x0a => Some(ControlMessage::SetOffsetTuning(param_u32 != 0)),
        0x0b => Some(ControlMessage::SetRtlXtal(param_u32)),
        0x0c => Some(ControlMessage::SetTunerXtal(param_u32)),
        0x0d => Some(ControlMessage::SetGainByIndex(param_u32)),
        0x0e => Some(ControlMessage::SetBiasTee(param_u32 != 0)),
        _ => None,
    }
}

/// The four big-endian bytes of a 32-bit value.
pub open spec fn spec_be32_bytes(x: u32) -> Seq<u8> {
    seq![
        (x / 0x1000000 % 256) as u8, (x / 0x10000 % 256) as u8, (x / 0x100 % 256) as u8, (x
            % 256) as u8,
    ]
}

/// The 12-byte server handshake: ASCII "RTL0", then the tuner type and
/// the number of gain values, both big-endian.
pub open spec fn spec_handshake(tuner_type: u32, gain_count: u32) -> Seq<u8> {
    seq![0x52u8, 0x54u8, 0x4cu8, 0x30u8] + spec_be32_bytes(tuner_type) + spec_be32_bytes(
        gain_count,
    )
}

/// Build the 12-byte handshake frame the server sends on accept.
pub fn handshake_bytes(tuner_type: u32, gain_count: u32) -> (r: Vec<u8>)
    ensures
        r@ == spec_handshake(tuner_type, gain_count),
        r@.len() == 12,
{
    let mut v: Vec<u8> = Vec::new();
    v.push(0x52);
    v.push(0x54);
    v.push(0x4c);
    v.push(0x30);
    v.push((tuner_type / 0x1000000 % 256) as u8);
    v.push((tuner_type / 0x10000 % 256) as u8);
    v.push((tuner_type / 0x100 % 256) as u8);
    v.push((tuner_type % 256) as u8);
    v.push((gain_count / 0x1000000 % 256) as u8);
    v.push((gain_count / 0x10000 % 256) as u8);
    v.push((gain_count / 0x100 % 256) as u8);
    v.push((gain_count % 256) as u8);
    proof {
        assert(v@ =~= spec_handshake(tuner_type, gain_count));
    }
    v
}

/// The tuner type advertised in the handshake.  The wire constant is
/// the R828D family marker, kept for client compatibility whatever chip
/// was probed.
pub fn advertised_tuner_type() -> (r: u32)
    ensures
        r == 6,
{
    6
}

/// Apply one decoded command to the driver, between two bulk reads of
/// the producer loop.  `Ok(true)` asks the session to stop; commands
/// the protocol accepts but the driver does not implement are dropped.
/// Out-of-range parameters that the driver would reject by
/// precondition are answered with an error instead.
pub fn apply_control<P: UsbPort>(
    sdr: &mut RtlSdr<P>,
    msg: ControlMessage,
    manual_mode: &mut bool,
    last_gain: &mut i32,
    gain_values: &mut Vec<i32>,
) -> (r: Result<bool, RtlsdrError>)
    requires
        old(sdr).wf(),
    ensures
        final(sdr).wf(),
        msg == ControlMessage::Shutdown ==> r == Ok::<bool, RtlsdrError>(true) && *final(sdr)
            == *old(sdr),
        r matches Ok(stop) ==> (msg != ControlMessage::Shutdown ==> !stop),
        msg matches ControlMessage::SetFrequency(f) ==> (f <= 0xffff_ffff - 4_570_000 && r is Ok
            ==> final(sdr).spec_freq() == f),
        msg matches ControlMessage::SetFreqCorrection(ppm) ==> (-1_000_000 < ppm <= 1_000_000
            && r is Ok ==> final(sdr).spec_corr() == ppm),
{
    match msg {
        ControlMessage::SetFrequency(freq) => {
            if freq > 0xffff_ffff - 4_570_000 {
                return Err(RtlsdrError::RtlsdrErr("Frequency out of range".to_string()));
            }
            sdr.set_center_freq(freq)?;
            Ok(false)
        },
        ControlMessage::SetSampleRate(rate) => {
            sdr.set_sample_rate(rate)?;
            sdr.reset_buffer()?;
            Ok(false)
        },
        ControlMessage::SetGainMode(manual) => {
            *manual_mode = manual;
            if !manual {
                sdr.set_tuner_gain(TunerGain::Auto)?;
            } else {
                sdr.set_tuner_gain(TunerGain::Manual(0))?;
            }
            Ok(false)
        },
        ControlMessage::SetGain(gain) => {
            *manual_mode = true;
            *last_gain = gain;
            sdr.set_tuner_gain(TunerGain::Manual(gain))?;
            Ok(false)
        },
        ControlMessage::SetGainByIndex(index) => {
            if index as usize >= gain_values.len() {
                let fresh = sdr.get_tuner_gains()?;
                *gain_values = fresh;
            }
            if (index as usize) < gain_values.len() {
                let gain = gain_values[index as usize];
                *manual_mode = true;
                *last_gain = gain;
                sdr.set_tuner_gain(TunerGain::Manual(gain))?;
            }
            Ok(false)
        },
        ControlMessage::SetFreqCorrection(ppm) => {
            if !(-1_000_000 < ppm && ppm <= 1_000_000) {
                return Err(RtlsdrError::RtlsdrErr("PPM correction out of range".to_string()));
            }
            sdr.set_freq_correction(ppm)?;
            Ok(false)
        },
        ControlMessage::SetIfGain { stage, gain } => {
            // Accepted on the wire, not wired to a device operation.
            let _ = stage;
            let _ = gain;
            Ok(false)
        },
        ControlMessage::SetTestMode(on) => {
            sdr.set_testmode(on)?;
            Ok(false)
        },
        ControlMessage::SetAgcMode(on) => {
            // Accepted on the wire, not wired to a device operation.
            let _ = on;
            Ok(false)
        },
        ControlMessage::SetDirectSampling(mode) => {
            let ds_mode = if mode == 1 {
                DirectSampleMode::On
            } else if mode == 2 {
                DirectSampleMode::OnSwap
            } else {
                DirectSampleMode::Off
            };
            sdr.set_direct_sampling(ds_mode)?;
            Ok(false)
        },
        ControlMessage::SetOffsetTuning(on) => {
            // Accepted on the wire, not wired to a device operation.
            let _ = on;
            Ok(false)
        },
        ControlMessage::SetRtlXtal(freq) => {
            // Accepted on the wire, not wired to a device operation.
            let _ = freq;
            Ok(false)
        },
        ControlMessage::SetTunerXtal(freq) => {
            // Accepted on the wire, not wired to a device operation.
            let _ = freq;
            Ok(false)
        },
        ControlMessage::SetBiasTee(on) => {
            sdr.set_bias_tee(on)?;
            Ok(false)
        },
        ControlMessage::Shutdown => Ok(true),
    }
}

} // verus!
