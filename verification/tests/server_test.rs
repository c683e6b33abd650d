// The rtl_tcp protocol core: handshake bytes, command framing, and the
// application of decoded commands to a scripted dongle.

use rtlsdr_rs::replay::ReplayPort;
use rtlsdr_rs::server::{
    advertised_tuner_type, apply_control, handshake_bytes, parse_command, ControlMessage,
};
use rtlsdr_rs::RtlSdr;

fn init_script() -> Vec<Vec<u8>> {
    let mut responses: Vec<Vec<u8>> = Vec::new();
    for i in 0..54 {
        responses.push(match i {
            39 => vec![0x69],
            53 => vec![0x02],
            _ => vec![],
        });
    }
    responses
}

fn opened_sdr() -> RtlSdr<ReplayPort> {
    RtlSdr::open_with_port(ReplayPort::new(init_script())).expect("bring-up")
}

#[test]
fn handshake_is_twelve_bytes_with_magic_and_gain_count() {
    let sdr = opened_sdr();
    let gains = sdr.get_tuner_gains().expect("gains");
    let frame = handshake_bytes(advertised_tuner_type(), gains.len() as u32);
    assert_eq!(frame.len(), 12);
    assert_eq!(&frame[0..4], b"RTL0");
    assert_eq!(&frame[4..8], &[0, 0, 0, 6]);
    assert_eq!(&frame[8..12], &[0, 0, 0, 29]);
}

#[test]
fn command_framing_set_frequency() {
    // 0x01 with payload 0x05F5E100 decodes to SetFrequency(100 MHz),
    // and applying it tunes the device there.
    let frame = vec![0x01, 0x05, 0xF5, 0xE1, 0x00];
    let msg = parse_command(&frame).expect("known command");
    assert_eq!(msg, ControlMessage::SetFrequency(100_000_000));

    let mut sdr = opened_sdr();
    let mut manual = false;
    let mut last_gain = 0i32;
    let mut gains: Vec<i32> = Vec::new();
    let stop = apply_control(&mut sdr, msg, &mut manual, &mut last_gain, &mut gains)
        .expect("apply");
    assert!(!stop);
    assert_eq!(sdr.get_center_freq(), 100_000_000);
}

#[test]
fn command_framing_all_kinds() {
    assert_eq!(
        parse_command(&vec![0x02, 0x00, 0x1F, 0x40, 0x00]),
        Some(ControlMessage::SetSampleRate(2_048_000))
    );
    assert_eq!(
        parse_command(&vec![0x03, 0x00, 0x00, 0x00, 0x01]),
        Some(ControlMessage::SetGainMode(true))
    );
    assert_eq!(
        parse_command(&vec![0x04, 0xFF, 0xFF, 0xFF, 0xF6]),
        Some(ControlMessage::SetGain(-10))
    );
    assert_eq!(
        parse_command(&vec![0x05, 0xFF, 0xFF, 0xFF, 0xFF]),
        Some(ControlMessage::SetFreqCorrection(-1))
    );
    assert_eq!(
        parse_command(&vec![0x06, 0x00, 0x02, 0x80, 0x00]),
        Some(ControlMessage::SetIfGain { stage: 2, gain: -32768 })
    );
    assert_eq!(
        parse_command(&vec![0x07, 0x00, 0x00, 0x00, 0x00]),
        Some(ControlMessage::SetTestMode(false))
    );
    assert_eq!(
        parse_command(&vec![0x08, 0x00, 0x00, 0x00, 0x01]),
        Some(ControlMessage::SetAgcMode(true))
    );
    assert_eq!(
        parse_command(&vec![0x09, 0x00, 0x00, 0x00, 0x02]),
        Some(ControlMessage::SetDirectSampling(2))
    );
    assert_eq!(
        parse_command(&vec![0x0a, 0x00, 0x00, 0x00, 0x00]),
        Some(ControlMessage::SetOffsetTuning(false))
    );
    assert_eq!(
        parse_command(&vec![0x0b, 0x01, 0xB7, 0x74, 0x00]),
        Some(ControlMessage::SetRtlXtal(28_800_000))
    );
    assert_eq!(
        parse_command(&vec![0x0c, 0x01, 0xB7, 0x74, 0x00]),
        Some(ControlMessage::SetTunerXtal(28_800_000))
    );
    assert_eq!(
        parse_command(&vec![0x0d, 0x00, 0x00, 0x00, 0x05]),
        Some(ControlMessage::SetGainByIndex(5))
    );
    assert_eq!(
        parse_command(&vec![0x0e, 0x00, 0x00, 0x00, 0x01]),
        Some(ControlMessage::SetBiasTee(true))
    );
    assert_eq!(parse_command(&vec![0x0f, 0x00, 0x00, 0x00, 0x00]), None);
    assert_eq!(parse_command(&vec![0x00, 0x00, 0x00, 0x00, 0x00]), None);
}

#[test]
fn apply_sample_rate_and_gain_by_index() {
    let mut sdr = opened_sdr();
    let mut manual = false;
    let mut last_gain = 0i32;
    let mut gains: Vec<i32> = Vec::new();
    apply_control(
        &mut sdr,
        ControlMessage::SetSampleRate(2_048_000),
        &mut manual,
        &mut last_gain,
        &mut gains,
    )
    .expect("rate");
    assert_eq!(sdr.get_sample_rate(), 2_048_000);

    // Index 16 in the gain table is 29.7 dB; the empty local table is
    // refreshed from the tuner first.
    apply_control(
        &mut sdr,
        ControlMessage::SetGainByIndex(16),
        &mut manual,
        &mut last_gain,
        &mut gains,
    )
    .expect("gain by index");
    assert!(manual);
    assert_eq!(last_gain, 297);
    assert_eq!(gains.len(), 29);
}

#[test]
fn apply_rejects_out_of_range() {
    let mut sdr = opened_sdr();
    let mut manual = false;
    let mut last_gain = 0i32;
    let mut gains: Vec<i32> = Vec::new();
    let r = apply_control(
        &mut sdr,
        ControlMessage::SetSampleRate(500_000),
        &mut manual,
        &mut last_gain,
        &mut gains,
    );
    assert!(r.is_err());
    let r2 = apply_control(
        &mut sdr,
        ControlMessage::SetFreqCorrection(2_000_000),
        &mut manual,
        &mut last_gain,
        &mut gains,
    );
    assert!(r2.is_err());
}

#[test]
fn shutdown_stops_the_session() {
    let mut sdr = opened_sdr();
    let mut manual = false;
    let mut last_gain = 0i32;
    let mut gains: Vec<i32> = Vec::new();
    let stop = apply_control(
        &mut sdr,
        ControlMessage::Shutdown,
        &mut manual,
        &mut last_gain,
        &mut gains,
    )
    .expect("shutdown");
    assert!(stop);
}

#[test]
fn accepted_noop_commands_do_nothing() {
    let mut sdr = opened_sdr();
    let mut manual = false;
    let mut last_gain = 0i32;
    let mut gains: Vec<i32> = Vec::new();
    let before = sdr.port_ref().log().len();
    for msg in [
        ControlMessage::SetIfGain { stage: 1, gain: 10 },
        ControlMessage::SetAgcMode(true),
        ControlMessage::SetOffsetTuning(true),
        ControlMessage::SetRtlXtal(28_800_000),
        ControlMessage::SetTunerXtal(28_800_000),
    ] {
        let stop = apply_control(&mut sdr, msg, &mut manual, &mut last_gain, &mut gains)
            .expect("noop");
        assert!(!stop);
    }
    assert_eq!(sdr.port_ref().log().len(), before);
}

#[test]
fn error_messages_name_the_failure() {
    let mut sdr = opened_sdr();
    let err = sdr.set_sample_rate(500_000).unwrap_err();
    assert_eq!(err.message(), "Invalid sample rate");

    let dev = rtlsdr_rs::device::Device::new(ReplayPort::new(init_script()));
    let mut inner = rtlsdr_rs::rtlsdr::RtlSdr::new(dev);
    inner.init().expect("bring-up");
    let err2 = inner.set_xtal_freq(1_000_000, 0).unwrap_err();
    assert!(err2.message().contains("rtl_freq out of bounds"));
}
