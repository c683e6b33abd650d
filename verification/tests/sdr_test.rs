// Driver scenarios against a scripted port: bring-up, sample-rate
// quantization, direct sampling, tuning and the repeater discipline.

use rtlsdr_rs::replay::{LoggedOp, ReplayPort};
use rtlsdr_rs::{DirectSampleMode, RtlSdr, TunerGain};

/// A script that satisfies the bring-up sequence: the tuner probe
/// answers 0x69, EEPROM byte 7 answers 0x02 (no forced bias tee, no
/// forced direct sampling); every other read delivers nothing.
fn init_script() -> Vec<Vec<u8>> {
    let mut responses: Vec<Vec<u8>> = Vec::new();
    for i in 0..54 {
        responses.push(match i {
            39 => vec![0x69],
            53 => vec![0x02],
            _ => vec![],
        });
    }
    responses
}

fn opened_sdr() -> RtlSdr<ReplayPort> {
    RtlSdr::open_with_port(ReplayPort::new(init_script())).expect("bring-up")
}

/// The demodulator write of `val` to (page, addr) as the log shows it.
fn demod_write(page: u16, addr: u16, payload: &[u8]) -> LoggedOp {
    LoggedOp::ControlOut {
        value: (addr << 8) | 0x20,
        index: 0x10 | page,
        data: payload.to_vec(),
    }
}

fn find_op(log: &[LoggedOp], from: usize, op: &LoggedOp) -> Option<usize> {
    (from..log.len()).find(|i| &log[*i] == op)
}

#[test]
fn init_succeeds_and_probes_tuner() {
    let sdr = opened_sdr();
    // The probe of the R820T check register is in the log.
    let log = sdr.port_ref().log();
    let probe = LoggedOp::ControlOut { value: 0x34, index: (6 << 8) | 0x10, data: vec![0x00] };
    assert!(find_op(log, 0, &probe).is_some());
    assert_eq!(sdr.get_sample_rate(), 0);
    assert_eq!(sdr.get_center_freq(), 0);
    assert_eq!(sdr.get_freq_correction(), 0);
}

#[test]
fn init_fails_without_tuner() {
    // A device that never answers the probe: bring-up must fail, not
    // panic.
    let r = RtlSdr::open_with_port(ReplayPort::new(Vec::new()));
    assert!(r.is_err());
}

#[test]
fn rate_quantization() {
    // With the nominal 28.8 MHz crystal, 2_048_000 Hz is achieved
    // exactly; the ratio halves 0x0384 and 0x0000 go to demodulator
    // page 1 registers 0x9f and 0xa1.
    let mut sdr = opened_sdr();
    let before = sdr.port_ref().log().len();
    sdr.set_sample_rate(2_048_000).expect("rate");
    assert_eq!(sdr.get_sample_rate(), 2_048_000);
    let log = sdr.port_ref().log();
    let hi = find_op(log, before, &demod_write(1, 0x9f, &[0x03, 0x84])).expect("ratio high half");
    let lo = find_op(log, hi + 1, &demod_write(1, 0xa1, &[0x00, 0x00])).expect("ratio low half");
    assert!(hi < lo);
}

#[test]
fn rate_quantization_within_one_hz() {
    let mut sdr = opened_sdr();
    sdr.set_sample_rate(1_000_000).expect("rate");
    // 28_800_000 * 2^22 / 1_000_000 clears to ratio 120_795_952; the
    // achieved rate is the floor of the exact quotient.
    assert_eq!(sdr.get_sample_rate(), 1_000_000);
}

#[test]
fn rate_rejected() {
    // 500 kHz falls in the resampler's forbidden gap: an error, and
    // not one register write.  250 kHz sits in the valid low band and
    // is accepted.
    let mut sdr = opened_sdr();
    let before = sdr.port_ref().log().len();
    let r = sdr.set_sample_rate(500_000);
    assert!(r.is_err());
    assert_eq!(sdr.port_ref().log().len(), before);
    assert_eq!(sdr.get_sample_rate(), 0);
    assert!(sdr.set_sample_rate(250_000).is_ok());
}

#[test]
fn rate_rejected_below_and_above() {
    let mut sdr = opened_sdr();
    assert!(sdr.set_sample_rate(225_000).is_err());
    assert!(sdr.set_sample_rate(3_200_001).is_err());
    assert!(sdr.set_sample_rate(900_000).is_err());
    assert!(sdr.set_sample_rate(3_200_000).is_ok());
}

#[test]
fn freq_correction_round_trip() {
    let mut sdr = opened_sdr();
    sdr.set_freq_correction(25).expect("ppm");
    assert_eq!(sdr.get_freq_correction(), 25);
    sdr.set_freq_correction(-25).expect("ppm");
    assert_eq!(sdr.get_freq_correction(), -25);
}

#[test]
fn freq_correction_writes_word() {
    // -1 PPM: the correction word is 2^24/10^6 = 16 (truncated), so
    // 0x10 goes to page 1 reg 0x3f and 0x00 to reg 0x3e.
    let mut sdr = opened_sdr();
    let before = sdr.port_ref().log().len();
    sdr.set_freq_correction(-1).expect("ppm");
    let log = sdr.port_ref().log();
    assert!(find_op(log, before, &demod_write(1, 0x3f, &[0x10])).is_some());
    assert!(find_op(log, before, &demod_write(1, 0x3e, &[0x00])).is_some());
}

#[test]
fn direct_sampling_toggle() {
    // Off to OnSwap: Zero-IF off, spectrum inversion off, in-phase ADC
    // only, I/Q swapped, then a retune at the current frequency.
    let mut sdr = opened_sdr();
    sdr.set_center_freq(14_000_000).expect("tune");
    let before = sdr.port_ref().log().len();
    sdr.set_direct_sampling(DirectSampleMode::OnSwap).expect("direct sampling");
    let log = sdr.port_ref().log();
    let a = find_op(log, before, &demod_write(1, 0xb1, &[0x1a])).expect("zero-IF off");
    let b = find_op(log, a + 1, &demod_write(1, 0x15, &[0x00])).expect("inversion off");
    let c = find_op(log, b + 1, &demod_write(0, 0x08, &[0x4d])).expect("in-phase ADC");
    let d = find_op(log, c + 1, &demod_write(0, 0x06, &[0x90])).expect("I/Q swap");
    assert!(a < b && b < c && c < d);
    // The retune in direct-sampling mode programs the IF path.
    assert_eq!(sdr.get_center_freq(), 14_000_000);
}

#[test]
fn tuner_gain_is_bracketed() {
    // The repeater gate opens with 0x18 immediately before the tuner
    // traffic and closes with 0x10 immediately after it.
    let mut sdr = opened_sdr();
    let before = sdr.port_ref().log().len();
    sdr.set_tuner_gain(TunerGain::Manual(297)).expect("gain");
    let log = sdr.port_ref().log();
    assert_eq!(log[before], demod_write(1, 0x01, &[0x18]));
    assert_eq!(log[log.len() - 2], demod_write(1, 0x01, &[0x10]));
    // Everything between the bracket's dummy read and the closing
    // write is tuner I2C traffic.
    for op in &log[before + 2..log.len() - 2] {
        match op {
            LoggedOp::ControlOut { value, index, .. } => {
                assert_eq!(*value, 0x34);
                assert_eq!(*index, (6 << 8) | 0x10);
            }
            LoggedOp::ControlIn { value, index, .. } => {
                assert_eq!(*value, 0x34);
                assert_eq!(*index, 6 << 8);
            }
            other => panic!("unexpected op inside bracket: {:?}", other),
        }
    }
}

#[test]
fn tune_and_read_back() {
    let mut sdr = opened_sdr();
    sdr.set_center_freq(100_000_000).expect("tune");
    assert_eq!(sdr.get_center_freq(), 100_000_000);
}

#[test]
fn testmode_values() {
    let mut sdr = opened_sdr();
    let before = sdr.port_ref().log().len();
    sdr.set_testmode(true).expect("on");
    sdr.set_testmode(false).expect("off");
    let log = sdr.port_ref().log();
    assert_eq!(log[before], demod_write(0, 0x19, &[0x03]));
    assert_eq!(log[before + 2], demod_write(0, 0x19, &[0x05]));
}

#[test]
fn gains_table() {
    let sdr = opened_sdr();
    let gains = sdr.get_tuner_gains().expect("gains");
    assert_eq!(gains.len(), 29);
    assert_eq!(gains[0], 0);
    assert_eq!(gains[28], 496);
    assert_eq!(
        gains,
        vec![
            0, 9, 14, 27, 37, 77, 87, 125, 144, 157, 166, 197, 207, 229, 254, 280, 297, 328, 338,
            364, 372, 386, 402, 421, 434, 439, 445, 480, 496
        ]
    );
}

#[test]
fn bit_reverse_values() {
    assert_eq!(rtlsdr_rs::r820t::bit_reverse(0x00), 0x00);
    assert_eq!(rtlsdr_rs::r820t::bit_reverse(0x80), 0x01);
    assert_eq!(rtlsdr_rs::r820t::bit_reverse(0x01), 0x80);
    assert_eq!(rtlsdr_rs::r820t::bit_reverse(0xf0), 0x0f);
    assert_eq!(rtlsdr_rs::r820t::bit_reverse(0xa5), 0xa5);
    assert_eq!(rtlsdr_rs::r820t::bit_reverse(0x12), 0x48);
}

#[test]
fn fir_packing_bytes() {
    // Packing pairs (0x4b5, 0x7f8) and (0x3e8, 0x619) gives
    // 4b 57 f8 3e 86 19 after the eight signed bytes.
    let fir: Vec<i32> = vec![0, 0, 0, 0, 0, 0, 0, 0, 0x4b5, 0x7f8, 0x3e8, 0x619, 0, 0, 0, 0];
    let packed = rtlsdr_rs::fir::pack_fir(&fir);
    assert_eq!(packed.len(), 20);
    assert_eq!(&packed[8..14], &[0x4b, 0x57, 0xf8, 0x3e, 0x86, 0x19]);
}

#[test]
fn fir_packing_negative_taps() {
    let fir: Vec<i32> = vec![-54, -36, -41, -40, -32, -14, 14, 53, -1, -2048, 2047, 1, 0, 0, 0, 0];
    let packed = rtlsdr_rs::fir::pack_fir(&fir);
    // Signed bytes keep their two's-complement image.
    assert_eq!(packed[0], 0xca);
    assert_eq!(packed[7], 53);
    // -1 packs to 0xff..f, -2048 to 0x800.
    assert_eq!(&packed[8..11], &[0xff, 0xf8, 0x00]);
    // 2047 and 1 pack to 0x7ff and 0x001.
    assert_eq!(&packed[11..14], &[0x7f, 0xf0, 0x01]);
}

#[test]
fn known_device_table() {
    assert!(rtlsdr_rs::constants::is_known_device(0x0bda, 0x2832));
    assert!(rtlsdr_rs::constants::is_known_device(0x0bda, 0x2838));
    assert!(rtlsdr_rs::constants::is_known_device(0x1f4d, 0xd803));
    assert!(!rtlsdr_rs::constants::is_known_device(0x0bda, 0x0000));
    assert_eq!(rtlsdr_rs::constants::known_devices().len(), 42);
}

#[test]
fn tuner_cache_round_trip() {
    let mut t = rtlsdr_rs::r820t::R820T::new();
    assert_eq!(t.read_cache_reg(5), 0x83);
    assert_eq!(t.read_cache_reg(31), 0xc0);
    t.reg_cache_store(16, &vec![0xaa, 0xbb]);
    assert_eq!(t.read_cache_reg(16), 0xaa);
    assert_eq!(t.read_cache_reg(17), 0xbb);
    assert_eq!(t.read_cache_reg(15), 0x68);
}
