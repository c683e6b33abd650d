// Register-plane encoding tests: each operation is checked against the
// operation log of a scripted port.

use rtlsdr_rs::constants::{BLOCK_SYS, GPO};
use rtlsdr_rs::device::Device;
use rtlsdr_rs::replay::{LoggedOp, ReplayPort};
use rtlsdr_rs::DeviceId;

fn device_with(responses: Vec<Vec<u8>>) -> Device<ReplayPort> {
    Device::new(ReplayPort::new(responses))
}

#[test]
fn test_read_reg_u8() {
    let data_expected = 0x12_u16;
    let mut device = device_with(vec![vec![0x12]]);
    let result = device.read_reg(BLOCK_SYS, GPO, 1).unwrap();
    assert_eq!(data_expected, result);
    let log = device.port_ref().log();
    assert_eq!(log.len(), 1);
    assert_eq!(
        log[0],
        LoggedOp::ControlIn { value: GPO, index: BLOCK_SYS << 8, data: vec![0x12] }
    );
}

#[test]
fn test_read_reg_u16() {
    // Bytes are read as little-endian.
    let data_expected = u16::to_le_bytes(0x123);
    let mut device = device_with(vec![data_expected.to_vec()]);
    let result = device.read_reg(BLOCK_SYS, GPO, 2).unwrap();
    assert_eq!(u16::from_le_bytes(data_expected), result);
    let log = device.port_ref().log();
    assert_eq!(log.len(), 1);
    assert_eq!(
        log[0],
        LoggedOp::ControlIn { value: GPO, index: BLOCK_SYS << 8, data: data_expected.to_vec() }
    );
}

#[test]
fn test_write_reg_u8() {
    let data_expected = 0xef_u16;
    let mut device = device_with(vec![]);
    let result = device.write_reg(BLOCK_SYS, GPO, data_expected, 1).unwrap();
    assert_eq!(1, result);
    let log = device.port_ref().log();
    assert_eq!(log.len(), 1);
    // The payload is exactly the low byte.
    assert_eq!(
        log[0],
        LoggedOp::ControlOut { value: GPO, index: (BLOCK_SYS << 8) | 0x10, data: vec![0xef] }
    );
}

#[test]
fn test_write_reg_u16() {
    let data_expected = 0xefab_u16;
    let mut device = device_with(vec![]);
    let result = device.write_reg(BLOCK_SYS, GPO, data_expected, 2).unwrap();
    // The scripted transport accepts the whole two-byte payload.
    assert_eq!(2, result);
    let log = device.port_ref().log();
    assert_eq!(log.len(), 1);
    // The payload is exactly the big-endian byte pair.
    assert_eq!(
        log[0],
        LoggedOp::ControlOut {
            value: GPO,
            index: (BLOCK_SYS << 8) | 0x10,
            data: data_expected.to_be_bytes().to_vec(),
        }
    );
}

#[test]
fn test_demod_read_reg() {
    let page = 0xa_u16;
    let addr = 0x1_u16;
    let value = 0x12;
    let mut device = device_with(vec![vec![value]]);
    let result = device.demod_read_reg(page, addr).unwrap();
    assert_eq!(value as u16, result);
    let log = device.port_ref().log();
    assert_eq!(log.len(), 1);
    assert_eq!(
        log[0],
        LoggedOp::ControlIn { value: (addr << 8) | 0x20, index: page, data: vec![value] }
    );
}

#[test]
fn test_demod_write_reg_issues_dummy_read() {
    // Every demodulator write is one encoded control OUT followed by
    // exactly one read of page 0x0a addr 0x01.
    let mut device = device_with(vec![]);
    let bytes = device.demod_write_reg(1, 0x15, 0x01, 1).unwrap();
    assert_eq!(bytes, 1);
    let log = device.port_ref().log();
    assert_eq!(log.len(), 2);
    assert_eq!(
        log[0],
        LoggedOp::ControlOut { value: (0x15 << 8) | 0x20, index: 0x10 | 1, data: vec![0x01] }
    );
    assert_eq!(
        log[1],
        LoggedOp::ControlIn { value: (0x01 << 8) | 0x20, index: 0x0a, data: vec![] }
    );
}

#[test]
fn test_read_eeprom_reads_expected_data() {
    let expected_data = [0x12, 0x34, 0x56, 0x78, 0x9A];
    let mut device = device_with(expected_data.iter().map(|b| vec![*b]).collect());
    let mut data = vec![0u8; 5];
    let data_len = data.len();
    device.read_eeprom(&mut data, 0, data_len).unwrap();
    assert_eq!(data, expected_data);
    // One offset write, then one read per byte.
    let log = device.port_ref().log();
    assert_eq!(log.len(), 6);
    assert_eq!(
        log[0],
        LoggedOp::ControlOut { value: 0xa0, index: (6 << 8) | 0x10, data: vec![0] }
    );
}

#[test]
fn test_read_eeprom_partial_read() {
    let expected_data = [0xAB, 0xCD];
    let mut device = device_with(expected_data.iter().map(|b| vec![*b]).collect());
    let mut data = vec![0u8; 2];
    let data_len = data.len();
    device.read_eeprom(&mut data, 0, data_len).unwrap();
    assert_eq!(data, expected_data);
}

#[test]
fn test_read_eeprom_larger_buffer() {
    let expected_data = [0xDE, 0xAD];
    let mut device = device_with(expected_data.iter().map(|b| vec![*b]).collect());
    let mut data = vec![0xFFu8; 4];
    device.read_eeprom(&mut data, 0, 2).unwrap();
    assert_eq!(data[..2], expected_data);
    // The rest of the buffer stays untouched.
    assert_eq!(data[2..], [0xFF, 0xFF]);
}

#[test]
fn test_device_id_enum_variants() {
    // Test that we can create DeviceId variants
    let index_device_id = DeviceId::Index(0);
    let fd_device_id = DeviceId::Fd(42);

    // Test equality
    assert_eq!(index_device_id, DeviceId::Index(0));
    assert_eq!(fd_device_id, DeviceId::Fd(42));
    assert_ne!(index_device_id, fd_device_id);

    // Test debug representation
    assert_eq!(format!("{:?}", index_device_id), "Index(0)");
    assert_eq!(format!("{:?}", fd_device_id), "Fd(42)");
}

#[test]
fn test_i2c_read_reg_addresses_then_reads() {
    let mut device = device_with(vec![vec![0x69]]);
    let v = device.i2c_read_reg(0x34, 0x00).unwrap();
    assert_eq!(v, 0x69);
    let log = device.port_ref().log();
    assert_eq!(log.len(), 2);
    assert_eq!(
        log[0],
        LoggedOp::ControlOut { value: 0x34, index: (6 << 8) | 0x10, data: vec![0x00] }
    );
    assert_eq!(log[1], LoggedOp::ControlIn { value: 0x34, index: 6 << 8, data: vec![0x69] });
}
