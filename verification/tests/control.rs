use cargo_ble::protocol::{baud_code, control_response_matches, CommandType, ControlCommand};

#[test]
fn test_control_command() {
    // A passkey command serializes as type byte, four data bytes and the
    // CRC-16/MODBUS of those five bytes, little-endian: 7 bytes in all.
    let ctrl_cmd = ControlCommand::new(CommandType::PASSKEY, [1, 2, 3, 4]);
    let serialized = ctrl_cmd.serialize();
    assert_eq!(vec![0x01, 0x01, 0x02, 0x03, 0x04, 0xB8, 0xCF], serialized);
}

#[test]
fn control_command_checksum_is_independent() {
    let serialized = ControlCommand::new(CommandType::BAUDRATE, [0xC0, 0x12, 0x00, 0x00]).serialize();
    assert_eq!(serialized.len(), 7);
    assert_eq!(serialized[0], 2);
    let crc = crc::Crc::<u16>::new(&crc::CRC_16_MODBUS);
    let expected = crc.checksum(&serialized[..5]).to_le_bytes();
    assert_eq!(&serialized[5..], &expected);
}

#[test]
fn command_type_wire_values() {
    assert_eq!(CommandType::PASSKEY.serialize(), 1);
    assert_eq!(CommandType::BAUDRATE.serialize(), 2);
}

#[test]
fn baud_table_values() {
    assert_eq!(baud_code(2400), Some(0x01A00B));
    assert_eq!(baud_code(4800), Some(0x00D005));
    assert_eq!(baud_code(9600), Some(0x006803));
    assert_eq!(baud_code(14400), Some(0x004507));
    assert_eq!(baud_code(19200), Some(0x003401));
    assert_eq!(baud_code(28800), Some(0x00220C));
    assert_eq!(baud_code(38400), Some(0x001A01));
    assert_eq!(baud_code(57600), Some(0x001106));
    assert_eq!(baud_code(115200), Some(0x00080B));
    assert_eq!(baud_code(1234), None);
}

#[test]
fn control_response_validation() {
    // 4800 expects 0x00D005, little-endian on the wire.
    assert!(control_response_matches(4800, &vec![0x05, 0xD0, 0x00, 0x00]));
    // A different value, a short response, or an untabled rate all fail.
    assert!(!control_response_matches(4800, &vec![0x03, 0x68, 0x00, 0x00]));
    assert!(!control_response_matches(4800, &vec![0x05, 0xD0]));
    assert!(!control_response_matches(1234, &vec![0x05, 0xD0, 0x00, 0x00]));
    // Extra trailing bytes are ignored; only the first four count.
    assert!(control_response_matches(9600, &vec![0x03, 0x68, 0x00, 0x00, 0x99]));
}
