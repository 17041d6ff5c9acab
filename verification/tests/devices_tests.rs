//! Channel-command tests: function codes and IOCC encode/decode.

use s1130_core::devices::{DeviceFunction, Iocc};

#[test]
fn test_device_function_conversion() {
    assert_eq!(DeviceFunction::from_bits(0), Some(DeviceFunction::Sense));
    assert_eq!(DeviceFunction::from_bits(1), Some(DeviceFunction::Control));
    assert_eq!(DeviceFunction::from_bits(2), Some(DeviceFunction::InitRead));
    assert_eq!(DeviceFunction::from_bits(3), Some(DeviceFunction::Read));
    assert_eq!(
        DeviceFunction::from_bits(4),
        Some(DeviceFunction::InitWrite)
    );
    assert_eq!(DeviceFunction::from_bits(5), Some(DeviceFunction::Write));
    assert_eq!(
        DeviceFunction::from_bits(6),
        Some(DeviceFunction::SenseIlsw)
    );
    assert_eq!(DeviceFunction::from_bits(7), Some(DeviceFunction::Reserved));

    assert_eq!(DeviceFunction::Sense.to_bits(), 0);
    assert_eq!(DeviceFunction::Control.to_bits(), 1);
}

#[test]
fn test_iocc_decode_encode() {
    let word1 = 0x1000;
    let word2 = 0x2A42;

    let iocc = Iocc::decode(word1, word2).unwrap();
    assert_eq!(iocc.wca, 0x1000);
    assert_eq!(iocc.device_code, 5);
    assert_eq!(iocc.function, DeviceFunction::InitRead);
    assert_eq!(iocc.modifiers, 0x42);

    let (encoded1, encoded2) = iocc.encode();
    assert_eq!(encoded1, word1);
    assert_eq!(encoded2, word2);
}

#[test]
fn test_iocc_decode_all_functions() {
    for func in 0..8 {
        let word1 = 0x0100;
        let word2 = (func as u16) << 8;
        let iocc = Iocc::decode(word1, word2).unwrap();
        assert_eq!(iocc.function.to_bits(), func);
    }
}
