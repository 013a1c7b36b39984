use hexacore::cpu::ExtendedAddress;
use hexacore::device::{AddressMappedDevice, DeviceResult, RAM};

#[test]
fn test_ram_16_bits() {
    let ram = RAM::new(
        ExtendedAddress::new_16bit_address(0x0000),
        ExtendedAddress::new_16bit_address(0xFFFF),
    );

    assert_eq!(ram.size(), 0xFFFF);
    assert_eq!(ram.start(), 0x0000);
    assert_eq!(ram.end(), 0xFFFF);
}

#[test]
fn test_ram_read() {
    let mut ram = RAM::new(
        ExtendedAddress::new_16bit_address(0x0000),
        ExtendedAddress::new_16bit_address(0xFFFF),
    );
    ram.poke(0xD007, 0xCA);

    let result = ram.read(ExtendedAddress::new_16bit_address(0xD007), false);

    assert_eq!(result, DeviceResult::Ok8(0xCA));
}

#[test]
fn test_ram_write() {
    let mut ram = RAM::new(
        ExtendedAddress::new_16bit_address(0x0000),
        ExtendedAddress::new_16bit_address(0xFFFF),
    );

    let result = ram.write(ExtendedAddress::new_16bit_address(0xD007), 0xCA, false);

    assert_eq!(ram.peek(0xD007), Some(0xCA));
    assert_eq!(result, DeviceResult::Done);
}

#[test]
fn test_ram_out_of_range_read() {
    let mut ram = RAM::new(
        ExtendedAddress::new_16bit_address(0x0000),
        ExtendedAddress::new_16bit_address(0x7FFF),
    );

    let result = ram.read(ExtendedAddress::new_16bit_address(0xD007), false);

    assert_eq!(result, DeviceResult::NotMyAddress);
}

#[test]
fn test_ram_out_of_range_write() {
    let mut ram = RAM::new(
        ExtendedAddress::new_16bit_address(0x0000),
        ExtendedAddress::new_16bit_address(0x7FFF),
    );

    let result = ram.write(ExtendedAddress::new_16bit_address(0xD007), 0xCA, false);

    assert_eq!(result, DeviceResult::NotMyAddress);
}

#[test]
fn ram_test_ram_16_bits() {
    let ram = RAM::new(
        ExtendedAddress::new_16bit_address(0x0000),
        ExtendedAddress::new_16bit_address(0xFFFF),
    );

    assert_eq!(ram.size(), 0xFFFF);
    assert_eq!(ram.start(), 0x0000);
    assert_eq!(ram.end(), 0xFFFF);
}

#[test]
fn ram_test_ram_read() {
    let mut ram = RAM::new(
        ExtendedAddress::new_16bit_address(0x0000),
        ExtendedAddress::new_16bit_address(0xFFFF),
    );
    ram.poke(0xD007, 0xCA);

    let result = ram.read(ExtendedAddress::new_16bit_address(0xD007), false);

    assert_eq!(result, DeviceResult::Ok8(0xCA));
}

#[test]
fn ram_test_ram_write() {
    let mut ram = RAM::new(
        ExtendedAddress::new_16bit_address(0x0000),
        ExtendedAddress::new_16bit_address(0xFFFF),
    );

    let result = ram.write(ExtendedAddress::new_16bit_address(0xD007), 0xCA, false);

    assert_eq!(ram.peek(0xD007), Some(0xCA));
    assert_eq!(result, DeviceResult::Done);
}

#[test]
fn ram_test_ram_out_of_range_read() {
    let mut ram = RAM::new(
        ExtendedAddress::new_16bit_address(0x0000),
        ExtendedAddress::new_16bit_address(0x7FFF),
    );

    let result = ram.read(ExtendedAddress::new_16bit_address(0xD007), false);

    assert_eq!(result, DeviceResult::NotMyAddress);
}

#[test]
fn ram_test_ram_out_of_range_write() {
    let mut ram = RAM::new(
        ExtendedAddress::new_16bit_address(0x0000),
        ExtendedAddress::new_16bit_address(0x7FFF),
    );

    let result = ram.write(ExtendedAddress::new_16bit_address(0xD007), 0xCA, false);

    assert_eq!(result, DeviceResult::NotMyAddress);
}
