use hexacore::cpu::ExtendedAddress;
use hexacore::device::rom::ImageError;
use hexacore::device::out::OutMode;
use hexacore::device::{
    AddressMappedDevice, AddressRange, DeviceResult, IOMappedDevice, Memory, Out, RAM, ROM,
};

fn at(address: u32) -> ExtendedAddress {
    ExtendedAddress::new_ext_address(address)
}

#[test]
fn ram_starts_as_zeroes() {
    let mut ram = RAM::new(at(0x10), at(0x1F));
    for address in 0x10..=0x1F {
        assert_eq!(ram.read(at(address), false), DeviceResult::Ok8(0));
    }
    assert_eq!(ram.peek(15), Some(0));
    assert_eq!(ram.peek(16), None);
    assert!(!ram.poke(16, 1));
}

#[test]
fn ram_word_is_big_endian() {
    let mut ram = RAM::new(at(0x100), at(0x1FF));
    assert_eq!(ram.write(at(0x120), 0xCAFE, true), DeviceResult::Done);
    assert_eq!(ram.peek(0x20), Some(0xCA));
    assert_eq!(ram.peek(0x21), Some(0xFE));
    assert_eq!(ram.read(at(0x120), true), DeviceResult::Ok16(0xCAFE));
    assert_eq!(ram.read(at(0x120), false), DeviceResult::Ok8(0xCA));
    assert_eq!(ram.read(at(0x121), false), DeviceResult::Ok8(0xFE));
    assert_eq!(ram.read(at(0x121), true), DeviceResult::Ok16(0xFE00));
}

#[test]
fn ram_word_touches_two_bytes_only() {
    let mut ram = RAM::new(at(0), at(0xFF));
    for index in 0..=0xFF {
        ram.poke(index, 0x11);
    }
    assert_eq!(ram.write(at(0x40), 0xABCD, true), DeviceResult::Done);
    for index in 0..=0xFFusize {
        let expected = match index {
            0x40 => 0xAB,
            0x41 => 0xCD,
            _ => 0x11,
        };
        assert_eq!(ram.peek(index), Some(expected));
    }
}

#[test]
fn ram_byte_leaves_the_neighbours() {
    let mut ram = RAM::new(at(0), at(0xFF));
    for index in 0..=0xFF {
        ram.poke(index, 0x11);
    }
    assert_eq!(ram.write(at(0x40), 0xABCD, false), DeviceResult::Done);
    for index in 0..=0xFFusize {
        let expected = if index == 0x40 { 0xCD } else { 0x11 };
        assert_eq!(ram.peek(index), Some(expected));
    }
}

#[test]
fn ram_word_at_the_last_address_is_not_served() {
    let mut ram = RAM::new(at(0x00), at(0x0F));
    ram.poke(0x0F, 0x77);
    assert_eq!(ram.read(at(0x0F), true), DeviceResult::InvalidAddress);
    assert_eq!(ram.write(at(0x0F), 0x1234, true), DeviceResult::InvalidAddress);
    assert_eq!(ram.peek(0x0F), Some(0x77));
    assert_eq!(ram.read(at(0x0E), true), DeviceResult::Ok16(0x0077));
    assert_eq!(ram.read(at(0x10), true), DeviceResult::NotMyAddress);
    assert_eq!(ram.write(at(0x10), 1, true), DeviceResult::NotMyAddress);
}

#[test]
fn ram_range() {
    let ram = RAM::new(at(0x01_0000), at(0xFF_FFFF));
    assert_eq!(ram.start(), 0x01_0000u32);
    assert_eq!(ram.end(), 0xFF_FFFFu32);
    assert_eq!(ram.size(), 0xFE_FFFF);
    assert_eq!(ram.relative(at(0x01_0010)), 0x10);
    assert_eq!(ram.peek(0xFE_FFFF), Some(0));
    assert_eq!(ram.len(), 0xFF_0000);
}

#[test]
fn address_range() {
    let range = AddressRange::new(at(0x10), at(0x20));
    assert_eq!(range.start(), 0x10u32);
    assert_eq!(range.end(), 0x20u32);
    assert_eq!(range.span(), 0x10);
    assert!(range.contains(at(0x10)));
    assert!(range.contains(at(0x20)));
    assert!(!range.contains(at(0x0F)));
    assert!(!range.contains(at(0x21)));
    assert_eq!(range.relative(at(0x1A)), 0x0A);
}

#[test]
fn rom_pads_a_short_image() {
    let mut rom = ROM::new(at(0x00), at(0x07), vec![1, 2, 3]).unwrap();
    let expected = [1u8, 2, 3, 0, 0, 0, 0, 0];
    for (address, byte) in expected.iter().enumerate() {
        assert_eq!(rom.read(at(address as u32), false), DeviceResult::Ok8(*byte));
    }
    assert_eq!(rom.read(at(0x01), true), DeviceResult::Ok16(0x0203));
    assert_eq!(rom.read(at(0x08), false), DeviceResult::NotMyAddress);
    assert_eq!(rom.size(), 7);
    assert_eq!(rom.len(), 8);
}

#[test]
fn rom_takes_an_image_that_fits() {
    let mut rom = ROM::new(at(0x10), at(0x13), vec![9, 8, 7, 6]).unwrap();
    assert_eq!(rom.read(at(0x10), true), DeviceResult::Ok16(0x0908));
    assert_eq!(rom.read(at(0x13), false), DeviceResult::Ok8(6));
    assert_eq!(rom.read(at(0x13), true), DeviceResult::InvalidAddress);
}

#[test]
fn rom_refuses_an_image_that_is_too_long() {
    assert!(matches!(
        ROM::new(at(0x10), at(0x13), vec![0; 5]),
        Err(ImageError::TooLong)
    ));
}

#[test]
fn rom_refuses_writes() {
    let mut rom = ROM::new(at(0x10), at(0x13), vec![9, 8, 7, 6]).unwrap();
    assert_eq!(rom.write(at(0x11), 0xFFFF, true), DeviceResult::ReadOnly);
    assert_eq!(rom.write(at(0x13), 0xFF, false), DeviceResult::ReadOnly);
    assert_eq!(rom.write(at(0x14), 0xFF, false), DeviceResult::NotMyAddress);
    assert_eq!(rom.write(at(0x0F), 0xFF, false), DeviceResult::NotMyAddress);
    assert_eq!(rom.read(at(0x11), true), DeviceResult::Ok16(0x0807));
}

#[test]
fn memory_of_either_kind() {
    let mut ram = Memory::Ram(RAM::new(at(0x100), at(0x1FF)));
    let mut rom = Memory::Rom(ROM::new(at(0x000), at(0x0FF), vec![0xAA, 0xBB]).unwrap());
    assert_eq!(ram.write(at(0x100), 0x1234, true), DeviceResult::Done);
    assert_eq!(ram.read(at(0x100), true), DeviceResult::Ok16(0x1234));
    assert_eq!(rom.write(at(0x00), 0x1234, true), DeviceResult::ReadOnly);
    assert_eq!(rom.read(at(0x00), true), DeviceResult::Ok16(0xAABB));
    assert_eq!(ram.start(), 0x100u32);
    assert_eq!(rom.end(), 0xFFu32);
    assert_eq!(ram.size(), 0xFF);
    assert_eq!(rom.relative(at(0x10)), 0x10);
}

#[test]
fn out_shows_numbers_and_characters() {
    let mut out = Out::new(0xA0);
    assert_eq!(out.io_address(), 0xA0);
    assert_eq!(out.io_name(), "Out");
    assert_eq!(out.io_read(), DeviceResult::WriteOnly);

    // a zero, then a byte shown as a number
    assert_eq!(out.io_write(0), DeviceResult::Done);
    assert!(out.take_output().is_empty());
    assert_eq!(out.io_write(0x2A), DeviceResult::Done);
    assert_eq!(out.take_output().iter().collect::<String>(), "0x2a\n");
    assert!(out.take_output().is_empty());

    // anything else, then a byte shown as a character
    assert_eq!(out.io_write(1), DeviceResult::Done);
    assert_eq!(out.io_write(b'H'), DeviceResult::Done);
    assert_eq!(out.io_write(0xFF), DeviceResult::Done);
    assert_eq!(out.io_write(0xE9), DeviceResult::Done);
    assert_eq!(out.take_output().iter().collect::<String>(), "H\u{e9}");
}

#[test]
fn out_formats_every_byte_as_two_digits() {
    let mut out = Out::new(1);
    for byte in 0..=255u8 {
        out.io_write(0);
        out.io_write(byte);
        assert_eq!(
            out.take_output().iter().collect::<String>(),
            format!("0x{:02x}\n", byte)
        );
    }
}

#[test]
fn out_modes_are_distinct() {
    assert!(OutMode::WaitingForMode != OutMode::Int);
    assert!(OutMode::Int != OutMode::Char);
}
