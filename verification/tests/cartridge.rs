use gbcore::cartridge::{Cartridge, ParsingError};
use gbcore::header::{CartridgeKind, Destination, Header, RamSize, RomSize};
use gbcore::mbc::Mbc;

fn image(kind: u8, rom_size: u8, ram_size: u8) -> Vec<u8> {
    let mut bytes = vec![0u8; 0x150];
    bytes[0x147] = kind;
    bytes[0x148] = rom_size;
    bytes[0x149] = ram_size;
    bytes[0x14A] = 0x00;
    bytes[0x14D] = 0x5A;
    bytes[0x14E] = 0x12;
    bytes[0x14F] = 0x34;
    bytes
}

#[test]
fn short_images_are_rejected_before_any_field_is_read() {
    for length in [0usize, 1, 0x14, 0x147, 0x14F] {
        let bytes = vec![0u8; length];
        match Cartridge::try_parse_bytes(&bytes) {
            Err(ParsingError::InvalidHeaderLength { length: reported }) => {
                assert_eq!(reported, length);
            }
            other => panic!("expected a length error, got {:?}", other.is_ok()),
        }
    }
}

#[test]
fn header_fields_parse_from_their_offsets() {
    let bytes = image(0x00, 0x00, 0x00);
    let header = Header::try_parse_bytes(&bytes).unwrap();
    assert_eq!(header.kind, CartridgeKind::RomOnly);
    assert_eq!(header.rom_size, RomSize::Kb32);
    assert_eq!(header.ram_size, RamSize::NoRam);
    assert_eq!(header.destination, Destination::Japan);
    assert_eq!(header.header_checksum, 0x5A);
    assert_eq!(header.global_checksum, 0x1234);
}

#[test]
fn unknown_type_bytes_are_unsupported() {
    let bytes = image(0x04, 0x00, 0x00);
    assert_eq!(
        Header::try_parse_bytes(&bytes),
        Err(ParsingError::UnsupportedCartridgeType { value: 0x04 })
    );
}

#[test]
fn known_but_undriven_kinds_are_unsupported() {
    // the multi-game controller maps to no controller this core drives
    let bytes = image(0x0B, 0x00, 0x00);
    assert!(matches!(
        Cartridge::try_parse_bytes(&bytes),
        Err(ParsingError::UnsupportedCartridgeType { value: 0x0B })
    ));
}

#[test]
fn invalid_size_bytes_name_their_offset() {
    let bytes = image(0x00, 0x30, 0x00);
    assert_eq!(
        Header::try_parse_bytes(&bytes),
        Err(ParsingError::InvalidHeaderField { offset: 0x148, value: 0x30 })
    );
    let bytes = image(0x00, 0x00, 0x09);
    assert_eq!(
        Header::try_parse_bytes(&bytes),
        Err(ParsingError::InvalidHeaderField { offset: 0x149, value: 0x09 })
    );
}

#[test]
fn controllers_start_at_bank_one_with_ram_disabled() {
    let cartridge = Cartridge::try_parse_bytes(&image(0x01, 0x00, 0x00)).unwrap();
    assert_eq!(
        cartridge.mbc,
        Some(Mbc::Mbc1 { rom_bank: 1, ram_bank: 0, ram_enabled: false })
    );
    let cartridge = Cartridge::try_parse_bytes(&image(0x00, 0x00, 0x00)).unwrap();
    assert!(cartridge.mbc.is_none());
    let cartridge = Cartridge::try_parse_bytes(&image(0x19, 0x00, 0x00)).unwrap();
    assert_eq!(
        cartridge.mbc,
        Some(Mbc::Mbc5 { rom_bank: 1, ram_bank: 0, ram_enabled: false })
    );
    let cartridge = Cartridge::try_parse_bytes(&image(0xFF, 0x00, 0x02)).unwrap();
    assert_eq!(
        cartridge.mbc,
        Some(Mbc::HuC1 { rom_bank: 1, ram_bank: 0, ram_enabled: false })
    );
}

#[test]
fn battery_and_timer_follow_the_kind() {
    assert!(CartridgeKind::MBC1RamBattery.has_battery());
    assert!(!CartridgeKind::MBC1.has_battery());
    assert!(CartridgeKind::MBC3TimerBattery.has_timer());
    assert!(!CartridgeKind::MBC3.has_timer());
    let cartridge = Cartridge::try_parse_bytes(&image(0x0F, 0x00, 0x00)).unwrap();
    assert!(cartridge.has_battery);
    assert!(cartridge.timer.is_some());
    let cartridge = Cartridge::try_parse_bytes(&image(0x11, 0x00, 0x00)).unwrap();
    assert!(!cartridge.has_battery);
    assert!(cartridge.timer.is_none());
}

#[test]
fn rom_reads_come_from_the_image_and_banked_window() {
    let mut bytes = vec![0u8; 0x9000];
    bytes[0x147] = 0x01; // MBC1
    bytes[0x100] = 0x42;
    bytes[0x4000] = 0x11;
    bytes[0x8000] = 0x22;
    let mut cartridge = Cartridge::try_parse_bytes(&bytes).unwrap();
    assert_eq!(cartridge.read(0x0100), 0x42);
    // bank one is active at power-on
    assert_eq!(cartridge.read(0x4000), 0x11);
    // select bank two through the control window
    cartridge.write(0x2000, 0x02);
    assert_eq!(cartridge.read(0x4000), 0x22);
    // selecting bank zero aliases to bank one on this controller
    cartridge.write(0x2000, 0x00);
    assert_eq!(cartridge.read(0x4000), 0x11);
    // reads beyond the image return the sentinel
    cartridge.write(0x2000, 0x1F);
    assert_eq!(cartridge.read(0x4000), 0xFF);
}

#[test]
fn cartridge_ram_honours_the_enable_latch() {
    let mut bytes = image(0x03, 0x00, 0x02); // MBC1 with 8KB of RAM
    bytes[0x148] = 0x00;
    let mut cartridge = Cartridge::try_parse_bytes(&bytes).unwrap();
    // disabled RAM reads the sentinel and discards writes
    assert_eq!(cartridge.read(0xA010), 0xFF);
    cartridge.write(0xA010, 0x77);
    assert_eq!(cartridge.read(0xA010), 0xFF);
    // the value 0x0A in the low nibble enables RAM
    cartridge.write(0x0000, 0x0A);
    cartridge.write(0xA010, 0x77);
    assert_eq!(cartridge.read(0xA010), 0x77);
    // any other value disables it again
    cartridge.write(0x0000, 0x00);
    assert_eq!(cartridge.read(0xA010), 0xFF);
}

#[test]
fn mbc2_splits_its_control_window_by_address_bit() {
    let mut mbc = Mbc::try_parse_bytes_mbc2(&vec![0u8; 0x150]).unwrap();
    // even 0x100-pages drive the RAM latch
    mbc.write(0x0000, 0x0A);
    assert_eq!(mbc, Mbc::Mbc2 { rom_bank: 1, ram_enabled: true });
    // odd 0x100-pages drive the ROM bank, with the zero-bank alias
    mbc.write(0x0100, 0x03);
    assert_eq!(mbc, Mbc::Mbc2 { rom_bank: 3, ram_enabled: true });
    mbc.write(0x0100, 0x00);
    assert_eq!(mbc, Mbc::Mbc2 { rom_bank: 1, ram_enabled: true });
}

#[test]
fn mbc5_accepts_bank_zero_and_a_ninth_bit() {
    let mut mbc = Mbc::try_parse_bytes_mbc5(&vec![0u8; 0x150]).unwrap();
    mbc.write(0x2000, 0x00);
    assert_eq!(mbc, Mbc::Mbc5 { rom_bank: 0, ram_bank: 0, ram_enabled: false });
    mbc.write(0x2000, 0x42);
    mbc.write(0x3000, 0x01);
    assert_eq!(mbc, Mbc::Mbc5 { rom_bank: 0x142, ram_bank: 0, ram_enabled: false });
}

#[test]
fn switch_bank_applies_the_controller_mask() {
    let mut mbc = Mbc::try_parse_bytes_mbc1(&vec![0u8; 0x150]).unwrap();
    mbc.switch_bank(0x25);
    assert_eq!(mbc, Mbc::Mbc1 { rom_bank: 0x05, ram_bank: 0, ram_enabled: false });
    mbc.switch_bank(0x00);
    assert_eq!(mbc, Mbc::Mbc1 { rom_bank: 0x01, ram_bank: 0, ram_enabled: false });
}
