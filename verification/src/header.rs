//! Cartridge header fields: the type, size and destination codes stored at
//! fixed offsets of a ROM image, and the parsed [`Header`] value.

use vstd::prelude::*;

use crate::cartridge::ParsingError;
use crate::util::spec_pack;

verus! {

/// Offset of the cartridge type byte.
pub const CARTRIDGE_TYPE_OFFSET: usize = 0x147;

/// Offset of the ROM size code byte.
pub const ROM_SIZE_OFFSET: usize = 0x148;

/// Offset of the RAM size code byte.
pub const RAM_SIZE_OFFSET: usize = 0x149;

/// Offset of the destination code byte.
pub const DESTINATION_OFFSET: usize = 0x14A;

/// Offset of the header checksum byte.
pub const HEADER_CHECKSUM_OFFSET: usize = 0x14D;

/// Offset of the high byte of the global checksum.
pub const GLOBAL_CHECKSUM_OFFSET: usize = 0x14E;

/// The least length a ROM image must have for its header to be complete.
pub const HEADER_COMPLETE_LENGTH: usize = 0x150;

/// A cartridge kind, as encoded by the type byte.
#[derive(Debug, Clone, Copy, PartialEq, Eq, Structural)]
pub enum CartridgeKind {
    RomOnly,
    MBC1,
    MBC1Ram,
    MBC1RamBattery,
    MBC2,
    MBC2Battery,
    RomRam,
    RomRamBattery,
    MMM01,
    MMM01Ram,
    MMM01RamBattery,
    MBC3TimerBattery,
    MBC3TimerRamBattery,
    MBC3,
    MBC3Ram,
    MBC3RamBattery,
    MBC5,
    MBC5Ram,
    MBC5RamBattery,
    MBC5Rumble,
    MBC5RumbleRam,
    MBC5RumbleRamBattery,
    MBC6,
    MBC7SensorRumbleRamBattery,
    PocketCamera,
    BandaiTama5,
    HuC3,
    HuC1RamBattery,
}

/// The cartridge kind a type byte encodes, if any.
pub open spec fn spec_kind_of_byte(value: u8) -> Option<CartridgeKind> {
    if value == 0x00 {
        Some(CartridgeKind::RomOnly)
    } else if value == 0x01 {
        Some(CartridgeKind::MBC1)
    } else if value == 0x02 {
        Some(CartridgeKind::MBC1Ram)
    } else if value == 0x03 {
        Some(CartridgeKind::MBC1RamBattery)
    } else if value == 0x05 {
        Some(CartridgeKind::MBC2)
    } else if value == 0x06 {
        Some(CartridgeKind::MBC2Battery)
    } else if value == 0x08 {
        Some(CartridgeKind::RomRam)
    } else if value == 0x09 {
        Some(CartridgeKind::RomRamBattery)
    } else if value == 0x0B {
        Some(CartridgeKind::MMM01)
    } else if value == 0x0C {
        Some(CartridgeKind::MMM01Ram)
    } else if value == 0x0D {
        Some(CartridgeKind::MMM01RamBattery)
    } else if value == 0x0F {
        Some(CartridgeKind::MBC3TimerBattery)
    } else if value == 0x10 {
        Some(CartridgeKind::MBC3TimerRamBattery)
    } else if value == 0x11 {
        Some(CartridgeKind::MBC3)
    } else if value == 0x12 {
        Some(CartridgeKind::MBC3Ram)
    } else if value == 0x13 {
        Some(CartridgeKind::MBC3RamBattery)
    } else if value == 0x19 {
        Some(CartridgeKind::MBC5)
    } else if value == 0x1A {
        Some(CartridgeKind::MBC5Ram)
    } else if value == 0x1B {
        Some(CartridgeKind::MBC5RamBattery)
    } else if value == 0x1C {
        Some(CartridgeKind::MBC5Rumble)
    } else if value == 0x1D {
        Some(CartridgeKind::MBC5RumbleRam)
    } else if value == 0x1E {
        Some(CartridgeKind::MBC5RumbleRamBattery)
    } else if value == 0x20 {
        Some(CartridgeKind::MBC7SensorRumbleRamBattery)
    } else if value == 0xFC {
        Some(CartridgeKind::PocketCamera)
    } else if value == 0xFD {
        Some(CartridgeKind::BandaiTama5)
    } else if value == 0xFE {
        Some(CartridgeKind::HuC3)
    } else if value == 0xFF {
        Some(CartridgeKind::HuC1RamBattery)
    } else {
        None
    }
}

/// Whether a kind carries battery-backed state.
pub open spec fn spec_has_battery(kind: CartridgeKind) -> bool {
    match kind {
        CartridgeKind::MBC1RamBattery => true,
        CartridgeKind::MBC2Battery => true,
        CartridgeKind::MBC3TimerBattery => true,
        CartridgeKind::MBC3TimerRamBattery => true,
        CartridgeKind::MBC5RamBattery => true,
        CartridgeKind::MBC5RumbleRamBattery => true,
        CartridgeKind::MBC7SensorRumbleRamBattery => true,
        CartridgeKind::HuC1RamBattery => true,
        _ => false,
    }
}

/// Whether a kind carries a real-time clock.
pub open spec fn spec_has_timer(kind: CartridgeKind) -> bool {
    match kind {
        CartridgeKind::MBC3TimerBattery => true,
        CartridgeKind::MBC3TimerRamBattery => true,
        _ => false,
    }
}

impl CartridgeKind {
    /// Parse the type byte; an unknown byte maps to no kind.
    pub fn try_from_byte(value: u8) -> (r: Option<CartridgeKind>)
        ensures
            r == spec_kind_of_byte(value),
    {
        match value {
            0x00 => Some(CartridgeKind::RomOnly),
            0x01 => Some(CartridgeKind::MBC1),
            0x02 => Some(CartridgeKind::MBC1Ram),
            0x03 => Some(CartridgeKind::MBC1RamBattery),
            0x05 => Some(CartridgeKind::MBC2),
            0x06 => Some(CartridgeKind::MBC2Battery),
            0x08 => Some(CartridgeKind::RomRam),
            0x09 => Some(CartridgeKind::RomRamBattery),
            0x0B => Some(CartridgeKind::MMM01),
            0x0C => Some(CartridgeKind::MMM01Ram),
            0x0D => Some(CartridgeKind::MMM01RamBattery),
            0x0F => Some(CartridgeKind::MBC3TimerBattery),
            0x10 => Some(CartridgeKind::MBC3TimerRamBattery),
            0x11 => Some(CartridgeKind::MBC3),
            0x12 => Some(CartridgeKind::MBC3Ram),
            0x13 => Some(CartridgeKind::MBC3RamBattery),
            0x19 => Some(CartridgeKind::MBC5),
            0x1A => Some(CartridgeKind::MBC5Ram),
            0x1B => Some(CartridgeKind::MBC5RamBattery),
            0x1C => Some(CartridgeKind::MBC5Rumble),
            0x1D => Some(CartridgeKind::MBC5RumbleRam),
            0x1E => Some(CartridgeKind::MBC5RumbleRamBattery),
            0x20 => Some(CartridgeKind::MBC7SensorRumbleRamBattery),
            0xFC => Some(CartridgeKind::PocketCamera),
            0xFD => Some(CartridgeKind::BandaiTama5),
            0xFE => Some(CartridgeKind::HuC3),
            0xFF => Some(CartridgeKind::HuC1RamBattery),
            _ => None,
        }
    }

    /// Returns true if the cartridge kind has a battery
    pub fn has_battery(&self) -> (r: bool)
        ensures
            r == spec_has_battery(*self),
    {
        match *self {
            CartridgeKind::MBC1RamBattery => true,
            CartridgeKind::MBC2Battery => true,
            CartridgeKind::MBC3TimerBattery => true,
            CartridgeKind::MBC3TimerRamBattery => true,
            CartridgeKind::MBC5RamBattery => true,
            CartridgeKind::MBC5RumbleRamBattery => true,
            CartridgeKind::MBC7SensorRumbleRamBattery => true,
            CartridgeKind::HuC1RamBattery => true,
            _ => false,
        }
    }

    /// Returns true if the cartridge kind has a timer
    pub fn has_timer(&self) -> (r: bool)
        ensures
            r == spec_has_timer(*self),
    {
        match *self {
            CartridgeKind::MBC3TimerBattery => true,
            CartridgeKind::MBC3TimerRamBattery => true,
            _ => false,
        }
    }
}

/// A cartridge ROM size code.
#[derive(Debug, Clone, Copy, PartialEq, Eq, Structural)]
pub enum RomSize {
    Kb32,
    Kb64,
    Kb128,
    Kb256,
    Kb512,
    Mb1,
    Mb2,
    Mb4,
    Mb8,
    Mb1_1,
    Mb1_2,
    Mb1_5,
}

/// The ROM size a size byte encodes, if any.
pub open spec fn spec_rom_size_of_byte(value: u8) -> Option<RomSize> {
    if value == 0x00 {
        Some(RomSize::Kb32)
    } else if value == 0x01 {
        Some(RomSize::Kb64)
    } else if value == 0x02 {
        Some(RomSize::Kb128)
    } else if value == 0x03 {
        Some(RomSize::Kb256)
    } else if value == 0x04 {
        Some(RomSize::Kb512)
    } else if value == 0x05 {
        Some(RomSize::Mb1)
    } else if value == 0x06 {
        Some(RomSize::Mb2)
    } else if value == 0x07 {
        Some(RomSize::Mb4)
    } else if value == 0x08 {
        Some(RomSize::Mb8)
    } else if value == 0x52 {
        Some(RomSize::Mb1_1)
    } else if value == 0x53 {
        Some(RomSize::Mb1_2)
    } else if value == 0x54 {
        Some(RomSize::Mb1_5)
    } else {
        None
    }
}

impl RomSize {
    /// Parse the ROM size byte; an unknown byte maps to no size.
    pub fn try_from_byte(value: u8) -> (r: Option<RomSize>)
        ensures
            r == spec_rom_size_of_byte(value),
    {
        match value {
            0x00 => Some(RomSize::Kb32),
            0x01 => Some(RomSize::Kb64),
            0x02 => Some(RomSize::Kb128),
            0x03 => Some(RomSize::Kb256),
            0x04 => Some(RomSize::Kb512),
            0x05 => Some(RomSize::Mb1),
            0x06 => Some(RomSize::Mb2),
            0x07 => Some(RomSize::Mb4),
            0x08 => Some(RomSize::Mb8),
            0x52 => Some(RomSize::Mb1_1),
            0x53 => Some(RomSize::Mb1_2),
            0x54 => Some(RomSize::Mb1_5),
            _ => None,
        }
    }
}

/// A cartridge RAM size code.
#[derive(Debug, Clone, Copy, PartialEq, Eq, Structural)]
pub enum RamSize {
    NoRam,
    Kb2,
    Kb8,
    Kb32,
    Kb128,
    Kb64,
}

/// The RAM size a size byte encodes, if any.
pub open spec fn spec_ram_size_of_byte(value: u8) -> Option<RamSize> {
    if value == 0x00 {
        Some(RamSize::NoRam)
    } else if value == 0x01 {
        Some(RamSize::Kb2)
    } else if value == 0x02 {
        Some(RamSize::Kb8)
    } else if value == 0x03 {
        Some(RamSize::Kb32)
    } else if value == 0x04 {
        Some(RamSize::Kb128)
    } else if value == 0x05 {
        Some(RamSize::Kb64)
    } else {
        None
    }
}

/// The number of cartridge RAM bytes a RAM size code asks for.
pub open spec fn spec_ram_bytes(size: RamSize) -> nat {
    match size {
        RamSize::NoRam => 0,
        RamSize::Kb2 => 0x800,
        RamSize::Kb8 => 0x2000,
        RamSize::Kb32 => 0x8000,
        RamSize::Kb128 => 0x20000,
        RamSize::Kb64 => 0x10000,
    }
}

impl RamSize {
    /// Parse the RAM size byte; an unknown byte maps to no size.
    pub fn try_from_byte(value: u8) -> (r: Option<RamSize>)
        ensures
            r == spec_ram_size_of_byte(value),
    {
        match value {
            0x00 => Some(RamSize::NoRam),
            0x01 => Some(RamSize::Kb2),
            0x02 => Some(RamSize::Kb8),
            0x03 => Some(RamSize::Kb32),
            0x04 => Some(RamSize::Kb128),
            0x05 => Some(RamSize::Kb64),
            _ => None,
        }
    }

    /// The number of cartridge RAM bytes this size code asks for.
    pub fn bytes(&self) -> (r: usize)
        ensures
            r == spec_ram_bytes(*self),
    {
        match *self {
            RamSize::NoRam => 0,
            RamSize::Kb2 => 0x800,
            RamSize::Kb8 => 0x2000,
            RamSize::Kb32 => 0x8000,
            RamSize::Kb128 => 0x20000,
            RamSize::Kb64 => 0x10000,
        }
    }
}

/// A cartridge destination code.
#[derive(Debug, Clone, Copy, PartialEq, Eq, Structural)]
pub enum Destination {
    Japan,
    NotJapan,
}

/// The destination a destination byte encodes, if any.
pub open spec fn spec_destination_of_byte(value: u8) -> Option<Destination> {
    if value == 0x00 {
        Some(Destination::Japan)
    } else if value == 0x01 {
        Some(Destination::NotJapan)
    } else {
        None
    }
}

impl Destination {
    /// Parse the destination byte; an unknown byte maps to no destination.
    pub fn try_from_byte(value: u8) -> (r: Option<Destination>)
        ensures
            r == spec_destination_of_byte(value),
    {
        match value {
            0x00 => Some(Destination::Japan),
            0x01 => Some(Destination::NotJapan),
            _ => None,
        }
    }
}

/// The parsed header of a ROM image.  The global checksum is stored in the
/// image with its high byte first.
#[derive(Debug, Clone, Copy, PartialEq, Eq, Structural)]
pub struct Header {
    pub kind: CartridgeKind,
    pub rom_size: RomSize,
    pub ram_size: RamSize,
    pub destination: Destination,
    pub header_checksum: u8,
    pub global_checksum: u16,
}

/// The header encoded by a complete ROM image, or the exact field that
/// cannot be decoded.
pub open spec fn spec_parse_header(bytes: Seq<u8>) -> Result<Header, ParsingError> {
    if bytes.len() < HEADER_COMPLETE_LENGTH {
        Err(ParsingError::InvalidHeaderLength { length: bytes.len() as usize })
    } else if spec_kind_of_byte(bytes[CARTRIDGE_TYPE_OFFSET as int]) is None {
        Err(ParsingError::UnsupportedCartridgeType { value: bytes[CARTRIDGE_TYPE_OFFSET as int] })
    } else if spec_rom_size_of_byte(bytes[ROM_SIZE_OFFSET as int]) is None {
        Err(ParsingError::InvalidHeaderField {
            offset: ROM_SIZE_OFFSET as u16,
            value: bytes[ROM_SIZE_OFFSET as int],
        })
    } else if spec_ram_size_of_byte(bytes[RAM_SIZE_OFFSET as int]) is None {
        Err(ParsingError::InvalidHeaderField {
            offset: RAM_SIZE_OFFSET as u16,
            value: bytes[RAM_SIZE_OFFSET as int],
        })
    } else if spec_destination_of_byte(bytes[DESTINATION_OFFSET as int]) is None {
        Err(ParsingError::InvalidHeaderField {
            offset: DESTINATION_OFFSET as u16,
            value: bytes[DESTINATION_OFFSET as int],
        })
    } else {
        Ok(Header {
            kind: spec_kind_of_byte(bytes[CARTRIDGE_TYPE_OFFSET as int]).unwrap(),
            rom_size: spec_rom_size_of_byte(bytes[ROM_SIZE_OFFSET as int]).unwrap(),
            ram_size: spec_ram_size_of_byte(bytes[RAM_SIZE_OFFSET as int]).unwrap(),
            destination: spec_destination_of_byte(bytes[DESTINATION_OFFSET as int]).unwrap(),
            header_checksum: bytes[HEADER_CHECKSUM_OFFSET as int],
            global_checksum: spec_pack(
                bytes[GLOBAL_CHECKSUM_OFFSET as int + 1],
                bytes[GLOBAL_CHECKSUM_OFFSET as int],
            ),
        })
    }
}

impl Header {
    /// Parse the header fields out of a ROM image.  An image shorter than
    /// the complete header is rejected before any field is read; a field
    /// byte outside its code table names the offending offset.
    pub fn try_parse_bytes(bytes: &[u8]) -> (r: Result<Header, ParsingError>)
        ensures
            r == spec_parse_header(bytes@),
    {
        if bytes.len() < HEADER_COMPLETE_LENGTH {
            return Err(ParsingError::InvalidHeaderLength { length: bytes.len() });
        }
        let kind_byte = bytes[CARTRIDGE_TYPE_OFFSET];
        let kind = match CartridgeKind::try_from_byte(kind_byte) {
            Some(kind) => kind,
            None => {
                return Err(ParsingError::UnsupportedCartridgeType { value: kind_byte });
            }
        };
        let rom_size_byte = bytes[ROM_SIZE_OFFSET];
        let rom_size = match RomSize::try_from_byte(rom_size_byte) {
            Some(rom_size) => rom_size,
            None => {
                return Err(ParsingError::InvalidHeaderField {
                    offset: ROM_SIZE_OFFSET as u16,
                    value: rom_size_byte,
                });
            }
        };
        let ram_size_byte = bytes[RAM_SIZE_OFFSET];
        let ram_size = match RamSize::try_from_byte(ram_size_byte) {
            Some(ram_size) => ram_size,
            None => {
                return Err(ParsingError::InvalidHeaderField {
                    offset: RAM_SIZE_OFFSET as u16,
                    value: ram_size_byte,
                });
            }
        };
        let destination_byte = bytes[DESTINATION_OFFSET];
        let destination = match Destination::try_from_byte(destination_byte) {
            Some(destination) => destination,
            None => {
                return Err(ParsingError::InvalidHeaderField {
                    offset: DESTINATION_OFFSET as u16,
                    value: destination_byte,
                });
            }
        };
        Ok(Header {
            kind,
            rom_size,
            ram_size,
            destination,
            header_checksum: bytes[HEADER_CHECKSUM_OFFSET],
            global_checksum: crate::util::pack_words(
                bytes[GLOBAL_CHECKSUM_OFFSET + 1],
                bytes[GLOBAL_CHECKSUM_OFFSET],
            ),
        })
    }
}

} // verus!
