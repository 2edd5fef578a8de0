//! Cartridges: a parsed ROM image, its header, its RAM, and the bank
//! controller that multiplexes both into the bus windows.

use vstd::prelude::*;

use crate::header::{
    spec_has_battery, spec_has_timer, spec_parse_header, spec_ram_bytes, CartridgeKind, Header,
    CARTRIDGE_TYPE_OFFSET, HEADER_COMPLETE_LENGTH,
};
use crate::mbc::{
    spec_mbc_write, spec_ram_bank, spec_ram_enabled, spec_rom_bank, Mbc,
};
use crate::memory::vec_zeroes;
use crate::peripherals::Timer;

verus! {

/// Errors that can occur during cartridge parsing.
#[derive(Debug, Clone, Copy, PartialEq, Eq, Structural)]
pub enum ParsingError {
    /// The image is shorter than a complete header.
    InvalidHeaderLength { length: usize },
    /// The type byte maps to no controller this core drives.
    UnsupportedCartridgeType { value: u8 },
    /// A header field byte outside its code table, named by its offset.
    InvalidHeaderField { offset: u16, value: u8 },
}

/// The mathematical value of a cartridge: its header, the ROM image, the
/// cartridge RAM, and the controller state.
#[verifier::ext_equal]
pub ghost struct CartView {
    pub header: Header,
    pub rom: Seq<u8>,
    pub ram: Seq<u8>,
    pub mbc: Option<Mbc>,
    pub has_battery: bool,
    pub timer: Option<Timer>,
}

/// The ROM bank mapped into the switchable window: the controller's bank
/// register, or bank one on a fixed cartridge.
pub open spec fn spec_active_rom_bank(c: CartView) -> int {
    match c.mbc {
        Some(m) => spec_rom_bank(m),
        None => 1,
    }
}

/// The byte a cartridge returns for a bus read.  ROM reads beyond the image
/// and RAM reads that are disabled, out of range, or aimed at a missing
/// region return the sentinel `0xFF`.
pub open spec fn spec_cart_read(c: CartView, address: u16) -> u8 {
    if address < 0x4000 {
        if address < c.rom.len() {
            c.rom[address as int]
        } else {
            0xFF
        }
    } else if address < 0x8000 {
        let idx = spec_active_rom_bank(c) * 0x4000 + (address - 0x4000);
        if idx < c.rom.len() {
            c.rom[idx]
        } else {
            0xFF
        }
    } else if 0xA000 <= address && address < 0xC000 {
        if c.mbc is Some && spec_ram_enabled(c.mbc.unwrap()) {
            let idx = spec_ram_bank(c.mbc.unwrap()) * 0x2000 + (address - 0xA000);
            if idx < c.ram.len() {
                c.ram[idx]
            } else {
                0xFF
            }
        } else {
            0xFF
        }
    } else {
        0xFF
    }
}

/// The cartridge after a bus write.  Writes below `0x8000` drive the
/// controller's bank registers (a fixed cartridge ignores them); writes into
/// the RAM window land in the active RAM bank when RAM is enabled and are
/// discarded otherwise.
pub open spec fn spec_cart_write(c: CartView, address: u16, value: u8) -> CartView {
    if address < 0x8000 {
        match c.mbc {
            Some(m) => CartView { mbc: Some(spec_mbc_write(m, address, value)), ..c },
            None => c,
        }
    } else if 0xA000 <= address && address < 0xC000 {
        if c.mbc is Some && spec_ram_enabled(c.mbc.unwrap()) {
            let idx = spec_ram_bank(c.mbc.unwrap()) * 0x2000 + (address - 0xA000);
            if idx < c.ram.len() {
                CartView { ram: c.ram.update(idx, value), ..c }
            } else {
                c
            }
        } else {
            c
        }
    } else {
        c
    }
}

/// The power-on controller for a cartridge kind: `None` in the outer option
/// where this core drives no such controller, `Some(None)` for a fixed
/// cartridge, and `Some(Some(..))` for a banked one.
pub open spec fn spec_controller_for(kind: CartridgeKind) -> Option<Option<Mbc>> {
    match kind {
        CartridgeKind::RomOnly => Some(None),
        CartridgeKind::MBC1 | CartridgeKind::MBC1Ram | CartridgeKind::MBC1RamBattery => Some(
            Some(Mbc::Mbc1 { rom_bank: 1, ram_bank: 0, ram_enabled: false }),
        ),
        CartridgeKind::MBC2 | CartridgeKind::MBC2Battery => Some(
            Some(Mbc::Mbc2 { rom_bank: 1, ram_enabled: false }),
        ),
        CartridgeKind::MBC3TimerBattery | CartridgeKind::MBC3TimerRamBattery
            | CartridgeKind::MBC3 | CartridgeKind::MBC3Ram | CartridgeKind::MBC3RamBattery => Some(
            Some(Mbc::Mbc3 { rom_bank: 1, ram_bank: 0, ram_enabled: false }),
        ),
        CartridgeKind::MBC5 | CartridgeKind::MBC5Ram | CartridgeKind::MBC5RamBattery
            | CartridgeKind::MBC5Rumble | CartridgeKind::MBC5RumbleRam
            | CartridgeKind::MBC5RumbleRamBattery => Some(
            Some(Mbc::Mbc5 { rom_bank: 1, ram_bank: 0, ram_enabled: false }),
        ),
        CartridgeKind::HuC1RamBattery => Some(
            Some(Mbc::HuC1 { rom_bank: 1, ram_bank: 0, ram_enabled: false }),
        ),
        _ => None,
    }
}

/// The cartridge a ROM image parses to, or the error rejecting it: a short
/// image is rejected before any header field is read, and a header whose
/// kind names a controller this core does not drive is rejected as
/// unsupported.
pub open spec fn spec_parse_cartridge(bytes: Seq<u8>) -> Result<CartView, ParsingError> {
    match spec_parse_header(bytes) {
        Err(e) => Err(e),
        Ok(header) => match spec_controller_for(header.kind) {
            None => Err(ParsingError::UnsupportedCartridgeType {
                value: bytes[CARTRIDGE_TYPE_OFFSET as int],
            }),
            Some(mbc) => Ok(CartView {
                header,
                rom: bytes,
                ram: Seq::new(spec_ram_bytes(header.ram_size), |i: int| 0u8),
                mbc,
                has_battery: spec_has_battery(header.kind),
                timer: if spec_has_timer(header.kind) {
                    Some(Timer)
                } else {
                    None
                },
            }),
        },
    }
}

/// A cartridge: the ROM image, the cartridge RAM, and the bank controller
/// selected by the header's type byte.
#[derive(Debug, Clone)]
pub struct Cartridge {
    pub header: Header,
    pub rom: Vec<u8>,
    pub ram: Vec<u8>,
    pub mbc: Option<Mbc>,
    pub has_battery: bool,
    pub timer: Option<Timer>,
}

impl Cartridge {
    /// The mathematical value of this cartridge.
    pub open spec fn view(&self) -> CartView {
        CartView {
            header: self.header,
            rom: self.rom@,
            ram: self.ram@,
            mbc: self.mbc,
            has_battery: self.has_battery,
            timer: self.timer,
        }
    }

    /// Try to parse a byte stream into a cartridge, returning an error if
    /// any occurred.
    pub fn try_parse_bytes(bytes: &[u8]) -> (r: Result<Cartridge, ParsingError>)
        ensures
            ({
                match r {
                    Ok(c) => spec_parse_cartridge(bytes@) == Ok::<CartView, ParsingError>(c@),
                    Err(e) => spec_parse_cartridge(bytes@) == Err::<CartView, ParsingError>(e),
                }
            }),
    {
        let header = match Header::try_parse_bytes(bytes) {
            Ok(header) => header,
            Err(e) => {
                return Err(e);
            }
        };
        let mbc = match header.kind {
            CartridgeKind::RomOnly => None,
            CartridgeKind::MBC1 | CartridgeKind::MBC1Ram | CartridgeKind::MBC1RamBattery => {
                match Mbc::try_parse_bytes_mbc1(bytes) {
                    Ok(m) => Some(m),
                    Err(e) => {
                        return Err(e);
                    }
                }
            }
            CartridgeKind::MBC2 | CartridgeKind::MBC2Battery => {
                match Mbc::try_parse_bytes_mbc2(bytes) {
                    Ok(m) => Some(m),
                    Err(e) => {
                        return Err(e);
                    }
                }
            }
            CartridgeKind::MBC3TimerBattery | CartridgeKind::MBC3TimerRamBattery
                | CartridgeKind::MBC3 | CartridgeKind::MBC3Ram | CartridgeKind::MBC3RamBattery => {
                match Mbc::try_parse_bytes_mbc3(bytes) {
                    Ok(m) => Some(m),
                    Err(e) => {
                        return Err(e);
                    }
                }
            }
            CartridgeKind::MBC5 | CartridgeKind::MBC5Ram | CartridgeKind::MBC5RamBattery
                | CartridgeKind::MBC5Rumble | CartridgeKind::MBC5RumbleRam
                | CartridgeKind::MBC5RumbleRamBattery => {
                match Mbc::try_parse_bytes_mbc5(bytes) {
                    Ok(m) => Some(m),
                    Err(e) => {
                        return Err(e);
                    }
                }
            }
            CartridgeKind::HuC1RamBattery => {
                match Mbc::try_parse_bytes_huc1(bytes) {
                    Ok(m) => Some(m),
                    Err(e) => {
                        return Err(e);
                    }
                }
            }
            _ => {
                return Err(ParsingError::UnsupportedCartridgeType {
                    value: bytes[CARTRIDGE_TYPE_OFFSET],
                });
            }
        };
        let rom = copy_bytes(bytes);
        let ram = vec_zeroes(header.ram_size.bytes());
        let has_battery = header.kind.has_battery();
        let timer = if header.kind.has_timer() {
            Some(Timer::new())
        } else {
            None
        };
        let cartridge = Cartridge { header, rom, ram, mbc, has_battery, timer };
        proof {
            assert(cartridge@ =~~= spec_parse_cartridge(bytes@).unwrap());
        }
        Ok(cartridge)
    }

    /// Return a reference to the cartridge header
    pub fn header(&self) -> (r: &Header)
        ensures
            *r == self.header,
    {
        &self.header
    }

    /// The byte this cartridge returns for a bus read.
    pub fn read(&self, address: u16) -> (r: u8)
        ensures
            r == spec_cart_read(self@, address),
    {
        if address < 0x4000 {
            if (address as usize) < self.rom.len() {
                self.rom[address as usize]
            } else {
                0xFF
            }
        } else if address < 0x8000 {
            let bank: usize = match &self.mbc {
                Some(m) => m.rom_bank(),
                None => 1,
            };
            let idx: usize = bank * 0x4000 + (address as usize - 0x4000);
            if idx < self.rom.len() {
                self.rom[idx]
            } else {
                0xFF
            }
        } else if 0xA000 <= address && address < 0xC000 {
            match &self.mbc {
                Some(m) => {
                    if m.ram_enabled() {
                        let idx: usize = m.ram_bank() * 0x2000 + (address as usize - 0xA000);
                        if idx < self.ram.len() {
                            self.ram[idx]
                        } else {
                            0xFF
                        }
                    } else {
                        0xFF
                    }
                }
                None => 0xFF,
            }
        } else {
            0xFF
        }
    }

    /// Apply a bus write to this cartridge.
    pub fn write(&mut self, address: u16, value: u8)
        ensures
            final(self)@ == spec_cart_write(old(self)@, address, value),
    {
        if address < 0x8000 {
            if let Some(m) = &mut self.mbc {
                m.write(address, value);
            }
        } else if 0xA000 <= address && address < 0xC000 {
            let enabled: bool = match &self.mbc {
                Some(m) => m.ram_enabled(),
                None => false,
            };
            if enabled {
                let m = self.mbc.as_ref().unwrap();
                let idx: usize = m.ram_bank() * 0x2000 + (address as usize - 0xA000);
                if idx < self.ram.len() {
                    self.ram.set(idx, value);
                }
            }
        }
        proof {
            assert(self@ =~~= spec_cart_write(old(self)@, address, value));
        }
    }
}

/// Copy a byte slice into an owned vector.
pub fn copy_bytes(bytes: &[u8]) -> (r: Vec<u8>)
    ensures
        r@ == bytes@,
{
    let mut data: Vec<u8> = Vec::new();
    proof {
        assert(data@ =~= bytes@.take(0));
    }
    let mut i: usize = 0;
    while i < bytes.len()
        invariant
            i <= bytes@.len(),
            data@ == bytes@.take(i as int),
        decreases bytes@.len() - i,
    {
        data.push(bytes[i]);
        proof {
            assert(data@ =~= bytes@.take(i + 1));
        }
        i = i + 1;
    }
    proof {
        assert(bytes@.take(bytes@.len() as int) =~= bytes@);
    }
    data
}

} // verus!
