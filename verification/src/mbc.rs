//! Memory bank controllers: the per-controller bank-select state machines.
//!
//! A controller owns no storage; it holds the active ROM bank index, the
//! active RAM bank index and the RAM-enable latch, and interprets writes to
//! the control windows below `0x8000`.  Where a controller makes selecting
//! ROM bank zero illegal, the write aliases to bank one, a documented
//! hardware quirk; MBC5 and HuC1 accept bank zero.

use vstd::prelude::*;

use crate::cartridge::ParsingError;
use crate::header::HEADER_COMPLETE_LENGTH;

verus! {

/// A memory bank controller: the tag selects the controller variant, the
/// fields hold its bank registers.
#[derive(Debug, Clone, Copy, PartialEq, Eq, Structural)]
pub enum Mbc {
    HuC1 { rom_bank: u8, ram_bank: u8, ram_enabled: bool },
    Mbc1 { rom_bank: u8, ram_bank: u8, ram_enabled: bool },
    Mbc2 { rom_bank: u8, ram_enabled: bool },
    Mbc3 { rom_bank: u8, ram_bank: u8, ram_enabled: bool },
    Mbc5 { rom_bank: u16, ram_bank: u8, ram_enabled: bool },
}

/// The active ROM bank index a controller maps into the switchable window.
pub open spec fn spec_rom_bank(m: Mbc) -> int {
    match m {
        Mbc::HuC1 { rom_bank, .. } => rom_bank as int,
        Mbc::Mbc1 { rom_bank, .. } => rom_bank as int,
        Mbc::Mbc2 { rom_bank, .. } => rom_bank as int,
        Mbc::Mbc3 { rom_bank, .. } => rom_bank as int,
        Mbc::Mbc5 { rom_bank, .. } => rom_bank as int,
    }
}

/// The active cartridge RAM bank index; MBC2 has a single internal bank.
pub open spec fn spec_ram_bank(m: Mbc) -> int {
    match m {
        Mbc::HuC1 { ram_bank, .. } => ram_bank as int,
        Mbc::Mbc1 { ram_bank, .. } => ram_bank as int,
        Mbc::Mbc2 { .. } => 0,
        Mbc::Mbc3 { ram_bank, .. } => ram_bank as int,
        Mbc::Mbc5 { ram_bank, .. } => ram_bank as int,
    }
}

/// Whether the RAM-enable latch is set.
pub open spec fn spec_ram_enabled(m: Mbc) -> bool {
    match m {
        Mbc::HuC1 { ram_enabled, .. } => ram_enabled,
        Mbc::Mbc1 { ram_enabled, .. } => ram_enabled,
        Mbc::Mbc2 { ram_enabled, .. } => ram_enabled,
        Mbc::Mbc3 { ram_enabled, .. } => ram_enabled,
        Mbc::Mbc5 { ram_enabled, .. } => ram_enabled,
    }
}

/// Whether a written latch value enables RAM: its low nibble must be `0xA`.
pub open spec fn spec_enables_ram(value: u8) -> bool {
    value % 0x10 == 0x0A
}

/// The HuC1 ROM bank selected by a written value: six bits, bank zero
/// allowed.
pub open spec fn spec_huc1_bank(value: u8) -> u8 {
    (value % 0x40) as u8
}

/// The MBC1 ROM bank selected by a written value: five bits, zero aliases
/// to one.
pub open spec fn spec_mbc1_bank(value: u8) -> u8 {
    if value % 0x20 == 0 {
        1
    } else {
        (value % 0x20) as u8
    }
}

/// The MBC2 ROM bank selected by a written value: four bits, zero aliases
/// to one.
pub open spec fn spec_mbc2_bank(value: u8) -> u8 {
    if value % 0x10 == 0 {
        1
    } else {
        (value % 0x10) as u8
    }
}

/// The MBC3 ROM bank selected by a written value: seven bits, zero aliases
/// to one.
pub open spec fn spec_mbc3_bank(value: u8) -> u8 {
    if value % 0x80 == 0 {
        1
    } else {
        (value % 0x80) as u8
    }
}

/// The controller state after a write to the control windows below
/// `0x8000`.
///
/// All controllers share the layout: `0x0000..=0x1FFF` drives the
/// RAM-enable latch and `0x2000..=0x3FFF` the ROM bank register (for MBC2
/// the address's bit 8 selects between the two; for MBC5 the window splits
/// into a low-byte half and a ninth-bit half).  `0x4000..=0x5FFF` selects
/// the RAM bank.  Writes to `0x6000..=0x7FFF` (banking mode, clock latch)
/// change no modeled state.
pub open spec fn spec_mbc_write(m: Mbc, address: u16, value: u8) -> Mbc {
    match m {
        Mbc::HuC1 { rom_bank, ram_bank, ram_enabled } => {
            if address < 0x2000 {
                Mbc::HuC1 { rom_bank, ram_bank, ram_enabled: spec_enables_ram(value) }
            } else if address < 0x4000 {
                Mbc::HuC1 { rom_bank: spec_huc1_bank(value), ram_bank, ram_enabled }
            } else if address < 0x6000 {
                Mbc::HuC1 { rom_bank, ram_bank: (value % 4) as u8, ram_enabled }
            } else {
                m
            }
        }
        Mbc::Mbc1 { rom_bank, ram_bank, ram_enabled } => {
            if address < 0x2000 {
                Mbc::Mbc1 { rom_bank, ram_bank, ram_enabled: spec_enables_ram(value) }
            } else if address < 0x4000 {
                Mbc::Mbc1 { rom_bank: spec_mbc1_bank(value), ram_bank, ram_enabled }
            } else if address < 0x6000 {
                Mbc::Mbc1 { rom_bank, ram_bank: (value % 4) as u8, ram_enabled }
            } else {
                m
            }
        }
        Mbc::Mbc2 { rom_bank, ram_enabled } => {
            if address < 0x4000 {
                if (address / 0x100) % 2 == 0 {
                    Mbc::Mbc2 { rom_bank, ram_enabled: spec_enables_ram(value) }
                } else {
                    Mbc::Mbc2 { rom_bank: spec_mbc2_bank(value), ram_enabled }
                }
            } else {
                m
            }
        }
        Mbc::Mbc3 { rom_bank, ram_bank, ram_enabled } => {
            if address < 0x2000 {
                Mbc::Mbc3 { rom_bank, ram_bank, ram_enabled: spec_enables_ram(value) }
            } else if address < 0x4000 {
                Mbc::Mbc3 { rom_bank: spec_mbc3_bank(value), ram_bank, ram_enabled }
            } else if address < 0x6000 {
                Mbc::Mbc3 { rom_bank, ram_bank: (value % 4) as u8, ram_enabled }
            } else {
                m
            }
        }
        Mbc::Mbc5 { rom_bank, ram_bank, ram_enabled } => {
            if address < 0x2000 {
                Mbc::Mbc5 { rom_bank, ram_bank, ram_enabled: spec_enables_ram(value) }
            } else if address < 0x3000 {
                Mbc::Mbc5 {
                    rom_bank: ((rom_bank / 0x100) * 0x100 + value) as u16,
                    ram_bank,
                    ram_enabled,
                }
            } else if address < 0x4000 {
                Mbc::Mbc5 {
                    rom_bank: ((value % 2) * 0x100 + rom_bank % 0x100) as u16,
                    ram_bank,
                    ram_enabled,
                }
            } else if address < 0x6000 {
                Mbc::Mbc5 { rom_bank, ram_bank: (value % 0x10) as u8, ram_enabled }
            } else {
                m
            }
        }
    }
}

/// The controller state after a direct bank switch: the index lands in the
/// ROM bank register under the controller's own mask and aliasing rule.
pub open spec fn spec_mbc_switch(m: Mbc, bank_idx: u8) -> Mbc {
    match m {
        Mbc::HuC1 { rom_bank, ram_bank, ram_enabled } => Mbc::HuC1 {
            rom_bank: spec_huc1_bank(bank_idx),
            ram_bank,
            ram_enabled,
        },
        Mbc::Mbc1 { rom_bank, ram_bank, ram_enabled } => Mbc::Mbc1 {
            rom_bank: spec_mbc1_bank(bank_idx),
            ram_bank,
            ram_enabled,
        },
        Mbc::Mbc2 { rom_bank, ram_enabled } => Mbc::Mbc2 {
            rom_bank: spec_mbc2_bank(bank_idx),
            ram_enabled,
        },
        Mbc::Mbc3 { rom_bank, ram_bank, ram_enabled } => Mbc::Mbc3 {
            rom_bank: spec_mbc3_bank(bank_idx),
            ram_bank,
            ram_enabled,
        },
        Mbc::Mbc5 { rom_bank, ram_bank, ram_enabled } => Mbc::Mbc5 {
            rom_bank: bank_idx as u16,
            ram_bank,
            ram_enabled,
        },
    }
}

/// The power-on state of a controller: ROM bank one, RAM bank zero, RAM
/// disabled.
pub open spec fn spec_mbc_initial(m: Mbc) -> bool {
    spec_rom_bank(m) == 1 && spec_ram_bank(m) == 0 && !spec_ram_enabled(m)
}

impl Mbc {
    /// The active ROM bank index.
    pub fn rom_bank(&self) -> (r: usize)
        ensures
            r == spec_rom_bank(*self),
    {
        match *self {
            Mbc::HuC1 { rom_bank, .. } => rom_bank as usize,
            Mbc::Mbc1 { rom_bank, .. } => rom_bank as usize,
            Mbc::Mbc2 { rom_bank, .. } => rom_bank as usize,
            Mbc::Mbc3 { rom_bank, .. } => rom_bank as usize,
            Mbc::Mbc5 { rom_bank, .. } => rom_bank as usize,
        }
    }

    /// The active cartridge RAM bank index.
    pub fn ram_bank(&self) -> (r: usize)
        ensures
            r == spec_ram_bank(*self),
    {
        match *self {
            Mbc::HuC1 { ram_bank, .. } => ram_bank as usize,
            Mbc::Mbc1 { ram_bank, .. } => ram_bank as usize,
            Mbc::Mbc2 { .. } => 0,
            Mbc::Mbc3 { ram_bank, .. } => ram_bank as usize,
            Mbc::Mbc5 { ram_bank, .. } => ram_bank as usize,
        }
    }

    /// Whether the RAM-enable latch is set.
    pub fn ram_enabled(&self) -> (r: bool)
        ensures
            r == spec_ram_enabled(*self),
    {
        match *self {
            Mbc::HuC1 { ram_enabled, .. } => ram_enabled,
            Mbc::Mbc1 { ram_enabled, .. } => ram_enabled,
            Mbc::Mbc2 { ram_enabled, .. } => ram_enabled,
            Mbc::Mbc3 { ram_enabled, .. } => ram_enabled,
            Mbc::Mbc5 { ram_enabled, .. } => ram_enabled,
        }
    }

    /// Parse a ROM image into a power-on HuC1 controller.
    pub fn try_parse_bytes_huc1(bytes: &[u8]) -> (r: Result<Mbc, ParsingError>)
        ensures
            bytes@.len() >= HEADER_COMPLETE_LENGTH ==> r == Ok::<Mbc, ParsingError>(
                Mbc::HuC1 { rom_bank: 1, ram_bank: 0, ram_enabled: false },
            ),
            bytes@.len() < HEADER_COMPLETE_LENGTH ==> r == Err::<Mbc, ParsingError>(
                ParsingError::InvalidHeaderLength { length: bytes@.len() as usize },
            ),
    {
        if bytes.len() < HEADER_COMPLETE_LENGTH {
            return Err(ParsingError::InvalidHeaderLength { length: bytes.len() });
        }
        Ok(Mbc::HuC1 { rom_bank: 1, ram_bank: 0, ram_enabled: false })
    }

    /// Parse a ROM image into a power-on MBC1 controller.
    pub fn try_parse_bytes_mbc1(bytes: &[u8]) -> (r: Result<Mbc, ParsingError>)
        ensures
            bytes@.len() >= HEADER_COMPLETE_LENGTH ==> r == Ok::<Mbc, ParsingError>(
                Mbc::Mbc1 { rom_bank: 1, ram_bank: 0, ram_enabled: false },
            ),
            bytes@.len() < HEADER_COMPLETE_LENGTH ==> r == Err::<Mbc, ParsingError>(
                ParsingError::InvalidHeaderLength { length: bytes@.len() as usize },
            ),
    {
        if bytes.len() < HEADER_COMPLETE_LENGTH {
            return Err(ParsingError::InvalidHeaderLength { length: bytes.len() });
        }
        Ok(Mbc::Mbc1 { rom_bank: 1, ram_bank: 0, ram_enabled: false })
    }

    /// Parse a ROM image into a power-on MBC2 controller.
    pub fn try_parse_bytes_mbc2(bytes: &[u8]) -> (r: Result<Mbc, ParsingError>)
        ensures
            bytes@.len() >= HEADER_COMPLETE_LENGTH ==> r == Ok::<Mbc, ParsingError>(
                Mbc::Mbc2 { rom_bank: 1, ram_enabled: false },
            ),
            bytes@.len() < HEADER_COMPLETE_LENGTH ==> r == Err::<Mbc, ParsingError>(
                ParsingError::InvalidHeaderLength { length: bytes@.len() as usize },
            ),
    {
        if bytes.len() < HEADER_COMPLETE_LENGTH {
            return Err(ParsingError::InvalidHeaderLength { length: bytes.len() });
        }
        Ok(Mbc::Mbc2 { rom_bank: 1, ram_enabled: false })
    }

    /// Parse a ROM image into a power-on MBC3 controller.
    pub fn try_parse_bytes_mbc3(bytes: &[u8]) -> (r: Result<Mbc, ParsingError>)
        ensures
            bytes@.len() >= HEADER_COMPLETE_LENGTH ==> r == Ok::<Mbc, ParsingError>(
                Mbc::Mbc3 { rom_bank: 1, ram_bank: 0, ram_enabled: false },
            ),
            bytes@.len() < HEADER_COMPLETE_LENGTH ==> r == Err::<Mbc, ParsingError>(
                ParsingError::InvalidHeaderLength { length: bytes@.len() as usize },
            ),
    {
        if bytes.len() < HEADER_COMPLETE_LENGTH {
            return Err(ParsingError::InvalidHeaderLength { length: bytes.len() });
        }
        Ok(Mbc::Mbc3 { rom_bank: 1, ram_bank: 0, ram_enabled: false })
    }

    /// Parse a ROM image into a power-on MBC5 controller.
    pub fn try_parse_bytes_mbc5(bytes: &[u8]) -> (r: Result<Mbc, ParsingError>)
        ensures
            bytes@.len() >= HEADER_COMPLETE_LENGTH ==> r == Ok::<Mbc, ParsingError>(
                Mbc::Mbc5 { rom_bank: 1, ram_bank: 0, ram_enabled: false },
            ),
            bytes@.len() < HEADER_COMPLETE_LENGTH ==> r == Err::<Mbc, ParsingError>(
                ParsingError::InvalidHeaderLength { length: bytes@.len() as usize },
            ),
    {
        if bytes.len() < HEADER_COMPLETE_LENGTH {
            return Err(ParsingError::InvalidHeaderLength { length: bytes.len() });
        }
        Ok(Mbc::Mbc5 { rom_bank: 1, ram_bank: 0, ram_enabled: false })
    }

    /// Apply a write to the control windows below `0x8000`.
    pub fn write(&mut self, address: u16, value: u8)
        requires
            address < 0x8000,
        ensures
            *final(self) == spec_mbc_write(*old(self), address, value),
    {
        match *self {
            Mbc::HuC1 { .. } => self.write_huc1(address, value),
            Mbc::Mbc1 { .. } => self.write_mbc1(address, value),
            Mbc::Mbc2 { .. } => self.write_mbc2(address, value),
            Mbc::Mbc3 { .. } => self.write_mbc3(address, value),
            Mbc::Mbc5 { .. } => self.write_mbc5(address, value),
        }
    }

    /// Apply a control-window write to a HuC1 controller.
    pub fn write_huc1(&mut self, address: u16, value: u8)
        requires
            *old(self) is HuC1,
            address < 0x8000,
        ensures
            *final(self) == spec_mbc_write(*old(self), address, value),
    {
        if let Mbc::HuC1 { rom_bank, ram_bank, ram_enabled } = *self {
            if address < 0x2000 {
                *self = Mbc::HuC1 { rom_bank, ram_bank, ram_enabled: value % 0x10 == 0x0A };
            } else if address < 0x4000 {
                *self = Mbc::HuC1 { rom_bank: value % 0x40, ram_bank, ram_enabled };
            } else if address < 0x6000 {
                *self = Mbc::HuC1 { rom_bank, ram_bank: value % 4, ram_enabled };
            }
        }
    }

    /// Apply a control-window write to an MBC1 controller.
    pub fn write_mbc1(&mut self, address: u16, value: u8)
        requires
            *old(self) is Mbc1,
            address < 0x8000,
        ensures
            *final(self) == spec_mbc_write(*old(self), address, value),
    {
        if let Mbc::Mbc1 { rom_bank, ram_bank, ram_enabled } = *self {
            if address < 0x2000 {
                *self = Mbc::Mbc1 { rom_bank, ram_bank, ram_enabled: value % 0x10 == 0x0A };
            } else if address < 0x4000 {
                let bank = if value % 0x20 == 0 {
                    1
                } else {
                    value % 0x20
                };
                *self = Mbc::Mbc1 { rom_bank: bank, ram_bank, ram_enabled };
            } else if address < 0x6000 {
                *self = Mbc::Mbc1 { rom_bank, ram_bank: value % 4, ram_enabled };
            }
        }
    }

    /// Apply a control-window write to an MBC2 controller: bit 8 of the
    /// address selects between the RAM latch and the ROM bank register.
    pub fn write_mbc2(&mut self, address: u16, value: u8)
        requires
            *old(self) is Mbc2,
            address < 0x8000,
        ensures
            *final(self) == spec_mbc_write(*old(self), address, value),
    {
        if let Mbc::Mbc2 { rom_bank, ram_enabled } = *self {
            if address < 0x4000 {
                if (address / 0x100) % 2 == 0 {
                    *self = Mbc::Mbc2 { rom_bank, ram_enabled: value % 0x10 == 0x0A };
                } else {
                    let bank = if value % 0x10 == 0 {
                        1
                    } else {
                        value % 0x10
                    };
                    *self = Mbc::Mbc2 { rom_bank: bank, ram_enabled };
                }
            }
        }
    }

    /// Apply a control-window write to an MBC3 controller.
    pub fn write_mbc3(&mut self, address: u16, value: u8)
        requires
            *old(self) is Mbc3,
            address < 0x8000,
        ensures
            *final(self) == spec_mbc_write(*old(self), address, value),
    {
        if let Mbc::Mbc3 { rom_bank, ram_bank, ram_enabled } = *self {
            if address < 0x2000 {
                *self = Mbc::Mbc3 { rom_bank, ram_bank, ram_enabled: value % 0x10 == 0x0A };
            } else if address < 0x4000 {
                let bank = if value % 0x80 == 0 {
                    1
                } else {
                    value % 0x80
                };
                *self = Mbc::Mbc3 { rom_bank: bank, ram_bank, ram_enabled };
            } else if address < 0x6000 {
                *self = Mbc::Mbc3 { rom_bank, ram_bank: value % 4, ram_enabled };
            }
        }
    }

    /// Apply a control-window write to an MBC5 controller: the bank window
    /// splits into a low-byte half and a ninth-bit half, and bank zero is
    /// legal.
    pub fn write_mbc5(&mut self, address: u16, value: u8)
        requires
            *old(self) is Mbc5,
            address < 0x8000,
        ensures
            *final(self) == spec_mbc_write(*old(self), address, value),
    {
        if let Mbc::Mbc5 { rom_bank, ram_bank, ram_enabled } = *self {
            if address < 0x2000 {
                *self = Mbc::Mbc5 { rom_bank, ram_bank, ram_enabled: value % 0x10 == 0x0A };
            } else if address < 0x3000 {
                *self = Mbc::Mbc5 {
                    rom_bank: (rom_bank / 0x100) * 0x100 + value as u16,
                    ram_bank,
                    ram_enabled,
                };
            } else if address < 0x4000 {
                *self = Mbc::Mbc5 {
                    rom_bank: (value as u16 % 2) * 0x100 + rom_bank % 0x100,
                    ram_bank,
                    ram_enabled,
                };
            } else if address < 0x6000 {
                *self = Mbc::Mbc5 { rom_bank, ram_bank: value % 0x10, ram_enabled };
            }
        }
    }

    /// Switch the active ROM bank directly.
    pub fn switch_bank(&mut self, bank_idx: u8)
        ensures
            *final(self) == spec_mbc_switch(*old(self), bank_idx),
    {
        match *self {
            Mbc::HuC1 { .. } => self.switch_bank_huc1(bank_idx),
            Mbc::Mbc1 { .. } => self.switch_bank_mbc1(bank_idx),
            Mbc::Mbc2 { .. } => self.switch_bank_mbc2(bank_idx),
            Mbc::Mbc3 { .. } => self.switch_bank_mbc3(bank_idx),
            Mbc::Mbc5 { .. } => self.switch_bank_mbc5(bank_idx),
        }
    }

    /// Switch the active ROM bank of a HuC1 controller.
    pub fn switch_bank_huc1(&mut self, bank_idx: u8)
        requires
            *old(self) is HuC1,
        ensures
            *final(self) == spec_mbc_switch(*old(self), bank_idx),
    {
        if let Mbc::HuC1 { rom_bank, ram_bank, ram_enabled } = *self {
            *self = Mbc::HuC1 { rom_bank: bank_idx % 0x40, ram_bank, ram_enabled };
        }
    }

    /// Switch the active ROM bank of an MBC1 controller.
    pub fn switch_bank_mbc1(&mut self, bank_idx: u8)
        requires
            *old(self) is Mbc1,
        ensures
            *final(self) == spec_mbc_switch(*old(self), bank_idx),
    {
        if let Mbc::Mbc1 { rom_bank, ram_bank, ram_enabled } = *self {
            let bank = if bank_idx % 0x20 == 0 {
                1
            } else {
                bank_idx % 0x20
            };
            *self = Mbc::Mbc1 { rom_bank: bank, ram_bank, ram_enabled };
        }
    }

    /// Switch the active ROM bank of an MBC2 controller.
    pub fn switch_bank_mbc2(&mut self, bank_idx: u8)
        requires
            *old(self) is Mbc2,
        ensures
            *final(self) == spec_mbc_switch(*old(self), bank_idx),
    {
        if let Mbc::Mbc2 { rom_bank, ram_enabled } = *self {
            let bank = if bank_idx % 0x10 == 0 {
                1
            } else {
                bank_idx % 0x10
            };
            *self = Mbc::Mbc2 { rom_bank: bank, ram_enabled };
        }
    }

    /// Switch the active ROM bank of an MBC3 controller.
    pub fn switch_bank_mbc3(&mut self, bank_idx: u8)
        requires
            *old(self) is Mbc3,
        ensures
            *final(self) == spec_mbc_switch(*old(self), bank_idx),
    {
        if let Mbc::Mbc3 { rom_bank, ram_bank, ram_enabled } = *self {
            let bank = if bank_idx % 0x80 == 0 {
                1
            } else {
                bank_idx % 0x80
            };
            *self = Mbc::Mbc3 { rom_bank: bank, ram_bank, ram_enabled };
        }
    }

    /// Switch the active ROM bank of an MBC5 controller; bank zero is
    /// legal.
    pub fn switch_bank_mbc5(&mut self, bank_idx: u8)
        requires
            *old(self) is Mbc5,
        ensures
            *final(self) == spec_mbc_switch(*old(self), bank_idx),
    {
        if let Mbc::Mbc5 { rom_bank, ram_bank, ram_enabled } = *self {
            *self = Mbc::Mbc5 { rom_bank: bank_idx as u16, ram_bank, ram_enabled };
        }
    }
}

} // verus!
