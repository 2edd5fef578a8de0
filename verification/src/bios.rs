//! Boot ROMs: the fixed program a core runs before handing control to the
//! cartridge.  With a boot ROM executing, every CPU register starts at zero
//! and the program counter at the start of this region.

use vstd::prelude::*;

use crate::memory::Memory;

verus! {

/// The size of the base console's boot ROM.
pub const GB_BIOS_SIZE: usize = 0x100;

/// The size of the color console's boot ROM.
pub const CGB_BIOS_SIZE: usize = 0x900;

/// A boot ROM usable by a system.
pub trait Bios: Memory {

}

/// The base console's boot ROM.
#[derive(Debug, Clone)]
pub struct GbBios {
    pub data: Vec<u8>,
}

impl GbBios {
    /// The stored bytes.
    pub open spec fn bytes(&self) -> Seq<u8> {
        self.data@
    }

    /// Wrap a byte image of the right size; any other length is refused.
    pub fn from_bytes(bytes: &[u8]) -> (r: Option<GbBios>)
        ensures
            bytes@.len() == GB_BIOS_SIZE ==> (r is Some && r.unwrap().bytes() == bytes@
                && r.unwrap().inv()),
            bytes@.len() != GB_BIOS_SIZE ==> r is None,
    {
        if bytes.len() == GB_BIOS_SIZE {
            Some(GbBios { data: crate::cartridge::copy_bytes(bytes) })
        } else {
            None
        }
    }
}

impl Memory for GbBios {
    open spec fn inv(&self) -> bool {
        self.data@.len() == GB_BIOS_SIZE
    }

    open spec fn read_spec(&self, address: u16) -> u8 {
        if address < 0x100 {
            self.data@[address as int]
        } else {
            0xFF
        }
    }

    open spec fn write_effect(&self, address: u16, value: u8, a: u16) -> u8 {
        if address < 0x100 && a == address {
            value
        } else {
            self.read_spec(a)
        }
    }

    fn read(&self, address: u16) -> (r: u8) {
        if address < 0x100 {
            self.data[address as usize]
        } else {
            0xFF
        }
    }

    fn write(&mut self, address: u16, value: u8) {
        if address < 0x100 {
            self.data.set(address as usize, value);
        }
    }
}

impl Bios for GbBios {

}

/// The color console's boot ROM; writes to it are discarded.
#[derive(Debug, Clone)]
pub struct CgbBios {
    pub data: Vec<u8>,
}

impl CgbBios {
    /// The stored bytes.
    pub open spec fn bytes(&self) -> Seq<u8> {
        self.data@
    }

    /// Wrap a byte image of the right size; any other length is refused.
    pub fn from_bytes(bytes: &[u8]) -> (r: Option<CgbBios>)
        ensures
            bytes@.len() == CGB_BIOS_SIZE ==> (r is Some && r.unwrap().bytes() == bytes@
                && r.unwrap().inv()),
            bytes@.len() != CGB_BIOS_SIZE ==> r is None,
    {
        if bytes.len() == CGB_BIOS_SIZE {
            Some(CgbBios { data: crate::cartridge::copy_bytes(bytes) })
        } else {
            None
        }
    }
}

impl Memory for CgbBios {
    open spec fn inv(&self) -> bool {
        self.data@.len() == CGB_BIOS_SIZE
    }

    open spec fn read_spec(&self, address: u16) -> u8 {
        if address < 0x900 {
            self.data@[address as int]
        } else {
            0xFF
        }
    }

    open spec fn write_effect(&self, address: u16, value: u8, a: u16) -> u8 {
        self.read_spec(a)
    }

    fn read(&self, address: u16) -> (r: u8) {
        if address < 0x900 {
            self.data[address as usize]
        } else {
            0xFF
        }
    }

    fn write(&mut self, address: u16, value: u8) {
    }
}

impl Bios for CgbBios {

}

/// A boot ROM image of the base console's size, held as loaded bytes.
#[derive(Debug, Clone)]
pub struct SystemBIOS {
    pub data: Vec<u8>,
}

impl SystemBIOS {
    /// The stored bytes.
    pub open spec fn bytes(&self) -> Seq<u8> {
        self.data@
    }

    /// Wrap a byte image of the right size; any other length is refused.
    pub fn try_from_bytes(bytes: &[u8]) -> (r: Option<SystemBIOS>)
        ensures
            bytes@.len() == GB_BIOS_SIZE ==> (r is Some && r.unwrap().bytes() == bytes@),
            bytes@.len() != GB_BIOS_SIZE ==> r is None,
    {
        if bytes.len() == GB_BIOS_SIZE {
            Some(SystemBIOS { data: crate::cartridge::copy_bytes(bytes) })
        } else {
            None
        }
    }
}

} // verus!
