//! The memory management unit: one router over the whole 16-bit address
//! space.
//!
//! Every address maps to exactly one backing region or to the cartridge.
//! The echo window `0xE000..=0xFDFF` is a true alias of working RAM, not a
//! copy; the unusable window `0xFEA0..=0xFEFF` reads as a fixed sentinel and
//! silently discards writes.  The I/O registers start from their documented
//! hardware reset values, not from zero.

use vstd::prelude::*;

use crate::cartridge::{spec_cart_read, spec_cart_write, CartView, Cartridge};
use crate::memory::{vec_zeroes, Memory, Memory4Kb, Memory8Kb};
use crate::swram::Swram;
use crate::system::Buttons;
use crate::util::{pack_words, spec_pack};

verus! {

/// The sentinel byte a read of the unusable window returns.
pub const UNUSABLE_SENTINEL: u8 = 0x00;

/// The mathematical value of the bus: the cartridge and every RAM region,
/// plus the interrupt-enable register.
#[verifier::ext_equal]
pub ghost struct BusView {
    pub cart: Option<CartView>,
    pub vram: Seq<u8>,
    pub wram: Seq<u8>,
    pub swram_banks: Seq<Seq<u8>>,
    pub swram_active: int,
    pub oam: Seq<u8>,
    pub iom: Seq<u8>,
    pub hram: Seq<u8>,
    pub ie: u8,
}

/// The shape every reachable bus value has: each region holds exactly its
/// hardware size and the active work-RAM bank index is in range.
pub open spec fn bus_wf(b: BusView) -> bool {
    &&& b.vram.len() == 0x2000
    &&& b.wram.len() == 0x1000
    &&& 0 < b.swram_banks.len()
    &&& 0 <= b.swram_active < b.swram_banks.len()
    &&& forall|i: int|
        0 <= i < b.swram_banks.len() ==> (#[trigger] b.swram_banks[i]).len() == 0x1000
    &&& b.oam.len() == 0xA0
    &&& b.iom.len() == 0x80
    &&& b.hram.len() == 0x7F
}

/// The byte a bus read returns, by region.  The cartridge serves both ROM
/// windows and the cartridge RAM window (zero without a cartridge); the echo
/// window reads working RAM at the aliased address; the unusable window
/// returns the sentinel.
pub open spec fn bus_read(b: BusView, address: u16) -> u8 {
    if address < 0x8000 {
        match b.cart {
            Some(c) => spec_cart_read(c, address),
            None => 0,
        }
    } else if address < 0xA000 {
        b.vram[address - 0x8000]
    } else if address < 0xC000 {
        match b.cart {
            Some(c) => spec_cart_read(c, address),
            None => 0,
        }
    } else if address < 0xD000 {
        b.wram[address - 0xC000]
    } else if address < 0xE000 {
        b.swram_banks[b.swram_active][address - 0xD000]
    } else if address < 0xFE00 {
        if address < 0xF000 {
            b.wram[address - 0xE000]
        } else {
            b.swram_banks[b.swram_active][address - 0xF000]
        }
    } else if address < 0xFEA0 {
        b.oam[address - 0xFE00]
    } else if address < 0xFF00 {
        UNUSABLE_SENTINEL
    } else if address < 0xFF80 {
        b.iom[address - 0xFF00]
    } else if address < 0xFFFF {
        b.hram[address - 0xFF80]
    } else {
        b.ie
    }
}

/// The bus after a write, by region.  Writes into the cartridge windows go
/// to the cartridge (bank registers or cartridge RAM) and are dropped
/// without one; echo writes land in working RAM at the aliased address;
/// unusable-window writes are discarded.
pub open spec fn bus_write(b: BusView, address: u16, value: u8) -> BusView {
    if address < 0x8000 {
        match b.cart {
            Some(c) => BusView { cart: Some(spec_cart_write(c, address, value)), ..b },
            None => b,
        }
    } else if address < 0xA000 {
        BusView { vram: b.vram.update(address - 0x8000, value), ..b }
    } else if address < 0xC000 {
        match b.cart {
            Some(c) => BusView { cart: Some(spec_cart_write(c, address, value)), ..b },
            None => b,
        }
    } else if address < 0xD000 {
        BusView { wram: b.wram.update(address - 0xC000, value), ..b }
    } else if address < 0xE000 {
        BusView {
            swram_banks: b.swram_banks.update(
                b.swram_active,
                b.swram_banks[b.swram_active].update(address - 0xD000, value),
            ),
            ..b
        }
    } else if address < 0xFE00 {
        if address < 0xF000 {
            BusView { wram: b.wram.update(address - 0xE000, value), ..b }
        } else {
            BusView {
                swram_banks: b.swram_banks.update(
                    b.swram_active,
                    b.swram_banks[b.swram_active].update(address - 0xF000, value),
                ),
                ..b
            }
        }
    } else if address < 0xFEA0 {
        BusView { oam: b.oam.update(address - 0xFE00, value), ..b }
    } else if address < 0xFF00 {
        b
    } else if address < 0xFF80 {
        BusView { iom: b.iom.update(address - 0xFF00, value), ..b }
    } else if address < 0xFFFF {
        BusView { hram: b.hram.update(address - 0xFF80, value), ..b }
    } else {
        BusView { ie: value, ..b }
    }
}

/// The documented reset value of the I/O register at the given offset from
/// `0xFF00`.
pub open spec fn spec_io_reset_byte(offset: int) -> u8 {
    if offset == 0x10 {
        0x80
    } else if offset == 0x11 {
        0xBF
    } else if offset == 0x12 {
        0xF3
    } else if offset == 0x14 {
        0xBF
    } else if offset == 0x16 {
        0x3F
    } else if offset == 0x19 {
        0xBF
    } else if offset == 0x1A {
        0x7F
    } else if offset == 0x1B {
        0xFF
    } else if offset == 0x1C {
        0x9F
    } else if offset == 0x1E {
        0xBF
    } else if offset == 0x20 {
        0xFF
    } else if offset == 0x23 {
        0xBF
    } else if offset == 0x24 {
        0x77
    } else if offset == 0x25 {
        0xF3
    } else if offset == 0x26 {
        0xF1
    } else if offset == 0x40 {
        0x91
    } else if offset == 0x47 {
        0xFC
    } else if offset == 0x48 {
        0xFF
    } else if offset == 0x49 {
        0xFF
    } else {
        0x00
    }
}

/// The documented reset value of the I/O register at the given offset.
fn io_reset_byte(offset: usize) -> (r: u8)
    ensures
        r == spec_io_reset_byte(offset as int),
{
    if offset == 0x10 {
        0x80
    } else if offset == 0x11 {
        0xBF
    } else if offset == 0x12 {
        0xF3
    } else if offset == 0x14 {
        0xBF
    } else if offset == 0x16 {
        0x3F
    } else if offset == 0x19 {
        0xBF
    } else if offset == 0x1A {
        0x7F
    } else if offset == 0x1B {
        0xFF
    } else if offset == 0x1C {
        0x9F
    } else if offset == 0x1E {
        0xBF
    } else if offset == 0x20 {
        0xFF
    } else if offset == 0x23 {
        0xBF
    } else if offset == 0x24 {
        0x77
    } else if offset == 0x25 {
        0xF3
    } else if offset == 0x26 {
        0xF1
    } else if offset == 0x40 {
        0x91
    } else if offset == 0x47 {
        0xFC
    } else if offset == 0x48 {
        0xFF
    } else if offset == 0x49 {
        0xFF
    } else {
        0x00
    }
}

/// A memory management unit.
pub struct Mmu<S: Swram> {
    pub cartridge: Option<Cartridge>,
    pub vram: Memory8Kb,
    pub wram: Memory4Kb,
    pub swram: S,
    pub oam: Vec<u8>,
    pub iom: Vec<u8>,
    pub hram: Vec<u8>,
    pub ie: u8,
}

impl<S: Swram> Mmu<S> {
    /// The mathematical value of the bus.
    pub open spec fn view(&self) -> BusView {
        BusView {
            cart: match self.cartridge {
                Some(c) => Some(c@),
                None => None,
            },
            vram: self.vram.bytes(),
            wram: self.wram.bytes(),
            swram_banks: self.swram.banks(),
            swram_active: self.swram.active(),
            oam: self.oam@,
            iom: self.iom@,
            hram: self.hram@,
            ie: self.ie,
        }
    }

    /// The unit's invariant: each region holds its hardware size.
    pub open spec fn inv(&self) -> bool {
        &&& self.vram.bytes().len() == 0x2000
        &&& self.wram.bytes().len() == 0x1000
        &&& self.swram.inv()
        &&& self.oam@.len() == 0xA0
        &&& self.iom@.len() == 0x80
        &&& self.hram@.len() == 0x7F
    }

    /// The invariant gives the bus its hardware shape.
    pub proof fn lemma_wf(&self)
        requires
            self.inv(),
        ensures
            bus_wf(self@),
    {
        self.swram.lemma_shape();
    }

    /// A unit with no cartridge loaded, zeroed RAM regions, and the I/O
    /// registers at their reset values.
    pub fn new(swram: S) -> (r: Mmu<S>)
        requires
            swram.inv(),
        ensures
            r.inv(),
            r@ == (BusView {
                cart: None,
                vram: Seq::new(0x2000, |i: int| 0u8),
                wram: Seq::new(0x1000, |i: int| 0u8),
                swram_banks: swram.banks(),
                swram_active: swram.active(),
                oam: Seq::new(0xA0, |i: int| 0u8),
                iom: Seq::new(0x80, |i: int| spec_io_reset_byte(i)),
                hram: Seq::new(0x7F, |i: int| 0u8),
                ie: 0,
            }),
    {
        let iom = new_io_memory();
        let r = Mmu {
            cartridge: None,
            vram: Memory8Kb::new(),
            wram: Memory4Kb::new(),
            swram,
            oam: vec_zeroes(0xA0),
            iom,
            hram: vec_zeroes(0x7F),
            ie: 0,
        };
        proof {
            assert(r@ =~~= (BusView {
                cart: None,
                vram: Seq::new(0x2000, |i: int| 0u8),
                wram: Seq::new(0x1000, |i: int| 0u8),
                swram_banks: swram.banks(),
                swram_active: swram.active(),
                oam: Seq::new(0xA0, |i: int| 0u8),
                iom: Seq::new(0x80, |i: int| spec_io_reset_byte(i)),
                hram: Seq::new(0x7F, |i: int| 0u8),
                ie: 0,
            }));
        }
        r
    }

    /// Return the video RAM region.
    pub fn vram(&self) -> (r: &Memory8Kb)
        ensures
            r.bytes() == self@.vram,
    {
        &self.vram
    }

    /// Load a cartridge into the MMU and return the old one if there was
    /// one.
    pub fn load(&mut self, cartridge: Cartridge) -> (r: Option<Cartridge>)
        ensures
            final(self)@ == (BusView { cart: Some(cartridge@), ..old(self)@ }),
            final(self).inv() == old(self).inv(),
            match r {
                Some(c) => old(self)@.cart == Some(c@),
                None => old(self)@.cart is None,
            },
    {
        let r = self.cartridge.take();
        self.cartridge = Some(cartridge);
        proof {
            assert(self@ =~~= (BusView { cart: Some(cartridge@), ..old(self)@ }));
        }
        r
    }

    /// Unload the current cartridge from the MMU and return it.
    pub fn maybe_unload(&mut self) -> (r: Option<Cartridge>)
        ensures
            final(self)@ == (BusView { cart: None, ..old(self)@ }),
            final(self).inv() == old(self).inv(),
            match r {
                Some(c) => old(self)@.cart == Some(c@),
                None => old(self)@.cart is None,
            },
    {
        let r = self.cartridge.take();
        proof {
            assert(self@ =~~= (BusView { cart: None, ..old(self)@ }));
        }
        r
    }

    /// Record the input state the next cycles will observe.  Routing the
    /// held buttons into the joypad register's bit matrix is not modeled:
    /// the register keeps its stored value and the bus is unchanged.
    pub fn update_input_registers(&mut self, input: Buttons)
        ensures
            *final(self) == *old(self),
    {
    }

    /// Read a word from memory
    pub fn read(&self, address: u16) -> (r: u8)
        requires
            self.inv(),
        ensures
            r == bus_read(self@, address),
    {
        proof {
            self.lemma_wf();
        }
        if address < 0x8000 {
            match &self.cartridge {
                Some(c) => c.read(address),
                None => 0,
            }
        } else if address < 0xA000 {
            self.vram.get_byte(address - 0x8000)
        } else if address < 0xC000 {
            match &self.cartridge {
                Some(c) => c.read(address),
                None => 0,
            }
        } else if address < 0xD000 {
            self.wram.get_byte(address - 0xC000)
        } else if address < 0xE000 {
            self.swram.read(address - 0xD000)
        } else if address < 0xFE00 {
            if address < 0xF000 {
                self.wram.get_byte(address - 0xE000)
            } else {
                self.swram.read(address - 0xF000)
            }
        } else if address < 0xFEA0 {
            self.oam[(address - 0xFE00) as usize]
        } else if address < 0xFF00 {
            UNUSABLE_SENTINEL
        } else if address < 0xFF80 {
            self.iom[(address - 0xFF00) as usize]
        } else if address < 0xFFFF {
            self.hram[(address - 0xFF80) as usize]
        } else {
            self.ie
        }
    }

    /// Write a word to memory
    pub fn write(&mut self, address: u16, value: u8)
        requires
            old(self).inv(),
        ensures
            final(self).inv(),
            final(self)@ == bus_write(old(self)@, address, value),
    {
        proof {
            self.lemma_wf();
        }
        if address < 0x8000 {
            if let Some(c) = &mut self.cartridge {
                c.write(address, value);
            }
        } else if address < 0xA000 {
            self.vram.set_byte(address - 0x8000, value);
        } else if address < 0xC000 {
            if let Some(c) = &mut self.cartridge {
                c.write(address, value);
            }
        } else if address < 0xD000 {
            self.wram.set_byte(address - 0xC000, value);
        } else if address < 0xE000 {
            self.swram.write(address - 0xD000, value);
        } else if address < 0xFE00 {
            if address < 0xF000 {
                self.wram.set_byte(address - 0xE000, value);
            } else {
                self.swram.write(address - 0xF000, value);
            }
        } else if address < 0xFEA0 {
            self.oam.set((address - 0xFE00) as usize, value);
        } else if address < 0xFF00 {
            // the unusable window discards writes
        } else if address < 0xFF80 {
            self.iom.set((address - 0xFF00) as usize, value);
        } else if address < 0xFFFF {
            self.hram.set((address - 0xFF80) as usize, value);
        } else {
            self.ie = value;
        }
        proof {
            assert(self@ =~~= bus_write(old(self)@, address, value));
        }
    }

    /// Read a 16-bit value: the low byte at the given address, the high
    /// byte right after it.
    pub fn read_double(&self, address: u16) -> (r: u16)
        requires
            self.inv(),
        ensures
            r == spec_pack(
                bus_read(self@, address),
                bus_read(self@, address.wrapping_add(1)),
            ),
    {
        let lo = self.read(address);
        let hi = self.read(address.wrapping_add(1));
        pack_words(lo, hi)
    }

    /// Write a 16-bit value: the low byte at the given address, the high
    /// byte right after it.
    pub fn write_double(&mut self, address: u16, value: u16)
        requires
            old(self).inv(),
        ensures
            final(self).inv(),
            final(self)@ == bus_write(
                bus_write(old(self)@, address, crate::util::spec_lo(value)),
                address.wrapping_add(1),
                crate::util::spec_hi(value),
            ),
    {
        let (lo, hi) = crate::util::split_doubleword(value);
        self.write(address, lo);
        self.write(address.wrapping_add(1), hi);
    }
}

impl<S: Swram> Memory for Mmu<S> {
    open spec fn inv(&self) -> bool {
        Mmu::inv(self)
    }

    open spec fn read_spec(&self, address: u16) -> u8 {
        bus_read(self@, address)
    }

    open spec fn write_effect(&self, address: u16, value: u8, a: u16) -> u8 {
        bus_read(bus_write(self@, address, value), a)
    }

    fn read(&self, address: u16) -> (r: u8) {
        Mmu::read(self, address)
    }

    fn write(&mut self, address: u16, value: u8) {
        Mmu::write(self, address, value);
    }
}

/// A fresh I/O register file holding the documented reset values.
pub fn new_io_memory() -> (r: Vec<u8>)
    ensures
        r@ == Seq::new(0x80, |i: int| spec_io_reset_byte(i)),
{
    let mut iom: Vec<u8> = Vec::new();
    proof {
        assert(iom@ =~= Seq::new(0nat, |i: int| spec_io_reset_byte(i)));
    }
    let mut i: usize = 0;
    while i < 0x80
        invariant
            i <= 0x80,
            iom@ == Seq::new(i as nat, |j: int| spec_io_reset_byte(j)),
        decreases 0x80 - i,
    {
        iom.push(io_reset_byte(i));
        proof {
            assert(iom@ =~= Seq::new((i + 1) as nat, |j: int| spec_io_reset_byte(j)));
        }
        i = i + 1;
    }
    iom
}


/// The echo window is a true alias of working RAM: writing a fixed
/// working-RAM address and reading the echo address two pages above returns
/// the written value, and writing the echo address and reading the
/// working-RAM address does as well, for every offset of the fixed window.
pub proof fn lemma_echo_alias(b: BusView, address: u16, value: u8)
    requires
        bus_wf(b),
        0xC000 <= address < 0xD000,
    ensures
        bus_read(bus_write(b, address, value), (address + 0x2000) as u16) == value,
        bus_read(bus_write(b, (address + 0x2000) as u16, value), address) == value,
{
}

} // verus!
