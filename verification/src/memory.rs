//! Byte-addressed storage: the `Memory` read/write interface and the
//! fixed-size buffers the bus regions are built from.
//!
//! Every `Memory` implementation is total over the 16-bit address space:
//! a read outside an implementation's backing range returns zero and a write
//! outside it is discarded, so no access can fail.

use vstd::prelude::*;

use crate::util::spec_pack;

verus! {

/// A piece of memory to read and write data.
pub trait Memory: Sized {
    /// The implementation's invariant, established by its constructors.
    spec fn inv(&self) -> bool;

    /// The value a read of an address returns.
    spec fn read_spec(&self, address: u16) -> u8;

    /// The value a read of `a` returns after `value` was written to
    /// `address`.
    spec fn write_effect(&self, address: u16, value: u8, a: u16) -> u8;

    /// Read a value from an address.
    fn read(&self, address: u16) -> (r: u8)
        requires
            self.inv(),
        ensures
            r == self.read_spec(address),
    ;

    /// Write a value to an address.
    fn write(&mut self, address: u16, value: u8)
        requires
            old(self).inv(),
        ensures
            final(self).inv(),
            forall|a: u16| final(self).read_spec(a) == old(self).write_effect(address, value, a),
    ;
}

/// Read a 16-bit value as two bytes, the low byte at the given address and
/// the high byte right after it.
pub fn read_double<M: Memory>(memory: &M, address: u16) -> (r: u16)
    requires
        memory.inv(),
    ensures
        r == spec_pack(
            memory.read_spec(address),
            memory.read_spec(address.wrapping_add(1)),
        ),
{
    let lo = memory.read(address);
    let hi = memory.read(address.wrapping_add(1));
    crate::util::pack_words(lo, hi)
}

/// A 4KB memory bank
#[derive(Debug, Clone)]
pub struct Memory4Kb {
    pub data: Vec<u8>,
}

impl Memory4Kb {
    /// The stored bytes.
    pub open spec fn bytes(&self) -> Seq<u8> {
        self.data@
    }

    /// A fresh, zero-filled 4KB bank.
    pub fn new() -> (r: Self)
        ensures
            r.inv(),
            r.bytes() == Seq::new(0x1000, |i: int| 0u8),
    {
        let data: Vec<u8> = vec_zeroes(0x1000);
        Memory4Kb { data }
    }
}

impl Memory4Kb {
    /// Read one byte by offset.
    pub fn get_byte(&self, offset: u16) -> (r: u8)
        requires
            self.inv(),
            offset < 0x1000,
        ensures
            r == self.bytes()[offset as int],
    {
        self.data[offset as usize]
    }

    /// Overwrite one byte by offset.
    pub fn set_byte(&mut self, offset: u16, value: u8)
        requires
            old(self).inv(),
            offset < 0x1000,
        ensures
            final(self).inv(),
            final(self).bytes() == old(self).bytes().update(offset as int, value),
    {
        self.data.set(offset as usize, value);
    }
}

impl Memory for Memory4Kb {
    open spec fn inv(&self) -> bool {
        self.data@.len() == 0x1000
    }

    open spec fn read_spec(&self, address: u16) -> u8 {
        if address < 0x1000 {
            self.data@[address as int]
        } else {
            0
        }
    }

    open spec fn write_effect(&self, address: u16, value: u8, a: u16) -> u8 {
        if address < 0x1000 && a == address {
            value
        } else {
            self.read_spec(a)
        }
    }

    fn read(&self, address: u16) -> (r: u8) {
        if address < 0x1000 {
            self.data[address as usize]
        } else {
            0
        }
    }

    fn write(&mut self, address: u16, value: u8) {
        if address < 0x1000 {
            self.data.set(address as usize, value);
        }
    }
}

/// A 8KB memory bank
#[derive(Debug, Clone)]
pub struct Memory8Kb {
    pub data: Vec<u8>,
}

impl Memory8Kb {
    /// The stored bytes.
    pub open spec fn bytes(&self) -> Seq<u8> {
        self.data@
    }

    /// A fresh, zero-filled 8KB bank.
    pub fn new() -> (r: Self)
        ensures
            r.inv(),
            r.bytes() == Seq::new(0x2000, |i: int| 0u8),
    {
        let data: Vec<u8> = vec_zeroes(0x2000);
        Memory8Kb { data }
    }
}

impl Memory8Kb {
    /// Read one byte by offset.
    pub fn get_byte(&self, offset: u16) -> (r: u8)
        requires
            self.inv(),
            offset < 0x2000,
        ensures
            r == self.bytes()[offset as int],
    {
        self.data[offset as usize]
    }

    /// Overwrite one byte by offset.
    pub fn set_byte(&mut self, offset: u16, value: u8)
        requires
            old(self).inv(),
            offset < 0x2000,
        ensures
            final(self).inv(),
            final(self).bytes() == old(self).bytes().update(offset as int, value),
    {
        self.data.set(offset as usize, value);
    }
}

impl Memory for Memory8Kb {
    open spec fn inv(&self) -> bool {
        self.data@.len() == 0x2000
    }

    open spec fn read_spec(&self, address: u16) -> u8 {
        if address < 0x2000 {
            self.data@[address as int]
        } else {
            0
        }
    }

    open spec fn write_effect(&self, address: u16, value: u8, a: u16) -> u8 {
        if address < 0x2000 && a == address {
            value
        } else {
            self.read_spec(a)
        }
    }

    fn read(&self, address: u16) -> (r: u8) {
        if address < 0x2000 {
            self.data[address as usize]
        } else {
            0
        }
    }

    fn write(&mut self, address: u16, value: u8) {
        if address < 0x2000 {
            self.data.set(address as usize, value);
        }
    }
}

/// A 16KB memory bank
#[derive(Debug, Clone)]
pub struct Memory16Kb {
    pub data: Vec<u8>,
}

impl Memory16Kb {
    /// The stored bytes.
    pub open spec fn bytes(&self) -> Seq<u8> {
        self.data@
    }

    /// A fresh, zero-filled 16KB bank.
    pub fn new() -> (r: Self)
        ensures
            r.inv(),
            r.bytes() == Seq::new(0x4000, |i: int| 0u8),
    {
        let data: Vec<u8> = vec_zeroes(0x4000);
        Memory16Kb { data }
    }
}

impl Memory16Kb {
    /// Read one byte by offset.
    pub fn get_byte(&self, offset: u16) -> (r: u8)
        requires
            self.inv(),
            offset < 0x4000,
        ensures
            r == self.bytes()[offset as int],
    {
        self.data[offset as usize]
    }

    /// Overwrite one byte by offset.
    pub fn set_byte(&mut self, offset: u16, value: u8)
        requires
            old(self).inv(),
            offset < 0x4000,
        ensures
            final(self).inv(),
            final(self).bytes() == old(self).bytes().update(offset as int, value),
    {
        self.data.set(offset as usize, value);
    }
}

impl Memory for Memory16Kb {
    open spec fn inv(&self) -> bool {
        self.data@.len() == 0x4000
    }

    open spec fn read_spec(&self, address: u16) -> u8 {
        if address < 0x4000 {
            self.data@[address as int]
        } else {
            0
        }
    }

    open spec fn write_effect(&self, address: u16, value: u8, a: u16) -> u8 {
        if address < 0x4000 && a == address {
            value
        } else {
            self.read_spec(a)
        }
    }

    fn read(&self, address: u16) -> (r: u8) {
        if address < 0x4000 {
            self.data[address as usize]
        } else {
            0
        }
    }

    fn write(&mut self, address: u16, value: u8) {
        if address < 0x4000 {
            self.data.set(address as usize, value);
        }
    }
}

/// A 32KB memory bank
#[derive(Debug, Clone)]
pub struct Memory32Kb {
    pub data: Vec<u8>,
}

impl Memory32Kb {
    /// The stored bytes.
    pub open spec fn bytes(&self) -> Seq<u8> {
        self.data@
    }

    /// A fresh, zero-filled 32KB bank.
    pub fn new() -> (r: Self)
        ensures
            r.inv(),
            r.bytes() == Seq::new(0x8000, |i: int| 0u8),
    {
        let data: Vec<u8> = vec_zeroes(0x8000);
        Memory32Kb { data }
    }
}

impl Memory32Kb {
    /// Read one byte by offset.
    pub fn get_byte(&self, offset: u16) -> (r: u8)
        requires
            self.inv(),
            offset < 0x8000,
        ensures
            r == self.bytes()[offset as int],
    {
        self.data[offset as usize]
    }

    /// Overwrite one byte by offset.
    pub fn set_byte(&mut self, offset: u16, value: u8)
        requires
            old(self).inv(),
            offset < 0x8000,
        ensures
            final(self).inv(),
            final(self).bytes() == old(self).bytes().update(offset as int, value),
    {
        self.data.set(offset as usize, value);
    }
}

impl Memory for Memory32Kb {
    open spec fn inv(&self) -> bool {
        self.data@.len() == 0x8000
    }

    open spec fn read_spec(&self, address: u16) -> u8 {
        if address < 0x8000 {
            self.data@[address as int]
        } else {
            0
        }
    }

    open spec fn write_effect(&self, address: u16, value: u8, a: u16) -> u8 {
        if address < 0x8000 && a == address {
            value
        } else {
            self.read_spec(a)
        }
    }

    fn read(&self, address: u16) -> (r: u8) {
        if address < 0x8000 {
            self.data[address as usize]
        } else {
            0
        }
    }

    fn write(&mut self, address: u16, value: u8) {
        if address < 0x8000 {
            self.data.set(address as usize, value);
        }
    }
}

/// A zero-filled byte vector of the requested length.
pub fn vec_zeroes(len: usize) -> (r: Vec<u8>)
    ensures
        r@ == Seq::new(len as nat, |i: int| 0u8),
{
    let mut data: Vec<u8> = Vec::new();
    proof {
        assert(data@ =~= Seq::new(0nat, |j: int| 0u8));
    }
    let mut i: usize = 0;
    while i < len
        invariant
            i <= len,
            data@ == Seq::new(i as nat, |j: int| 0u8),
        decreases len - i,
    {
        data.push(0);
        proof {
            assert(data@ =~= Seq::new((i + 1) as nat, |j: int| 0u8));
        }
        i = i + 1;
    }
    data
}

} // verus!
