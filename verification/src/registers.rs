//! CPU register file: eight 8-bit registers with 16-bit pairings, the
//! flag bits of `F`, and the 16-bit `SP` and `PC` registers.
//!
//! The low nibble of `F` holds no flag and always reads as zero; every write
//! that lands in `F` discards the written low nibble.

use vstd::prelude::*;

use crate::isa::{Flag, Register16, Register8};
use crate::util::{pack_words, spec_hi, spec_lo, spec_pack, split_doubleword};

verus! {

/// The bit weight of a flag inside the `F` register.
pub open spec fn flag_mask(flag: Flag) -> u8 {
    match flag {
        Flag::Zero => 0x80,
        Flag::AddSub => 0x40,
        Flag::HalfCarry => 0x20,
        Flag::Carry => 0x10,
    }
}

/// Whether the given flag is set in a flag byte.
pub open spec fn spec_flag(f: u8, flag: Flag) -> bool {
    (f / flag_mask(flag)) % 2 == 1
}

/// A flag byte with the written low nibble discarded.
pub open spec fn mask_flag_byte(value: u8) -> u8 {
    ((value / 0x10) * 0x10) as u8
}

/// A register file
#[derive(Debug, Copy, Clone)]
pub struct Registers {
    pub a: u8,
    pub f: u8,
    pub b: u8,
    pub c: u8,
    pub d: u8,
    pub e: u8,
    pub h: u8,
    pub l: u8,
    pub sp: u16,
    pub pc: u16,
}

impl Registers {
    /// The register file invariant: the low nibble of `F` is zero.
    pub open spec fn wf(self) -> bool {
        self.f % 0x10 == 0
    }

    /// The value held by an 8-bit register.
    pub open spec fn spec_r8(self, register: Register8) -> u8 {
        match register {
            Register8::A => self.a,
            Register8::F => self.f,
            Register8::B => self.b,
            Register8::C => self.c,
            Register8::D => self.d,
            Register8::E => self.e,
            Register8::H => self.h,
            Register8::L => self.l,
        }
    }

    /// The register file after a write to an 8-bit register; a write to `F`
    /// keeps only the high nibble of the written value.
    pub open spec fn spec_write8(self, register: Register8, value: u8) -> Registers {
        match register {
            Register8::A => Registers { a: value, ..self },
            Register8::F => Registers { f: mask_flag_byte(value), ..self },
            Register8::B => Registers { b: value, ..self },
            Register8::C => Registers { c: value, ..self },
            Register8::D => Registers { d: value, ..self },
            Register8::E => Registers { e: value, ..self },
            Register8::H => Registers { h: value, ..self },
            Register8::L => Registers { l: value, ..self },
        }
    }

    /// The value held by a 16-bit register; for a pair the first-named
    /// register holds the high byte.
    pub open spec fn spec_r16(self, register: Register16) -> u16 {
        match register {
            Register16::AF => spec_pack(self.f, self.a),
            Register16::BC => spec_pack(self.c, self.b),
            Register16::DE => spec_pack(self.e, self.d),
            Register16::HL => spec_pack(self.l, self.h),
            Register16::SP => self.sp,
            Register16::PC => self.pc,
        }
    }

    /// The register file after a write to a 16-bit register.
    pub open spec fn spec_write16(self, register: Register16, value: u16) -> Registers {
        match register {
            Register16::AF => Registers {
                a: spec_hi(value),
                f: mask_flag_byte(spec_lo(value)),
                ..self
            },
            Register16::BC => Registers { b: spec_hi(value), c: spec_lo(value), ..self },
            Register16::DE => Registers { d: spec_hi(value), e: spec_lo(value), ..self },
            Register16::HL => Registers { h: spec_hi(value), l: spec_lo(value), ..self },
            Register16::SP => Registers { sp: value, ..self },
            Register16::PC => Registers { pc: value, ..self },
        }
    }

    /// The flag byte after one flag is set or cleared.
    pub open spec fn spec_set_flag(self, flag: Flag, value: bool) -> u8 {
        if value {
            if spec_flag(self.f, flag) {
                self.f
            } else {
                (self.f + flag_mask(flag)) as u8
            }
        } else {
            if spec_flag(self.f, flag) {
                (self.f - flag_mask(flag)) as u8
            } else {
                self.f
            }
        }
    }

    /// A register file with every register zero, the state a core holding a
    /// boot ROM starts from.
    pub fn new() -> (r: Registers)
        ensures
            r == (Registers { a: 0, f: 0, b: 0, c: 0, d: 0, e: 0, h: 0, l: 0, sp: 0, pc: 0 }),
            r.wf(),
    {
        Registers { a: 0, f: 0, b: 0, c: 0, d: 0, e: 0, h: 0, l: 0, sp: 0, pc: 0 }
    }

    /// Return the value in an 8-bit register
    pub fn read_register8(&self, register: Register8) -> (r: u8)
        ensures
            r == self.spec_r8(register),
    {
        match register {
            Register8::A => self.a,
            Register8::F => self.f,
            Register8::B => self.b,
            Register8::C => self.c,
            Register8::D => self.d,
            Register8::E => self.e,
            Register8::H => self.h,
            Register8::L => self.l,
        }
    }

    /// Set the value in an 8-bit register
    pub fn write_register8(&mut self, register: Register8, value: u8)
        ensures
            *final(self) == old(self).spec_write8(register, value),
            old(self).wf() ==> final(self).wf(),
    {
        match register {
            Register8::A => self.a = value,
            Register8::F => self.f = (value / 0x10) * 0x10,
            Register8::B => self.b = value,
            Register8::C => self.c = value,
            Register8::D => self.d = value,
            Register8::E => self.e = value,
            Register8::H => self.h = value,
            Register8::L => self.l = value,
        }
    }

    /// Get the value in a 16-bit register
    pub fn read_register16(&self, register: Register16) -> (r: u16)
        ensures
            r == self.spec_r16(register),
    {
        match register {
            Register16::AF => pack_words(self.f, self.a),
            Register16::BC => pack_words(self.c, self.b),
            Register16::DE => pack_words(self.e, self.d),
            Register16::HL => pack_words(self.l, self.h),
            Register16::SP => self.sp,
            Register16::PC => self.pc,
        }
    }

    /// Set the value in a 16-bit register
    pub fn write_register16(&mut self, register: Register16, value: u16)
        ensures
            *final(self) == old(self).spec_write16(register, value),
            old(self).wf() ==> final(self).wf(),
    {
        let (lo, hi) = split_doubleword(value);
        match register {
            Register16::AF => {
                self.a = hi;
                self.f = (lo / 0x10) * 0x10;
            }
            Register16::BC => {
                self.b = hi;
                self.c = lo;
            }
            Register16::DE => {
                self.d = hi;
                self.e = lo;
            }
            Register16::HL => {
                self.h = hi;
                self.l = lo;
            }
            Register16::SP => self.sp = value,
            Register16::PC => self.pc = value,
        }
    }

    /// Return the value of a flag
    pub fn read_flag(&self, flag: Flag) -> (r: bool)
        ensures
            r == spec_flag(self.f, flag),
    {
        match flag {
            Flag::Zero => (self.f / 0x80) % 2 == 1,
            Flag::AddSub => (self.f / 0x40) % 2 == 1,
            Flag::HalfCarry => (self.f / 0x20) % 2 == 1,
            Flag::Carry => (self.f / 0x10) % 2 == 1,
        }
    }

    /// Write the value of a flag
    pub fn write_flag(&mut self, flag: Flag, value: bool)
        ensures
            final(self).f == old(self).spec_set_flag(flag, value),
            final(self).a == old(self).a,
            final(self).b == old(self).b,
            final(self).c == old(self).c,
            final(self).d == old(self).d,
            final(self).e == old(self).e,
            final(self).h == old(self).h,
            final(self).l == old(self).l,
            final(self).sp == old(self).sp,
            final(self).pc == old(self).pc,
            spec_flag(final(self).f, flag) == value,
            forall|other: Flag| other != flag ==> spec_flag(final(self).f, other) == spec_flag(
                old(self).f,
                other,
            ),
            old(self).wf() ==> final(self).wf(),
    {
        let mask: u8 = match flag {
            Flag::Zero => 0x80,
            Flag::AddSub => 0x40,
            Flag::HalfCarry => 0x20,
            Flag::Carry => 0x10,
        };
        let is_set: bool = (self.f / mask) % 2 == 1;
        if value {
            if !is_set {
                self.f = self.f + mask;
            }
        } else {
            if is_set {
                self.f = self.f - mask;
            }
        }
        proof {
            lemma_flag_byte_update(old(self).f, flag, value);
        }
    }

    /// Set the value of the `BC` register pair.
    pub fn set_bc(&mut self, value: u16)
        ensures
            *final(self) == old(self).spec_write16(Register16::BC, value),
            old(self).wf() ==> final(self).wf(),
    {
        self.write_register16(Register16::BC, value);
    }

    /// Return the value in the `BC` register pair.
    pub fn bc(&self) -> (r: u16)
        ensures
            r == self.spec_r16(Register16::BC),
    {
        self.read_register16(Register16::BC)
    }

    /// Set the value of the `DE` register pair.
    pub fn set_de(&mut self, value: u16)
        ensures
            *final(self) == old(self).spec_write16(Register16::DE, value),
            old(self).wf() ==> final(self).wf(),
    {
        self.write_register16(Register16::DE, value);
    }

    /// Return the value in the `DE` register pair.
    pub fn de(&self) -> (r: u16)
        ensures
            r == self.spec_r16(Register16::DE),
    {
        self.read_register16(Register16::DE)
    }

    /// Set the value of the `HL` register pair.
    pub fn set_hl(&mut self, value: u16)
        ensures
            *final(self) == old(self).spec_write16(Register16::HL, value),
            old(self).wf() ==> final(self).wf(),
    {
        self.write_register16(Register16::HL, value);
    }

    /// Return the value in the `HL` register pair.
    pub fn hl(&self) -> (r: u16)
        ensures
            r == self.spec_r16(Register16::HL),
    {
        self.read_register16(Register16::HL)
    }

    /// Return the value of the zero flag.
    pub fn z_is_set(&self) -> (r: bool)
        ensures
            r == spec_flag(self.f, Flag::Zero),
    {
        self.read_flag(Flag::Zero)
    }

    /// Return the value of the carry flag.
    pub fn cy_is_set(&self) -> (r: bool)
        ensures
            r == spec_flag(self.f, Flag::Carry),
    {
        self.read_flag(Flag::Carry)
    }

    /// Return the value of the subtract flag.
    pub fn n_is_set(&self) -> (r: bool)
        ensures
            r == spec_flag(self.f, Flag::AddSub),
    {
        self.read_flag(Flag::AddSub)
    }

    /// Return the value of the half-carry flag.
    pub fn h_is_set(&self) -> (r: bool)
        ensures
            r == spec_flag(self.f, Flag::HalfCarry),
    {
        self.read_flag(Flag::HalfCarry)
    }
}

/// Adding or removing one flag weight changes exactly that flag and keeps the
/// low nibble of the flag byte.
#[verifier::rlimit(50)]
proof fn lemma_flag_byte_update(f: u8, flag: Flag, value: bool)
    ensures
        ({
            let f2 = if value {
                if spec_flag(f, flag) {
                    f as int
                } else {
                    f + flag_mask(flag)
                }
            } else {
                if spec_flag(f, flag) {
                    f - flag_mask(flag)
                } else {
                    f as int
                }
            };
            &&& 0 <= f2 <= 0xFF
            &&& spec_flag(f2 as u8, flag) == value
            &&& forall|other: Flag| other != flag ==> spec_flag(f2 as u8, other) == spec_flag(
                f,
                other,
            )
            &&& f % 0x10 == 0 ==> f2 as u8 % 0x10 == 0
        }),
{
    let m = flag_mask(flag) as int;
    let fi = f as int;
    assert(fi == 0x80 * ((fi / 0x80) % 2) + 0x40 * ((fi / 0x40) % 2) + 0x20 * ((fi / 0x20) % 2)
        + 0x10 * ((fi / 0x10) % 2) + fi % 0x10) by {
        lemma_byte_decomposition(f);
    }
    let f2 = if value {
        if spec_flag(f, flag) {
            fi
        } else {
            fi + m
        }
    } else {
        if spec_flag(f, flag) {
            fi - m
        } else {
            fi
        }
    };
    assert(f2 == 0x80 * ((f2 / 0x80) % 2) + 0x40 * ((f2 / 0x40) % 2) + 0x20 * ((f2 / 0x20) % 2)
        + 0x10 * ((f2 / 0x10) % 2) + f2 % 0x10) by {
        lemma_byte_decomposition(f2 as u8);
    }
}

/// Every byte is the weighted sum of its four high bits and its low nibble.
proof fn lemma_byte_decomposition(f: u8)
    ensures
        f == 0x80 * ((f / 0x80) % 2) + 0x40 * ((f / 0x40) % 2) + 0x20 * ((f / 0x20) % 2) + 0x10 * ((
        f / 0x10) % 2) + f % 0x10,
        (f / 0x80) % 2 == f / 0x80,
{
    assert(f == 0x80 * ((f / 0x80) % 2) + 0x40 * ((f / 0x40) % 2) + 0x20 * ((f / 0x20) % 2) + 0x10
        * ((f / 0x10) % 2) + f % 0x10) by (nonlinear_arith);
}

/// Writing a 16-bit register and reading it back returns exactly the written
/// value; for `AF` this holds for every value whose low nibble is zero, the
/// only values the pair can hold.
pub proof fn lemma_write16_read16_roundtrip(r: Registers, register: Register16, value: u16)
    requires
        register == Register16::AF ==> value % 0x10 == 0,
    ensures
        r.spec_write16(register, value).spec_r16(register) == value,
{
    crate::util::lemma_split_then_pack_roundtrip(value);
    if register == Register16::AF {
        assert(mask_flag_byte(spec_lo(value)) == spec_lo(value));
    }
}

/// Writing one 16-bit register never perturbs the value stored in a
/// different 16-bit register.
pub proof fn lemma_write16_independent(
    r: Registers,
    written: Register16,
    read: Register16,
    value: u16,
)
    requires
        written != read,
    ensures
        r.spec_write16(written, value).spec_r16(read) == r.spec_r16(read),
{
}

} // verus!
