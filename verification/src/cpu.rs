//! The CPU execution engine: fetch, decode, execute.
//!
//! The engine has two states, running and halted.  The `HALT` instruction
//! and every undefined opcode enter the halted state; an undefined opcode is
//! a hardware lockup, so that transition is final from this core's point of
//! view.  A step of a halted CPU changes nothing and costs one machine cycle
//! of four clock cycles.
//!
//! The interrupt-master-enable flag is cleared by `DI` and set by `EI` and
//! `RETI`.  Real hardware defers the effect of `EI` by one instruction; this
//! core applies it immediately, a documented simplification.

use vstd::prelude::*;

use crate::disasm::{decode, spec_decode};
use crate::isa::{
    cycles_on_branch_spec, cycles_spec, size_spec, Condition, Flag, Instruction, Register16,
    Register8,
};
use crate::mmu::{bus_read, bus_write, BusView, Mmu};
use crate::registers::{spec_flag, Registers};
use crate::swram::Swram;
use crate::util::{spec_hi, spec_lo, spec_pack};

verus! {

/// Number of clock cycles the CPU runs per second.
pub const CYCLES_PER_SECOND: usize = 4194304;

/// The register file a core with a boot ROM starts from: all zeros, with
/// the program counter at the start of the boot region.
pub open spec fn power_on_registers() -> Registers {
    Registers { a: 0, f: 0, b: 0, c: 0, d: 0, e: 0, h: 0, l: 0, sp: 0, pc: 0 }
}

/// A flag byte assembled from the four flags; its low nibble is zero.
pub open spec fn flags_byte(z: bool, n: bool, h: bool, c: bool) -> u8 {
    ((if z {
        0x80int
    } else {
        0int
    }) + (if n {
        0x40int
    } else {
        0int
    }) + (if h {
        0x20int
    } else {
        0int
    }) + (if c {
        0x10int
    } else {
        0int
    })) as u8
}

/// Whether the zero flag is set in a flag byte.
pub open spec fn spec_zero(f: u8) -> bool {
    spec_flag(f, Flag::Zero)
}

/// Whether the carry flag is set in a flag byte.
pub open spec fn spec_carry(f: u8) -> bool {
    spec_flag(f, Flag::Carry)
}

/// Whether a branch condition holds for a flag byte.
pub open spec fn spec_cond(c: Condition, f: u8) -> bool {
    match c {
        Condition::NotZero => !spec_zero(f),
        Condition::IsZero => spec_zero(f),
        Condition::NotCarry => !spec_carry(f),
        Condition::IsCarry => spec_carry(f),
    }
}

/// 8-bit addition with optional carry-in: the result and the flag byte.
/// The half-carry flag records a carry out of the low nibble, the carry
/// flag a carry out of bit 7.
pub open spec fn spec_add8(a: u8, b: u8, carry_in: bool) -> (u8, u8) {
    let ci: int = if carry_in {
        1
    } else {
        0
    };
    let sum = a + b + ci;
    let res = (sum % 0x100) as u8;
    (res, flags_byte(res == 0, false, a % 0x10 + b % 0x10 + ci > 0x0F, sum > 0xFF))
}

/// 8-bit subtraction with optional borrow-in: the result and the flag
/// byte.  The half-carry flag records a borrow into the low nibble, the
/// carry flag a full borrow.
pub open spec fn spec_sub8(a: u8, b: u8, borrow_in: bool) -> (u8, u8) {
    let bi: int = if borrow_in {
        1
    } else {
        0
    };
    let diff = a - b - bi;
    let res = (if diff < 0 {
        diff + 0x100
    } else {
        diff
    }) as u8;
    (res, flags_byte(res == 0, true, a % 0x10 < b % 0x10 + bi, a < b + bi))
}

/// Bitwise AND into the accumulator; the half-carry flag is always set.
pub open spec fn spec_and8(a: u8, b: u8) -> (u8, u8) {
    ((a & b), flags_byte((a & b) == 0, false, true, false))
}

/// Bitwise XOR into the accumulator; only the zero flag can be set.
pub open spec fn spec_xor8(a: u8, b: u8) -> (u8, u8) {
    ((a ^ b), flags_byte((a ^ b) == 0, false, false, false))
}

/// Bitwise OR into the accumulator; only the zero flag can be set.
pub open spec fn spec_or8(a: u8, b: u8) -> (u8, u8) {
    ((a | b), flags_byte((a | b) == 0, false, false, false))
}

/// 8-bit increment: the carry flag of the old flag byte is kept.
pub open spec fn spec_inc8(v: u8, f: u8) -> (u8, u8) {
    let res = ((v + 1) % 0x100) as u8;
    (res, flags_byte(res == 0, false, v % 0x10 == 0x0F, spec_carry(f)))
}

/// 8-bit decrement: the carry flag of the old flag byte is kept.
pub open spec fn spec_dec8(v: u8, f: u8) -> (u8, u8) {
    let res = (if v == 0 {
        0xFF
    } else {
        v - 1
    }) as u8;
    (res, flags_byte(res == 0, true, v % 0x10 == 0, spec_carry(f)))
}

/// 16-bit addition into `HL`: the zero flag is kept, the half-carry flag
/// records a carry out of bit 11, the carry flag one out of bit 15.
pub open spec fn spec_add16(hl: u16, rr: u16, f: u8) -> (u16, u8) {
    let res = ((hl + rr) % 0x10000) as u16;
    (
        res,
        flags_byte(spec_zero(f), false, hl % 0x1000 + rr % 0x1000 > 0xFFF, hl + rr > 0xFFFF),
    )
}

/// The stack pointer moved by a signed immediate.
pub open spec fn spec_sp_offset(sp: u16, s: i8) -> u16 {
    sp.wrapping_add_signed(s as i16)
}

/// The flag byte of `SP`-plus-offset arithmetic: zero and subtract are
/// cleared, half-carry and carry come from the low byte treated as an
/// unsigned addition.
pub open spec fn spec_sp_flags(sp: u16, s: i8) -> u8 {
    let ub: int = if s >= 0 {
        s as int
    } else {
        s + 0x100
    };
    flags_byte(false, false, sp % 0x10 + ub % 0x10 > 0x0F, sp % 0x100 + ub > 0xFF)
}

/// Rotate left circular: bit 7 moves to bit 0 and into the carry.
pub open spec fn spec_rlc(v: u8) -> (u8, bool) {
    (((v % 0x80) * 2 + v / 0x80) as u8, v >= 0x80)
}

/// Rotate left through carry: the carry-in becomes bit 0, bit 7 the carry.
pub open spec fn spec_rl(v: u8, carry_in: bool) -> (u8, bool) {
    (
        ((v % 0x80) * 2 + (if carry_in {
            1int
        } else {
            0int
        })) as u8,
        v >= 0x80,
    )
}

/// Rotate right circular: bit 0 moves to bit 7 and into the carry.
pub open spec fn spec_rrc(v: u8) -> (u8, bool) {
    ((v / 2 + (v % 2) * 0x80) as u8, v % 2 == 1)
}

/// Rotate right through carry: the carry-in becomes bit 7, bit 0 the carry.
pub open spec fn spec_rr(v: u8, carry_in: bool) -> (u8, bool) {
    (
        (v / 2 + (if carry_in {
            0x80int
        } else {
            0int
        })) as u8,
        v % 2 == 1,
    )
}

/// Shift left arithmetic: bit 7 into the carry, zero into bit 0.
pub open spec fn spec_sla(v: u8) -> (u8, bool) {
    (((v % 0x80) * 2) as u8, v >= 0x80)
}

/// Shift right arithmetic: bit 0 into the carry, bit 7 kept.
pub open spec fn spec_sra(v: u8) -> (u8, bool) {
    ((v / 2 + (v / 0x80) * 0x80) as u8, v % 2 == 1)
}

/// Shift right logical: bit 0 into the carry, zero into bit 7.
pub open spec fn spec_srl(v: u8) -> (u8, bool) {
    ((v / 2) as u8, v % 2 == 1)
}

/// Swap the two nibbles; the carry is always cleared.
pub open spec fn spec_swap(v: u8) -> (u8, bool) {
    (((v % 0x10) * 0x10 + v / 0x10) as u8, false)
}

/// The flag byte of an extended-table rotate or shift result.
pub open spec fn rot_flags(res: u8, carry: bool) -> u8 {
    flags_byte(res == 0, false, false, carry)
}

/// The bit weight of bit index `k` (taken modulo eight).
pub open spec fn spec_pow2(k: u8) -> u8 {
    let m = k % 8;
    if m == 0 {
        1
    } else if m == 1 {
        2
    } else if m == 2 {
        4
    } else if m == 3 {
        8
    } else if m == 4 {
        0x10
    } else if m == 5 {
        0x20
    } else if m == 6 {
        0x40
    } else {
        0x80
    }
}

/// Whether bit `k` of a byte is set.
pub open spec fn spec_bit_test(v: u8, k: u8) -> bool {
    (v / spec_pow2(k)) % 2 == 1
}

/// The byte with bit `k` set.
pub open spec fn spec_set_bit(v: u8, k: u8) -> u8 {
    if spec_bit_test(v, k) {
        v
    } else {
        (v + spec_pow2(k)) as u8
    }
}

/// The byte with bit `k` cleared.
pub open spec fn spec_res_bit(v: u8, k: u8) -> u8 {
    if spec_bit_test(v, k) {
        (v - spec_pow2(k)) as u8
    } else {
        v
    }
}

/// Decimal adjust after addition or subtraction: folds each binary nibble
/// overflow back into binary-coded decimal.  In add mode the carry flag
/// records whether the high adjustment fired; in subtract mode it is kept.
/// The half-carry flag is always cleared and the subtract flag kept.
pub open spec fn spec_daa(a: u8, f: u8) -> (u8, u8) {
    let n = spec_flag(f, Flag::AddSub);
    let h = spec_flag(f, Flag::HalfCarry);
    let c = spec_carry(f);
    if !n {
        let high = c || a > 0x99;
        let a1 = if high {
            (a + 0x60) % 0x100
        } else {
            a as int
        };
        let a2 = if h || a1 % 0x10 > 9 {
            (a1 + 6) % 0x100
        } else {
            a1
        };
        (a2 as u8, flags_byte(a2 == 0, false, false, high))
    } else {
        let a1 = if c {
            (a + 0x100 - 0x60) % 0x100
        } else {
            a as int
        };
        let a2 = if h {
            (a1 + 0x100 - 6) % 0x100
        } else {
            a1
        };
        (a2 as u8, flags_byte(a2 == 0, true, false, c))
    }
}

/// The bus after a 16-bit value is pushed: the stack pointer moves down by
/// two, the low byte lands at the new stack pointer and the high byte right
/// above it.
pub open spec fn spec_push(b: BusView, sp: u16, v: u16) -> BusView {
    let sp2 = sp.wrapping_sub(2);
    bus_write(bus_write(b, sp2, spec_lo(v)), sp2.wrapping_add(1), spec_hi(v))
}

/// The 16-bit value a pop reads: the low byte at the stack pointer, the
/// high byte right above it.
pub open spec fn spec_pop_value(b: BusView, sp: u16) -> u16 {
    spec_pack(bus_read(b, sp), bus_read(b, sp.wrapping_add(1)))
}

/// Whether an instruction's branch is taken for the given register file.
pub open spec fn exec_branch(i: Instruction, r: Registers) -> bool {
    match i {
        Instruction::JpCondIi(c, _) => spec_cond(c, r.f),
        Instruction::JrCondS(c, _) => spec_cond(c, r.f),
        Instruction::CallCondIi(c, _) => spec_cond(c, r.f),
        Instruction::RetCond(c) => spec_cond(c, r.f),
        _ => false,
    }
}

/// The interrupt-master-enable flag after an instruction.
pub open spec fn exec_ime(i: Instruction, ime: bool) -> bool {
    match i {
        Instruction::Di => false,
        Instruction::Ei => true,
        Instruction::Reti => true,
        _ => ime,
    }
}

/// Whether executing an instruction leaves the CPU halted.
pub open spec fn exec_halts(i: Instruction) -> bool {
    i is Halt || i is Undefined
}

/// The register file after an instruction executes, given the register file
/// at execution time (the program counter already past the instruction) and
/// the bus it reads from.
pub open spec fn exec_regs(i: Instruction, r: Registers, b: BusView) -> Registers {
    let hl = r.spec_r16(Register16::HL);
    let sp = r.sp;
    match i {
        Instruction::LdRR(dst, src) => r.spec_write8(dst, r.spec_r8(src)),
        Instruction::LdRI(dst, imm) => r.spec_write8(dst, imm),
        Instruction::LdRHl(dst) => r.spec_write8(dst, bus_read(b, hl)),
        Instruction::LdHlR(_) => r,
        Instruction::LdHlI(_) => r,
        Instruction::LdARr(rr) => Registers { a: bus_read(b, r.spec_r16(rr)), ..r },
        Instruction::LdAI(imm) => Registers { a: imm, ..r },
        Instruction::LdRrA(_) => r,
        Instruction::LdAIi(ii) => Registers { a: bus_read(b, ii), ..r },
        Instruction::LdAIo(n) => Registers { a: bus_read(b, (0xFF00 + n) as u16), ..r },
        Instruction::LdIoA(_) => r,
        Instruction::LdIiA(_) => r,
        Instruction::LdAIoc => Registers { a: bus_read(b, (0xFF00 + r.c) as u16), ..r },
        Instruction::LdIocA => r,
        Instruction::LdiHlA => r.spec_write16(Register16::HL, hl.wrapping_add(1)),
        Instruction::LdiAHl => (Registers { a: bus_read(b, hl), ..r }).spec_write16(
            Register16::HL,
            hl.wrapping_add(1),
        ),
        Instruction::LddHlA => r.spec_write16(Register16::HL, hl.wrapping_sub(1)),
        Instruction::LddAHl => (Registers { a: bus_read(b, hl), ..r }).spec_write16(
            Register16::HL,
            hl.wrapping_sub(1),
        ),
        Instruction::LdRrIi(rr, ii) => r.spec_write16(rr, ii),
        Instruction::LdSpHl => Registers { sp: hl, ..r },
        Instruction::LdIiSp(_) => r,
        Instruction::PushRr(_) => Registers { sp: sp.wrapping_sub(2), ..r },
        Instruction::Pop(rr) => (Registers { sp: sp.wrapping_add(2), ..r }).spec_write16(
            rr,
            spec_pop_value(b, sp),
        ),
        Instruction::AddAR(src) => {
            let (res, f) = spec_add8(r.a, r.spec_r8(src), false);
            Registers { a: res, f, ..r }
        }
        Instruction::AddAI(imm) => {
            let (res, f) = spec_add8(r.a, imm, false);
            Registers { a: res, f, ..r }
        }
        Instruction::AddAHl => {
            let (res, f) = spec_add8(r.a, bus_read(b, hl), false);
            Registers { a: res, f, ..r }
        }
        Instruction::AdcAR(src) => {
            let (res, f) = spec_add8(r.a, r.spec_r8(src), spec_carry(r.f));
            Registers { a: res, f, ..r }
        }
        Instruction::AdcAI(imm) => {
            let (res, f) = spec_add8(r.a, imm, spec_carry(r.f));
            Registers { a: res, f, ..r }
        }
        Instruction::AdcAHl => {
            let (res, f) = spec_add8(r.a, bus_read(b, hl), spec_carry(r.f));
            Registers { a: res, f, ..r }
        }
        Instruction::SubAR(src) => {
            let (res, f) = spec_sub8(r.a, r.spec_r8(src), false);
            Registers { a: res, f, ..r }
        }
        Instruction::SubAI(imm) => {
            let (res, f) = spec_sub8(r.a, imm, false);
            Registers { a: res, f, ..r }
        }
        Instruction::SubAHl => {
            let (res, f) = spec_sub8(r.a, bus_read(b, hl), false);
            Registers { a: res, f, ..r }
        }
        Instruction::SbcAR(src) => {
            let (res, f) = spec_sub8(r.a, r.spec_r8(src), spec_carry(r.f));
            Registers { a: res, f, ..r }
        }
        Instruction::SbcAI(imm) => {
            let (res, f) = spec_sub8(r.a, imm, spec_carry(r.f));
            Registers { a: res, f, ..r }
        }
        Instruction::SbcAHl => {
            let (res, f) = spec_sub8(r.a, bus_read(b, hl), spec_carry(r.f));
            Registers { a: res, f, ..r }
        }
        Instruction::AndAR(src) => {
            let (res, f) = spec_and8(r.a, r.spec_r8(src));
            Registers { a: res, f, ..r }
        }
        Instruction::AndAI(imm) => {
            let (res, f) = spec_and8(r.a, imm);
            Registers { a: res, f, ..r }
        }
        Instruction::AndAHl => {
            let (res, f) = spec_and8(r.a, bus_read(b, hl));
            Registers { a: res, f, ..r }
        }
        Instruction::XorAR(src) => {
            let (res, f) = spec_xor8(r.a, r.spec_r8(src));
            Registers { a: res, f, ..r }
        }
        Instruction::XorAI(imm) => {
            let (res, f) = spec_xor8(r.a, imm);
            Registers { a: res, f, ..r }
        }
        Instruction::XorAHl => {
            let (res, f) = spec_xor8(r.a, bus_read(b, hl));
            Registers { a: res, f, ..r }
        }
        Instruction::OrAR(src) => {
            let (res, f) = spec_or8(r.a, r.spec_r8(src));
            Registers { a: res, f, ..r }
        }
        Instruction::OrAI(imm) => {
            let (res, f) = spec_or8(r.a, imm);
            Registers { a: res, f, ..r }
        }
        Instruction::OrAHl => {
            let (res, f) = spec_or8(r.a, bus_read(b, hl));
            Registers { a: res, f, ..r }
        }
        Instruction::CpAR(src) => Registers { f: spec_sub8(r.a, r.spec_r8(src), false).1, ..r },
        Instruction::CpAI(imm) => Registers { f: spec_sub8(r.a, imm, false).1, ..r },
        Instruction::CpAHl => Registers { f: spec_sub8(r.a, bus_read(b, hl), false).1, ..r },
        Instruction::IncR(reg) => {
            let (res, f) = spec_inc8(r.spec_r8(reg), r.f);
            (Registers { f, ..r }).spec_write8(reg, res)
        }
        Instruction::IncHl => Registers { f: spec_inc8(bus_read(b, hl), r.f).1, ..r },
        Instruction::DecR(reg) => {
            let (res, f) = spec_dec8(r.spec_r8(reg), r.f);
            (Registers { f, ..r }).spec_write8(reg, res)
        }
        Instruction::DecHl => Registers { f: spec_dec8(bus_read(b, hl), r.f).1, ..r },
        Instruction::Daa => {
            let (a2, f) = spec_daa(r.a, r.f);
            Registers { a: a2, f, ..r }
        }
        Instruction::Cpl => Registers {
            a: (0xFF - r.a) as u8,
            f: flags_byte(spec_zero(r.f), true, true, spec_carry(r.f)),
            ..r
        },
        Instruction::AddHlRr(rr) => {
            let (res, f) = spec_add16(hl, r.spec_r16(rr), r.f);
            (Registers { f, ..r }).spec_write16(Register16::HL, res)
        }
        Instruction::AddSpS(s) => Registers {
            sp: spec_sp_offset(sp, s),
            f: spec_sp_flags(sp, s),
            ..r
        },
        Instruction::IncRr(rr) => r.spec_write16(rr, r.spec_r16(rr).wrapping_add(1)),
        Instruction::DecRr(rr) => r.spec_write16(rr, r.spec_r16(rr).wrapping_sub(1)),
        Instruction::LdHlSp(s) => (Registers { f: spec_sp_flags(sp, s), ..r }).spec_write16(
            Register16::HL,
            spec_sp_offset(sp, s),
        ),
        Instruction::Rlca => {
            let (res, c) = spec_rlc(r.a);
            Registers { a: res, f: flags_byte(false, false, false, c), ..r }
        }
        Instruction::Rla => {
            let (res, c) = spec_rl(r.a, spec_carry(r.f));
            Registers { a: res, f: flags_byte(false, false, false, c), ..r }
        }
        Instruction::Rrca => {
            let (res, c) = spec_rrc(r.a);
            Registers { a: res, f: flags_byte(false, false, false, c), ..r }
        }
        Instruction::Rra => {
            let (res, c) = spec_rr(r.a, spec_carry(r.f));
            Registers { a: res, f: flags_byte(false, false, false, c), ..r }
        }
        Instruction::RlcR(reg) => {
            let (res, c) = spec_rlc(r.spec_r8(reg));
            (Registers { f: rot_flags(res, c), ..r }).spec_write8(reg, res)
        }
        Instruction::RlcHl => {
            let (res, c) = spec_rlc(bus_read(b, hl));
            Registers { f: rot_flags(res, c), ..r }
        }
        Instruction::RlR(reg) => {
            let (res, c) = spec_rl(r.spec_r8(reg), spec_carry(r.f));
            (Registers { f: rot_flags(res, c), ..r }).spec_write8(reg, res)
        }
        Instruction::RlHl => {
            let (res, c) = spec_rl(bus_read(b, hl), spec_carry(r.f));
            Registers { f: rot_flags(res, c), ..r }
        }
        Instruction::RrcR(reg) => {
            let (res, c) = spec_rrc(r.spec_r8(reg));
            (Registers { f: rot_flags(res, c), ..r }).spec_write8(reg, res)
        }
        Instruction::RrcHl => {
            let (res, c) = spec_rrc(bus_read(b, hl));
            Registers { f: rot_flags(res, c), ..r }
        }
        Instruction::RrR(reg) => {
            let (res, c) = spec_rr(r.spec_r8(reg), spec_carry(r.f));
            (Registers { f: rot_flags(res, c), ..r }).spec_write8(reg, res)
        }
        Instruction::RrHl => {
            let (res, c) = spec_rr(bus_read(b, hl), spec_carry(r.f));
            Registers { f: rot_flags(res, c), ..r }
        }
        Instruction::SlaR(reg) => {
            let (res, c) = spec_sla(r.spec_r8(reg));
            (Registers { f: rot_flags(res, c), ..r }).spec_write8(reg, res)
        }
        Instruction::SlaHl => {
            let (res, c) = spec_sla(bus_read(b, hl));
            Registers { f: rot_flags(res, c), ..r }
        }
        Instruction::SwapR(reg) => {
            let (res, c) = spec_swap(r.spec_r8(reg));
            (Registers { f: rot_flags(res, c), ..r }).spec_write8(reg, res)
        }
        Instruction::SwapHl => {
            let (res, c) = spec_swap(bus_read(b, hl));
            Registers { f: rot_flags(res, c), ..r }
        }
        Instruction::SraR(reg) => {
            let (res, c) = spec_sra(r.spec_r8(reg));
            (Registers { f: rot_flags(res, c), ..r }).spec_write8(reg, res)
        }
        Instruction::SraHl => {
            let (res, c) = spec_sra(bus_read(b, hl));
            Registers { f: rot_flags(res, c), ..r }
        }
        Instruction::SrlR(reg) => {
            let (res, c) = spec_srl(r.spec_r8(reg));
            (Registers { f: rot_flags(res, c), ..r }).spec_write8(reg, res)
        }
        Instruction::SrlHl => {
            let (res, c) = spec_srl(bus_read(b, hl));
            Registers { f: rot_flags(res, c), ..r }
        }
        Instruction::BitIR(k, reg) => Registers {
            f: flags_byte(!spec_bit_test(r.spec_r8(reg), k), false, true, spec_carry(r.f)),
            ..r
        },
        Instruction::BitIHl(k) => Registers {
            f: flags_byte(!spec_bit_test(bus_read(b, hl), k), false, true, spec_carry(r.f)),
            ..r
        },
        Instruction::SetIR(k, reg) => r.spec_write8(reg, spec_set_bit(r.spec_r8(reg), k)),
        Instruction::SetIHl(_) => r,
        Instruction::ResIR(k, reg) => r.spec_write8(reg, spec_res_bit(r.spec_r8(reg), k)),
        Instruction::ResIHl(_) => r,
        Instruction::Ccf => Registers {
            f: flags_byte(spec_zero(r.f), false, false, !spec_carry(r.f)),
            ..r
        },
        Instruction::Scf => Registers {
            f: flags_byte(spec_zero(r.f), false, false, true),
            ..r
        },
        Instruction::Nop => r,
        Instruction::Halt => r,
        Instruction::Stop => r,
        Instruction::Di => r,
        Instruction::Ei => r,
        Instruction::JpIi(ii) => Registers { pc: ii, ..r },
        Instruction::JpCondIi(c, ii) => if spec_cond(c, r.f) {
            Registers { pc: ii, ..r }
        } else {
            r
        },
        Instruction::JpHl => Registers { pc: hl, ..r },
        Instruction::JrS(s) => Registers { pc: r.pc.wrapping_add_signed(s as i16), ..r },
        Instruction::JrCondS(c, s) => if spec_cond(c, r.f) {
            Registers { pc: r.pc.wrapping_add_signed(s as i16), ..r }
        } else {
            r
        },
        Instruction::CallIi(a) => Registers { sp: sp.wrapping_sub(2), pc: a, ..r },
        Instruction::CallCondIi(c, a) => if spec_cond(c, r.f) {
            Registers { sp: sp.wrapping_sub(2), pc: a, ..r }
        } else {
            r
        },
        Instruction::Ret => Registers {
            sp: sp.wrapping_add(2),
            pc: spec_pop_value(b, sp),
            ..r
        },
        Instruction::RetCond(c) => if spec_cond(c, r.f) {
            Registers { sp: sp.wrapping_add(2), pc: spec_pop_value(b, sp), ..r }
        } else {
            r
        },
        Instruction::Reti => Registers {
            sp: sp.wrapping_add(2),
            pc: spec_pop_value(b, sp),
            ..r
        },
        Instruction::Rst(t) => Registers { sp: sp.wrapping_sub(2), pc: t as u16, ..r },
        Instruction::Undefined(_) => r,
    }
}

/// The bus after an instruction executes, given the register file at
/// execution time and the bus before.
pub open spec fn exec_bus(i: Instruction, r: Registers, b: BusView) -> BusView {
    let hl = r.spec_r16(Register16::HL);
    let sp = r.sp;
    match i {
        Instruction::LdHlR(src) => bus_write(b, hl, r.spec_r8(src)),
        Instruction::LdHlI(imm) => bus_write(b, hl, imm),
        Instruction::LdRrA(rr) => bus_write(b, r.spec_r16(rr), r.a),
        Instruction::LdIoA(n) => bus_write(b, (0xFF00 + n) as u16, r.a),
        Instruction::LdIocA => bus_write(b, (0xFF00 + r.c) as u16, r.a),
        Instruction::LdIiA(ii) => bus_write(b, ii, r.a),
        Instruction::LdIiSp(ii) => bus_write(
            bus_write(b, ii, spec_lo(sp)),
            ii.wrapping_add(1),
            spec_hi(sp),
        ),
        Instruction::LdiHlA => bus_write(b, hl, r.a),
        Instruction::LddHlA => bus_write(b, hl, r.a),
        Instruction::PushRr(rr) => spec_push(b, sp, r.spec_r16(rr)),
        Instruction::CallIi(_) => spec_push(b, sp, r.pc),
        Instruction::CallCondIi(c, _) => if spec_cond(c, r.f) {
            spec_push(b, sp, r.pc)
        } else {
            b
        },
        Instruction::Rst(_) => spec_push(b, sp, r.pc),
        Instruction::IncHl => bus_write(b, hl, spec_inc8(bus_read(b, hl), r.f).0),
        Instruction::DecHl => bus_write(b, hl, spec_dec8(bus_read(b, hl), r.f).0),
        Instruction::RlcHl => bus_write(b, hl, spec_rlc(bus_read(b, hl)).0),
        Instruction::RlHl => bus_write(b, hl, spec_rl(bus_read(b, hl), spec_carry(r.f)).0),
        Instruction::RrcHl => bus_write(b, hl, spec_rrc(bus_read(b, hl)).0),
        Instruction::RrHl => bus_write(b, hl, spec_rr(bus_read(b, hl), spec_carry(r.f)).0),
        Instruction::SlaHl => bus_write(b, hl, spec_sla(bus_read(b, hl)).0),
        Instruction::SwapHl => bus_write(b, hl, spec_swap(bus_read(b, hl)).0),
        Instruction::SraHl => bus_write(b, hl, spec_sra(bus_read(b, hl)).0),
        Instruction::SrlHl => bus_write(b, hl, spec_srl(bus_read(b, hl)).0),
        Instruction::SetIHl(k) => bus_write(b, hl, spec_set_bit(bus_read(b, hl), k)),
        Instruction::ResIHl(k) => bus_write(b, hl, spec_res_bit(bus_read(b, hl), k)),
        _ => b,
    }
}



/// One atomic step of the engine as a function: the CPU after, the bus
/// after, and the clock cycles used.  A halted CPU stays unchanged and uses
/// one machine cycle of four clock cycles.
#[verifier::opaque]
pub open spec fn spec_step(cpu: Cpu, b: BusView) -> (Cpu, BusView, u8) {
    if cpu.is_halted {
        (cpu, b, 4)
    } else {
        let pc = cpu.registers.pc;
        let i = spec_decode(
            bus_read(b, pc),
            bus_read(b, pc.wrapping_add(1)),
            bus_read(b, pc.wrapping_add(2)),
        );
        let r1 = Registers { pc: pc.wrapping_add(size_spec(i) as u16), ..cpu.registers };
        (
            Cpu {
                ime: exec_ime(i, cpu.ime),
                is_halted: exec_halts(i),
                registers: exec_regs(i, r1, b),
            },
            exec_bus(i, r1, b),
            if exec_branch(i, r1) {
                cycles_on_branch_spec(i)
            } else {
                cycles_spec(i)
            },
        )
    }
}

/// The CPU and bus after stepping under a cycle budget: steps are taken
/// until the budget is exhausted or overshot; a step that uses no cycles
/// cannot reduce the budget and ends the run.
pub open spec fn spec_run(cpu: Cpu, b: BusView, budget: int) -> (Cpu, BusView)
    decreases budget,
{
    if budget <= 0 {
        (cpu, b)
    } else {
        let (cpu2, b2, used) = spec_step(cpu, b);
        if used == 0 || budget - used <= 0 {
            (cpu2, b2)
        } else {
            spec_run(cpu2, b2, budget - used)
        }
    }
}

/// Exec mirror of [`flags_byte`].
fn flags_byte_x(z: bool, n: bool, h: bool, c: bool) -> (r: u8)
    ensures
        r == flags_byte(z, n, h, c),
{
    (if z {
        0x80u8
    } else {
        0u8
    }) + (if n {
        0x40u8
    } else {
        0u8
    }) + (if h {
        0x20u8
    } else {
        0u8
    }) + (if c {
        0x10u8
    } else {
        0u8
    })
}

/// Exec mirror of [`spec_cond`].
fn cond_x(c: Condition, f: u8) -> (r: bool)
    ensures
        r == spec_cond(c, f),
{
    match c {
        Condition::NotZero => (f / 0x80) % 2 == 0,
        Condition::IsZero => (f / 0x80) % 2 == 1,
        Condition::NotCarry => (f / 0x10) % 2 == 0,
        Condition::IsCarry => (f / 0x10) % 2 == 1,
    }
}

/// Exec mirror of [`spec_add8`].
fn add8_x(a: u8, b: u8, carry_in: bool) -> (r: (u8, u8))
    ensures
        r == spec_add8(a, b, carry_in),
{
    let ci: u16 = if carry_in {
        1
    } else {
        0
    };
    let sum: u16 = a as u16 + b as u16 + ci;
    let res: u8 = (sum % 0x100) as u8;
    (res, flags_byte_x(res == 0, false, a % 0x10 + b % 0x10 + (ci as u8) > 0x0F, sum > 0xFF))
}

/// Exec mirror of [`spec_sub8`].
fn sub8_x(a: u8, b: u8, borrow_in: bool) -> (r: (u8, u8))
    ensures
        r == spec_sub8(a, b, borrow_in),
{
    let bi: u16 = if borrow_in {
        1
    } else {
        0
    };
    let diff: u16 = (a as u16 + 0x100) - b as u16 - bi;
    let res: u8 = (diff % 0x100) as u8;
    (
        res,
        flags_byte_x(
            res == 0,
            true,
            a % 0x10 < b % 0x10 + (bi as u8),
            (a as u16) < b as u16 + bi,
        ),
    )
}

/// Exec mirror of [`spec_inc8`].
fn inc8_x(v: u8, f: u8) -> (r: (u8, u8))
    ensures
        r == spec_inc8(v, f),
{
    let res: u8 = v.wrapping_add(1);
    (res, flags_byte_x(res == 0, false, v % 0x10 == 0x0F, (f / 0x10) % 2 == 1))
}

/// Exec mirror of [`spec_dec8`].
fn dec8_x(v: u8, f: u8) -> (r: (u8, u8))
    ensures
        r == spec_dec8(v, f),
{
    let res: u8 = if v == 0 {
        0xFF
    } else {
        v - 1
    };
    (res, flags_byte_x(res == 0, true, v % 0x10 == 0, (f / 0x10) % 2 == 1))
}

/// Exec mirror of [`spec_add16`].
fn add16_x(hl: u16, rr: u16, f: u8) -> (r: (u16, u8))
    ensures
        r == spec_add16(hl, rr, f),
{
    let sum: u32 = hl as u32 + rr as u32;
    let res: u16 = (sum % 0x10000) as u16;
    (
        res,
        flags_byte_x(
            (f / 0x80) % 2 == 1,
            false,
            hl % 0x1000 + rr % 0x1000 > 0xFFF,
            sum > 0xFFFF,
        ),
    )
}

/// Exec mirror of [`spec_sp_flags`].
fn sp_flags_x(sp: u16, s: i8) -> (r: u8)
    ensures
        r == spec_sp_flags(sp, s),
{
    let ub: u16 = if s >= 0 {
        s as u16
    } else {
        (s as i16 + 0x100) as u16
    };
    flags_byte_x(false, false, sp % 0x10 + ub % 0x10 > 0x0F, sp % 0x100 + ub > 0xFF)
}

/// Exec mirror of [`spec_rlc`].
fn rlc_x(v: u8) -> (r: (u8, bool))
    ensures
        r == spec_rlc(v),
{
    ((v % 0x80) * 2 + v / 0x80, v >= 0x80)
}

/// Exec mirror of [`spec_rl`].
fn rl_x(v: u8, carry_in: bool) -> (r: (u8, bool))
    ensures
        r == spec_rl(v, carry_in),
{
    (
        (v % 0x80) * 2 + (if carry_in {
            1
        } else {
            0
        }),
        v >= 0x80,
    )
}

/// Exec mirror of [`spec_rrc`].
fn rrc_x(v: u8) -> (r: (u8, bool))
    ensures
        r == spec_rrc(v),
{
    (v / 2 + (v % 2) * 0x80, v % 2 == 1)
}

/// Exec mirror of [`spec_rr`].
fn rr_x(v: u8, carry_in: bool) -> (r: (u8, bool))
    ensures
        r == spec_rr(v, carry_in),
{
    (
        v / 2 + (if carry_in {
            0x80
        } else {
            0
        }),
        v % 2 == 1,
    )
}

/// Exec mirror of [`spec_sla`].
fn sla_x(v: u8) -> (r: (u8, bool))
    ensures
        r == spec_sla(v),
{
    ((v % 0x80) * 2, v >= 0x80)
}

/// Exec mirror of [`spec_sra`].
fn sra_x(v: u8) -> (r: (u8, bool))
    ensures
        r == spec_sra(v),
{
    (v / 2 + (v / 0x80) * 0x80, v % 2 == 1)
}

/// Exec mirror of [`spec_srl`].
fn srl_x(v: u8) -> (r: (u8, bool))
    ensures
        r == spec_srl(v),
{
    (v / 2, v % 2 == 1)
}

/// Exec mirror of [`spec_swap`].
fn swap_x(v: u8) -> (r: (u8, bool))
    ensures
        r == spec_swap(v),
{
    ((v % 0x10) * 0x10 + v / 0x10, false)
}

/// Exec mirror of [`spec_pow2`].
fn pow2_x(k: u8) -> (r: u8)
    ensures
        r == spec_pow2(k),
{
    let m = k % 8;
    if m == 0 {
        1
    } else if m == 1 {
        2
    } else if m == 2 {
        4
    } else if m == 3 {
        8
    } else if m == 4 {
        0x10
    } else if m == 5 {
        0x20
    } else if m == 6 {
        0x40
    } else {
        0x80
    }
}

/// Exec mirror of [`spec_bit_test`].
fn bit_test_x(v: u8, k: u8) -> (r: bool)
    ensures
        r == spec_bit_test(v, k),
{
    (v / pow2_x(k)) % 2 == 1
}

/// Exec mirror of [`spec_set_bit`].
fn set_bit_x(v: u8, k: u8) -> (r: u8)
    ensures
        r == spec_set_bit(v, k),
{
    let p = pow2_x(k);
    if (v / p) % 2 == 1 {
        v
    } else {
        v + p
    }
}

/// Exec mirror of [`spec_res_bit`].
fn res_bit_x(v: u8, k: u8) -> (r: u8)
    ensures
        r == spec_res_bit(v, k),
{
    let p = pow2_x(k);
    if (v / p) % 2 == 1 {
        v - p
    } else {
        v
    }
}

/// Exec mirror of [`spec_daa`].
fn daa_x(a: u8, f: u8) -> (r: (u8, u8))
    ensures
        r == spec_daa(a, f),
{
    let n: bool = (f / 0x40) % 2 == 1;
    let h: bool = (f / 0x20) % 2 == 1;
    let c: bool = (f / 0x10) % 2 == 1;
    if !n {
        let high: bool = c || a > 0x99;
        let a1: u16 = if high {
            (a as u16 + 0x60) % 0x100
        } else {
            a as u16
        };
        let a2: u16 = if h || a1 % 0x10 > 9 {
            (a1 + 6) % 0x100
        } else {
            a1
        };
        (a2 as u8, flags_byte_x(a2 == 0, false, false, high))
    } else {
        let a1: u16 = if c {
            (a as u16 + 0x100 - 0x60) % 0x100
        } else {
            a as u16
        };
        let a2: u16 = if h {
            (a1 + 0x100 - 6) % 0x100
        } else {
            a1
        };
        (a2 as u8, flags_byte_x(a2 == 0, true, false, c))
    }
}

/// A central processing unit: the register file, the halt state, and the
/// interrupt-master-enable flag.
#[derive(Debug, Clone, Copy)]
pub struct Cpu {
    pub ime: bool,
    pub is_halted: bool,
    pub registers: Registers,
}

impl Cpu {
    /// The engine invariant: the register file is well formed.
    pub open spec fn wf(self) -> bool {
        self.registers.wf()
    }

    /// A power-on CPU: running, interrupts disabled, all registers zero.
    pub fn new() -> (r: Cpu)
        ensures
            r.ime == false,
            r.is_halted == false,
            r.registers == (Registers {
                a: 0,
                f: 0,
                b: 0,
                c: 0,
                d: 0,
                e: 0,
                h: 0,
                l: 0,
                sp: 0,
                pc: 0,
            }),
            r.wf(),
    {
        Cpu { ime: false, is_halted: false, registers: Registers::new() }
    }

    /// Return a reference to the CPU's registers
    pub fn registers(&self) -> (r: &Registers)
        ensures
            *r == self.registers,
    {
        &self.registers
    }

    /// Returns true if the CPU is halted
    pub fn is_halted(&self) -> (r: bool)
        ensures
            r == self.is_halted,
    {
        self.is_halted
    }

    /// Execute the instruction at the program counter and advance the CPU
    /// one step; returns the number of clock cycles used, with the
    /// branch-taken cost exactly when the instruction's condition held.  A
    /// halted CPU stays unchanged and uses one machine cycle.
    pub fn step<S: Swram>(&mut self, memory: &mut Mmu<S>) -> (cycles: u8)
        requires
            old(self).wf(),
            old(memory).inv(),
        ensures
            final(self).wf(),
            final(memory).inv(),
            old(self).is_halted ==> *final(self) == *old(self) && final(memory)@ == old(memory)@
                && cycles == 4,
            !old(self).is_halted ==> ({
                let b = old(memory)@;
                let pc = old(self).registers.pc;
                let i = spec_decode(
                    bus_read(b, pc),
                    bus_read(b, pc.wrapping_add(1)),
                    bus_read(b, pc.wrapping_add(2)),
                );
                let r1 = Registers {
                    pc: pc.wrapping_add(size_spec(i) as u16),
                    ..old(self).registers
                };
                &&& final(self).registers == exec_regs(i, r1, b)
                &&& final(memory)@ == exec_bus(i, r1, b)
                &&& final(self).is_halted == exec_halts(i)
                &&& final(self).ime == exec_ime(i, old(self).ime)
                &&& cycles == (if exec_branch(i, r1) {
                    cycles_on_branch_spec(i)
                } else {
                    cycles_spec(i)
                })
            }),
            ({
                let (c2, b2, used) = spec_step(*old(self), old(memory)@);
                &&& *final(self) == c2
                &&& final(memory)@ == b2
                &&& cycles == used
            }),
    {
        proof {
            reveal(spec_step);
        }
        if self.is_halted {
            return 4;
        }
        let instruction = decode(memory, self.registers.pc);
        let size = instruction.size();
        self.registers.pc = self.registers.pc.wrapping_add(size as u16);
        let did_branch = self.execute(instruction, memory);
        if did_branch {
            instruction.cycles_on_branch()
        } else {
            instruction.cycles()
        }
    }

    /// Set the accumulator and flags from an 8-bit addition.
    fn alu_add(&mut self, value: u8, carry_in: bool)
        ensures
            final(self).registers == ({
                let (res, f) = spec_add8(old(self).registers.a, value, carry_in);
                Registers { a: res, f, ..old(self).registers }
            }),
            final(self).ime == old(self).ime,
            final(self).is_halted == old(self).is_halted,
    {
        let (res, f) = add8_x(self.registers.a, value, carry_in);
        self.registers.a = res;
        self.registers.f = f;
    }

    /// Set the accumulator and flags from an 8-bit subtraction.
    fn alu_sub(&mut self, value: u8, borrow_in: bool)
        ensures
            final(self).registers == ({
                let (res, f) = spec_sub8(old(self).registers.a, value, borrow_in);
                Registers { a: res, f, ..old(self).registers }
            }),
            final(self).ime == old(self).ime,
            final(self).is_halted == old(self).is_halted,
    {
        let (res, f) = sub8_x(self.registers.a, value, borrow_in);
        self.registers.a = res;
        self.registers.f = f;
    }

    /// Set the flags from a comparison; the accumulator is kept.
    fn alu_cp(&mut self, value: u8)
        ensures
            final(self).registers == (Registers {
                f: spec_sub8(old(self).registers.a, value, false).1,
                ..old(self).registers
            }),
            final(self).ime == old(self).ime,
            final(self).is_halted == old(self).is_halted,
    {
        let (_, f) = sub8_x(self.registers.a, value, false);
        self.registers.f = f;
    }

    /// Set the accumulator and flags from a bitwise AND.
    fn alu_and(&mut self, value: u8)
        ensures
            final(self).registers == ({
                let (res, f) = spec_and8(old(self).registers.a, value);
                Registers { a: res, f, ..old(self).registers }
            }),
            final(self).ime == old(self).ime,
            final(self).is_halted == old(self).is_halted,
    {
        let res = self.registers.a & value;
        self.registers.a = res;
        self.registers.f = flags_byte_x(res == 0, false, true, false);
    }

    /// Set the accumulator and flags from a bitwise XOR.
    fn alu_xor(&mut self, value: u8)
        ensures
            final(self).registers == ({
                let (res, f) = spec_xor8(old(self).registers.a, value);
                Registers { a: res, f, ..old(self).registers }
            }),
            final(self).ime == old(self).ime,
            final(self).is_halted == old(self).is_halted,
    {
        let res = self.registers.a ^ value;
        self.registers.a = res;
        self.registers.f = flags_byte_x(res == 0, false, false, false);
    }

    /// Set the accumulator and flags from a bitwise OR.
    fn alu_or(&mut self, value: u8)
        ensures
            final(self).registers == ({
                let (res, f) = spec_or8(old(self).registers.a, value);
                Registers { a: res, f, ..old(self).registers }
            }),
            final(self).ime == old(self).ime,
            final(self).is_halted == old(self).is_halted,
    {
        let res = self.registers.a | value;
        self.registers.a = res;
        self.registers.f = flags_byte_x(res == 0, false, false, false);
    }

    /// Push a 16-bit value: the stack pointer moves down by two, then the
    /// low byte lands at the new stack pointer and the high byte above it.
    fn push16<S: Swram>(&mut self, value: u16, memory: &mut Mmu<S>)
        requires
            old(memory).inv(),
        ensures
            final(memory).inv(),
            final(memory)@ == spec_push(old(memory)@, old(self).registers.sp, value),
            final(self).registers == (Registers {
                sp: old(self).registers.sp.wrapping_sub(2),
                ..old(self).registers
            }),
            final(self).ime == old(self).ime,
            final(self).is_halted == old(self).is_halted,
    {
        let sp2 = self.registers.sp.wrapping_sub(2);
        let (lo, hi) = crate::util::split_doubleword(value);
        memory.write(sp2, lo);
        memory.write(sp2.wrapping_add(1), hi);
        self.registers.sp = sp2;
    }

    /// Pop a 16-bit value: the low byte at the stack pointer, the high byte
    /// above it; the stack pointer moves up by two.
    fn pop16<S: Swram>(&mut self, memory: &mut Mmu<S>) -> (r: u16)
        requires
            old(memory).inv(),
        ensures
            final(memory).inv(),
            final(memory)@ == old(memory)@,
            r == spec_pop_value(old(memory)@, old(self).registers.sp),
            final(self).registers == (Registers {
                sp: old(self).registers.sp.wrapping_add(2),
                ..old(self).registers
            }),
            final(self).ime == old(self).ime,
            final(self).is_halted == old(self).is_halted,
    {
        let sp = self.registers.sp;
        let v = memory.read_double(sp);
        self.registers.sp = sp.wrapping_add(2);
        v
    }

    /// Execute one of the 8-bit load instructions.
    #[verifier::spinoff_prover]
    #[verifier::rlimit(100)]
    fn execute_load8<S: Swram>(&mut self, instruction: Instruction, memory: &mut Mmu<S>) -> (did_branch:
        bool)
        requires
            old(self).wf(),
            old(memory).inv(),
            instruction is LdRR || instruction is LdRI || instruction is LdRHl || instruction is LdHlR || instruction is LdHlI || instruction is LdARr || instruction is LdAI || instruction is LdRrA || instruction is LdAIi || instruction is LdAIo || instruction is LdIoA || instruction is LdIiA || instruction is LdAIoc || instruction is LdIocA || instruction is LdiHlA || instruction is LdiAHl || instruction is LddHlA || instruction is LddAHl,
        ensures
            final(self).wf(),
            final(memory).inv(),
            final(self).registers == exec_regs(instruction, old(self).registers, old(memory)@),
            final(memory)@ == exec_bus(instruction, old(self).registers, old(memory)@),
            final(self).is_halted == (old(self).is_halted || exec_halts(instruction)),
            final(self).ime == exec_ime(instruction, old(self).ime),
            did_branch == exec_branch(instruction, old(self).registers),
    {
        match instruction {
            Instruction::LdRR(dst, src) => {
                let v = self.registers.read_register8(src);
                self.registers.write_register8(dst, v);
                false
            }
            Instruction::LdRI(dst, imm) => {
                self.registers.write_register8(dst, imm);
                false
            }
            Instruction::LdRHl(dst) => {
                let hl = self.registers.read_register16(Register16::HL);
                let v = memory.read(hl);
                self.registers.write_register8(dst, v);
                false
            }
            Instruction::LdHlR(src) => {
                let hl = self.registers.read_register16(Register16::HL);
                let v = self.registers.read_register8(src);
                memory.write(hl, v);
                false
            }
            Instruction::LdHlI(imm) => {
                let hl = self.registers.read_register16(Register16::HL);
                memory.write(hl, imm);
                false
            }
            Instruction::LdARr(rr) => {
                let addr = self.registers.read_register16(rr);
                self.registers.a = memory.read(addr);
                false
            }
            Instruction::LdAI(imm) => {
                self.registers.a = imm;
                false
            }
            Instruction::LdRrA(rr) => {
                let addr = self.registers.read_register16(rr);
                memory.write(addr, self.registers.a);
                false
            }
            Instruction::LdAIi(ii) => {
                self.registers.a = memory.read(ii);
                false
            }
            Instruction::LdAIo(n) => {
                self.registers.a = memory.read(0xFF00 + n as u16);
                false
            }
            Instruction::LdIoA(n) => {
                memory.write(0xFF00 + n as u16, self.registers.a);
                false
            }
            Instruction::LdIiA(ii) => {
                memory.write(ii, self.registers.a);
                false
            }
            Instruction::LdAIoc => {
                self.registers.a = memory.read(0xFF00 + self.registers.c as u16);
                false
            }
            Instruction::LdIocA => {
                memory.write(0xFF00 + self.registers.c as u16, self.registers.a);
                false
            }
            Instruction::LdiHlA => {
                let hl = self.registers.read_register16(Register16::HL);
                memory.write(hl, self.registers.a);
                self.registers.write_register16(Register16::HL, hl.wrapping_add(1));
                false
            }
            Instruction::LdiAHl => {
                let hl = self.registers.read_register16(Register16::HL);
                self.registers.a = memory.read(hl);
                self.registers.write_register16(Register16::HL, hl.wrapping_add(1));
                false
            }
            Instruction::LddHlA => {
                let hl = self.registers.read_register16(Register16::HL);
                memory.write(hl, self.registers.a);
                self.registers.write_register16(Register16::HL, hl.wrapping_sub(1));
                false
            }
            Instruction::LddAHl => {
                let hl = self.registers.read_register16(Register16::HL);
                self.registers.a = memory.read(hl);
                self.registers.write_register16(Register16::HL, hl.wrapping_sub(1));
                false
            }
            _ => false,
        }
    }

    /// Execute one of the 16-bit load and stack instructions.
    #[verifier::spinoff_prover]
    #[verifier::rlimit(100)]
    fn execute_load16<S: Swram>(&mut self, instruction: Instruction, memory: &mut Mmu<S>) -> (did_branch:
        bool)
        requires
            old(self).wf(),
            old(memory).inv(),
            instruction is LdRrIi || instruction is LdSpHl || instruction is LdIiSp || instruction is PushRr || instruction is Pop,
        ensures
            final(self).wf(),
            final(memory).inv(),
            final(self).registers == exec_regs(instruction, old(self).registers, old(memory)@),
            final(memory)@ == exec_bus(instruction, old(self).registers, old(memory)@),
            final(self).is_halted == (old(self).is_halted || exec_halts(instruction)),
            final(self).ime == exec_ime(instruction, old(self).ime),
            did_branch == exec_branch(instruction, old(self).registers),
    {
        match instruction {
            Instruction::LdRrIi(rr, ii) => {
                self.registers.write_register16(rr, ii);
                false
            }
            Instruction::LdSpHl => {
                let hl = self.registers.read_register16(Register16::HL);
                self.registers.sp = hl;
                false
            }
            Instruction::LdIiSp(ii) => {
                let (lo, hi) = crate::util::split_doubleword(self.registers.sp);
                memory.write(ii, lo);
                memory.write(ii.wrapping_add(1), hi);
                false
            }
            Instruction::PushRr(rr) => {
                let v = self.registers.read_register16(rr);
                self.push16(v, memory);
                false
            }
            Instruction::Pop(rr) => {
                let v = self.pop16(memory);
                self.registers.write_register16(rr, v);
                false
            }
            _ => false,
        }
    }

    /// Execute one of the 8-bit logic and compare instructions.
    #[verifier::spinoff_prover]
    #[verifier::rlimit(100)]
    fn execute_alu_logic<S: Swram>(&mut self, instruction: Instruction, memory: &mut Mmu<S>) -> (did_branch:
        bool)
        requires
            old(self).wf(),
            old(memory).inv(),
            instruction is AndAR || instruction is AndAI || instruction is AndAHl || instruction is XorAR || instruction is XorAI || instruction is XorAHl || instruction is OrAR || instruction is OrAI || instruction is OrAHl || instruction is CpAR || instruction is CpAI || instruction is CpAHl,
        ensures
            final(self).wf(),
            final(memory).inv(),
            final(self).registers == exec_regs(instruction, old(self).registers, old(memory)@),
            final(memory)@ == exec_bus(instruction, old(self).registers, old(memory)@),
            final(self).is_halted == (old(self).is_halted || exec_halts(instruction)),
            final(self).ime == exec_ime(instruction, old(self).ime),
            did_branch == exec_branch(instruction, old(self).registers),
    {
        match instruction {
            Instruction::AndAR(src) => {
                let v = self.registers.read_register8(src);
                self.alu_and(v);
                false
            }
            Instruction::AndAI(imm) => {
                self.alu_and(imm);
                false
            }
            Instruction::AndAHl => {
                let hl = self.registers.read_register16(Register16::HL);
                let v = memory.read(hl);
                self.alu_and(v);
                false
            }
            Instruction::XorAR(src) => {
                let v = self.registers.read_register8(src);
                self.alu_xor(v);
                false
            }
            Instruction::XorAI(imm) => {
                self.alu_xor(imm);
                false
            }
            Instruction::XorAHl => {
                let hl = self.registers.read_register16(Register16::HL);
                let v = memory.read(hl);
                self.alu_xor(v);
                false
            }
            Instruction::OrAR(src) => {
                let v = self.registers.read_register8(src);
                self.alu_or(v);
                false
            }
            Instruction::OrAI(imm) => {
                self.alu_or(imm);
                false
            }
            Instruction::OrAHl => {
                let hl = self.registers.read_register16(Register16::HL);
                let v = memory.read(hl);
                self.alu_or(v);
                false
            }
            Instruction::CpAR(src) => {
                let v = self.registers.read_register8(src);
                self.alu_cp(v);
                false
            }
            Instruction::CpAI(imm) => {
                self.alu_cp(imm);
                false
            }
            Instruction::CpAHl => {
                let hl = self.registers.read_register16(Register16::HL);
                let v = memory.read(hl);
                self.alu_cp(v);
                false
            }
            _ => false,
        }
    }

    /// Execute one of the accumulator rotate instructions.
    #[verifier::spinoff_prover]
    #[verifier::rlimit(100)]
    fn execute_rot_a<S: Swram>(&mut self, instruction: Instruction, memory: &mut Mmu<S>) -> (did_branch:
        bool)
        requires
            old(self).wf(),
            old(memory).inv(),
            instruction is Rlca || instruction is Rla || instruction is Rrca || instruction is Rra,
        ensures
            final(self).wf(),
            final(memory).inv(),
            final(self).registers == exec_regs(instruction, old(self).registers, old(memory)@),
            final(memory)@ == exec_bus(instruction, old(self).registers, old(memory)@),
            final(self).is_halted == (old(self).is_halted || exec_halts(instruction)),
            final(self).ime == exec_ime(instruction, old(self).ime),
            did_branch == exec_branch(instruction, old(self).registers),
    {
        match instruction {
            Instruction::Rlca => {
                let (res, c) = rlc_x(self.registers.a);
                self.registers.a = res;
                self.registers.f = flags_byte_x(false, false, false, c);
                false
            }
            Instruction::Rla => {
                let cin = self.registers.read_flag(Flag::Carry);
                let (res, c) = rl_x(self.registers.a, cin);
                self.registers.a = res;
                self.registers.f = flags_byte_x(false, false, false, c);
                false
            }
            Instruction::Rrca => {
                let (res, c) = rrc_x(self.registers.a);
                self.registers.a = res;
                self.registers.f = flags_byte_x(false, false, false, c);
                false
            }
            Instruction::Rra => {
                let cin = self.registers.read_flag(Flag::Carry);
                let (res, c) = rr_x(self.registers.a, cin);
                self.registers.a = res;
                self.registers.f = flags_byte_x(false, false, false, c);
                false
            }
            _ => false,
        }
    }

    /// Execute one of the single-bit test, set and reset instructions.
    #[verifier::spinoff_prover]
    #[verifier::rlimit(100)]
    fn execute_bit_ops<S: Swram>(&mut self, instruction: Instruction, memory: &mut Mmu<S>) -> (did_branch:
        bool)
        requires
            old(self).wf(),
            old(memory).inv(),
            instruction is BitIR || instruction is BitIHl || instruction is SetIR || instruction is SetIHl || instruction is ResIR || instruction is ResIHl,
        ensures
            final(self).wf(),
            final(memory).inv(),
            final(self).registers == exec_regs(instruction, old(self).registers, old(memory)@),
            final(memory)@ == exec_bus(instruction, old(self).registers, old(memory)@),
            final(self).is_halted == (old(self).is_halted || exec_halts(instruction)),
            final(self).ime == exec_ime(instruction, old(self).ime),
            did_branch == exec_branch(instruction, old(self).registers),
    {
        match instruction {
            Instruction::BitIR(k, reg) => {
                let v = self.registers.read_register8(reg);
                let set = bit_test_x(v, k);
                let c = self.registers.read_flag(Flag::Carry);
                self.registers.f = flags_byte_x(!set, false, true, c);
                false
            }
            Instruction::BitIHl(k) => {
                let hl = self.registers.read_register16(Register16::HL);
                let v = memory.read(hl);
                let set = bit_test_x(v, k);
                let c = self.registers.read_flag(Flag::Carry);
                self.registers.f = flags_byte_x(!set, false, true, c);
                false
            }
            Instruction::SetIR(k, reg) => {
                let v = self.registers.read_register8(reg);
                self.registers.write_register8(reg, set_bit_x(v, k));
                false
            }
            Instruction::SetIHl(k) => {
                let hl = self.registers.read_register16(Register16::HL);
                let v = memory.read(hl);
                memory.write(hl, set_bit_x(v, k));
                false
            }
            Instruction::ResIR(k, reg) => {
                let v = self.registers.read_register8(reg);
                self.registers.write_register8(reg, res_bit_x(v, k));
                false
            }
            Instruction::ResIHl(k) => {
                let hl = self.registers.read_register16(Register16::HL);
                let v = memory.read(hl);
                memory.write(hl, res_bit_x(v, k));
                false
            }
            _ => false,
        }
    }

    /// Execute one of the control and jump instructions.
    #[verifier::spinoff_prover]
    #[verifier::rlimit(100)]
    fn execute_ctrl<S: Swram>(&mut self, instruction: Instruction, memory: &mut Mmu<S>) -> (did_branch:
        bool)
        requires
            old(self).wf(),
            old(memory).inv(),
            instruction is Ccf || instruction is Scf || instruction is Nop || instruction is Halt || instruction is Stop || instruction is Di || instruction is Ei || instruction is JpIi || instruction is JpCondIi || instruction is JpHl || instruction is JrS || instruction is JrCondS || instruction is CallIi || instruction is CallCondIi || instruction is Ret || instruction is RetCond || instruction is Reti || instruction is Rst || instruction is Undefined,
        ensures
            final(self).wf(),
            final(memory).inv(),
            final(self).registers == exec_regs(instruction, old(self).registers, old(memory)@),
            final(memory)@ == exec_bus(instruction, old(self).registers, old(memory)@),
            final(self).is_halted == (old(self).is_halted || exec_halts(instruction)),
            final(self).ime == exec_ime(instruction, old(self).ime),
            did_branch == exec_branch(instruction, old(self).registers),
    {
        match instruction {
            Instruction::Ccf => {
                let z = self.registers.read_flag(Flag::Zero);
                let c = self.registers.read_flag(Flag::Carry);
                self.registers.f = flags_byte_x(z, false, false, !c);
                false
            }
            Instruction::Scf => {
                let z = self.registers.read_flag(Flag::Zero);
                self.registers.f = flags_byte_x(z, false, false, true);
                false
            }
            Instruction::Nop => false,
            Instruction::Halt => {
                self.is_halted = true;
                false
            }
            Instruction::Stop => false,
            Instruction::Di => {
                self.ime = false;
                false
            }
            Instruction::Ei => {
                self.ime = true;
                false
            }
            Instruction::JpIi(ii) => {
                self.registers.pc = ii;
                false
            }
            Instruction::JpCondIi(c, ii) => {
                if cond_x(c, self.registers.f) {
                    self.registers.pc = ii;
                    true
                } else {
                    false
                }
            }
            Instruction::JpHl => {
                let hl = self.registers.read_register16(Register16::HL);
                self.registers.pc = hl;
                false
            }
            Instruction::JrS(s) => {
                self.registers.pc = self.registers.pc.wrapping_add_signed(s as i16);
                false
            }
            Instruction::JrCondS(c, s) => {
                if cond_x(c, self.registers.f) {
                    self.registers.pc = self.registers.pc.wrapping_add_signed(s as i16);
                    true
                } else {
                    false
                }
            }
            Instruction::CallIi(a) => {
                let pc = self.registers.pc;
                self.push16(pc, memory);
                self.registers.pc = a;
                false
            }
            Instruction::CallCondIi(c, a) => {
                if cond_x(c, self.registers.f) {
                    let pc = self.registers.pc;
                    self.push16(pc, memory);
                    self.registers.pc = a;
                    true
                } else {
                    false
                }
            }
            Instruction::Ret => {
                let v = self.pop16(memory);
                self.registers.pc = v;
                false
            }
            Instruction::RetCond(c) => {
                if cond_x(c, self.registers.f) {
                    let v = self.pop16(memory);
                    self.registers.pc = v;
                    true
                } else {
                    false
                }
            }
            Instruction::Reti => {
                let v = self.pop16(memory);
                self.registers.pc = v;
                self.ime = true;
                false
            }
            Instruction::Rst(t) => {
                let pc = self.registers.pc;
                self.push16(pc, memory);
                self.registers.pc = t as u16;
                false
            }
            Instruction::Undefined(_) => {
                self.is_halted = true;
                false
            }            _ => false,
        }
    }

    /// Execute `AddHlRr`.
    #[verifier::spinoff_prover]
    #[verifier::rlimit(100)]
    fn execute_add_hl_rr<S: Swram>(&mut self, rr: Register16, memory: &mut Mmu<S>)
        requires
            old(self).wf(),
            old(memory).inv(),
        ensures
            final(self).wf(),
            final(memory).inv(),
            final(self).registers == exec_regs(Instruction::AddHlRr(rr), old(self).registers, old(memory)@),
            final(memory)@ == exec_bus(Instruction::AddHlRr(rr), old(self).registers, old(memory)@),
            final(self).is_halted == old(self).is_halted,
            final(self).ime == old(self).ime,
    {
            let hl = self.registers.read_register16(Register16::HL);
            let v = self.registers.read_register16(rr);
            let (res, f) = add16_x(hl, v, self.registers.f);
            self.registers.f = f;
            self.registers.write_register16(Register16::HL, res);
    }

    /// Execute `AddSpS`.
    #[verifier::spinoff_prover]
    #[verifier::rlimit(100)]
    fn execute_add_sp_s<S: Swram>(&mut self, s: i8, memory: &mut Mmu<S>)
        requires
            old(self).wf(),
            old(memory).inv(),
        ensures
            final(self).wf(),
            final(memory).inv(),
            final(self).registers == exec_regs(Instruction::AddSpS(s), old(self).registers, old(memory)@),
            final(memory)@ == exec_bus(Instruction::AddSpS(s), old(self).registers, old(memory)@),
            final(self).is_halted == old(self).is_halted,
            final(self).ime == old(self).ime,
    {
            let sp = self.registers.sp;
            self.registers.f = sp_flags_x(sp, s);
            self.registers.sp = sp.wrapping_add_signed(s as i16);
    }

    /// Execute `IncRr`.
    #[verifier::spinoff_prover]
    #[verifier::rlimit(100)]
    fn execute_inc_rr<S: Swram>(&mut self, rr: Register16, memory: &mut Mmu<S>)
        requires
            old(self).wf(),
            old(memory).inv(),
        ensures
            final(self).wf(),
            final(memory).inv(),
            final(self).registers == exec_regs(Instruction::IncRr(rr), old(self).registers, old(memory)@),
            final(memory)@ == exec_bus(Instruction::IncRr(rr), old(self).registers, old(memory)@),
            final(self).is_halted == old(self).is_halted,
            final(self).ime == old(self).ime,
    {
            let v = self.registers.read_register16(rr);
            self.registers.write_register16(rr, v.wrapping_add(1));
    }

    /// Execute `DecRr`.
    #[verifier::spinoff_prover]
    #[verifier::rlimit(100)]
    fn execute_dec_rr<S: Swram>(&mut self, rr: Register16, memory: &mut Mmu<S>)
        requires
            old(self).wf(),
            old(memory).inv(),
        ensures
            final(self).wf(),
            final(memory).inv(),
            final(self).registers == exec_regs(Instruction::DecRr(rr), old(self).registers, old(memory)@),
            final(memory)@ == exec_bus(Instruction::DecRr(rr), old(self).registers, old(memory)@),
            final(self).is_halted == old(self).is_halted,
            final(self).ime == old(self).ime,
    {
            let v = self.registers.read_register16(rr);
            self.registers.write_register16(rr, v.wrapping_sub(1));
    }

    /// Execute `LdHlSp`.
    #[verifier::spinoff_prover]
    #[verifier::rlimit(100)]
    fn execute_ld_hl_sp<S: Swram>(&mut self, s: i8, memory: &mut Mmu<S>)
        requires
            old(self).wf(),
            old(memory).inv(),
        ensures
            final(self).wf(),
            final(memory).inv(),
            final(self).registers == exec_regs(Instruction::LdHlSp(s), old(self).registers, old(memory)@),
            final(memory)@ == exec_bus(Instruction::LdHlSp(s), old(self).registers, old(memory)@),
            final(self).is_halted == old(self).is_halted,
            final(self).ime == old(self).ime,
    {
            let sp = self.registers.sp;
            self.registers.f = sp_flags_x(sp, s);
            self.registers.write_register16(Register16::HL, sp.wrapping_add_signed(s as i16));
    }

    /// Execute `AddAR`.
    #[verifier::spinoff_prover]
    #[verifier::rlimit(100)]
    fn execute_add_a_r<S: Swram>(&mut self, src: Register8, memory: &mut Mmu<S>)
        requires
            old(self).wf(),
            old(memory).inv(),
        ensures
            final(self).wf(),
            final(memory).inv(),
            final(self).registers == exec_regs(Instruction::AddAR(src), old(self).registers, old(memory)@),
            final(memory)@ == exec_bus(Instruction::AddAR(src), old(self).registers, old(memory)@),
            final(self).is_halted == old(self).is_halted,
            final(self).ime == old(self).ime,
    {
            let v = self.registers.read_register8(src);
            self.alu_add(v, false);
    }

    /// Execute `AddAI`.
    #[verifier::spinoff_prover]
    #[verifier::rlimit(100)]
    fn execute_add_a_i<S: Swram>(&mut self, imm: u8, memory: &mut Mmu<S>)
        requires
            old(self).wf(),
            old(memory).inv(),
        ensures
            final(self).wf(),
            final(memory).inv(),
            final(self).registers == exec_regs(Instruction::AddAI(imm), old(self).registers, old(memory)@),
            final(memory)@ == exec_bus(Instruction::AddAI(imm), old(self).registers, old(memory)@),
            final(self).is_halted == old(self).is_halted,
            final(self).ime == old(self).ime,
    {
            self.alu_add(imm, false);
    }

    /// Execute `AddAHl`.
    #[verifier::spinoff_prover]
    #[verifier::rlimit(100)]
    fn execute_add_a_hl<S: Swram>(&mut self, memory: &mut Mmu<S>)
        requires
            old(self).wf(),
            old(memory).inv(),
        ensures
            final(self).wf(),
            final(memory).inv(),
            final(self).registers == exec_regs(Instruction::AddAHl, old(self).registers, old(memory)@),
            final(memory)@ == exec_bus(Instruction::AddAHl, old(self).registers, old(memory)@),
            final(self).is_halted == old(self).is_halted,
            final(self).ime == old(self).ime,
    {
            let hl = self.registers.read_register16(Register16::HL);
            let v = memory.read(hl);
            self.alu_add(v, false);
    }

    /// Execute `AdcAR`.
    #[verifier::spinoff_prover]
    #[verifier::rlimit(100)]
    fn execute_adc_a_r<S: Swram>(&mut self, src: Register8, memory: &mut Mmu<S>)
        requires
            old(self).wf(),
            old(memory).inv(),
        ensures
            final(self).wf(),
            final(memory).inv(),
            final(self).registers == exec_regs(Instruction::AdcAR(src), old(self).registers, old(memory)@),
            final(memory)@ == exec_bus(Instruction::AdcAR(src), old(self).registers, old(memory)@),
            final(self).is_halted == old(self).is_halted,
            final(self).ime == old(self).ime,
    {
            let v = self.registers.read_register8(src);
            let cin = self.registers.read_flag(Flag::Carry);
            self.alu_add(v, cin);
    }

    /// Execute `AdcAI`.
    #[verifier::spinoff_prover]
    #[verifier::rlimit(100)]
    fn execute_adc_a_i<S: Swram>(&mut self, imm: u8, memory: &mut Mmu<S>)
        requires
            old(self).wf(),
            old(memory).inv(),
        ensures
            final(self).wf(),
            final(memory).inv(),
            final(self).registers == exec_regs(Instruction::AdcAI(imm), old(self).registers, old(memory)@),
            final(memory)@ == exec_bus(Instruction::AdcAI(imm), old(self).registers, old(memory)@),
            final(self).is_halted == old(self).is_halted,
            final(self).ime == old(self).ime,
    {
            let cin = self.registers.read_flag(Flag::Carry);
            self.alu_add(imm, cin);
    }

    /// Execute `AdcAHl`.
    #[verifier::spinoff_prover]
    #[verifier::rlimit(100)]
    fn execute_adc_a_hl<S: Swram>(&mut self, memory: &mut Mmu<S>)
        requires
            old(self).wf(),
            old(memory).inv(),
        ensures
            final(self).wf(),
            final(memory).inv(),
            final(self).registers == exec_regs(Instruction::AdcAHl, old(self).registers, old(memory)@),
            final(memory)@ == exec_bus(Instruction::AdcAHl, old(self).registers, old(memory)@),
            final(self).is_halted == old(self).is_halted,
            final(self).ime == old(self).ime,
    {
            let hl = self.registers.read_register16(Register16::HL);
            let v = memory.read(hl);
            let cin = self.registers.read_flag(Flag::Carry);
            self.alu_add(v, cin);
    }

    /// Execute `SubAR`.
    #[verifier::spinoff_prover]
    #[verifier::rlimit(100)]
    fn execute_sub_a_r<S: Swram>(&mut self, src: Register8, memory: &mut Mmu<S>)
        requires
            old(self).wf(),
            old(memory).inv(),
        ensures
            final(self).wf(),
            final(memory).inv(),
            final(self).registers == exec_regs(Instruction::SubAR(src), old(self).registers, old(memory)@),
            final(memory)@ == exec_bus(Instruction::SubAR(src), old(self).registers, old(memory)@),
            final(self).is_halted == old(self).is_halted,
            final(self).ime == old(self).ime,
    {
            let v = self.registers.read_register8(src);
            self.alu_sub(v, false);
    }

    /// Execute `SubAI`.
    #[verifier::spinoff_prover]
    #[verifier::rlimit(100)]
    fn execute_sub_a_i<S: Swram>(&mut self, imm: u8, memory: &mut Mmu<S>)
        requires
            old(self).wf(),
            old(memory).inv(),
        ensures
            final(self).wf(),
            final(memory).inv(),
            final(self).registers == exec_regs(Instruction::SubAI(imm), old(self).registers, old(memory)@),
            final(memory)@ == exec_bus(Instruction::SubAI(imm), old(self).registers, old(memory)@),
            final(self).is_halted == old(self).is_halted,
            final(self).ime == old(self).ime,
    {
            self.alu_sub(imm, false);
    }

    /// Execute `SubAHl`.
    #[verifier::spinoff_prover]
    #[verifier::rlimit(100)]
    fn execute_sub_a_hl<S: Swram>(&mut self, memory: &mut Mmu<S>)
        requires
            old(self).wf(),
            old(memory).inv(),
        ensures
            final(self).wf(),
            final(memory).inv(),
            final(self).registers == exec_regs(Instruction::SubAHl, old(self).registers, old(memory)@),
            final(memory)@ == exec_bus(Instruction::SubAHl, old(self).registers, old(memory)@),
            final(self).is_halted == old(self).is_halted,
            final(self).ime == old(self).ime,
    {
            let hl = self.registers.read_register16(Register16::HL);
            let v = memory.read(hl);
            self.alu_sub(v, false);
    }

    /// Execute `SbcAR`.
    #[verifier::spinoff_prover]
    #[verifier::rlimit(100)]
    fn execute_sbc_a_r<S: Swram>(&mut self, src: Register8, memory: &mut Mmu<S>)
        requires
            old(self).wf(),
            old(memory).inv(),
        ensures
            final(self).wf(),
            final(memory).inv(),
            final(self).registers == exec_regs(Instruction::SbcAR(src), old(self).registers, old(memory)@),
            final(memory)@ == exec_bus(Instruction::SbcAR(src), old(self).registers, old(memory)@),
            final(self).is_halted == old(self).is_halted,
            final(self).ime == old(self).ime,
    {
            let v = self.registers.read_register8(src);
            let bin = self.registers.read_flag(Flag::Carry);
            self.alu_sub(v, bin);
    }

    /// Execute `SbcAI`.
    #[verifier::spinoff_prover]
    #[verifier::rlimit(100)]
    fn execute_sbc_a_i<S: Swram>(&mut self, imm: u8, memory: &mut Mmu<S>)
        requires
            old(self).wf(),
            old(memory).inv(),
        ensures
            final(self).wf(),
            final(memory).inv(),
            final(self).registers == exec_regs(Instruction::SbcAI(imm), old(self).registers, old(memory)@),
            final(memory)@ == exec_bus(Instruction::SbcAI(imm), old(self).registers, old(memory)@),
            final(self).is_halted == old(self).is_halted,
            final(self).ime == old(self).ime,
    {
            let bin = self.registers.read_flag(Flag::Carry);
            self.alu_sub(imm, bin);
    }

    /// Execute `SbcAHl`.
    #[verifier::spinoff_prover]
    #[verifier::rlimit(100)]
    fn execute_sbc_a_hl<S: Swram>(&mut self, memory: &mut Mmu<S>)
        requires
            old(self).wf(),
            old(memory).inv(),
        ensures
            final(self).wf(),
            final(memory).inv(),
            final(self).registers == exec_regs(Instruction::SbcAHl, old(self).registers, old(memory)@),
            final(memory)@ == exec_bus(Instruction::SbcAHl, old(self).registers, old(memory)@),
            final(self).is_halted == old(self).is_halted,
            final(self).ime == old(self).ime,
    {
            let hl = self.registers.read_register16(Register16::HL);
            let v = memory.read(hl);
            let bin = self.registers.read_flag(Flag::Carry);
            self.alu_sub(v, bin);
    }

    /// Execute `IncR`.
    #[verifier::spinoff_prover]
    #[verifier::rlimit(100)]
    fn execute_inc_r<S: Swram>(&mut self, reg: Register8, memory: &mut Mmu<S>)
        requires
            old(self).wf(),
            old(memory).inv(),
        ensures
            final(self).wf(),
            final(memory).inv(),
            final(self).registers == exec_regs(Instruction::IncR(reg), old(self).registers, old(memory)@),
            final(memory)@ == exec_bus(Instruction::IncR(reg), old(self).registers, old(memory)@),
            final(self).is_halted == old(self).is_halted,
            final(self).ime == old(self).ime,
    {
            let v = self.registers.read_register8(reg);
            let (res, f) = inc8_x(v, self.registers.f);
            self.registers.f = f;
            self.registers.write_register8(reg, res);
    }

    /// Execute `IncHl`.
    #[verifier::spinoff_prover]
    #[verifier::rlimit(100)]
    fn execute_inc_hl<S: Swram>(&mut self, memory: &mut Mmu<S>)
        requires
            old(self).wf(),
            old(memory).inv(),
        ensures
            final(self).wf(),
            final(memory).inv(),
            final(self).registers == exec_regs(Instruction::IncHl, old(self).registers, old(memory)@),
            final(memory)@ == exec_bus(Instruction::IncHl, old(self).registers, old(memory)@),
            final(self).is_halted == old(self).is_halted,
            final(self).ime == old(self).ime,
    {
            let hl = self.registers.read_register16(Register16::HL);
            let v = memory.read(hl);
            let (res, f) = inc8_x(v, self.registers.f);
            memory.write(hl, res);
            self.registers.f = f;
    }

    /// Execute `DecR`.
    #[verifier::spinoff_prover]
    #[verifier::rlimit(100)]
    fn execute_dec_r<S: Swram>(&mut self, reg: Register8, memory: &mut Mmu<S>)
        requires
            old(self).wf(),
            old(memory).inv(),
        ensures
            final(self).wf(),
            final(memory).inv(),
            final(self).registers == exec_regs(Instruction::DecR(reg), old(self).registers, old(memory)@),
            final(memory)@ == exec_bus(Instruction::DecR(reg), old(self).registers, old(memory)@),
            final(self).is_halted == old(self).is_halted,
            final(self).ime == old(self).ime,
    {
            let v = self.registers.read_register8(reg);
            let (res, f) = dec8_x(v, self.registers.f);
            self.registers.f = f;
            self.registers.write_register8(reg, res);
    }

    /// Execute `DecHl`.
    #[verifier::spinoff_prover]
    #[verifier::rlimit(100)]
    fn execute_dec_hl<S: Swram>(&mut self, memory: &mut Mmu<S>)
        requires
            old(self).wf(),
            old(memory).inv(),
        ensures
            final(self).wf(),
            final(memory).inv(),
            final(self).registers == exec_regs(Instruction::DecHl, old(self).registers, old(memory)@),
            final(memory)@ == exec_bus(Instruction::DecHl, old(self).registers, old(memory)@),
            final(self).is_halted == old(self).is_halted,
            final(self).ime == old(self).ime,
    {
            let hl = self.registers.read_register16(Register16::HL);
            let v = memory.read(hl);
            let (res, f) = dec8_x(v, self.registers.f);
            memory.write(hl, res);
            self.registers.f = f;
    }

    /// Execute `Daa`.
    #[verifier::spinoff_prover]
    #[verifier::rlimit(100)]
    fn execute_daa<S: Swram>(&mut self, memory: &mut Mmu<S>)
        requires
            old(self).wf(),
            old(memory).inv(),
        ensures
            final(self).wf(),
            final(memory).inv(),
            final(self).registers == exec_regs(Instruction::Daa, old(self).registers, old(memory)@),
            final(memory)@ == exec_bus(Instruction::Daa, old(self).registers, old(memory)@),
            final(self).is_halted == old(self).is_halted,
            final(self).ime == old(self).ime,
    {
            let (a2, f) = daa_x(self.registers.a, self.registers.f);
            self.registers.a = a2;
            self.registers.f = f;
    }

    /// Execute `Cpl`.
    #[verifier::spinoff_prover]
    #[verifier::rlimit(100)]
    fn execute_cpl<S: Swram>(&mut self, memory: &mut Mmu<S>)
        requires
            old(self).wf(),
            old(memory).inv(),
        ensures
            final(self).wf(),
            final(memory).inv(),
            final(self).registers == exec_regs(Instruction::Cpl, old(self).registers, old(memory)@),
            final(memory)@ == exec_bus(Instruction::Cpl, old(self).registers, old(memory)@),
            final(self).is_halted == old(self).is_halted,
            final(self).ime == old(self).ime,
    {
            let z: bool = (self.registers.f / 0x80) % 2 == 1;
            let c: bool = (self.registers.f / 0x10) % 2 == 1;
            self.registers.a = 0xFF - self.registers.a;
            self.registers.f = flags_byte_x(z, true, true, c);
    }

    /// Execute `RlcR`.
    #[verifier::spinoff_prover]
    #[verifier::rlimit(100)]
    fn execute_rlc_r<S: Swram>(&mut self, reg: Register8, memory: &mut Mmu<S>)
        requires
            old(self).wf(),
            old(memory).inv(),
        ensures
            final(self).wf(),
            final(memory).inv(),
            final(self).registers == exec_regs(Instruction::RlcR(reg), old(self).registers, old(memory)@),
            final(memory)@ == exec_bus(Instruction::RlcR(reg), old(self).registers, old(memory)@),
            final(self).is_halted == old(self).is_halted,
            final(self).ime == old(self).ime,
    {
            let (res, c) = rlc_x(self.registers.read_register8(reg));
            self.registers.f = flags_byte_x(res == 0, false, false, c);
            self.registers.write_register8(reg, res);
    }

    /// Execute `RlR`.
    #[verifier::spinoff_prover]
    #[verifier::rlimit(100)]
    fn execute_rl_r<S: Swram>(&mut self, reg: Register8, memory: &mut Mmu<S>)
        requires
            old(self).wf(),
            old(memory).inv(),
        ensures
            final(self).wf(),
            final(memory).inv(),
            final(self).registers == exec_regs(Instruction::RlR(reg), old(self).registers, old(memory)@),
            final(memory)@ == exec_bus(Instruction::RlR(reg), old(self).registers, old(memory)@),
            final(self).is_halted == old(self).is_halted,
            final(self).ime == old(self).ime,
    {
        let cin = self.registers.read_flag(Flag::Carry);
        let (res, c) = rl_x(self.registers.read_register8(reg), cin);
        self.registers.f = flags_byte_x(res == 0, false, false, c);
        self.registers.write_register8(reg, res);
        proof {
            let r0 = old(self).registers;
            assert((res, c) == spec_rl(r0.spec_r8(reg), spec_carry(r0.f)));
            assert(self.registers == exec_regs(Instruction::RlR(reg), r0, old(memory)@));
        }
    }

    /// Execute `RrcR`.
    #[verifier::spinoff_prover]
    #[verifier::rlimit(100)]
    fn execute_rrc_r<S: Swram>(&mut self, reg: Register8, memory: &mut Mmu<S>)
        requires
            old(self).wf(),
            old(memory).inv(),
        ensures
            final(self).wf(),
            final(memory).inv(),
            final(self).registers == exec_regs(Instruction::RrcR(reg), old(self).registers, old(memory)@),
            final(memory)@ == exec_bus(Instruction::RrcR(reg), old(self).registers, old(memory)@),
            final(self).is_halted == old(self).is_halted,
            final(self).ime == old(self).ime,
    {
            let (res, c) = rrc_x(self.registers.read_register8(reg));
            self.registers.f = flags_byte_x(res == 0, false, false, c);
            self.registers.write_register8(reg, res);
    }

    /// Execute `RrR`.
    #[verifier::spinoff_prover]
    #[verifier::rlimit(100)]
    fn execute_rr_r<S: Swram>(&mut self, reg: Register8, memory: &mut Mmu<S>)
        requires
            old(self).wf(),
            old(memory).inv(),
        ensures
            final(self).wf(),
            final(memory).inv(),
            final(self).registers == exec_regs(Instruction::RrR(reg), old(self).registers, old(memory)@),
            final(memory)@ == exec_bus(Instruction::RrR(reg), old(self).registers, old(memory)@),
            final(self).is_halted == old(self).is_halted,
            final(self).ime == old(self).ime,
    {
            let cin = self.registers.read_flag(Flag::Carry);
            let (res, c) = rr_x(self.registers.read_register8(reg), cin);
            self.registers.f = flags_byte_x(res == 0, false, false, c);
            self.registers.write_register8(reg, res);
    }

    /// Execute `SlaR`.
    #[verifier::spinoff_prover]
    #[verifier::rlimit(100)]
    fn execute_sla_r<S: Swram>(&mut self, reg: Register8, memory: &mut Mmu<S>)
        requires
            old(self).wf(),
            old(memory).inv(),
        ensures
            final(self).wf(),
            final(memory).inv(),
            final(self).registers == exec_regs(Instruction::SlaR(reg), old(self).registers, old(memory)@),
            final(memory)@ == exec_bus(Instruction::SlaR(reg), old(self).registers, old(memory)@),
            final(self).is_halted == old(self).is_halted,
            final(self).ime == old(self).ime,
    {
            let (res, c) = sla_x(self.registers.read_register8(reg));
            self.registers.f = flags_byte_x(res == 0, false, false, c);
            self.registers.write_register8(reg, res);
    }

    /// Execute `SwapR`.
    #[verifier::spinoff_prover]
    #[verifier::rlimit(100)]
    fn execute_swap_r<S: Swram>(&mut self, reg: Register8, memory: &mut Mmu<S>)
        requires
            old(self).wf(),
            old(memory).inv(),
        ensures
            final(self).wf(),
            final(memory).inv(),
            final(self).registers == exec_regs(Instruction::SwapR(reg), old(self).registers, old(memory)@),
            final(memory)@ == exec_bus(Instruction::SwapR(reg), old(self).registers, old(memory)@),
            final(self).is_halted == old(self).is_halted,
            final(self).ime == old(self).ime,
    {
            let (res, c) = swap_x(self.registers.read_register8(reg));
            self.registers.f = flags_byte_x(res == 0, false, false, c);
            self.registers.write_register8(reg, res);
    }

    /// Execute `SraR`.
    #[verifier::spinoff_prover]
    #[verifier::rlimit(100)]
    fn execute_sra_r<S: Swram>(&mut self, reg: Register8, memory: &mut Mmu<S>)
        requires
            old(self).wf(),
            old(memory).inv(),
        ensures
            final(self).wf(),
            final(memory).inv(),
            final(self).registers == exec_regs(Instruction::SraR(reg), old(self).registers, old(memory)@),
            final(memory)@ == exec_bus(Instruction::SraR(reg), old(self).registers, old(memory)@),
            final(self).is_halted == old(self).is_halted,
            final(self).ime == old(self).ime,
    {
        let (res, c) = sra_x(self.registers.read_register8(reg));
        self.registers.f = flags_byte_x(res == 0, false, false, c);
        self.registers.write_register8(reg, res);
        proof {
            let r0 = old(self).registers;
            assert((res, c) == spec_sra(r0.spec_r8(reg)));
            assert(self.registers == exec_regs(Instruction::SraR(reg), r0, old(memory)@));
        }
    }

    /// Execute `SrlR`.
    #[verifier::spinoff_prover]
    #[verifier::rlimit(100)]
    fn execute_srl_r<S: Swram>(&mut self, reg: Register8, memory: &mut Mmu<S>)
        requires
            old(self).wf(),
            old(memory).inv(),
        ensures
            final(self).wf(),
            final(memory).inv(),
            final(self).registers == exec_regs(Instruction::SrlR(reg), old(self).registers, old(memory)@),
            final(memory)@ == exec_bus(Instruction::SrlR(reg), old(self).registers, old(memory)@),
            final(self).is_halted == old(self).is_halted,
            final(self).ime == old(self).ime,
    {
            let (res, c) = srl_x(self.registers.read_register8(reg));
            self.registers.f = flags_byte_x(res == 0, false, false, c);
            self.registers.write_register8(reg, res);
    }

    /// Execute `RlcHl`.
    #[verifier::spinoff_prover]
    #[verifier::rlimit(100)]
    fn execute_rlc_hl<S: Swram>(&mut self, memory: &mut Mmu<S>)
        requires
            old(self).wf(),
            old(memory).inv(),
        ensures
            final(self).wf(),
            final(memory).inv(),
            final(self).registers == exec_regs(Instruction::RlcHl, old(self).registers, old(memory)@),
            final(memory)@ == exec_bus(Instruction::RlcHl, old(self).registers, old(memory)@),
            final(self).is_halted == old(self).is_halted,
            final(self).ime == old(self).ime,
    {
            let hl = self.registers.read_register16(Register16::HL);
            let (res, c) = rlc_x(memory.read(hl));
            memory.write(hl, res);
            self.registers.f = flags_byte_x(res == 0, false, false, c);
    }

    /// Execute `RlHl`.
    #[verifier::spinoff_prover]
    #[verifier::rlimit(100)]
    fn execute_rl_hl<S: Swram>(&mut self, memory: &mut Mmu<S>)
        requires
            old(self).wf(),
            old(memory).inv(),
        ensures
            final(self).wf(),
            final(memory).inv(),
            final(self).registers == exec_regs(Instruction::RlHl, old(self).registers, old(memory)@),
            final(memory)@ == exec_bus(Instruction::RlHl, old(self).registers, old(memory)@),
            final(self).is_halted == old(self).is_halted,
            final(self).ime == old(self).ime,
    {
            let hl = self.registers.read_register16(Register16::HL);
            let cin = self.registers.read_flag(Flag::Carry);
            let (res, c) = rl_x(memory.read(hl), cin);
            memory.write(hl, res);
            self.registers.f = flags_byte_x(res == 0, false, false, c);
    }

    /// Execute `RrcHl`.
    #[verifier::spinoff_prover]
    #[verifier::rlimit(100)]
    fn execute_rrc_hl<S: Swram>(&mut self, memory: &mut Mmu<S>)
        requires
            old(self).wf(),
            old(memory).inv(),
        ensures
            final(self).wf(),
            final(memory).inv(),
            final(self).registers == exec_regs(Instruction::RrcHl, old(self).registers, old(memory)@),
            final(memory)@ == exec_bus(Instruction::RrcHl, old(self).registers, old(memory)@),
            final(self).is_halted == old(self).is_halted,
            final(self).ime == old(self).ime,
    {
            let hl = self.registers.read_register16(Register16::HL);
            let (res, c) = rrc_x(memory.read(hl));
            memory.write(hl, res);
            self.registers.f = flags_byte_x(res == 0, false, false, c);
    }

    /// Execute `RrHl`.
    #[verifier::spinoff_prover]
    #[verifier::rlimit(100)]
    fn execute_rr_hl<S: Swram>(&mut self, memory: &mut Mmu<S>)
        requires
            old(self).wf(),
            old(memory).inv(),
        ensures
            final(self).wf(),
            final(memory).inv(),
            final(self).registers == exec_regs(Instruction::RrHl, old(self).registers, old(memory)@),
            final(memory)@ == exec_bus(Instruction::RrHl, old(self).registers, old(memory)@),
            final(self).is_halted == old(self).is_halted,
            final(self).ime == old(self).ime,
    {
            let hl = self.registers.read_register16(Register16::HL);
            let cin = self.registers.read_flag(Flag::Carry);
            let (res, c) = rr_x(memory.read(hl), cin);
            memory.write(hl, res);
            self.registers.f = flags_byte_x(res == 0, false, false, c);
    }

    /// Execute `SlaHl`.
    #[verifier::spinoff_prover]
    #[verifier::rlimit(100)]
    fn execute_sla_hl<S: Swram>(&mut self, memory: &mut Mmu<S>)
        requires
            old(self).wf(),
            old(memory).inv(),
        ensures
            final(self).wf(),
            final(memory).inv(),
            final(self).registers == exec_regs(Instruction::SlaHl, old(self).registers, old(memory)@),
            final(memory)@ == exec_bus(Instruction::SlaHl, old(self).registers, old(memory)@),
            final(self).is_halted == old(self).is_halted,
            final(self).ime == old(self).ime,
    {
            let hl = self.registers.read_register16(Register16::HL);
            let (res, c) = sla_x(memory.read(hl));
            memory.write(hl, res);
            self.registers.f = flags_byte_x(res == 0, false, false, c);
    }

    /// Execute `SwapHl`.
    #[verifier::spinoff_prover]
    #[verifier::rlimit(100)]
    fn execute_swap_hl<S: Swram>(&mut self, memory: &mut Mmu<S>)
        requires
            old(self).wf(),
            old(memory).inv(),
        ensures
            final(self).wf(),
            final(memory).inv(),
            final(self).registers == exec_regs(Instruction::SwapHl, old(self).registers, old(memory)@),
            final(memory)@ == exec_bus(Instruction::SwapHl, old(self).registers, old(memory)@),
            final(self).is_halted == old(self).is_halted,
            final(self).ime == old(self).ime,
    {
            let hl = self.registers.read_register16(Register16::HL);
            let (res, c) = swap_x(memory.read(hl));
            memory.write(hl, res);
            self.registers.f = flags_byte_x(res == 0, false, false, c);
    }

    /// Execute `SraHl`.
    #[verifier::spinoff_prover]
    #[verifier::rlimit(100)]
    fn execute_sra_hl<S: Swram>(&mut self, memory: &mut Mmu<S>)
        requires
            old(self).wf(),
            old(memory).inv(),
        ensures
            final(self).wf(),
            final(memory).inv(),
            final(self).registers == exec_regs(Instruction::SraHl, old(self).registers, old(memory)@),
            final(memory)@ == exec_bus(Instruction::SraHl, old(self).registers, old(memory)@),
            final(self).is_halted == old(self).is_halted,
            final(self).ime == old(self).ime,
    {
            let hl = self.registers.read_register16(Register16::HL);
            let (res, c) = sra_x(memory.read(hl));
            memory.write(hl, res);
            self.registers.f = flags_byte_x(res == 0, false, false, c);
    }

    /// Execute `SrlHl`.
    #[verifier::spinoff_prover]
    #[verifier::rlimit(100)]
    fn execute_srl_hl<S: Swram>(&mut self, memory: &mut Mmu<S>)
        requires
            old(self).wf(),
            old(memory).inv(),
        ensures
            final(self).wf(),
            final(memory).inv(),
            final(self).registers == exec_regs(Instruction::SrlHl, old(self).registers, old(memory)@),
            final(memory)@ == exec_bus(Instruction::SrlHl, old(self).registers, old(memory)@),
            final(self).is_halted == old(self).is_halted,
            final(self).ime == old(self).ime,
    {
            let hl = self.registers.read_register16(Register16::HL);
            let (res, c) = srl_x(memory.read(hl));
            memory.write(hl, res);
            self.registers.f = flags_byte_x(res == 0, false, false, c);
    }

    /// Execute one of the 16-bit arithmetic instructions.
    #[verifier::spinoff_prover]
    #[verifier::rlimit(100)]
    fn execute_arith16<S: Swram>(&mut self, instruction: Instruction, memory: &mut Mmu<S>) -> (did_branch:
        bool)
        requires
            old(self).wf(),
            old(memory).inv(),
            instruction is AddHlRr || instruction is AddSpS || instruction is IncRr || instruction is DecRr || instruction is LdHlSp,
        ensures
            final(self).wf(),
            final(memory).inv(),
            final(self).registers == exec_regs(instruction, old(self).registers, old(memory)@),
            final(memory)@ == exec_bus(instruction, old(self).registers, old(memory)@),
            final(self).is_halted == (old(self).is_halted || exec_halts(instruction)),
            final(self).ime == exec_ime(instruction, old(self).ime),
            did_branch == exec_branch(instruction, old(self).registers),
    {
        match instruction {
            Instruction::AddHlRr(rr) => {
                self.execute_add_hl_rr(rr, memory);
                false
            }
            Instruction::AddSpS(s) => {
                self.execute_add_sp_s(s, memory);
                false
            }
            Instruction::IncRr(rr) => {
                self.execute_inc_rr(rr, memory);
                false
            }
            Instruction::DecRr(rr) => {
                self.execute_dec_rr(rr, memory);
                false
            }
            Instruction::LdHlSp(s) => {
                self.execute_ld_hl_sp(s, memory);
                false
            }
            _ => false,
        }
    }

    /// Execute one of the 8-bit add and subtract instructions.
    #[verifier::spinoff_prover]
    #[verifier::rlimit(100)]
    fn execute_alu_add<S: Swram>(&mut self, instruction: Instruction, memory: &mut Mmu<S>) -> (did_branch:
        bool)
        requires
            old(self).wf(),
            old(memory).inv(),
            instruction is AddAR || instruction is AddAI || instruction is AddAHl || instruction is AdcAR || instruction is AdcAI || instruction is AdcAHl || instruction is SubAR || instruction is SubAI || instruction is SubAHl || instruction is SbcAR || instruction is SbcAI || instruction is SbcAHl,
        ensures
            final(self).wf(),
            final(memory).inv(),
            final(self).registers == exec_regs(instruction, old(self).registers, old(memory)@),
            final(memory)@ == exec_bus(instruction, old(self).registers, old(memory)@),
            final(self).is_halted == (old(self).is_halted || exec_halts(instruction)),
            final(self).ime == exec_ime(instruction, old(self).ime),
            did_branch == exec_branch(instruction, old(self).registers),
    {
        match instruction {
            Instruction::AddAR(src) => {
                self.execute_add_a_r(src, memory);
                false
            }
            Instruction::AddAI(imm) => {
                self.execute_add_a_i(imm, memory);
                false
            }
            Instruction::AddAHl => {
                self.execute_add_a_hl(memory);
                false
            }
            Instruction::AdcAR(src) => {
                self.execute_adc_a_r(src, memory);
                false
            }
            Instruction::AdcAI(imm) => {
                self.execute_adc_a_i(imm, memory);
                false
            }
            Instruction::AdcAHl => {
                self.execute_adc_a_hl(memory);
                false
            }
            Instruction::SubAR(src) => {
                self.execute_sub_a_r(src, memory);
                false
            }
            Instruction::SubAI(imm) => {
                self.execute_sub_a_i(imm, memory);
                false
            }
            Instruction::SubAHl => {
                self.execute_sub_a_hl(memory);
                false
            }
            Instruction::SbcAR(src) => {
                self.execute_sbc_a_r(src, memory);
                false
            }
            Instruction::SbcAI(imm) => {
                self.execute_sbc_a_i(imm, memory);
                false
            }
            Instruction::SbcAHl => {
                self.execute_sbc_a_hl(memory);
                false
            }
            _ => false,
        }
    }

    /// Execute one of the 8-bit increment, decrement and adjust instructions.
    #[verifier::spinoff_prover]
    #[verifier::rlimit(100)]
    fn execute_alu_misc<S: Swram>(&mut self, instruction: Instruction, memory: &mut Mmu<S>) -> (did_branch:
        bool)
        requires
            old(self).wf(),
            old(memory).inv(),
            instruction is IncR || instruction is IncHl || instruction is DecR || instruction is DecHl || instruction is Daa || instruction is Cpl,
        ensures
            final(self).wf(),
            final(memory).inv(),
            final(self).registers == exec_regs(instruction, old(self).registers, old(memory)@),
            final(memory)@ == exec_bus(instruction, old(self).registers, old(memory)@),
            final(self).is_halted == (old(self).is_halted || exec_halts(instruction)),
            final(self).ime == exec_ime(instruction, old(self).ime),
            did_branch == exec_branch(instruction, old(self).registers),
    {
        match instruction {
            Instruction::IncR(reg) => {
                self.execute_inc_r(reg, memory);
                false
            }
            Instruction::IncHl => {
                self.execute_inc_hl(memory);
                false
            }
            Instruction::DecR(reg) => {
                self.execute_dec_r(reg, memory);
                false
            }
            Instruction::DecHl => {
                self.execute_dec_hl(memory);
                false
            }
            Instruction::Daa => {
                self.execute_daa(memory);
                false
            }
            Instruction::Cpl => {
                self.execute_cpl(memory);
                false
            }
            _ => false,
        }
    }

    /// Execute one of the extended rotate and shift instructions on a register.
    #[verifier::spinoff_prover]
    #[verifier::rlimit(100)]
    fn execute_rot_reg<S: Swram>(&mut self, instruction: Instruction, memory: &mut Mmu<S>) -> (did_branch:
        bool)
        requires
            old(self).wf(),
            old(memory).inv(),
            instruction is RlcR || instruction is RlR || instruction is RrcR || instruction is RrR || instruction is SlaR || instruction is SwapR || instruction is SraR || instruction is SrlR,
        ensures
            final(self).wf(),
            final(memory).inv(),
            final(self).registers == exec_regs(instruction, old(self).registers, old(memory)@),
            final(memory)@ == exec_bus(instruction, old(self).registers, old(memory)@),
            final(self).is_halted == (old(self).is_halted || exec_halts(instruction)),
            final(self).ime == exec_ime(instruction, old(self).ime),
            did_branch == exec_branch(instruction, old(self).registers),
    {
        match instruction {
            Instruction::RlcR(reg) => {
                self.execute_rlc_r(reg, memory);
                false
            }
            Instruction::RlR(reg) => {
                self.execute_rl_r(reg, memory);
                false
            }
            Instruction::RrcR(reg) => {
                self.execute_rrc_r(reg, memory);
                false
            }
            Instruction::RrR(reg) => {
                self.execute_rr_r(reg, memory);
                false
            }
            Instruction::SlaR(reg) => {
                self.execute_sla_r(reg, memory);
                false
            }
            Instruction::SwapR(reg) => {
                self.execute_swap_r(reg, memory);
                false
            }
            Instruction::SraR(reg) => {
                self.execute_sra_r(reg, memory);
                false
            }
            Instruction::SrlR(reg) => {
                self.execute_srl_r(reg, memory);
                false
            }
            _ => false,
        }
    }

    /// Execute one of the extended rotate and shift instructions on `(HL)`.
    #[verifier::spinoff_prover]
    #[verifier::rlimit(100)]
    fn execute_rot_mem<S: Swram>(&mut self, instruction: Instruction, memory: &mut Mmu<S>) -> (did_branch:
        bool)
        requires
            old(self).wf(),
            old(memory).inv(),
            instruction is RlcHl || instruction is RlHl || instruction is RrcHl || instruction is RrHl || instruction is SlaHl || instruction is SwapHl || instruction is SraHl || instruction is SrlHl,
        ensures
            final(self).wf(),
            final(memory).inv(),
            final(self).registers == exec_regs(instruction, old(self).registers, old(memory)@),
            final(memory)@ == exec_bus(instruction, old(self).registers, old(memory)@),
            final(self).is_halted == (old(self).is_halted || exec_halts(instruction)),
            final(self).ime == exec_ime(instruction, old(self).ime),
            did_branch == exec_branch(instruction, old(self).registers),
    {
        match instruction {
            Instruction::RlcHl => {
                self.execute_rlc_hl(memory);
                false
            }
            Instruction::RlHl => {
                self.execute_rl_hl(memory);
                false
            }
            Instruction::RrcHl => {
                self.execute_rrc_hl(memory);
                false
            }
            Instruction::RrHl => {
                self.execute_rr_hl(memory);
                false
            }
            Instruction::SlaHl => {
                self.execute_sla_hl(memory);
                false
            }
            Instruction::SwapHl => {
                self.execute_swap_hl(memory);
                false
            }
            Instruction::SraHl => {
                self.execute_sra_hl(memory);
                false
            }
            Instruction::SrlHl => {
                self.execute_srl_hl(memory);
                false
            }
            _ => false,
        }
    }

    /// Execute an instruction against the register file and the bus; the
    /// result says whether a conditional branch was taken.
    fn execute<S: Swram>(&mut self, instruction: Instruction, memory: &mut Mmu<S>) -> (did_branch:
        bool)
        requires
            old(self).wf(),
            old(memory).inv(),
        ensures
            final(self).wf(),
            final(memory).inv(),
            final(self).registers == exec_regs(instruction, old(self).registers, old(memory)@),
            final(memory)@ == exec_bus(instruction, old(self).registers, old(memory)@),
            final(self).is_halted == (old(self).is_halted || exec_halts(instruction)),
            final(self).ime == exec_ime(instruction, old(self).ime),
            did_branch == exec_branch(instruction, old(self).registers),
    {
        match instruction {
            Instruction::LdRR(..) | Instruction::LdRI(..) | Instruction::LdRHl(..) | Instruction::LdHlR(..) | Instruction::LdHlI(..) | Instruction::LdARr(..) | Instruction::LdAI(..) | Instruction::LdRrA(..) | Instruction::LdAIi(..) | Instruction::LdAIo(..) | Instruction::LdIoA(..) | Instruction::LdIiA(..) | Instruction::LdAIoc | Instruction::LdIocA | Instruction::LdiHlA | Instruction::LdiAHl | Instruction::LddHlA | Instruction::LddAHl => self.execute_load8(instruction, memory),
            Instruction::LdRrIi(..) | Instruction::LdSpHl | Instruction::LdIiSp(..) | Instruction::PushRr(..) | Instruction::Pop(..) => self.execute_load16(instruction, memory),
            Instruction::AddHlRr(..) | Instruction::AddSpS(..) | Instruction::IncRr(..) | Instruction::DecRr(..) | Instruction::LdHlSp(..) => self.execute_arith16(instruction, memory),
            Instruction::AddAR(..) | Instruction::AddAI(..) | Instruction::AddAHl | Instruction::AdcAR(..) | Instruction::AdcAI(..) | Instruction::AdcAHl | Instruction::SubAR(..) | Instruction::SubAI(..) | Instruction::SubAHl | Instruction::SbcAR(..) | Instruction::SbcAI(..) | Instruction::SbcAHl => self.execute_alu_add(instruction, memory),
            Instruction::AndAR(..) | Instruction::AndAI(..) | Instruction::AndAHl | Instruction::XorAR(..) | Instruction::XorAI(..) | Instruction::XorAHl | Instruction::OrAR(..) | Instruction::OrAI(..) | Instruction::OrAHl | Instruction::CpAR(..) | Instruction::CpAI(..) | Instruction::CpAHl => self.execute_alu_logic(instruction, memory),
            Instruction::IncR(..) | Instruction::IncHl | Instruction::DecR(..) | Instruction::DecHl | Instruction::Daa | Instruction::Cpl => self.execute_alu_misc(instruction, memory),
            Instruction::Rlca | Instruction::Rla | Instruction::Rrca | Instruction::Rra => self.execute_rot_a(instruction, memory),
            Instruction::RlcR(..) | Instruction::RlR(..) | Instruction::RrcR(..) | Instruction::RrR(..) | Instruction::SlaR(..) | Instruction::SwapR(..) | Instruction::SraR(..) | Instruction::SrlR(..) => self.execute_rot_reg(instruction, memory),
            Instruction::RlcHl | Instruction::RlHl | Instruction::RrcHl | Instruction::RrHl | Instruction::SlaHl | Instruction::SwapHl | Instruction::SraHl | Instruction::SrlHl => self.execute_rot_mem(instruction, memory),
            Instruction::BitIR(..) | Instruction::BitIHl(..) | Instruction::SetIR(..) | Instruction::SetIHl(..) | Instruction::ResIR(..) | Instruction::ResIHl(..) => self.execute_bit_ops(instruction, memory),
            Instruction::Ccf | Instruction::Scf | Instruction::Nop | Instruction::Halt | Instruction::Stop | Instruction::Di | Instruction::Ei | Instruction::JpIi(..) | Instruction::JpCondIi(..) | Instruction::JpHl | Instruction::JrS(..) | Instruction::JrCondS(..) | Instruction::CallIi(..) | Instruction::CallCondIi(..) | Instruction::Ret | Instruction::RetCond(..) | Instruction::Reti | Instruction::Rst(..) | Instruction::Undefined(..) => self.execute_ctrl(instruction, memory),

        }
    }
}


/// `NOP` consumes exactly four cycles and one byte, and changes no
/// register, flag, or byte of the bus.
pub proof fn lemma_nop_effect(r: Registers, b: BusView)
    ensures
        exec_regs(Instruction::Nop, r, b) == r,
        exec_bus(Instruction::Nop, r, b) == b,
        cycles_spec(Instruction::Nop) == 4,
        size_spec(Instruction::Nop) == 1,
        !exec_branch(Instruction::Nop, r),
{
}

/// `XOR A,A` always clears the accumulator, sets the zero flag, and clears
/// the carry, half-carry and subtract flags, whatever the accumulator held
/// before.
pub proof fn lemma_xor_a_a(r: Registers, b: BusView)
    ensures
        exec_regs(Instruction::XorAR(Register8::A), r, b).a == 0,
        spec_flag(exec_regs(Instruction::XorAR(Register8::A), r, b).f, Flag::Zero),
        !spec_flag(exec_regs(Instruction::XorAR(Register8::A), r, b).f, Flag::Carry),
        !spec_flag(exec_regs(Instruction::XorAR(Register8::A), r, b).f, Flag::HalfCarry),
        !spec_flag(exec_regs(Instruction::XorAR(Register8::A), r, b).f, Flag::AddSub),
{
    let a = r.a;
    assert(a ^ a == 0) by (bit_vector);
}

} // verus!
