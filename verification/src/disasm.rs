//! The instruction decoder: a pure function from the one to three bytes at
//! an address to a typed [`Instruction`].
//!
//! The opcode byte `0xCB` selects a second 256-entry table of rotate, shift
//! and bit instructions keyed by the following byte.  The eleven opcode
//! bytes with no defined hardware behaviour decode to
//! [`Instruction::Undefined`] rather than failing: real hardware locks up on
//! them, so decoding itself never errors.

use vstd::prelude::*;

use crate::isa::{Condition, Instruction, Register16, Register8};
use crate::memory::Memory;
use crate::util::{pack_words, spec_pack};

verus! {

/// The signed value carried by an immediate byte, in two's complement.
pub open spec fn spec_signed(b: u8) -> i8 {
    if b < 0x80 {
        b as i8
    } else {
        (b - 0x100) as i8
    }
}

/// Reinterpret an immediate byte as a signed offset.
pub fn to_signed(b: u8) -> (r: i8)
    ensures
        r == spec_signed(b),
{
    let wide: i16 = b as i16;
    if b < 0x80 {
        wide as i8
    } else {
        (wide - 0x100) as i8
    }
}

/// The 8-bit register selected by a three-bit operand code; code 6 selects
/// the `(HL)` indirect operand and is handled by the callers.
pub open spec fn spec_operand(code: u8) -> Register8 {
    if code == 0 {
        Register8::B
    } else if code == 1 {
        Register8::C
    } else if code == 2 {
        Register8::D
    } else if code == 3 {
        Register8::E
    } else if code == 4 {
        Register8::H
    } else if code == 5 {
        Register8::L
    } else {
        Register8::A
    }
}

/// Exec mirror of [`spec_operand`].
fn operand(code: u8) -> (r: Register8)
    ensures
        r == spec_operand(code),
{
    if code == 0 {
        Register8::B
    } else if code == 1 {
        Register8::C
    } else if code == 2 {
        Register8::D
    } else if code == 3 {
        Register8::E
    } else if code == 4 {
        Register8::H
    } else if code == 5 {
        Register8::L
    } else {
        Register8::A
    }
}

/// The instruction selected by an extended (`0xCB`-prefixed) opcode byte.
pub open spec fn spec_decode_cb(b1: u8) -> Instruction {
    let op = (b1 / 8) as u8;
    let code = (b1 % 8) as u8;
    let bit = (op % 8) as u8;
    if op == 0 {
        if code == 6 {
            Instruction::RlcHl
        } else {
            Instruction::RlcR(spec_operand(code))
        }
    } else if op == 1 {
        if code == 6 {
            Instruction::RrcHl
        } else {
            Instruction::RrcR(spec_operand(code))
        }
    } else if op == 2 {
        if code == 6 {
            Instruction::RlHl
        } else {
            Instruction::RlR(spec_operand(code))
        }
    } else if op == 3 {
        if code == 6 {
            Instruction::RrHl
        } else {
            Instruction::RrR(spec_operand(code))
        }
    } else if op == 4 {
        if code == 6 {
            Instruction::SlaHl
        } else {
            Instruction::SlaR(spec_operand(code))
        }
    } else if op == 5 {
        if code == 6 {
            Instruction::SraHl
        } else {
            Instruction::SraR(spec_operand(code))
        }
    } else if op == 6 {
        if code == 6 {
            Instruction::SwapHl
        } else {
            Instruction::SwapR(spec_operand(code))
        }
    } else if op == 7 {
        if code == 6 {
            Instruction::SrlHl
        } else {
            Instruction::SrlR(spec_operand(code))
        }
    } else if op < 16 {
        if code == 6 {
            Instruction::BitIHl(bit)
        } else {
            Instruction::BitIR(bit, spec_operand(code))
        }
    } else if op < 24 {
        if code == 6 {
            Instruction::ResIHl(bit)
        } else {
            Instruction::ResIR(bit, spec_operand(code))
        }
    } else {
        if code == 6 {
            Instruction::SetIHl(bit)
        } else {
            Instruction::SetIR(bit, spec_operand(code))
        }
    }
}

/// Decode an extended (`0xCB`-prefixed) opcode byte.
fn decode_cb(b1: u8) -> (r: Instruction)
    ensures
        r == spec_decode_cb(b1),
{
    let op = b1 / 8;
    let code = b1 % 8;
    let bit = op % 8;
    if op == 0 {
        if code == 6 {
            Instruction::RlcHl
        } else {
            Instruction::RlcR(operand(code))
        }
    } else if op == 1 {
        if code == 6 {
            Instruction::RrcHl
        } else {
            Instruction::RrcR(operand(code))
        }
    } else if op == 2 {
        if code == 6 {
            Instruction::RlHl
        } else {
            Instruction::RlR(operand(code))
        }
    } else if op == 3 {
        if code == 6 {
            Instruction::RrHl
        } else {
            Instruction::RrR(operand(code))
        }
    } else if op == 4 {
        if code == 6 {
            Instruction::SlaHl
        } else {
            Instruction::SlaR(operand(code))
        }
    } else if op == 5 {
        if code == 6 {
            Instruction::SraHl
        } else {
            Instruction::SraR(operand(code))
        }
    } else if op == 6 {
        if code == 6 {
            Instruction::SwapHl
        } else {
            Instruction::SwapR(operand(code))
        }
    } else if op == 7 {
        if code == 6 {
            Instruction::SrlHl
        } else {
            Instruction::SrlR(operand(code))
        }
    } else if op < 16 {
        if code == 6 {
            Instruction::BitIHl(bit)
        } else {
            Instruction::BitIR(bit, operand(code))
        }
    } else if op < 24 {
        if code == 6 {
            Instruction::ResIHl(bit)
        } else {
            Instruction::ResIR(bit, operand(code))
        }
    } else {
        if code == 6 {
            Instruction::SetIHl(bit)
        } else {
            Instruction::SetIR(bit, operand(code))
        }
    }
}

/// The instruction selected by an opcode byte in `0x00..=0x3F`.
pub open spec fn spec_decode_lo(b0: u8, b1: u8, b2: u8) -> Instruction {
    let ii = spec_pack(b1, b2);
    let s = spec_signed(b1);
    if b0 == 0x00 {
        Instruction::Nop
    } else if b0 == 0x01 {
        Instruction::LdRrIi(Register16::BC, ii)
    } else if b0 == 0x02 {
        Instruction::LdRrA(Register16::BC)
    } else if b0 == 0x03 {
        Instruction::IncRr(Register16::BC)
    } else if b0 == 0x04 {
        Instruction::IncR(Register8::B)
    } else if b0 == 0x05 {
        Instruction::DecR(Register8::B)
    } else if b0 == 0x06 {
        Instruction::LdRI(Register8::B, b1)
    } else if b0 == 0x07 {
        Instruction::Rlca
    } else if b0 == 0x08 {
        Instruction::LdIiSp(ii)
    } else if b0 == 0x09 {
        Instruction::AddHlRr(Register16::BC)
    } else if b0 == 0x0A {
        Instruction::LdARr(Register16::BC)
    } else if b0 == 0x0B {
        Instruction::DecRr(Register16::BC)
    } else if b0 == 0x0C {
        Instruction::IncR(Register8::C)
    } else if b0 == 0x0D {
        Instruction::DecR(Register8::C)
    } else if b0 == 0x0E {
        Instruction::LdRI(Register8::C, b1)
    } else if b0 == 0x0F {
        Instruction::Rrca
    } else if b0 == 0x10 {
        Instruction::Stop
    } else if b0 == 0x11 {
        Instruction::LdRrIi(Register16::DE, ii)
    } else if b0 == 0x12 {
        Instruction::LdRrA(Register16::DE)
    } else if b0 == 0x13 {
        Instruction::IncRr(Register16::DE)
    } else if b0 == 0x14 {
        Instruction::IncR(Register8::D)
    } else if b0 == 0x15 {
        Instruction::DecR(Register8::D)
    } else if b0 == 0x16 {
        Instruction::LdRI(Register8::D, b1)
    } else if b0 == 0x17 {
        Instruction::Rla
    } else if b0 == 0x18 {
        Instruction::JrS(s)
    } else if b0 == 0x19 {
        Instruction::AddHlRr(Register16::DE)
    } else if b0 == 0x1A {
        Instruction::LdARr(Register16::DE)
    } else if b0 == 0x1B {
        Instruction::DecRr(Register16::DE)
    } else if b0 == 0x1C {
        Instruction::IncR(Register8::E)
    } else if b0 == 0x1D {
        Instruction::DecR(Register8::E)
    } else if b0 == 0x1E {
        Instruction::LdRI(Register8::E, b1)
    } else if b0 == 0x1F {
        Instruction::Rra
    } else if b0 == 0x20 {
        Instruction::JrCondS(Condition::NotZero, s)
    } else if b0 == 0x21 {
        Instruction::LdRrIi(Register16::HL, ii)
    } else if b0 == 0x22 {
        Instruction::LdiHlA
    } else if b0 == 0x23 {
        Instruction::IncRr(Register16::HL)
    } else if b0 == 0x24 {
        Instruction::IncR(Register8::H)
    } else if b0 == 0x25 {
        Instruction::DecR(Register8::H)
    } else if b0 == 0x26 {
        Instruction::LdRI(Register8::H, b1)
    } else if b0 == 0x27 {
        Instruction::Daa
    } else if b0 == 0x28 {
        Instruction::JrCondS(Condition::IsZero, s)
    } else if b0 == 0x29 {
        Instruction::AddHlRr(Register16::HL)
    } else if b0 == 0x2A {
        Instruction::LdiAHl
    } else if b0 == 0x2B {
        Instruction::DecRr(Register16::HL)
    } else if b0 == 0x2C {
        Instruction::IncR(Register8::L)
    } else if b0 == 0x2D {
        Instruction::DecR(Register8::L)
    } else if b0 == 0x2E {
        Instruction::LdRI(Register8::L, b1)
    } else if b0 == 0x2F {
        Instruction::Cpl
    } else if b0 == 0x30 {
        Instruction::JrCondS(Condition::NotCarry, s)
    } else if b0 == 0x31 {
        Instruction::LdRrIi(Register16::SP, ii)
    } else if b0 == 0x32 {
        Instruction::LddHlA
    } else if b0 == 0x33 {
        Instruction::IncRr(Register16::SP)
    } else if b0 == 0x34 {
        Instruction::IncHl
    } else if b0 == 0x35 {
        Instruction::DecHl
    } else if b0 == 0x36 {
        Instruction::LdHlI(b1)
    } else if b0 == 0x37 {
        Instruction::Scf
    } else if b0 == 0x38 {
        Instruction::JrCondS(Condition::IsCarry, s)
    } else if b0 == 0x39 {
        Instruction::AddHlRr(Register16::SP)
    } else if b0 == 0x3A {
        Instruction::LddAHl
    } else if b0 == 0x3B {
        Instruction::DecRr(Register16::SP)
    } else if b0 == 0x3C {
        Instruction::IncR(Register8::A)
    } else if b0 == 0x3D {
        Instruction::DecR(Register8::A)
    } else if b0 == 0x3E {
        Instruction::LdAI(b1)
    } else {
        Instruction::Ccf
    }
}

/// The instruction selected by an opcode byte in `0xC0..=0xFF`.
pub open spec fn spec_decode_hi(b0: u8, b1: u8, b2: u8) -> Instruction {
    let ii = spec_pack(b1, b2);
    let s = spec_signed(b1);
    if b0 == 0xC0 {
        Instruction::RetCond(Condition::NotZero)
    } else if b0 == 0xC1 {
        Instruction::Pop(Register16::BC)
    } else if b0 == 0xC2 {
        Instruction::JpCondIi(Condition::NotZero, ii)
    } else if b0 == 0xC3 {
        Instruction::JpIi(ii)
    } else if b0 == 0xC4 {
        Instruction::CallCondIi(Condition::NotZero, ii)
    } else if b0 == 0xC5 {
        Instruction::PushRr(Register16::BC)
    } else if b0 == 0xC6 {
        Instruction::AddAI(b1)
    } else if b0 == 0xC7 {
        Instruction::Rst(0x00)
    } else if b0 == 0xC8 {
        Instruction::RetCond(Condition::IsZero)
    } else if b0 == 0xC9 {
        Instruction::Ret
    } else if b0 == 0xCA {
        Instruction::JpCondIi(Condition::IsZero, ii)
    } else if b0 == 0xCB {
        spec_decode_cb(b1)
    } else if b0 == 0xCC {
        Instruction::CallCondIi(Condition::IsZero, ii)
    } else if b0 == 0xCD {
        Instruction::CallIi(ii)
    } else if b0 == 0xCE {
        Instruction::AdcAI(b1)
    } else if b0 == 0xCF {
        Instruction::Rst(0x08)
    } else if b0 == 0xD0 {
        Instruction::RetCond(Condition::NotCarry)
    } else if b0 == 0xD1 {
        Instruction::Pop(Register16::DE)
    } else if b0 == 0xD2 {
        Instruction::JpCondIi(Condition::NotCarry, ii)
    } else if b0 == 0xD3 {
        Instruction::Undefined(0xD3)
    } else if b0 == 0xD4 {
        Instruction::CallCondIi(Condition::NotCarry, ii)
    } else if b0 == 0xD5 {
        Instruction::PushRr(Register16::DE)
    } else if b0 == 0xD6 {
        Instruction::SubAI(b1)
    } else if b0 == 0xD7 {
        Instruction::Rst(0x10)
    } else if b0 == 0xD8 {
        Instruction::RetCond(Condition::IsCarry)
    } else if b0 == 0xD9 {
        Instruction::Reti
    } else if b0 == 0xDA {
        Instruction::JpCondIi(Condition::IsCarry, ii)
    } else if b0 == 0xDB {
        Instruction::Undefined(0xDB)
    } else if b0 == 0xDC {
        Instruction::CallCondIi(Condition::IsCarry, ii)
    } else if b0 == 0xDD {
        Instruction::Undefined(0xDD)
    } else if b0 == 0xDE {
        Instruction::SbcAI(b1)
    } else if b0 == 0xDF {
        Instruction::Rst(0x18)
    } else if b0 == 0xE0 {
        Instruction::LdIoA(b1)
    } else if b0 == 0xE1 {
        Instruction::Pop(Register16::HL)
    } else if b0 == 0xE2 {
        Instruction::LdIocA
    } else if b0 == 0xE3 {
        Instruction::Undefined(0xE3)
    } else if b0 == 0xE4 {
        Instruction::Undefined(0xE4)
    } else if b0 == 0xE5 {
        Instruction::PushRr(Register16::HL)
    } else if b0 == 0xE6 {
        Instruction::AndAI(b1)
    } else if b0 == 0xE7 {
        Instruction::Rst(0x20)
    } else if b0 == 0xE8 {
        Instruction::AddSpS(s)
    } else if b0 == 0xE9 {
        Instruction::JpHl
    } else if b0 == 0xEA {
        Instruction::LdIiA(ii)
    } else if b0 == 0xEB {
        Instruction::Undefined(0xEB)
    } else if b0 == 0xEC {
        Instruction::Undefined(0xEC)
    } else if b0 == 0xED {
        Instruction::Undefined(0xED)
    } else if b0 == 0xEE {
        Instruction::XorAI(b1)
    } else if b0 == 0xEF {
        Instruction::Rst(0x28)
    } else if b0 == 0xF0 {
        Instruction::LdAIo(b1)
    } else if b0 == 0xF1 {
        Instruction::Pop(Register16::AF)
    } else if b0 == 0xF2 {
        Instruction::LdAIoc
    } else if b0 == 0xF3 {
        Instruction::Di
    } else if b0 == 0xF4 {
        Instruction::Undefined(0xF4)
    } else if b0 == 0xF5 {
        Instruction::PushRr(Register16::AF)
    } else if b0 == 0xF6 {
        Instruction::OrAI(b1)
    } else if b0 == 0xF7 {
        Instruction::Rst(0x30)
    } else if b0 == 0xF8 {
        Instruction::LdHlSp(s)
    } else if b0 == 0xF9 {
        Instruction::LdSpHl
    } else if b0 == 0xFA {
        Instruction::LdAIi(ii)
    } else if b0 == 0xFB {
        Instruction::Ei
    } else if b0 == 0xFC {
        Instruction::Undefined(0xFC)
    } else if b0 == 0xFD {
        Instruction::Undefined(0xFD)
    } else if b0 == 0xFE {
        Instruction::CpAI(b1)
    } else {
        Instruction::Rst(0x38)
    }
}

/// The instruction encoded by an opcode byte and the two bytes after it.
pub open spec fn spec_decode(b0: u8, b1: u8, b2: u8) -> Instruction {
    if b0 < 0x40 {
        spec_decode_lo(b0, b1, b2)
    } else if b0 == 0x76 {
        Instruction::Halt
    } else if b0 < 0x80 {
        let dst = ((b0 - 0x40) / 8) as u8;
        let src = (b0 % 8) as u8;
        if dst == 6 {
            Instruction::LdHlR(spec_operand(src))
        } else if src == 6 {
            Instruction::LdRHl(spec_operand(dst))
        } else {
            Instruction::LdRR(spec_operand(dst), spec_operand(src))
        }
    } else if b0 < 0xC0 {
        spec_decode_alu(b0)
    } else {
        spec_decode_hi(b0, b1, b2)
    }
}

/// The arithmetic/logic instruction selected by an opcode byte in
/// `0x80..=0xBF`: the operation in bits 3 to 5, the operand in bits 0 to 2.
pub open spec fn spec_decode_alu(b0: u8) -> Instruction {
    let op = ((b0 - 0x80) / 8) as u8;
    let code = (b0 % 8) as u8;
    if op == 0 {
        if code == 6 {
            Instruction::AddAHl
        } else {
            Instruction::AddAR(spec_operand(code))
        }
    } else if op == 1 {
        if code == 6 {
            Instruction::AdcAHl
        } else {
            Instruction::AdcAR(spec_operand(code))
        }
    } else if op == 2 {
        if code == 6 {
            Instruction::SubAHl
        } else {
            Instruction::SubAR(spec_operand(code))
        }
    } else if op == 3 {
        if code == 6 {
            Instruction::SbcAHl
        } else {
            Instruction::SbcAR(spec_operand(code))
        }
    } else if op == 4 {
        if code == 6 {
            Instruction::AndAHl
        } else {
            Instruction::AndAR(spec_operand(code))
        }
    } else if op == 5 {
        if code == 6 {
            Instruction::XorAHl
        } else {
            Instruction::XorAR(spec_operand(code))
        }
    } else if op == 6 {
        if code == 6 {
            Instruction::OrAHl
        } else {
            Instruction::OrAR(spec_operand(code))
        }
    } else {
        if code == 6 {
            Instruction::CpAHl
        } else {
            Instruction::CpAR(spec_operand(code))
        }
    }
}

/// Decode the arithmetic/logic block of the opcode table.
fn decode_alu(b0: u8) -> (r: Instruction)
    requires
        0x80 <= b0 < 0xC0,
    ensures
        r == spec_decode_alu(b0),
{
    let op = (b0 - 0x80) / 8;
    let code = b0 % 8;
    if op == 0 {
        if code == 6 {
            Instruction::AddAHl
        } else {
            Instruction::AddAR(operand(code))
        }
    } else if op == 1 {
        if code == 6 {
            Instruction::AdcAHl
        } else {
            Instruction::AdcAR(operand(code))
        }
    } else if op == 2 {
        if code == 6 {
            Instruction::SubAHl
        } else {
            Instruction::SubAR(operand(code))
        }
    } else if op == 3 {
        if code == 6 {
            Instruction::SbcAHl
        } else {
            Instruction::SbcAR(operand(code))
        }
    } else if op == 4 {
        if code == 6 {
            Instruction::AndAHl
        } else {
            Instruction::AndAR(operand(code))
        }
    } else if op == 5 {
        if code == 6 {
            Instruction::XorAHl
        } else {
            Instruction::XorAR(operand(code))
        }
    } else if op == 6 {
        if code == 6 {
            Instruction::OrAHl
        } else {
            Instruction::OrAR(operand(code))
        }
    } else {
        if code == 6 {
            Instruction::CpAHl
        } else {
            Instruction::CpAR(operand(code))
        }
    }
}

/// Decode the three bytes fetched at an address into an instruction.
pub fn decode_bytes(b0: u8, b1: u8, b2: u8) -> (r: Instruction)
    ensures
        r == spec_decode(b0, b1, b2),
{
    let ii = pack_words(b1, b2);
    let s = to_signed(b1);
    if b0 < 0x40 {
        if b0 == 0x00 {
            Instruction::Nop
        } else if b0 == 0x01 {
            Instruction::LdRrIi(Register16::BC, ii)
        } else if b0 == 0x02 {
            Instruction::LdRrA(Register16::BC)
        } else if b0 == 0x03 {
            Instruction::IncRr(Register16::BC)
        } else if b0 == 0x04 {
            Instruction::IncR(Register8::B)
        } else if b0 == 0x05 {
            Instruction::DecR(Register8::B)
        } else if b0 == 0x06 {
            Instruction::LdRI(Register8::B, b1)
        } else if b0 == 0x07 {
            Instruction::Rlca
        } else if b0 == 0x08 {
            Instruction::LdIiSp(ii)
        } else if b0 == 0x09 {
            Instruction::AddHlRr(Register16::BC)
        } else if b0 == 0x0A {
            Instruction::LdARr(Register16::BC)
        } else if b0 == 0x0B {
            Instruction::DecRr(Register16::BC)
        } else if b0 == 0x0C {
            Instruction::IncR(Register8::C)
        } else if b0 == 0x0D {
            Instruction::DecR(Register8::C)
        } else if b0 == 0x0E {
            Instruction::LdRI(Register8::C, b1)
        } else if b0 == 0x0F {
            Instruction::Rrca
        } else if b0 == 0x10 {
            Instruction::Stop
        } else if b0 == 0x11 {
            Instruction::LdRrIi(Register16::DE, ii)
        } else if b0 == 0x12 {
            Instruction::LdRrA(Register16::DE)
        } else if b0 == 0x13 {
            Instruction::IncRr(Register16::DE)
        } else if b0 == 0x14 {
            Instruction::IncR(Register8::D)
        } else if b0 == 0x15 {
            Instruction::DecR(Register8::D)
        } else if b0 == 0x16 {
            Instruction::LdRI(Register8::D, b1)
        } else if b0 == 0x17 {
            Instruction::Rla
        } else if b0 == 0x18 {
            Instruction::JrS(s)
        } else if b0 == 0x19 {
            Instruction::AddHlRr(Register16::DE)
        } else if b0 == 0x1A {
            Instruction::LdARr(Register16::DE)
        } else if b0 == 0x1B {
            Instruction::DecRr(Register16::DE)
        } else if b0 == 0x1C {
            Instruction::IncR(Register8::E)
        } else if b0 == 0x1D {
            Instruction::DecR(Register8::E)
        } else if b0 == 0x1E {
            Instruction::LdRI(Register8::E, b1)
        } else if b0 == 0x1F {
            Instruction::Rra
        } else if b0 == 0x20 {
            Instruction::JrCondS(Condition::NotZero, s)
        } else if b0 == 0x21 {
            Instruction::LdRrIi(Register16::HL, ii)
        } else if b0 == 0x22 {
            Instruction::LdiHlA
        } else if b0 == 0x23 {
            Instruction::IncRr(Register16::HL)
        } else if b0 == 0x24 {
            Instruction::IncR(Register8::H)
        } else if b0 == 0x25 {
            Instruction::DecR(Register8::H)
        } else if b0 == 0x26 {
            Instruction::LdRI(Register8::H, b1)
        } else if b0 == 0x27 {
            Instruction::Daa
        } else if b0 == 0x28 {
            Instruction::JrCondS(Condition::IsZero, s)
        } else if b0 == 0x29 {
            Instruction::AddHlRr(Register16::HL)
        } else if b0 == 0x2A {
            Instruction::LdiAHl
        } else if b0 == 0x2B {
            Instruction::DecRr(Register16::HL)
        } else if b0 == 0x2C {
            Instruction::IncR(Register8::L)
        } else if b0 == 0x2D {
            Instruction::DecR(Register8::L)
        } else if b0 == 0x2E {
            Instruction::LdRI(Register8::L, b1)
        } else if b0 == 0x2F {
            Instruction::Cpl
        } else if b0 == 0x30 {
            Instruction::JrCondS(Condition::NotCarry, s)
        } else if b0 == 0x31 {
            Instruction::LdRrIi(Register16::SP, ii)
        } else if b0 == 0x32 {
            Instruction::LddHlA
        } else if b0 == 0x33 {
            Instruction::IncRr(Register16::SP)
        } else if b0 == 0x34 {
            Instruction::IncHl
        } else if b0 == 0x35 {
            Instruction::DecHl
        } else if b0 == 0x36 {
            Instruction::LdHlI(b1)
        } else if b0 == 0x37 {
            Instruction::Scf
        } else if b0 == 0x38 {
            Instruction::JrCondS(Condition::IsCarry, s)
        } else if b0 == 0x39 {
            Instruction::AddHlRr(Register16::SP)
        } else if b0 == 0x3A {
            Instruction::LddAHl
        } else if b0 == 0x3B {
            Instruction::DecRr(Register16::SP)
        } else if b0 == 0x3C {
            Instruction::IncR(Register8::A)
        } else if b0 == 0x3D {
            Instruction::DecR(Register8::A)
        } else if b0 == 0x3E {
            Instruction::LdAI(b1)
        } else {
            Instruction::Ccf
        }
    } else if b0 == 0x76 {
        Instruction::Halt
    } else if b0 < 0x80 {
        let dst = (b0 - 0x40) / 8;
        let src = b0 % 8;
        if dst == 6 {
            Instruction::LdHlR(operand(src))
        } else if src == 6 {
            Instruction::LdRHl(operand(dst))
        } else {
            Instruction::LdRR(operand(dst), operand(src))
        }
    } else if b0 < 0xC0 {
        decode_alu(b0)
    } else {
        if b0 == 0xC0 {
            Instruction::RetCond(Condition::NotZero)
        } else if b0 == 0xC1 {
            Instruction::Pop(Register16::BC)
        } else if b0 == 0xC2 {
            Instruction::JpCondIi(Condition::NotZero, ii)
        } else if b0 == 0xC3 {
            Instruction::JpIi(ii)
        } else if b0 == 0xC4 {
            Instruction::CallCondIi(Condition::NotZero, ii)
        } else if b0 == 0xC5 {
            Instruction::PushRr(Register16::BC)
        } else if b0 == 0xC6 {
            Instruction::AddAI(b1)
        } else if b0 == 0xC7 {
            Instruction::Rst(0x00)
        } else if b0 == 0xC8 {
            Instruction::RetCond(Condition::IsZero)
        } else if b0 == 0xC9 {
            Instruction::Ret
        } else if b0 == 0xCA {
            Instruction::JpCondIi(Condition::IsZero, ii)
        } else if b0 == 0xCB {
            decode_cb(b1)
        } else if b0 == 0xCC {
            Instruction::CallCondIi(Condition::IsZero, ii)
        } else if b0 == 0xCD {
            Instruction::CallIi(ii)
        } else if b0 == 0xCE {
            Instruction::AdcAI(b1)
        } else if b0 == 0xCF {
            Instruction::Rst(0x08)
        } else if b0 == 0xD0 {
            Instruction::RetCond(Condition::NotCarry)
        } else if b0 == 0xD1 {
            Instruction::Pop(Register16::DE)
        } else if b0 == 0xD2 {
            Instruction::JpCondIi(Condition::NotCarry, ii)
        } else if b0 == 0xD3 {
            Instruction::Undefined(0xD3)
        } else if b0 == 0xD4 {
            Instruction::CallCondIi(Condition::NotCarry, ii)
        } else if b0 == 0xD5 {
            Instruction::PushRr(Register16::DE)
        } else if b0 == 0xD6 {
            Instruction::SubAI(b1)
        } else if b0 == 0xD7 {
            Instruction::Rst(0x10)
        } else if b0 == 0xD8 {
            Instruction::RetCond(Condition::IsCarry)
        } else if b0 == 0xD9 {
            Instruction::Reti
        } else if b0 == 0xDA {
            Instruction::JpCondIi(Condition::IsCarry, ii)
        } else if b0 == 0xDB {
            Instruction::Undefined(0xDB)
        } else if b0 == 0xDC {
            Instruction::CallCondIi(Condition::IsCarry, ii)
        } else if b0 == 0xDD {
            Instruction::Undefined(0xDD)
        } else if b0 == 0xDE {
            Instruction::SbcAI(b1)
        } else if b0 == 0xDF {
            Instruction::Rst(0x18)
        } else if b0 == 0xE0 {
            Instruction::LdIoA(b1)
        } else if b0 == 0xE1 {
            Instruction::Pop(Register16::HL)
        } else if b0 == 0xE2 {
            Instruction::LdIocA
        } else if b0 == 0xE3 {
            Instruction::Undefined(0xE3)
        } else if b0 == 0xE4 {
            Instruction::Undefined(0xE4)
        } else if b0 == 0xE5 {
            Instruction::PushRr(Register16::HL)
        } else if b0 == 0xE6 {
            Instruction::AndAI(b1)
        } else if b0 == 0xE7 {
            Instruction::Rst(0x20)
        } else if b0 == 0xE8 {
            Instruction::AddSpS(s)
        } else if b0 == 0xE9 {
            Instruction::JpHl
        } else if b0 == 0xEA {
            Instruction::LdIiA(ii)
        } else if b0 == 0xEB {
            Instruction::Undefined(0xEB)
        } else if b0 == 0xEC {
            Instruction::Undefined(0xEC)
        } else if b0 == 0xED {
            Instruction::Undefined(0xED)
        } else if b0 == 0xEE {
            Instruction::XorAI(b1)
        } else if b0 == 0xEF {
            Instruction::Rst(0x28)
        } else if b0 == 0xF0 {
            Instruction::LdAIo(b1)
        } else if b0 == 0xF1 {
            Instruction::Pop(Register16::AF)
        } else if b0 == 0xF2 {
            Instruction::LdAIoc
        } else if b0 == 0xF3 {
            Instruction::Di
        } else if b0 == 0xF4 {
            Instruction::Undefined(0xF4)
        } else if b0 == 0xF5 {
            Instruction::PushRr(Register16::AF)
        } else if b0 == 0xF6 {
            Instruction::OrAI(b1)
        } else if b0 == 0xF7 {
            Instruction::Rst(0x30)
        } else if b0 == 0xF8 {
            Instruction::LdHlSp(s)
        } else if b0 == 0xF9 {
            Instruction::LdSpHl
        } else if b0 == 0xFA {
            Instruction::LdAIi(ii)
        } else if b0 == 0xFB {
            Instruction::Ei
        } else if b0 == 0xFC {
            Instruction::Undefined(0xFC)
        } else if b0 == 0xFD {
            Instruction::Undefined(0xFD)
        } else if b0 == 0xFE {
            Instruction::CpAI(b1)
        } else {
            Instruction::Rst(0x38)
        }
    }
}

/// Decode the instruction at an address, reading the opcode byte and up to
/// two operand bytes through the given memory; the bus is never written.
pub fn decode<M: Memory>(memory: &M, address: u16) -> (r: Instruction)
    requires
        memory.inv(),
    ensures
        r == spec_decode(
            memory.read_spec(address),
            memory.read_spec(address.wrapping_add(1)),
            memory.read_spec(address.wrapping_add(2)),
        ),
{
    let b0 = memory.read(address);
    let b1 = memory.read(address.wrapping_add(1));
    let b2 = memory.read(address.wrapping_add(2));
    decode_bytes(b0, b1, b2)
}

} // verus!
