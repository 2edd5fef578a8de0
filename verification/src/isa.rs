//! Instruction-set types: registers, flags, branch conditions, and the typed
//! instruction enumeration with its cycle-cost and byte-size tables.

use vstd::prelude::*;

verus! {

/// An 8-bit, signed, immediate value
pub type SignedImmediate8 = i8;

/// A word
pub type Word = u8;

/// A double sized word
pub type DoubleWord = u16;

/// An address
pub type Address = DoubleWord;

/// An 8-bit, unsigned, immediate value
pub type Immediate8 = Word;

/// A 16-bit, unsigned, immediate value
pub type Immediate16 = DoubleWord;

/// An 8-bit register
#[derive(Debug, Copy, Clone, PartialEq, Eq, Structural)]
pub enum Register8 {
    A,
    F,
    B,
    C,
    D,
    E,
    H,
    L,
}

/// A 16-bit register
#[derive(Debug, Copy, Clone, PartialEq, Eq, Structural)]
pub enum Register16 {
    AF,
    BC,
    DE,
    HL,
    SP,
    PC,
}

/// A CPU flag, stored in the high nibble of the `F` register:
/// bit 7 is `Zero`, bit 6 is `AddSub`, bit 5 is `HalfCarry`, bit 4 is `Carry`.
#[derive(Debug, Copy, Clone, PartialEq, Eq, Structural)]
pub enum Flag {
    Zero,
    AddSub,
    HalfCarry,
    Carry,
}

/// A branch condition for conditional jumps, calls and returns.
#[derive(Debug, Copy, Clone, PartialEq, Eq, Structural)]
pub enum Condition {
    NotZero,
    IsZero,
    NotCarry,
    IsCarry,
}

/// A CPU Instruction
///
/// # Notes
/// The naming convention is the name of the instruction followed by one or
/// two suffixes:
/// * `R`: 8-bit register operand
/// * `Rr`: 16-bit register operand
/// * `I`: 8-bit, unsigned, immediate value
/// * `Ii`: 16-bit, unsigned, immediate value
/// * `S`: 8-bit, signed, immediate value
/// * `A`: the 8-bit `A` accumulator register
/// * `Hl`: the 16-bit `HL` register used as an indirect address
/// * `Sp`: the 16-bit `SP` stack pointer register
///
/// Two-operand variants name the destination first.
#[derive(Debug, Copy, Clone, PartialEq, Eq, Structural)]
pub enum Instruction {
    // 8-bit load instructions
    LdRR(Register8, Register8),
    LdRI(Register8, Immediate8),
    LdRHl(Register8),
    LdHlR(Register8),
    LdHlI(Immediate8),
    LdARr(Register16),
    LdAI(Immediate8),
    LdRrA(Register16),
    LdAIi(Immediate16),
    LdAIo(Immediate8),
    LdIoA(Immediate8),
    LdIiA(Immediate16),
    LdAIoc,
    LdIocA,

    LdiHlA,
    LdiAHl,

    LddHlA,
    LddAHl,

    // 16-bit load instructions
    LdRrIi(Register16, Immediate16),
    LdSpHl,
    LdIiSp(Immediate16),
    PushRr(Register16),
    Pop(Register16),

    // 8-bit ALU instructions
    AddAR(Register8),
    AddAI(Immediate8),
    AddAHl,

    AdcAR(Register8),
    AdcAI(Immediate8),
    AdcAHl,

    SubAR(Register8),
    SubAI(Immediate8),
    SubAHl,

    SbcAR(Register8),
    SbcAI(Immediate8),
    SbcAHl,

    AndAR(Register8),
    AndAI(Immediate8),
    AndAHl,

    XorAR(Register8),
    XorAI(Immediate8),
    XorAHl,

    OrAR(Register8),
    OrAI(Immediate8),
    OrAHl,

    CpAR(Register8),
    CpAI(Immediate8),
    CpAHl,

    IncR(Register8),
    IncHl,

    DecR(Register8),
    DecHl,

    Daa,
    Cpl,

    // 16-bit ALU instructions
    AddHlRr(Register16),
    AddSpS(SignedImmediate8),
    IncRr(Register16),
    DecRr(Register16),
    LdHlSp(SignedImmediate8),

    // Rotate/shift commands
    Rlca,

    Rla,

    Rrca,

    Rra,

    RlcR(Register8),
    RlcHl,

    RlR(Register8),
    RlHl,

    RrcR(Register8),
    RrcHl,

    RrR(Register8),
    RrHl,

    SlaR(Register8),
    SlaHl,

    SwapR(Register8),
    SwapHl,

    SraR(Register8),
    SraHl,

    SrlR(Register8),
    SrlHl,

    // Single-bit commands
    BitIR(Immediate8, Register8),
    BitIHl(Immediate8),

    SetIR(Immediate8, Register8),
    SetIHl(Immediate8),

    ResIR(Immediate8, Register8),
    ResIHl(Immediate8),

    // Control commands
    Ccf,

    Scf,

    Nop,

    Halt,

    Stop,

    Di,

    Ei,

    // Jump commands
    JpIi(Immediate16),
    JpCondIi(Condition, Immediate16),
    JpHl,

    JrS(SignedImmediate8),
    JrCondS(Condition, SignedImmediate8),

    CallIi(Address),
    CallCondIi(Condition, Address),

    Ret,
    RetCond(Condition),

    Reti,

    Rst(Immediate8),

    // Undefined instruction
    Undefined(Word),
}

/// The number of cycles an instruction consumes when it does not branch.
pub open spec fn cycles_spec(i: Instruction) -> u8 {
    match i {
        Instruction::LdRR(_, _) => 4,
        Instruction::LdRI(_, _) => 8,
        Instruction::LdRHl(_) => 8,
        Instruction::LdHlR(_) => 8,
        Instruction::LdHlI(_) => 12,
        Instruction::LdARr(_) => 8,
        Instruction::LdAI(_) => 16,
        Instruction::LdRrA(_) => 8,
        Instruction::LdAIi(_) => 16,
        Instruction::LdAIo(_) => 12,
        Instruction::LdIoA(_) => 12,
        Instruction::LdIiA(_) => 16,
        Instruction::LdAIoc => 8,
        Instruction::LdIocA => 8,
        Instruction::LdiHlA => 8,
        Instruction::LdiAHl => 8,
        Instruction::LddHlA => 8,
        Instruction::LddAHl => 8,
        Instruction::LdRrIi(_, _) => 12,
        Instruction::LdSpHl => 8,
        Instruction::LdIiSp(_) => 20,
        Instruction::PushRr(_) => 16,
        Instruction::Pop(_) => 12,
        Instruction::AddAR(_) => 4,
        Instruction::AddAI(_) => 8,
        Instruction::AddAHl => 8,
        Instruction::AdcAR(_) => 4,
        Instruction::AdcAI(_) => 8,
        Instruction::AdcAHl => 8,
        Instruction::SubAR(_) => 4,
        Instruction::SubAI(_) => 8,
        Instruction::SubAHl => 8,
        Instruction::SbcAR(_) => 4,
        Instruction::SbcAI(_) => 8,
        Instruction::SbcAHl => 8,
        Instruction::AndAR(_) => 4,
        Instruction::AndAI(_) => 8,
        Instruction::AndAHl => 8,
        Instruction::XorAR(_) => 4,
        Instruction::XorAI(_) => 8,
        Instruction::XorAHl => 8,
        Instruction::OrAR(_) => 4,
        Instruction::OrAI(_) => 8,
        Instruction::OrAHl => 8,
        Instruction::CpAR(_) => 4,
        Instruction::CpAI(_) => 8,
        Instruction::CpAHl => 8,
        Instruction::IncR(_) => 4,
        Instruction::IncHl => 12,
        Instruction::DecR(_) => 4,
        Instruction::DecHl => 12,
        Instruction::Daa => 4,
        Instruction::Cpl => 4,
        Instruction::AddHlRr(_) => 8,
        Instruction::AddSpS(_) => 16,
        Instruction::IncRr(_) => 8,
        Instruction::DecRr(_) => 8,
        Instruction::LdHlSp(_) => 12,
        Instruction::Rlca => 4,
        Instruction::Rla => 4,
        Instruction::Rrca => 4,
        Instruction::Rra => 4,
        Instruction::RlcR(_) => 8,
        Instruction::RlcHl => 16,
        Instruction::RlR(_) => 8,
        Instruction::RlHl => 16,
        Instruction::RrcR(_) => 8,
        Instruction::RrcHl => 16,
        Instruction::RrR(_) => 8,
        Instruction::RrHl => 16,
        Instruction::SlaR(_) => 8,
        Instruction::SlaHl => 16,
        Instruction::SwapR(_) => 8,
        Instruction::SwapHl => 16,
        Instruction::SraR(_) => 8,
        Instruction::SraHl => 16,
        Instruction::SrlR(_) => 8,
        Instruction::SrlHl => 16,
        Instruction::BitIR(_, _) => 8,
        Instruction::BitIHl(_) => 12,
        Instruction::SetIR(_, _) => 8,
        Instruction::SetIHl(_) => 12,
        Instruction::ResIR(_, _) => 8,
        Instruction::ResIHl(_) => 12,
        Instruction::Ccf => 4,
        Instruction::Scf => 4,
        Instruction::Nop => 4,
        Instruction::Halt => 4,
        Instruction::Stop => 0,
        Instruction::Di => 4,
        Instruction::Ei => 4,
        Instruction::JpIi(_) => 16,
        Instruction::JpCondIi(_, _) => 12,
        Instruction::JpHl => 4,
        Instruction::JrS(_) => 12,
        Instruction::JrCondS(_, _) => 12,
        Instruction::CallIi(_) => 24,
        Instruction::CallCondIi(_, _) => 12,
        Instruction::Ret => 16,
        Instruction::RetCond(_) => 8,
        Instruction::Reti => 16,
        Instruction::Rst(_) => 16,
        Instruction::Undefined(_) => 0,
    }
}

/// The number of cycles an instruction consumes when its condition holds and
/// the branch is taken; equal to `cycles_spec` for every other instruction.
pub open spec fn cycles_on_branch_spec(i: Instruction) -> u8 {
    match i {
        Instruction::JpCondIi(_, _) => 16,
        Instruction::JrCondS(_, _) => 12,
        Instruction::CallCondIi(_, _) => 24,
        Instruction::RetCond(_) => 20,
        _ => cycles_spec(i),
    }
}

/// The number of bytes an instruction occupies: the opcode byte (two for the
/// extended table) plus the immediate operand bytes the decoder consumes.
pub open spec fn size_spec(i: Instruction) -> u8 {
    match i {
        Instruction::LdRR(_, _) => 1,
        Instruction::LdRI(_, _) => 2,
        Instruction::LdRHl(_) => 1,
        Instruction::LdHlR(_) => 1,
        Instruction::LdHlI(_) => 2,
        Instruction::LdARr(_) => 1,
        Instruction::LdAI(_) => 2,
        Instruction::LdRrA(_) => 1,
        Instruction::LdAIi(_) => 3,
        Instruction::LdAIo(_) => 2,
        Instruction::LdIoA(_) => 2,
        Instruction::LdIiA(_) => 3,
        Instruction::LdAIoc => 2,
        Instruction::LdIocA => 2,
        Instruction::LdiHlA => 1,
        Instruction::LdiAHl => 1,
        Instruction::LddHlA => 1,
        Instruction::LddAHl => 1,
        Instruction::LdRrIi(_, _) => 3,
        Instruction::LdSpHl => 1,
        Instruction::LdIiSp(_) => 3,
        Instruction::PushRr(_) => 1,
        Instruction::Pop(_) => 1,
        Instruction::AddAR(_) => 1,
        Instruction::AddAI(_) => 2,
        Instruction::AddAHl => 1,
        Instruction::AdcAR(_) => 1,
        Instruction::AdcAI(_) => 2,
        Instruction::AdcAHl => 1,
        Instruction::SubAR(_) => 1,
        Instruction::SubAI(_) => 2,
        Instruction::SubAHl => 1,
        Instruction::SbcAR(_) => 1,
        Instruction::SbcAI(_) => 2,
        Instruction::SbcAHl => 1,
        Instruction::AndAR(_) => 1,
        Instruction::AndAI(_) => 2,
        Instruction::AndAHl => 1,
        Instruction::XorAR(_) => 1,
        Instruction::XorAI(_) => 2,
        Instruction::XorAHl => 1,
        Instruction::OrAR(_) => 1,
        Instruction::OrAI(_) => 2,
        Instruction::OrAHl => 1,
        Instruction::CpAR(_) => 1,
        Instruction::CpAI(_) => 2,
        Instruction::CpAHl => 1,
        Instruction::IncR(_) => 1,
        Instruction::IncHl => 1,
        Instruction::DecR(_) => 1,
        Instruction::DecHl => 1,
        Instruction::Daa => 1,
        Instruction::Cpl => 1,
        Instruction::AddHlRr(_) => 1,
        Instruction::AddSpS(_) => 2,
        Instruction::IncRr(_) => 1,
        Instruction::DecRr(_) => 1,
        Instruction::LdHlSp(_) => 2,
        Instruction::Rlca => 1,
        Instruction::Rla => 1,
        Instruction::Rrca => 1,
        Instruction::Rra => 1,
        Instruction::RlcR(_) => 2,
        Instruction::RlcHl => 2,
        Instruction::RlR(_) => 2,
        Instruction::RlHl => 2,
        Instruction::RrcR(_) => 2,
        Instruction::RrcHl => 2,
        Instruction::RrR(_) => 2,
        Instruction::RrHl => 2,
        Instruction::SlaR(_) => 2,
        Instruction::SlaHl => 2,
        Instruction::SwapR(_) => 2,
        Instruction::SwapHl => 2,
        Instruction::SraR(_) => 2,
        Instruction::SraHl => 2,
        Instruction::SrlR(_) => 2,
        Instruction::SrlHl => 2,
        Instruction::BitIR(_, _) => 2,
        Instruction::BitIHl(_) => 2,
        Instruction::SetIR(_, _) => 2,
        Instruction::SetIHl(_) => 2,
        Instruction::ResIR(_, _) => 2,
        Instruction::ResIHl(_) => 2,
        Instruction::Ccf => 1,
        Instruction::Scf => 1,
        Instruction::Nop => 1,
        Instruction::Halt => 1,
        Instruction::Stop => 2,
        Instruction::Di => 1,
        Instruction::Ei => 1,
        Instruction::JpIi(_) => 3,
        Instruction::JpCondIi(_, _) => 3,
        Instruction::JpHl => 1,
        Instruction::JrS(_) => 2,
        Instruction::JrCondS(_, _) => 2,
        Instruction::CallIi(_) => 3,
        Instruction::CallCondIi(_, _) => 3,
        Instruction::Ret => 1,
        Instruction::RetCond(_) => 1,
        Instruction::Reti => 1,
        Instruction::Rst(_) => 1,
        Instruction::Undefined(_) => 0,
    }
}

impl Instruction {
    /// Return the number of cycles an instruction takes
    ///
    /// # Notes
    /// Assumes the instruction is not branching
    pub fn cycles(self) -> (r: u8)
        ensures
            r == cycles_spec(self),
    {
        match self {
            Instruction::LdRI(_, _) => 8,
            Instruction::LdRHl(_) => 8,
            Instruction::LdHlR(_) => 8,
            Instruction::LdHlI(_) => 12,
            Instruction::LdARr(_) => 8,
            Instruction::LdAI(_) => 16,
            Instruction::LdRrA(_) => 8,
            Instruction::LdAIi(_) => 16,
            Instruction::LdAIo(_) => 12,
            Instruction::LdIoA(_) => 12,
            Instruction::LdIiA(_) => 16,
            Instruction::LdAIoc => 8,
            Instruction::LdIocA => 8,
            Instruction::LdiHlA => 8,
            Instruction::LdiAHl => 8,
            Instruction::LddHlA => 8,
            Instruction::LddAHl => 8,
            Instruction::LdRrIi(_, _) => 12,
            Instruction::LdSpHl => 8,
            Instruction::LdIiSp(_) => 20,
            Instruction::PushRr(_) => 16,
            Instruction::Pop(_) => 12,
            Instruction::AddAI(_) => 8,
            Instruction::AddAHl => 8,
            Instruction::AdcAI(_) => 8,
            Instruction::AdcAHl => 8,
            Instruction::SubAI(_) => 8,
            Instruction::SubAHl => 8,
            Instruction::SbcAI(_) => 8,
            Instruction::SbcAHl => 8,
            Instruction::AndAI(_) => 8,
            Instruction::AndAHl => 8,
            Instruction::XorAI(_) => 8,
            Instruction::XorAHl => 8,
            Instruction::OrAI(_) => 8,
            Instruction::OrAHl => 8,
            Instruction::CpAI(_) => 8,
            Instruction::CpAHl => 8,
            Instruction::IncHl => 12,
            Instruction::DecHl => 12,
            Instruction::AddHlRr(_) => 8,
            Instruction::AddSpS(_) => 16,
            Instruction::IncRr(_) => 8,
            Instruction::DecRr(_) => 8,
            Instruction::LdHlSp(_) => 12,
            Instruction::RlcR(_) => 8,
            Instruction::RlcHl => 16,
            Instruction::RlR(_) => 8,
            Instruction::RlHl => 16,
            Instruction::RrcR(_) => 8,
            Instruction::RrcHl => 16,
            Instruction::RrR(_) => 8,
            Instruction::RrHl => 16,
            Instruction::SlaR(_) => 8,
            Instruction::SlaHl => 16,
            Instruction::SwapR(_) => 8,
            Instruction::SwapHl => 16,
            Instruction::SraR(_) => 8,
            Instruction::SraHl => 16,
            Instruction::SrlR(_) => 8,
            Instruction::SrlHl => 16,
            Instruction::BitIR(_, _) => 8,
            Instruction::BitIHl(_) => 12,
            Instruction::SetIR(_, _) => 8,
            Instruction::SetIHl(_) => 12,
            Instruction::ResIR(_, _) => 8,
            Instruction::ResIHl(_) => 12,
            Instruction::Stop => 0,
            Instruction::JpIi(_) => 16,
            Instruction::JpCondIi(_, _) => 12,
            Instruction::JrS(_) => 12,
            Instruction::JrCondS(_, _) => 12,
            Instruction::CallIi(_) => 24,
            Instruction::CallCondIi(_, _) => 12,
            Instruction::Ret => 16,
            Instruction::RetCond(_) => 8,
            Instruction::Reti => 16,
            Instruction::Rst(_) => 16,
            Instruction::Undefined(_) => 0,
            _ => 4,
        }
    }

    /// Return the number of cycles an instruction takes when it branches
    ///
    /// # Notes
    /// Non-branching instructions return the same value as `cycles`
    pub fn cycles_on_branch(self) -> (r: u8)
        ensures
            r == cycles_on_branch_spec(self),
    {
        match self {
            Instruction::JpCondIi(_, _) => 16,
            Instruction::JrCondS(_, _) => 12,
            Instruction::CallCondIi(_, _) => 24,
            Instruction::RetCond(_) => 20,
            v => v.cycles(),
        }
    }

    /// Return the number of bytes the instruction occupies in memory
    pub fn size(self) -> (r: u8)
        ensures
            r == size_spec(self),
    {
        match self {
            Instruction::LdRI(_, _) => 2,
            Instruction::LdHlI(_) => 2,
            Instruction::LdAI(_) => 2,
            Instruction::LdAIi(_) => 3,
            Instruction::LdAIo(_) => 2,
            Instruction::LdIoA(_) => 2,
            Instruction::LdIiA(_) => 3,
            Instruction::LdAIoc => 2,
            Instruction::LdIocA => 2,
            Instruction::LdRrIi(_, _) => 3,
            Instruction::LdIiSp(_) => 3,
            Instruction::AddAI(_) => 2,
            Instruction::AdcAI(_) => 2,
            Instruction::SubAI(_) => 2,
            Instruction::SbcAI(_) => 2,
            Instruction::AndAI(_) => 2,
            Instruction::XorAI(_) => 2,
            Instruction::OrAI(_) => 2,
            Instruction::CpAI(_) => 2,
            Instruction::AddSpS(_) => 2,
            Instruction::LdHlSp(_) => 2,
            Instruction::RlcR(_) => 2,
            Instruction::RlcHl => 2,
            Instruction::RlR(_) => 2,
            Instruction::RlHl => 2,
            Instruction::RrcR(_) => 2,
            Instruction::RrcHl => 2,
            Instruction::RrR(_) => 2,
            Instruction::RrHl => 2,
            Instruction::SlaR(_) => 2,
            Instruction::SlaHl => 2,
            Instruction::SwapR(_) => 2,
            Instruction::SwapHl => 2,
            Instruction::SraR(_) => 2,
            Instruction::SraHl => 2,
            Instruction::SrlR(_) => 2,
            Instruction::SrlHl => 2,
            Instruction::BitIR(_, _) => 2,
            Instruction::BitIHl(_) => 2,
            Instruction::SetIR(_, _) => 2,
            Instruction::SetIHl(_) => 2,
            Instruction::ResIR(_, _) => 2,
            Instruction::ResIHl(_) => 2,
            Instruction::Stop => 2,
            Instruction::JpIi(_) => 3,
            Instruction::JpCondIi(_, _) => 3,
            Instruction::JrS(_) => 2,
            Instruction::JrCondS(_, _) => 2,
            Instruction::CallIi(_) => 3,
            Instruction::CallCondIi(_, _) => 3,
            Instruction::Undefined(_) => 0,
            _ => 1,
        }
    }
}

} // verus!
