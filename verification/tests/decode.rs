use gbcore::disasm::{decode, decode_bytes};
use gbcore::isa::{Condition, Instruction, Register16, Register8};
use gbcore::memory::{Memory, Memory4Kb};

#[test]
fn extended_table_starts_with_rlc_b() {
    assert_eq!(decode_bytes(0xCB, 0x00, 0x00), Instruction::RlcR(Register8::B));
}

#[test]
fn undefined_opcodes_decode_to_undefined() {
    for opcode in [0xD3u8, 0xDB, 0xDD, 0xE3, 0xE4, 0xEB, 0xEC, 0xED, 0xF4, 0xFC, 0xFD] {
        assert_eq!(decode_bytes(opcode, 0x00, 0x00), Instruction::Undefined(opcode));
    }
}

#[test]
fn decode_reads_bytes_through_memory() {
    let mut memory = Memory4Kb::new();
    memory.write(0x0010, 0xCB);
    memory.write(0x0011, 0x00);
    assert_eq!(decode(&memory, 0x0010), Instruction::RlcR(Register8::B));
    memory.write(0x0020, 0xD3);
    assert_eq!(decode(&memory, 0x0020), Instruction::Undefined(0xD3));
}

#[test]
fn immediates_are_little_endian() {
    assert_eq!(
        decode_bytes(0x01, 0xAD, 0xDE),
        Instruction::LdRrIi(Register16::BC, 0xDEAD)
    );
    assert_eq!(decode_bytes(0xC3, 0x50, 0x01), Instruction::JpIi(0x0150));
    assert_eq!(decode_bytes(0x3E, 0x42, 0x00), Instruction::LdAI(0x42));
}

#[test]
fn load_block_decodes_by_operand_code() {
    assert_eq!(
        decode_bytes(0x41, 0x00, 0x00),
        Instruction::LdRR(Register8::B, Register8::C)
    );
    assert_eq!(
        decode_bytes(0x78, 0x00, 0x00),
        Instruction::LdRR(Register8::A, Register8::B)
    );
    assert_eq!(decode_bytes(0x76, 0x00, 0x00), Instruction::Halt);
    assert_eq!(decode_bytes(0x46, 0x00, 0x00), Instruction::LdRHl(Register8::B));
    assert_eq!(decode_bytes(0x70, 0x00, 0x00), Instruction::LdHlR(Register8::B));
}

#[test]
fn alu_block_decodes_by_operation_code() {
    assert_eq!(decode_bytes(0x80, 0x00, 0x00), Instruction::AddAR(Register8::B));
    assert_eq!(decode_bytes(0x96, 0x00, 0x00), Instruction::SubAHl);
    assert_eq!(decode_bytes(0xAF, 0x00, 0x00), Instruction::XorAR(Register8::A));
    assert_eq!(decode_bytes(0xBE, 0x00, 0x00), Instruction::CpAHl);
}

#[test]
fn extended_table_covers_bit_set_and_reset() {
    assert_eq!(
        decode_bytes(0xCB, 0x47, 0x00),
        Instruction::BitIR(0, Register8::A)
    );
    assert_eq!(decode_bytes(0xCB, 0x7E, 0x00), Instruction::BitIHl(7));
    assert_eq!(
        decode_bytes(0xCB, 0x80, 0x00),
        Instruction::ResIR(0, Register8::B)
    );
    assert_eq!(
        decode_bytes(0xCB, 0xFF, 0x00),
        Instruction::SetIR(7, Register8::A)
    );
    assert_eq!(decode_bytes(0xCB, 0x36, 0x00), Instruction::SwapHl);
}

#[test]
fn conditions_decode_from_opcode_bits() {
    assert_eq!(
        decode_bytes(0x20, 0x05, 0x00),
        Instruction::JrCondS(Condition::NotZero, 5)
    );
    assert_eq!(
        decode_bytes(0x38, 0xFE, 0x00),
        Instruction::JrCondS(Condition::IsCarry, -2)
    );
    assert_eq!(decode_bytes(0xC8, 0x00, 0x00), Instruction::RetCond(Condition::IsZero));
    assert_eq!(
        decode_bytes(0xD4, 0x00, 0x80),
        Instruction::CallCondIi(Condition::NotCarry, 0x8000)
    );
}

#[test]
fn restarts_carry_their_fixed_target() {
    assert_eq!(decode_bytes(0xC7, 0x00, 0x00), Instruction::Rst(0x00));
    assert_eq!(decode_bytes(0xCF, 0x00, 0x00), Instruction::Rst(0x08));
    assert_eq!(decode_bytes(0xFF, 0x00, 0x00), Instruction::Rst(0x38));
}

#[test]
fn cycle_and_size_tables_match_documented_values() {
    assert_eq!(Instruction::Nop.cycles(), 4);
    assert_eq!(Instruction::Nop.size(), 1);
    assert_eq!(Instruction::LdRrIi(Register16::BC, 0).size(), 3);
    assert_eq!(Instruction::LdRrIi(Register16::BC, 0).cycles(), 12);
    assert_eq!(Instruction::RetCond(Condition::IsZero).cycles(), 8);
    assert_eq!(Instruction::RetCond(Condition::IsZero).cycles_on_branch(), 20);
    assert_eq!(Instruction::CallCondIi(Condition::IsZero, 0).cycles(), 12);
    assert_eq!(Instruction::CallCondIi(Condition::IsZero, 0).cycles_on_branch(), 24);
    assert_eq!(Instruction::XorAR(Register8::A).cycles(), 4);
    assert_eq!(Instruction::XorAR(Register8::A).cycles_on_branch(), 4);
    assert_eq!(Instruction::LdIiSp(0).cycles(), 20);
    assert_eq!(Instruction::LdIiSp(0).size(), 3);
    assert_eq!(Instruction::Undefined(0xD3).cycles(), 0);
}
