use gbcore::isa::{Flag, Register16, Register8};
use gbcore::registers::Registers;

#[test]
fn double_registers_set() {
    let mut registers = Registers::new();

    registers.write_register16(Register16::HL, 0xFFA0);
    assert_eq!(registers.read_register16(Register16::HL), 0xFFA0);
    assert_eq!(registers.read_register8(Register8::H), 0xFF);
    assert_eq!(registers.read_register8(Register8::L), 0xA0);

    registers.write_register16(Register16::BC, 0xABCD);
    assert_eq!(registers.read_register16(Register16::BC), 0xABCD);
    assert_eq!(registers.read_register8(Register8::B), 0xAB);
    assert_eq!(registers.read_register8(Register8::C), 0xCD);

    registers.write_register16(Register16::DE, 0xDEAD);
    assert_eq!(registers.read_register16(Register16::DE), 0xDEAD);
    assert_eq!(registers.read_register8(Register8::D), 0xDE);
    assert_eq!(registers.read_register8(Register8::E), 0xAD);

    // Verify that changing other registers doesn't interfere
    assert_eq!(registers.read_register16(Register16::HL), 0xFFA0);
    assert_eq!(registers.read_register16(Register16::BC), 0xABCD);
    assert_eq!(registers.read_register16(Register16::DE), 0xDEAD);
}

#[test]
fn flag_set_functions() {
    let mut registers = Registers::new();

    // Test zf
    registers.write_flag(Flag::Zero, true);
    assert!(registers.read_flag(Flag::Zero));
    registers.write_flag(Flag::Zero, false);
    assert!(!registers.read_flag(Flag::Zero));

    registers.write_flag(Flag::AddSub, true);
    assert!(registers.read_flag(Flag::AddSub));
    registers.write_flag(Flag::AddSub, false);
    assert!(!registers.read_flag(Flag::AddSub));

    registers.write_flag(Flag::HalfCarry, true);
    assert!(registers.read_flag(Flag::HalfCarry));
    registers.write_flag(Flag::HalfCarry, false);
    assert!(!registers.read_flag(Flag::HalfCarry));

    registers.write_flag(Flag::Carry, true);
    assert!(registers.read_flag(Flag::Carry));
    registers.write_flag(Flag::Carry, false);
    assert!(!registers.read_flag(Flag::Carry));
}

#[test]
fn flag_bits_live_in_the_high_nibble() {
    let mut registers = Registers::new();
    registers.write_flag(Flag::Zero, true);
    assert_eq!(registers.f, 0x80);
    registers.write_flag(Flag::AddSub, true);
    assert_eq!(registers.f, 0xC0);
    registers.write_flag(Flag::HalfCarry, true);
    assert_eq!(registers.f, 0xE0);
    registers.write_flag(Flag::Carry, true);
    assert_eq!(registers.f, 0xF0);
    registers.write_flag(Flag::AddSub, false);
    assert_eq!(registers.f, 0xB0);
}

#[test]
fn writes_to_f_discard_the_low_nibble() {
    let mut registers = Registers::new();
    registers.write_register8(Register8::F, 0xAB);
    assert_eq!(registers.read_register8(Register8::F), 0xA0);

    registers.write_register16(Register16::AF, 0x12FF);
    assert_eq!(registers.read_register16(Register16::AF), 0x12F0);
    assert_eq!(registers.read_register8(Register8::A), 0x12);
}

#[test]
fn sixteen_bit_sp_and_pc_round_trip() {
    let mut registers = Registers::new();
    registers.write_register16(Register16::SP, 0xFFFE);
    registers.write_register16(Register16::PC, 0x0100);
    assert_eq!(registers.read_register16(Register16::SP), 0xFFFE);
    assert_eq!(registers.read_register16(Register16::PC), 0x0100);
}

#[test]
fn pair_accessors_match_the_register_file() {
    let mut registers = Registers::new();
    registers.set_bc(0x1234);
    registers.set_de(0x5678);
    registers.set_hl(0x9ABC);
    assert_eq!(registers.bc(), 0x1234);
    assert_eq!(registers.de(), 0x5678);
    assert_eq!(registers.hl(), 0x9ABC);
    assert_eq!(registers.b, 0x12);
    assert_eq!(registers.c, 0x34);

    registers.write_flag(Flag::Zero, true);
    registers.write_flag(Flag::Carry, true);
    assert!(registers.z_is_set());
    assert!(registers.cy_is_set());
    assert!(!registers.n_is_set());
    assert!(!registers.h_is_set());
}
