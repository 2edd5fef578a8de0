use gbcore::cpu::Cpu;
use gbcore::mmu::Mmu;
use gbcore::swram::{Banked, Fixed, Swram};
use gbcore::system::{Button, Buttons, System};

fn fresh_mmu() -> Mmu<Fixed> {
    Mmu::new(Fixed::new())
}

#[test]
fn echo_window_aliases_working_ram_both_ways() {
    let mut mmu = fresh_mmu();
    for offset in [0x0000u16, 0x0001, 0x0123, 0x0FFF] {
        mmu.write(0xC000 + offset, 0x5A);
        assert_eq!(mmu.read(0xE000 + offset), 0x5A);
        mmu.write(0xE000 + offset, 0xA5);
        assert_eq!(mmu.read(0xC000 + offset), 0xA5);
    }
    // the alias also covers the start of the switchable window
    mmu.write(0xD005, 0x77);
    assert_eq!(mmu.read(0xF005), 0x77);
}

#[test]
fn unusable_window_reads_sentinel_and_discards_writes() {
    let mut mmu = fresh_mmu();
    assert_eq!(mmu.read(0xFEA0), 0x00);
    assert_eq!(mmu.read(0xFEFF), 0x00);
    mmu.write(0xFEA5, 0x99);
    assert_eq!(mmu.read(0xFEA5), 0x00);
}

#[test]
fn io_registers_start_from_their_reset_values() {
    let mmu = fresh_mmu();
    assert_eq!(mmu.read(0xFF10), 0x80);
    assert_eq!(mmu.read(0xFF11), 0xBF);
    assert_eq!(mmu.read(0xFF26), 0xF1);
    assert_eq!(mmu.read(0xFF40), 0x91);
    assert_eq!(mmu.read(0xFF47), 0xFC);
    assert_eq!(mmu.read(0xFF05), 0x00);
}

#[test]
fn every_fixed_region_round_trips() {
    let mut mmu = fresh_mmu();
    for address in [0x8000u16, 0x9FFF, 0xC000, 0xDFFF, 0xFE00, 0xFE9F, 0xFF00, 0xFF7F, 0xFF80,
        0xFFFE, 0xFFFF] {
        mmu.write(address, 0x3C);
        assert_eq!(mmu.read(address), 0x3C);
    }
}

#[test]
fn banked_work_ram_keeps_inactive_banks() {
    let mut swram = Banked::new();
    swram.write(0x0000, 0x11);
    assert_eq!(swram.read(0x0000), 0x11);
    swram.switch_bank(3);
    assert_eq!(swram.read(0x0000), 0x00);
    swram.write(0x0000, 0x33);
    swram.switch_bank(0);
    assert_eq!(swram.read(0x0000), 0x11);
    // an out-of-range index leaves the active bank unchanged
    swram.switch_bank(9);
    assert_eq!(swram.read(0x0000), 0x11);
}

#[test]
fn nop_costs_four_cycles_and_changes_nothing() {
    let mut mmu = fresh_mmu();
    let mut cpu = Cpu::new();
    cpu.registers.pc = 0xC000;
    cpu.registers.a = 0x5A;
    mmu.write(0xC000, 0x00);
    let before = cpu.registers;
    let cycles = cpu.step(&mut mmu);
    assert_eq!(cycles, 4);
    assert_eq!(cpu.registers.pc, 0xC001);
    assert_eq!(cpu.registers.a, before.a);
    assert_eq!(cpu.registers.f, before.f);
    assert_eq!(cpu.registers.b, before.b);
    assert_eq!(cpu.registers.sp, before.sp);
    assert!(!cpu.is_halted());
}

#[test]
fn xor_a_a_clears_a_and_sets_exactly_the_zero_flag() {
    for prior in [0x00u8, 0x01, 0x5A, 0xFF] {
        let mut mmu = fresh_mmu();
        let mut cpu = Cpu::new();
        cpu.registers.pc = 0xC000;
        cpu.registers.a = prior;
        cpu.registers.f = 0x70;
        mmu.write(0xC000, 0xAF);
        let cycles = cpu.step(&mut mmu);
        assert_eq!(cycles, 4);
        assert_eq!(cpu.registers.a, 0x00);
        assert_eq!(cpu.registers.f, 0x80);
    }
}

#[test]
fn stepping_accumulates_exact_per_instruction_costs() {
    let mut mmu = fresh_mmu();
    let mut cpu = Cpu::new();
    cpu.registers.pc = 0xC000;
    cpu.registers.sp = 0xD800;
    let program: [u8; 10] = [
        0x00, // NOP: 4 cycles
        0x3E, 0x42, // LD A,d8: 16 cycles
        0xAF, // XOR A,A: 4 cycles, sets the zero flag
        0xC4, 0x00, 0xC0, // CALL NZ,a16: condition fails, 12 cycles
        0xCC, 0x00, 0xD0, // CALL Z,a16: condition holds, 24 cycles
    ];
    for (i, byte) in program.iter().enumerate() {
        mmu.write(0xC000 + i as u16, *byte);
    }
    let expected: [u8; 5] = [4, 16, 4, 12, 24];
    let mut total: u32 = 0;
    for cost in expected {
        let used = cpu.step(&mut mmu);
        assert_eq!(used, cost);
        total += used as u32;
    }
    assert_eq!(total, 60);
    // the taken call moved control and pushed the return address
    assert_eq!(cpu.registers.pc, 0xD000);
    assert_eq!(cpu.registers.sp, 0xD7FE);
    assert_eq!(mmu.read(0xD7FE), 0x0A);
    assert_eq!(mmu.read(0xD7FF), 0xC0);
}

#[test]
fn undefined_opcodes_lock_the_cpu() {
    let mut mmu = fresh_mmu();
    let mut cpu = Cpu::new();
    cpu.registers.pc = 0xC000;
    mmu.write(0xC000, 0xD3);
    let cycles = cpu.step(&mut mmu);
    assert_eq!(cycles, 0);
    assert!(cpu.is_halted());
    // a halted CPU changes nothing and uses one machine cycle
    let before = cpu.registers;
    assert_eq!(cpu.step(&mut mmu), 4);
    assert_eq!(cpu.registers.pc, before.pc);
    assert!(cpu.is_halted());
}

#[test]
fn halt_enters_the_halted_state() {
    let mut mmu = fresh_mmu();
    let mut cpu = Cpu::new();
    cpu.registers.pc = 0xC000;
    mmu.write(0xC000, 0x76);
    let cycles = cpu.step(&mut mmu);
    assert_eq!(cycles, 4);
    assert!(cpu.is_halted());
}

#[test]
fn arithmetic_sets_the_documented_flags() {
    let mut mmu = fresh_mmu();
    let mut cpu = Cpu::new();
    cpu.registers.pc = 0xC000;
    cpu.registers.a = 0x3C;
    cpu.registers.b = 0xC4;
    // ADD A,B: 0x3C + 0xC4 = 0x100 -> result 0, carry and half-carry set
    mmu.write(0xC000, 0x80);
    cpu.step(&mut mmu);
    assert_eq!(cpu.registers.a, 0x00);
    assert_eq!(cpu.registers.f, 0xB0);
    // DEC B: 0xC4 - 1, subtract flag set, carry untouched
    mmu.write(0xC001, 0x05);
    cpu.step(&mut mmu);
    assert_eq!(cpu.registers.b, 0xC3);
    assert_eq!(cpu.registers.f, 0x50);
}

#[test]
fn system_emulate_spends_the_cycle_budget() {
    let mut system: System<Fixed> = System::<Fixed>::new(no_boot_rom());
    // an empty bus decodes NOPs; each costs four cycles
    system.cpu.registers.pc = 0xC000;
    system.emulate(10);
    // three steps run: four, four, then the overshooting third
    assert_eq!(system.pc(), 0xC003);
}

fn no_boot_rom() -> gbcore::bios::GbBios {
    gbcore::bios::GbBios::from_bytes(&vec![0u8; 0x100]).unwrap()
}

#[test]
fn buttons_form_a_set() {
    let none = Buttons::empty();
    assert!(!none.contains(Button::A));
    let held = none.with(Button::A).with(Button::Start);
    assert!(held.contains(Button::A));
    assert!(held.contains(Button::Start));
    assert!(!held.contains(Button::B));
    let mut system: System<Fixed> = System::<Fixed>::new(no_boot_rom());
    system.set_input(held);
    assert_eq!(system.input(), held);
}

#[test]
fn loading_and_unloading_cartridges_round_trips() {
    let mut bytes = vec![0u8; 0x150];
    bytes[0x147] = 0x00;
    let cartridge = gbcore::cartridge::Cartridge::try_parse_bytes(&bytes).unwrap();
    let mut system: System<Fixed> = System::<Fixed>::new(no_boot_rom());
    assert!(system.maybe_unload().is_none());
    assert!(system.load(cartridge).is_none());
    let back = system.maybe_unload();
    assert!(back.is_some());
    assert!(system.maybe_unload().is_none());
}

#[test]
fn color_systems_use_banked_work_ram() {
    let mut system: System<Banked> = System::<Banked>::new(no_boot_rom());
    system.cpu.registers.pc = 0xC000;
    system.mmu.write(0xD000, 0x42);
    assert_eq!(system.mmu.read(0xD000), 0x42);
    assert_eq!(system.mmu.read(0xF000), 0x42);
}

#[test]
fn decimal_adjust_repairs_binary_coded_decimal() {
    // 0x15 + 0x27 in BCD is 0x42: the binary sum 0x3C needs a low-nibble fix
    let mut mmu = fresh_mmu();
    let mut cpu = Cpu::new();
    cpu.registers.pc = 0xC000;
    cpu.registers.a = 0x3C;
    mmu.write(0xC000, 0x27);
    cpu.step(&mut mmu);
    assert_eq!(cpu.registers.a, 0x42);
    assert_eq!(cpu.registers.f, 0x00);
}

#[test]
fn rotate_left_through_carry_moves_the_top_bit() {
    let mut mmu = fresh_mmu();
    let mut cpu = Cpu::new();
    cpu.registers.pc = 0xC000;
    cpu.registers.b = 0x80;
    mmu.write(0xC000, 0xCB);
    mmu.write(0xC001, 0x10); // RL B
    let cycles = cpu.step(&mut mmu);
    assert_eq!(cycles, 8);
    assert_eq!(cpu.registers.b, 0x00);
    assert_eq!(cpu.registers.f, 0x90); // zero and carry set
}

#[test]
fn pop_af_discards_the_low_flag_nibble() {
    let mut mmu = fresh_mmu();
    let mut cpu = Cpu::new();
    cpu.registers.pc = 0xC000;
    cpu.registers.sp = 0xD100;
    mmu.write(0xD100, 0xFF);
    mmu.write(0xD101, 0x12);
    mmu.write(0xC000, 0xF1); // POP AF
    cpu.step(&mut mmu);
    assert_eq!(cpu.registers.a, 0x12);
    assert_eq!(cpu.registers.f, 0xF0);
    assert_eq!(cpu.registers.sp, 0xD102);
}

#[test]
fn stack_pushes_put_the_high_byte_at_the_higher_address() {
    let mut mmu = fresh_mmu();
    let mut cpu = Cpu::new();
    cpu.registers.pc = 0xC000;
    cpu.registers.sp = 0xD200;
    cpu.registers.b = 0xAB;
    cpu.registers.c = 0xCD;
    mmu.write(0xC000, 0xC5); // PUSH BC
    cpu.step(&mut mmu);
    assert_eq!(cpu.registers.sp, 0xD1FE);
    assert_eq!(mmu.read(0xD1FE), 0xCD);
    assert_eq!(mmu.read(0xD1FF), 0xAB);
}
