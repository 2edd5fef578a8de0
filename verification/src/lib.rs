//! Instruction-level emulation core for the 8-bit handheld game console:
//! opcode decoding, exact register/flag semantics, a memory-mapped bus with
//! echo aliasing and bank-switched cartridges, and cycle-accurate stepping.

pub mod bios;
pub mod cartridge;
pub mod cpu;
pub mod disasm;
pub mod header;
pub mod isa;
pub mod mbc;
pub mod memory;
pub mod mmu;
pub mod peripherals;
pub mod registers;
pub mod swram;
pub mod system;
pub mod util;
