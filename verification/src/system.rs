//! The top-level aggregate: the CPU, the bus and the collaborator units
//! under one owner, stepped as a whole.

use vstd::prelude::*;

use crate::bios::Bios;
use crate::cartridge::Cartridge;
use crate::cpu::{spec_run, spec_step, Cpu};
use crate::memory::Memory8Kb;
use crate::mmu::{BusView, Mmu};
use crate::registers::Registers;
use crate::swram::{Banked, Fixed, Swram};
use crate::peripherals::{Apu, Ppu};

verus! {

/// A base console system.
pub type Gb = System<Fixed>;

/// A color console system.
pub type Cgb = System<Banked>;

/// A console button.
#[derive(Debug, Clone, Copy, PartialEq, Eq, Structural)]
pub enum Button {
    A,
    B,
    Start,
    Select,
    Left,
    Right,
    Up,
    Down,
}

/// The set of buttons held down.
#[derive(Debug, Clone, Copy, PartialEq, Eq, Structural)]
pub struct Buttons {
    pub a: bool,
    pub b: bool,
    pub start: bool,
    pub select: bool,
    pub left: bool,
    pub right: bool,
    pub up: bool,
    pub down: bool,
}

impl Buttons {
    /// Whether a button is in the set.
    pub open spec fn spec_contains(self, button: Button) -> bool {
        match button {
            Button::A => self.a,
            Button::B => self.b,
            Button::Start => self.start,
            Button::Select => self.select,
            Button::Left => self.left,
            Button::Right => self.right,
            Button::Up => self.up,
            Button::Down => self.down,
        }
    }

    /// The empty set: no button held.
    pub fn empty() -> (r: Buttons)
        ensures
            forall|b: Button| !r.spec_contains(b),
    {
        Buttons {
            a: false,
            b: false,
            start: false,
            select: false,
            left: false,
            right: false,
            up: false,
            down: false,
        }
    }

    /// Whether a button is in the set.
    pub fn contains(&self, button: Button) -> (r: bool)
        ensures
            r == self.spec_contains(button),
    {
        match button {
            Button::A => self.a,
            Button::B => self.b,
            Button::Start => self.start,
            Button::Select => self.select,
            Button::Left => self.left,
            Button::Right => self.right,
            Button::Up => self.up,
            Button::Down => self.down,
        }
    }

    /// The set with one more button held.
    pub fn with(self, button: Button) -> (r: Buttons)
        ensures
            r.spec_contains(button),
            forall|b: Button| b != button ==> r.spec_contains(b) == self.spec_contains(b),
    {
        match button {
            Button::A => Buttons { a: true, ..self },
            Button::B => Buttons { b: true, ..self },
            Button::Start => Buttons { start: true, ..self },
            Button::Select => Buttons { select: true, ..self },
            Button::Left => Buttons { left: true, ..self },
            Button::Right => Buttons { right: true, ..self },
            Button::Up => Buttons { up: true, ..self },
            Button::Down => Buttons { down: true, ..self },
        }
    }
}


/// A complete system: the CPU, the bus, the collaborator units and the
/// recorded input state, under one owner.
pub struct System<S: Swram> {
    pub input: Buttons,
    pub cpu: Cpu,
    pub mmu: Mmu<S>,
    pub gpu: Ppu,
    pub apu: Apu,
}

impl<S: Swram> System<S> {
    /// The system invariant: the CPU and the bus are well formed.
    pub open spec fn wf(&self) -> bool {
        self.cpu.wf() && self.mmu.inv()
    }

    /// Load a cartridge into the system and return the old one if there
    /// was one.
    pub fn load(&mut self, cartridge: Cartridge) -> (r: Option<Cartridge>)
        ensures
            final(self).mmu@ == (BusView { cart: Some(cartridge@), ..old(self).mmu@ }),
            final(self).mmu.inv() == old(self).mmu.inv(),
            final(self).cpu == old(self).cpu,
            final(self).input == old(self).input,
            match r {
                Some(c) => old(self).mmu@.cart == Some(c@),
                None => old(self).mmu@.cart is None,
            },
    {
        self.mmu.load(cartridge)
    }

    /// Unload the current cartridge, if there is one, and return it.
    pub fn maybe_unload(&mut self) -> (r: Option<Cartridge>)
        ensures
            final(self).mmu@ == (BusView { cart: None, ..old(self).mmu@ }),
            final(self).mmu.inv() == old(self).mmu.inv(),
            final(self).cpu == old(self).cpu,
            final(self).input == old(self).input,
            match r {
                Some(c) => old(self).mmu@.cart == Some(c@),
                None => old(self).mmu@.cart is None,
            },
    {
        self.mmu.maybe_unload()
    }

    /// Step the system forward one instruction execution; returns the clock
    /// cycles the instruction used.
    pub fn step(&mut self) -> (cycles: u8)
        requires
            old(self).wf(),
        ensures
            final(self).wf(),
            ({
                let (c2, b2, used) = spec_step(old(self).cpu, old(self).mmu@);
                &&& final(self).cpu == c2
                &&& final(self).mmu@ == b2
                &&& cycles == used
            }),
            final(self).input == old(self).input,
    {
        self.mmu.update_input_registers(self.input);
        let cycles_in_step = self.cpu.step(&mut self.mmu);
        self.gpu.emulate(cycles_in_step as usize, &mut self.mmu);
        self.apu.emulate(cycles_in_step as usize, &mut self.mmu);
        proof {
            reveal(crate::cpu::spec_step);
        }
        cycles_in_step
    }

    /// Run the system under a cycle budget: step until the budget is
    /// exhausted, overshooting by at most one instruction's cost.  A step
    /// that uses no cycles cannot reduce the budget and ends the run.
    pub fn emulate(&mut self, cycles: usize)
        requires
            old(self).wf(),
        ensures
            final(self).wf(),
            ({
                let (c2, b2) = spec_run(old(self).cpu, old(self).mmu@, cycles as int);
                &&& final(self).cpu == c2
                &&& final(self).mmu@ == b2
            }),
    {
        let ghost c0 = self.cpu;
        let ghost b0 = self.mmu@;
        let ghost n0 = cycles as int;
        let mut remaining: usize = cycles;
        loop
            invariant_except_break
                self.wf(),
                spec_run(c0, b0, n0) == spec_run(self.cpu, self.mmu@, remaining as int),
            ensures
                self.wf(),
                (self.cpu, self.mmu@) == spec_run(c0, b0, n0),
            decreases remaining,
        {
            if remaining == 0 {
                proof {
                    assert(spec_run(self.cpu, self.mmu@, 0) == (self.cpu, self.mmu@));
                }
                break;
            }
            let ghost pre_cpu = self.cpu;
            let ghost pre_bus = self.mmu@;
            let ghost pre_rem = remaining as int;
            let used = self.step();
            if used == 0 {
                proof {
                    assert(spec_run(pre_cpu, pre_bus, pre_rem) == (self.cpu, self.mmu@));
                }
                break;
            }
            proof {
                assert(spec_run(pre_cpu, pre_bus, pre_rem) == (
                if pre_rem - used <= 0 {
                    (self.cpu, self.mmu@)
                } else {
                    spec_run(self.cpu, self.mmu@, pre_rem - used)
                }));
            }
            if remaining <= used as usize {
                remaining = 0;
            } else {
                remaining = remaining - used as usize;
            }
        }
    }

    /// Record the input state the next step will observe, replacing the
    /// previous one.
    pub fn set_input(&mut self, buttons: Buttons)
        ensures
            final(self).input == buttons,
            final(self).cpu == old(self).cpu,
            final(self).mmu == old(self).mmu,
    {
        self.input = buttons;
    }

    /// Return the current input state.
    pub fn input(&self) -> (r: Buttons)
        ensures
            r == self.input,
    {
        self.input
    }

    /// Return the system's video RAM region.
    pub fn vram(&self) -> (r: &Memory8Kb)
        ensures
            r.bytes() == self.mmu@.vram,
    {
        self.mmu.vram()
    }

    /// Return a read-only snapshot of the CPU registers.
    pub fn registers(&self) -> (r: &Registers)
        ensures
            *r == self.cpu.registers,
    {
        self.cpu.registers()
    }

    /// Return the current program counter.
    pub fn pc(&self) -> (r: u16)
        ensures
            r == self.cpu.registers.pc,
    {
        self.cpu.registers().pc
    }

    /// Return a reference to the memory management unit.
    pub fn mmu(&self) -> (r: &Mmu<S>)
        ensures
            r@ == self.mmu@,
    {
        &self.mmu
    }
}

impl System<Fixed> {
    /// Create a base console system with no loaded cartridge.  The boot ROM
    /// determines the power-on register state: every register starts at
    /// zero with the program counter at the start of the boot region.
    pub fn new<B: Bios>(bios: B) -> (r: Gb)
        ensures
            r.wf(),
            r.cpu == (Cpu { ime: false, is_halted: false, registers: crate::cpu::power_on_registers() }),
            r.mmu@.cart is None,
            forall|b: Button| !r.input.spec_contains(b),
    {
        System {
            input: Buttons::empty(),
            cpu: Cpu::new(),
            mmu: Mmu::new(Fixed::new()),
            gpu: Ppu::new(),
            apu: Apu::new(),
        }
    }
}

impl System<Banked> {
    /// Create a color console system with no loaded cartridge.  The boot
    /// ROM determines the power-on register state: every register starts at
    /// zero with the program counter at the start of the boot region.
    pub fn new<B: Bios>(bios: B) -> (r: Cgb)
        ensures
            r.wf(),
            r.cpu == (Cpu { ime: false, is_halted: false, registers: crate::cpu::power_on_registers() }),
            r.mmu@.cart is None,
            forall|b: Button| !r.input.spec_contains(b),
    {
        System {
            input: Buttons::empty(),
            cpu: Cpu::new(),
            mmu: Mmu::new(Banked::new()),
            gpu: Ppu::new(),
            apu: Apu::new(),
        }
    }
}

} // verus!
