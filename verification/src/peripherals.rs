//! Collaborator units that consume cycle counts: the timer, and the audio
//! and picture units.  Their internal behaviour is outside this core; they
//! are modeled as stateless stubs whose stepping changes nothing.

use vstd::prelude::*;

verus! {

/// A cartridge timer. The real-time-clock register file of timer-equipped
/// cartridges is not modeled; the type records only that a timer is present.
#[derive(Debug, Copy, Clone, PartialEq, Eq, Structural)]
pub struct Timer;

impl Timer {
    /// A fresh timer.
    pub fn new() -> (r: Timer)
        ensures
            r == Timer,
    {
        Timer
    }

    /// Step the timer over a number of cycles.  The timer peripheral's
    /// register semantics are outside this core, so stepping changes
    /// nothing.
    pub fn emulate(&mut self, cycles: usize)
        ensures
            *final(self) == *old(self),
    {
    }
}


/// The audio unit.  Sound synthesis is an external collaborator of this
/// core; stepping the unit changes neither it nor the bus.
#[derive(Debug, Copy, Clone, PartialEq, Eq, Structural)]
pub struct Apu;

impl Apu {
    /// A fresh audio unit.
    pub fn new() -> (r: Apu)
        ensures
            r == Apu,
    {
        Apu
    }

    /// Step the audio unit over a number of cycles.
    pub fn emulate<S: crate::swram::Swram>(&mut self, cycles: usize, mmu: &mut crate::mmu::Mmu<S>)
        ensures
            *final(self) == *old(self),
            *final(mmu) == *old(mmu),
    {
    }
}

/// The picture unit.  Pixel generation is an external collaborator of this
/// core; stepping the unit changes neither it nor the bus.
#[derive(Debug, Copy, Clone, PartialEq, Eq, Structural)]
pub struct Ppu;

impl Ppu {
    /// A fresh picture unit.
    pub fn new() -> (r: Ppu)
        ensures
            r == Ppu,
    {
        Ppu
    }

    /// Step the picture unit over a number of cycles.
    pub fn emulate<S: crate::swram::Swram>(&mut self, cycles: usize, mmu: &mut crate::mmu::Mmu<S>)
        ensures
            *final(self) == *old(self),
            *final(mmu) == *old(mmu),
    {
    }
}

/// The graphics unit.  Rendering is an external collaborator of this core;
/// stepping the unit changes neither it nor the bus.
#[derive(Debug, Copy, Clone, PartialEq, Eq, Structural)]
pub struct GPU;

impl GPU {
    /// A fresh graphics unit.
    pub fn new() -> (r: GPU)
        ensures
            r == GPU,
    {
        GPU
    }

    /// Step the graphics unit over a number of cycles.
    pub fn emulate<S: crate::swram::Swram>(&mut self, cycles: usize, mmu: &mut crate::mmu::Mmu<S>)
        ensures
            *final(self) == *old(self),
            *final(mmu) == *old(mmu),
    {
    }
}

} // verus!
