//! Switchable work RAM: the bank-switched region of working memory whose
//! active bank depends on the console variant.

use vstd::prelude::*;

use crate::memory::{vec_zeroes, Memory4Kb};

verus! {

/// The size of one work RAM bank.
pub const BANK_SIZE: usize = 0x1000;

/// The number of switchable banks a banked work RAM holds.
pub const BANK_COUNT: usize = 7;

/// Memory that can serve as the switchable work RAM region: a non-empty
/// sequence of 4KB banks, one of which is active.
pub trait Swram: Sized {
    /// The implementation's invariant, established by its constructors.
    spec fn inv(&self) -> bool;

    /// The stored banks, each 4KB.
    spec fn banks(&self) -> Seq<Seq<u8>>;

    /// The index of the active bank.
    spec fn active(&self) -> int;

    /// The bank that a switch request for the given index activates.
    spec fn active_after(&self, bank_idx: u8) -> int;

    /// The invariant bounds the active bank and sizes every bank.
    proof fn lemma_shape(&self)
        requires
            self.inv(),
        ensures
            0 < self.banks().len(),
            0 <= self.active() < self.banks().len(),
            forall|i: int|
                0 <= i < self.banks().len() ==> (#[trigger] self.banks()[i]).len() == BANK_SIZE,
    ;

    /// Read a byte of the active bank.
    fn read(&self, offset: u16) -> (r: u8)
        requires
            self.inv(),
            offset < 0x1000,
        ensures
            r == self.banks()[self.active()][offset as int],
    ;

    /// Write a byte of the active bank.
    fn write(&mut self, offset: u16, value: u8)
        requires
            old(self).inv(),
            offset < 0x1000,
        ensures
            final(self).inv(),
            final(self).active() == old(self).active(),
            final(self).banks() == old(self).banks().update(
                old(self).active(),
                old(self).banks()[old(self).active()].update(offset as int, value),
            ),
            forall|idx: u8| final(self).active_after(idx) == old(self).active_after(idx),
    ;

    /// Switch the active memory bank.
    fn switch_bank(&mut self, bank_idx: u8)
        requires
            old(self).inv(),
        ensures
            final(self).inv(),
            final(self).banks() == old(self).banks(),
            final(self).active() == old(self).active_after(bank_idx),
    ;
}

/// Fixed work RAM: a single bank; switch requests change nothing.
#[derive(Debug, Clone)]
pub struct Fixed {
    pub bank: Memory4Kb,
}

impl Fixed {
    /// Create a new fixed work ram
    pub fn new() -> (r: Fixed)
        ensures
            r.inv(),
            r.banks() == seq![Seq::new(0x1000, |i: int| 0u8)],
            r.active() == 0,
    {
        Fixed { bank: Memory4Kb::new() }
    }
}

impl Swram for Fixed {
    open spec fn inv(&self) -> bool {
        self.bank.bytes().len() == BANK_SIZE
    }

    open spec fn banks(&self) -> Seq<Seq<u8>> {
        seq![self.bank.bytes()]
    }

    open spec fn active(&self) -> int {
        0
    }

    open spec fn active_after(&self, bank_idx: u8) -> int {
        0
    }

    proof fn lemma_shape(&self) {
    }

    fn read(&self, offset: u16) -> (r: u8) {
        self.bank.get_byte(offset)
    }

    fn write(&mut self, offset: u16, value: u8) {
        self.bank.set_byte(offset, value);
        proof {
            assert(self.banks() =~~= old(self).banks().update(
                0,
                old(self).banks()[0].update(offset as int, value),
            ));
        }
    }

    fn switch_bank(&mut self, bank_idx: u8) {
    }
}

/// Banked work RAM: seven switchable banks stored back to back; a switch
/// request outside the bank range leaves the active bank unchanged.
#[derive(Debug, Clone)]
pub struct Banked {
    pub data: Vec<u8>,
    pub active_bank: u8,
}

impl Banked {
    /// Create a new banked work RAM
    pub fn new() -> (r: Banked)
        ensures
            r.inv(),
            r.banks() == Seq::new(BANK_COUNT as nat, |i: int| Seq::new(0x1000, |j: int| 0u8)),
            r.active() == 0,
    {
        let data = vec_zeroes(BANK_COUNT * BANK_SIZE);
        let r = Banked { data, active_bank: 0 };
        proof {
            assert forall|i: int| 0 <= i < BANK_COUNT implies #[trigger] r.banks()[i] =~= Seq::new(
                0x1000,
                |j: int| 0u8,
            ) by {}
            assert(r.banks() =~~= Seq::new(
                BANK_COUNT as nat,
                |i: int| Seq::new(0x1000, |j: int| 0u8),
            ));
        }
        r
    }
}

impl Swram for Banked {
    open spec fn inv(&self) -> bool {
        self.data@.len() == BANK_COUNT * BANK_SIZE && self.active_bank < BANK_COUNT
    }

    open spec fn banks(&self) -> Seq<Seq<u8>> {
        Seq::new(
            BANK_COUNT as nat,
            |i: int| self.data@.subrange(i * BANK_SIZE, (i + 1) * BANK_SIZE),
        )
    }

    open spec fn active(&self) -> int {
        self.active_bank as int
    }

    open spec fn active_after(&self, bank_idx: u8) -> int {
        if bank_idx < BANK_COUNT as u8 {
            bank_idx as int
        } else {
            self.active_bank as int
        }
    }

    proof fn lemma_shape(&self) {
    }

    fn read(&self, offset: u16) -> (r: u8) {
        let idx: usize = (self.active_bank as usize) * BANK_SIZE + (offset as usize);
        self.data[idx]
    }

    fn write(&mut self, offset: u16, value: u8) {
        let idx: usize = (self.active_bank as usize) * BANK_SIZE + (offset as usize);
        self.data.set(idx, value);
        proof {
            let act = old(self).active();
            let ob = old(self).banks();
            assert forall|i: int| 0 <= i < BANK_COUNT implies #[trigger] self.banks()[i] =~= (
            if i == act {
                ob[act].update(offset as int, value)
            } else {
                ob[i]
            }) by {}
            assert(self.banks() =~~= ob.update(act, ob[act].update(offset as int, value)));
        }
    }

    fn switch_bank(&mut self, bank_idx: u8) {
        if bank_idx < BANK_COUNT as u8 {
            self.active_bank = bank_idx;
        }
        proof {
            assert(self.banks() =~~= old(self).banks());
        }
    }
}

} // verus!
