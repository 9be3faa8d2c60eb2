//! The privileged control and status registers of a hart.
//!
//! Each register is a value that holds what the hardware register holds:
//! reading hands the word out, writing replaces it, and nothing else changes
//! it.

use vstd::prelude::*;
use crate::cpu::SatpMode;

verus! {

/// Machine hardware thread id register. Software cannot write it.
#[derive(Clone, Copy, Debug, PartialEq, Eq, Structural)]
pub struct MHartId {
    /// The id of the hart.
    pub value: u64,
}

impl MHartId {
    /// Read the machine hardware thread id.
    pub fn read(&self) -> (id: u64)
        ensures
            id == self.value,
    {
        self.value
    }
}

/// Machine interrupt-enable register.
#[derive(Clone, Copy, Debug, PartialEq, Eq, Structural)]
pub struct Mie {
    /// The word that the register holds.
    pub value: u64,
}

impl Mie {
    /// Set the machine interrupt-enable register.
    pub fn write(&mut self, val: u64)
        ensures
            final(self).value == val,
    {
        self.value = val;
    }

    /// Read the machine interrupt-enable register.
    pub fn read(&self) -> (val: u64)
        ensures
            val == self.value,
    {
        self.value
    }
}

/// Machine status register.
#[derive(Clone, Copy, Debug, PartialEq, Eq, Structural)]
pub struct MStatus {
    /// The word that the register holds.
    pub value: u64,
}

impl MStatus {
    /// Set the machine status register.
    pub fn write(&mut self, val: u64)
        ensures
            final(self).value == val,
    {
        self.value = val;
    }

    /// Read the machine status register.
    pub fn read(&self) -> (val: u64)
        ensures
            val == self.value,
    {
        self.value
    }
}

/// Supervisor trap vector register.
#[derive(Clone, Copy, Debug, PartialEq, Eq, Structural)]
pub struct STVec {
    /// The word that the register holds.
    pub value: u64,
}

impl STVec {
    /// Set the supervisor trap vector register.
    pub fn write(&mut self, val: u64)
        ensures
            final(self).value == val,
    {
        self.value = val;
    }

    /// Read the supervisor trap vector register.
    pub fn read(&self) -> (val: u64)
        ensures
            val == self.value,
    {
        self.value
    }
}

/// Machine scratch register: it holds the address of the hart's trap frame.
#[derive(Clone, Copy, Debug, PartialEq, Eq, Structural)]
pub struct MScratch {
    /// The word that the register holds.
    pub value: u64,
}

impl MScratch {
    /// Set the machine scratch register.
    pub fn write(&mut self, val: u64)
        ensures
            final(self).value == val,
    {
        self.value = val;
    }

    /// Read the machine scratch register.
    pub fn read(&self) -> (val: u64)
        ensures
            val == self.value,
    {
        self.value
    }

    /// Put `to` into the machine scratch register and hand back what it held, as one
    /// step.
    pub fn swap(&mut self, to: u64) -> (from: u64)
        ensures
            from == old(self).value,
            final(self).value == to,
    {
        let from = self.value;
        self.value = to;
        from
    }
}

/// Supervisor scratch register.
#[derive(Clone, Copy, Debug, PartialEq, Eq, Structural)]
pub struct SScratch {
    /// The word that the register holds.
    pub value: u64,
}

impl SScratch {
    /// Set the supervisor scratch register.
    pub fn write(&mut self, val: u64)
        ensures
            final(self).value == val,
    {
        self.value = val;
    }

    /// Read the supervisor scratch register.
    pub fn read(&self) -> (val: u64)
        ensures
            val == self.value,
    {
        self.value
    }

    /// Put `to` into the supervisor scratch register and hand back what it held, as one
    /// step.
    pub fn swap(&mut self, to: u64) -> (from: u64)
        ensures
            from == old(self).value,
            final(self).value == to,
    {
        let from = self.value;
        self.value = to;
        from
    }
}

/// Machine exception program counter.
#[derive(Clone, Copy, Debug, PartialEq, Eq, Structural)]
pub struct Mepc {
    /// The word that the register holds.
    pub value: u64,
}

impl Mepc {
    /// Set the machine exception program counter register.
    pub fn write(&mut self, val: u64)
        ensures
            final(self).value == val,
    {
        self.value = val;
    }

    /// Read the machine exception program counter register.
    pub fn read(&self) -> (val: u64)
        ensures
            val == self.value,
    {
        self.value
    }
}

/// Supervisor exception program counter.
#[derive(Clone, Copy, Debug, PartialEq, Eq, Structural)]
pub struct Sepc {
    /// The word that the register holds.
    pub value: u64,
}

impl Sepc {
    /// Set the supervisor exception program counter register.
    pub fn write(&mut self, val: u64)
        ensures
            final(self).value == val,
    {
        self.value = val;
    }

    /// Read the supervisor exception program counter register.
    pub fn read(&self) -> (val: u64)
        ensures
            val == self.value,
    {
        self.value
    }
}

/// The part of the address translation caches that a fence makes invalid.
#[derive(Clone, Copy, Debug, PartialEq, Eq, Structural)]
pub enum Flush {
    /// Every cached translation.
    All,
    /// The translations of one address space.
    AddressSpace { asid: u64 },
    /// The translations of one virtual address in one address space.
    Page { vaddr: u64, asid: u64 },
}

/// Supervisor address translation and protection register.
#[derive(Clone, Copy, Debug, PartialEq, Eq, Structural)]
pub struct Satp {
    /// The word that the register holds.
    pub value: u64,
}

impl Satp {
    /// Set the address translation and protection register.
    pub fn write(&mut self, val: u64)
        ensures
            final(self).value == val,
    {
        self.value = val;
    }

    /// Read the address translation and protection register.
    pub fn read(&self) -> (val: u64)
        ensures
            val == self.value,
    {
        self.value
    }

    /// The word made of a mode, an address space id and the address of the
    /// root page table: the mode in the top 4 bits, the low 16 bits of the id
    /// below it, and in the low 44 bits the number of the page that `addr`
    /// lies in.
    pub open spec fn word(mode: SatpMode, asid: u64, addr: u64) -> int {
        mode.code() * 0x1000_0000_0000_0000 + (asid % 0x1_0000) * 0x1000_0000_0000 + (addr
            / 0x1000) % 0x1000_0000_0000
    }

    /// The mode number that a word holds: its top 4 bits.
    pub open spec fn mode_of(word: u64) -> int {
        (word / 0x1000_0000_0000_0000) as int
    }

    /// The address space id that a word holds: its bits 44 to 59.
    pub open spec fn asid_of(word: u64) -> int {
        ((word / 0x1000_0000_0000) % 0x1_0000) as int
    }

    /// The physical page number that a word holds: its low 44 bits.
    pub open spec fn ppn_of(word: u64) -> int {
        (word % 0x1000_0000_0000) as int
    }

    /// Build the contents of the register from its three fields.
    pub fn build(mode: SatpMode, asid: u64, addr: u64) -> (word: u64)
        ensures
            word == Self::word(mode, asid, addr),
    {
        let m: u64 = mode.bits();
        let word: u64 = m << 60 | (asid & 0xffff) << 44 | (addr >> 12) & 0xfff_ffff_ffff;
        assert(word == m * 0x1000_0000_0000_0000 + (asid % 0x1_0000) * 0x1000_0000_0000 + (addr
            / 0x1000) % 0x1000_0000_0000) by (bit_vector)
            requires
                m < 16,
                word == m << 60 | (asid & 0xffff) << 44 | (addr >> 12) & 0xfff_ffff_ffff,
        ;
        word
    }

    /// The scope of a fence on a virtual address in an address space: with
    /// the address space id 0 it takes in every cached translation.
    pub fn fence(vaddr: u64, asid: u64) -> (flush: Flush)
        ensures
            flush == (if asid == 0 {
                Flush::All
            } else {
                Flush::Page { vaddr, asid }
            }),
    {
        if asid == 0 {
            Flush::All
        } else {
            Flush::Page { vaddr, asid }
        }
    }

    /// The scope of a fence on an address space: with the id 0 it takes in
    /// every cached translation.
    pub fn fence_asid(asid: u64) -> (flush: Flush)
        ensures
            flush == (if asid == 0 {
                Flush::All
            } else {
                Flush::AddressSpace { asid }
            }),
    {
        if asid == 0 {
            Flush::All
        } else {
            Flush::AddressSpace { asid }
        }
    }
}

/// A word that was built holds its three fields again: the mode's number in
/// the top 4 bits, the low 16 bits of the address space id in bits 44 to 59,
/// and the low 44 bits of the page number of `addr` below them. With the
/// mode off, the id 0 and the address 0 the word is 0.
pub proof fn lemma_build_decodes(mode: SatpMode, asid: u64, addr: u64)
    ensures
        0 <= Satp::word(mode, asid, addr) <= u64::MAX,
        Satp::mode_of(Satp::word(mode, asid, addr) as u64) == mode.code(),
        Satp::asid_of(Satp::word(mode, asid, addr) as u64) == asid % 0x1_0000,
        Satp::ppn_of(Satp::word(mode, asid, addr) as u64) == (addr / 0x1000) % 0x1000_0000_0000,
        Satp::word(SatpMode::Off, 0, 0) == 0,
{
    let m = mode.code() as int;
    let a = asid as int % 0x1_0000;
    let p = (addr as int / 0x1000) % 0x1000_0000_0000;
    let w = Satp::word(mode, asid, addr);
    assert(w == m * 0x1000_0000_0000_0000 + a * 0x1000_0000_0000 + p);
    assert(0 <= m < 16 && 0 <= a < 0x1_0000 && 0 <= p < 0x1000_0000_0000);
    assert(0 <= w <= u64::MAX);
    assert(w / 0x1000_0000_0000_0000 == m);
    assert(w / 0x1000_0000_0000 == m * 0x1_0000 + a);
    assert(w % 0x1000_0000_0000 == p);
}

/// Machine timer register. Software cannot write it.
#[derive(Clone, Copy, Debug, PartialEq, Eq, Structural)]
pub struct MTime {
    /// The time since the machine started, in timer ticks.
    pub value: u64,
}

impl MTime {
    /// Memory address of the machine timer register.
    pub const MMIO_MTIME: u64 = 0x0200_BFF8;

    /// The value of the machine timer.
    pub fn get(&self) -> (now: u64)
        ensures
            now == self.value,
    {
        self.value
    }
}

} // verus!
