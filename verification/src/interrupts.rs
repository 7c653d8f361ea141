//! The interrupt controller: the IE byte at 0xFFFF, the IF byte at 0xFF0F,
//! and the CPU-internal IME latch with its one-instruction EI delay.
//! Dispatch picks the lowest pending bit, clears it, drops IME, pushes PC
//! high-then-low (the CALL-compatible order) and jumps to the vector.

use vstd::prelude::*;

use crate::bits::sub16;
use crate::instructions::{spec_push16, InstructionSet};
use crate::mmu::Mmu;
use crate::registers::Registers;

verus! {

/// The five interrupt sources, in priority order (lowest bit first).
#[derive(Debug, Copy, Clone, PartialEq, Eq, Structural)]
pub enum Interrupt {
    VBlank,
    LCD,
    Timer,
    Serial,
    Joypad,
}

/// Bit index of a source in IE and IF.
pub open spec fn spec_interrupt_bit(i: Interrupt) -> u8 {
    match i {
        Interrupt::VBlank => 0,
        Interrupt::LCD => 1,
        Interrupt::Timer => 2,
        Interrupt::Serial => 3,
        Interrupt::Joypad => 4,
    }
}

/// The pending set: IE and IF anded, low five bits.
pub open spec fn spec_pending(m: Seq<u8>) -> u8 {
    (m[0xFFFF] & m[0xFF0F]) & 0x1F
}

/// Index of the lowest set bit of a pending byte (priority order).
pub open spec fn spec_lowest_bit(p: u8) -> u8 {
    if p & 1 != 0 {
        0
    } else if p & 2 != 0 {
        1
    } else if p & 4 != 0 {
        2
    } else if p & 8 != 0 {
        3
    } else {
        4
    }
}

/// Dispatch vector of bit index `i`.
pub open spec fn spec_vector(i: u8) -> u16 {
    if i == 0 {
        0x40
    } else if i == 1 {
        0x48
    } else if i == 2 {
        0x50
    } else if i == 3 {
        0x58
    } else {
        0x60
    }
}

impl Interrupt {
    /// Bit index of this source in IE and IF.
    pub fn bit(self) -> (r: u8)
        ensures
            r == spec_interrupt_bit(self),
    {
        match self {
            Interrupt::VBlank => 0,
            Interrupt::LCD => 1,
            Interrupt::Timer => 2,
            Interrupt::Serial => 3,
            Interrupt::Joypad => 4,
        }
    }

    /// Dispatch vector of this source.
    pub fn vector(self) -> (r: u16)
        ensures
            r == spec_vector(spec_interrupt_bit(self)),
    {
        match self {
            Interrupt::VBlank => 0x40,
            Interrupt::LCD => 0x48,
            Interrupt::Timer => 0x50,
            Interrupt::Serial => 0x58,
            Interrupt::Joypad => 0x60,
        }
    }
}

/// The interrupt controller state the bus does not hold: the IME latch
/// and the EI delay counter (2 after EI, committed to IME when it runs
/// out at the end of the following instruction).
pub struct Interrupts {
    pub ime: bool,
    pub ei_delay: u8,
}

impl Interrupts {
    /// A controller with IME off and no EI pending.
    pub fn new() -> (r: Interrupts)
        ensures
            r.ime == false,
            r.ei_delay == 0,
    {
        Interrupts { ime: false, ei_delay: 0 }
    }

    /// The IME latch.
    pub fn ime(&self) -> (r: bool)
        ensures
            r == self.ime,
    {
        self.ime
    }

    /// Sets the IME latch directly (RETI and dispatch use this).
    pub fn set_ime(&mut self, val: bool)
        ensures
            *final(self) == (Interrupts { ime: val, ..*old(self) }),
    {
        self.ime = val;
    }

    /// The IE byte at 0xFFFF.
    pub fn get_interrupt_enable_register(&self, mmu: &Mmu) -> (r: u8)
        requires
            mmu.wf(),
        ensures
            r == mmu@[0xFFFF],
    {
        mmu.ie()
    }

    /// The IF byte at 0xFF0F.
    pub fn get_interrupt_flag_register(&self, mmu: &Mmu) -> (r: u8)
        requires
            mmu.wf(),
        ensures
            r == mmu@[0xFF0F],
    {
        mmu.iflag()
    }

    /// Stores the IF byte.
    pub fn set_interrupt_flag_registers(&self, mmu: &mut Mmu, value: u8)
        requires
            old(mmu).wf(),
        ensures
            final(mmu).wf(),
            final(mmu).spec_cartridge() == old(mmu).spec_cartridge(),
            final(mmu)@ == old(mmu)@.update(0xFF0F, value),
    {
        mmu.set_iflag(value);
    }

    /// One dispatch attempt, run before each CPU step.
    ///
    /// With nothing pending it reports (false, 0) and changes nothing.
    /// With a pending source but IME off it reports (true, 0), leaving the
    /// request latched. Otherwise it clears the lowest pending IF bit,
    /// drops IME, pushes PC (high byte at SP-1, low at SP-2), jumps to the
    /// source's vector and reports (true, 20) T-cycles.
    pub fn handle_interrupts(&mut self, registers: &mut Registers, mmu: &mut Mmu) -> (r: (
        bool,
        u32,
    ))
        requires
            old(mmu).wf(),
        ensures
            final(mmu).wf(),
            final(mmu).spec_cartridge() == old(mmu).spec_cartridge(),
            ({
                let p = spec_pending(old(mmu)@);
                &&& (p == 0 ==> {
                    &&& r == (false, 0u32)
                    &&& *final(self) == *old(self)
                    &&& *final(registers) == *old(registers)
                    &&& final(mmu)@ == old(mmu)@
                })
                &&& (p != 0 && !old(self).ime ==> {
                    &&& r == (true, 0u32)
                    &&& *final(self) == *old(self)
                    &&& *final(registers) == *old(registers)
                    &&& final(mmu)@ == old(mmu)@
                })
                &&& (p != 0 && old(self).ime ==> {
                    let i = spec_lowest_bit(p);
                    let cleared = (old(mmu)@[0xFF0F] as u8) & !((1u8 << i) as u8);
                    &&& r == (true, 20u32)
                    &&& *final(self) == (Interrupts { ime: false, ..*old(self) })
                    &&& final(mmu)@ == spec_push16(
                        old(mmu)@.update(0xFF0F, cleared),
                        old(registers).sp,
                        old(registers).pc,
                    )
                    &&& *final(registers) == (Registers {
                        pc: spec_vector(i),
                        sp: sub16(old(registers).sp, 2),
                        ..*old(registers)
                    })
                })
            }),
    {
        let enable = self.get_interrupt_enable_register(mmu);
        let flags = self.get_interrupt_flag_register(mmu);
        let pending: u8 = (enable & flags) & 0x1F;
        if pending == 0 {
            return (false, 0);
        }
        if !self.ime {
            return (true, 0);
        }
        let index: u8 = if pending & 1 != 0 {
            0
        } else if pending & 2 != 0 {
            1
        } else if pending & 4 != 0 {
            2
        } else if pending & 8 != 0 {
            3
        } else {
            4
        };
        let cleared: u8 = flags & !(1u8 << index);
        self.set_interrupt_flag_registers(mmu, cleared);
        self.ime = false;
        let pc = registers.pc();
        InstructionSet::push(mmu, registers, pc);
        let vector: u16 = if index == 0 {
            0x40
        } else if index == 1 {
            0x48
        } else if index == 2 {
            0x50
        } else if index == 3 {
            0x58
        } else {
            0x60
        };
        registers.set_pc(vector);
        (true, 20)
    }
}

} // verus!
