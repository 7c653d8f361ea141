//! Core of a DMG hand-held console emulator: the instruction-decoding CPU,
//! the memory bus, the interrupt controller, the timer, and a skeleton of the
//! pixel-processing unit. The whole address space, the register file and every
//! instruction effect carry machine-checked contracts: each opcode's result
//! state, cycle cost and program-counter movement are pinned against
//! specification-level effect functions, and the cross-cutting guarantees
//! (flag-nibble invariant, echo mirroring, EI/DI latching, stack round trips)
//! are proved as laws.

pub mod alu;
pub mod bits;
pub mod cpu;
pub mod errors;
pub mod instructions;
pub mod interrupts;
pub mod io_regs;
pub mod laws;
pub mod mmu;
pub mod ppu;
pub mod registers;
pub mod system;
pub mod timer;
