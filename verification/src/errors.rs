//! Structured errors of the emulator core. Bus accesses outside the 16-bit
//! space, writes into read-only regions, dispatch of an opcode without a
//! defined effect, and a cartridge image that is too small each get their
//! own variant; nothing in the core panics on a recoverable condition.

use vstd::prelude::*;

verus! {

/// Every error the core can surface.
#[derive(Debug, Copy, Clone, PartialEq, Eq, Structural)]
pub enum EmuError {
    /// An address above 0xFFFF reached the bus API.
    InvalidAddress { address: usize },
    /// A write aimed at ROM or at the echo region; callers treat it as a
    /// no-op, the way a cartridge without a mapper ignores ROM writes.
    WriteToReadOnly { address: usize },
    /// The fetched opcode has no defined effect; `cb` tells whether it came
    /// from the prefixed table. Fatal to the caller's loop.
    UndefinedOpcode { pc: u16, opcode: u8, cb: bool },
    /// The cartridge image is smaller than the 32 KiB that the two fixed
    /// banks need.
    CartridgeLoadError { size: usize },
}

} // verus!
