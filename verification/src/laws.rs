//! The core's cross-cutting guarantees, stated and proved over the same
//! specification functions the components' contracts use: the flag
//! register's low nibble, the echo mirror, the interrupt-enable latching
//! rules, and the stack round trips of PUSH/POP and of interrupt dispatch
//! followed by RET.

use vstd::prelude::*;

use crate::bits::{add16, spec_concat, sub16};
use crate::cpu::spec_ime_after;
use crate::instructions::{spec_pop16, spec_push16};
use crate::mmu::{spec_read_of, spec_writable};
use crate::registers::{lemma_f_props, Registers};

verus! {

/// Every F byte the register file can show has a zero low nibble,
/// however the flags were written.
pub proof fn lemma_f_low_nibble_zero(r: Registers)
    ensures
        r.spec_f() & 0x0F == 0,
{
    lemma_f_props(r.flag_z, r.flag_n, r.flag_h, r.flag_c);
}

/// DI is idempotent: a second DI changes nothing, and IME is off after
/// either.
pub proof fn lemma_di_idempotent(ime: bool, delay: u8)
    ensures
        ({
            let s1 = spec_ime_after(ime, delay, 0xF3);
            let s2 = spec_ime_after(s1.0, s1.1, 0xF3);
            &&& s1.0 == false
            &&& s2 == s1
        }),
{
}

/// EI then EI arms IME exactly once: the first EI leaves IME untouched
/// through its own instruction, and IME is up at the end of the following
/// instruction with no arming left over.
pub proof fn lemma_ei_armed_once(ime: bool)
    ensures
        ({
            let s1 = spec_ime_after(ime, 0, 0xFB);
            let s2 = spec_ime_after(s1.0, s1.1, 0xFB);
            &&& s1.0 == ime
            &&& s2.0 == true
            &&& s2.1 == 0
        }),
{
}

/// Wrapping-arithmetic facts about the two stack cells below SP.
proof fn lemma_stack_cells(sp: u16)
    ensures
        add16(sub16(sp, 2), 1) == sub16(sp, 1),
        add16(sub16(sp, 2), 2) == sp,
        sub16(sp, 1) != sub16(sp, 2),
{
}

/// PUSH then POP returns the pushed 16-bit value exactly, whenever the
/// two stack cells lie in writable memory and are none of the bus's
/// special bytes (DIV, which a bus write resets, and LY, whose read is
/// stubbed).
pub proof fn lemma_push_pop_round_trip(m: Seq<u8>, sp: u16, v: u16)
    requires
        m.len() == 0x10000,
        spec_writable(sub16(sp, 1) as int),
        spec_writable(sub16(sp, 2) as int),
        sub16(sp, 1) != 0xFF04 && sub16(sp, 2) != 0xFF04,
        sub16(sp, 1) != 0xFF44 && sub16(sp, 2) != 0xFF44,
    ensures
        spec_pop16(spec_push16(m, sp, v), sub16(sp, 2)) == v,
{
    lemma_stack_cells(sp);
    let hi = (v / 256) as u8;
    let lo = (v % 256) as u8;
    let m2 = spec_push16(m, sp, v);
    assert(m2[sub16(sp, 2) as int] == lo);
    assert(m2[sub16(sp, 1) as int] == hi);
    assert(spec_read_of(m2, sub16(sp, 2)) == lo);
    assert(spec_read_of(m2, add16(sub16(sp, 2), 1)) == hi);
    assert(spec_concat(lo, hi) == v);
}

/// Interrupt dispatch preserves the interrupted PC on the stack: after
/// the dispatch's IF-clearing store and its push, a RET executed at the
/// vector pops that very PC (same stack-cell conditions as the PUSH/POP
/// round trip).
pub proof fn lemma_dispatch_ret_round_trip(m: Seq<u8>, sp: u16, pc: u16, cleared: u8)
    requires
        m.len() == 0x10000,
        spec_writable(sub16(sp, 1) as int),
        spec_writable(sub16(sp, 2) as int),
        sub16(sp, 1) != 0xFF04 && sub16(sp, 2) != 0xFF04,
        sub16(sp, 1) != 0xFF44 && sub16(sp, 2) != 0xFF44,
    ensures
        spec_pop16(spec_push16(m.update(0xFF0F, cleared), sp, pc), sub16(sp, 2)) == pc,
{
    lemma_push_pop_round_trip(m.update(0xFF0F, cleared), sp, pc);
}

/// Storing any 16-bit value into AF (as POP AF does) puts the value's
/// high byte into A and its low byte, low nibble cleared, into F.
pub proof fn lemma_pop_af_masks(r: Registers, v: u16)
    ensures
        r.spec_with_af(v).a == v / 256,
        r.spec_with_af(v).spec_f() == (v % 256) as u8 & 0xF0,
{
    crate::registers::lemma_f_decompose((v % 256) as u8);
}

/// Storing any 16-bit value into AF and reading AF back gives the value
/// with its low nibble cleared; storing the AF a register file already
/// shows reproduces A and F exactly.
pub proof fn lemma_af_round_trip(r: Registers)
    ensures
        r.spec_with_af(r.spec_af()).a == r.a,
        r.spec_with_af(r.spec_af()).spec_f() == r.spec_f(),
{
    lemma_f_props(r.flag_z, r.flag_n, r.flag_h, r.flag_c);
    let v = r.spec_af();
    assert(v == r.a * 256 + r.spec_f());
    assert(v / 256 == r.a && v % 256 == r.spec_f()) by (nonlinear_arith)
        requires
            v == r.a * 256 + r.spec_f(),
            r.spec_f() < 256,
            v <= 0xFFFF,
    ;
    let f = r.spec_f();
    assert(f & 0x80 != 0 == r.flag_z && f & 0x40 != 0 == r.flag_n && f & 0x20 != 0 == r.flag_h && f
        & 0x10 != 0 == r.flag_c);
}

} // verus!
