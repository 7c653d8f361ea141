//! The CPU: fetch, decode and execute. A step first offers the interrupt
//! controller its dispatch, then fetches an opcode (reading the CB prefix's
//! second byte when present), reads the operand bytes, executes the effect
//! against the register file and the bus, commits a pending EI, and polls
//! the serial port. The dispatcher's contract pins the program-counter
//! movement of every straight-line opcode, the exact T-cycle count, the
//! IME transition and the undefined-opcode error.

use vstd::prelude::*;

use crate::alu::{
    spec_add_r, spec_alu_effect, spec_alu_imm_effect, spec_daa, spec_ld_effect, spec_rl, spec_rlc,
    spec_rr, spec_rrc, spec_sign_ext, spec_sub_r,
};
use crate::bits::{add16, spec_concat, spec_half_borrow_sub, spec_half_carry_add, sub16};
use crate::errors::EmuError;
use crate::instructions::{
    spec_base_cycles, spec_base_cycles_not_taken, spec_base_len, spec_cb_cycles, spec_cond_holds,
    spec_is_cond, spec_is_control, spec_opcode_name, spec_pop16, spec_push16, spec_step_cycles,
    spec_taken, spec_undefined_op, DebugInstruction, Instruction, InstructionSet, Operation,
};
use crate::interrupts::{spec_lowest_bit, spec_pending, spec_vector, Interrupts};
use crate::mmu::{spec_mem_store, spec_read_of, Mmu};
use crate::registers::{Register, Registers};

verus! {

/// The IME/EI-delay change an opcode's own effect makes: DI drops IME and
/// cancels a pending EI; EI arms a two-step delay (left alone if already
/// armed); RETI raises IME at once.
pub open spec fn spec_ime_effect(ime: bool, delay: u8, op: u8) -> (bool, u8) {
    if op == 0xF3 {
        (false, 0)
    } else if op == 0xFB {
        (ime, if delay == 0 {
            2u8
        } else {
            delay
        })
    } else if op == 0xD9 {
        (true, delay)
    } else {
        (ime, delay)
    }
}

/// The end-of-step commit of the EI delay: the counter runs down one step
/// per instruction and raises IME when it reaches zero.
pub open spec fn spec_ime_commit(p: (bool, u8)) -> (bool, u8) {
    if p.1 == 1 {
        (true, 0u8)
    } else if p.1 > 1 {
        (p.0, (p.1 - 1) as u8)
    } else {
        p
    }
}

/// IME and EI delay after one full instruction step of opcode `op`.
pub open spec fn spec_ime_after(ime: bool, delay: u8, op: u8) -> (bool, u8) {
    spec_ime_commit(spec_ime_effect(ime, delay, op))
}

/// One sixteen-opcode row of `spec_low_effect`.
pub open spec fn spec_low_effect_row0(op: u8, r: Registers, m: Seq<u8>, o1: u8, o2: u8) -> (
    Registers,
    Seq<u8>,
) {
    match op {
        0x00 => (r, m),
        0x01 => (r.spec_with_bc(spec_concat(o1, o2)), m),
        0x02 => (r, spec_mem_store(m, r.spec_bc() as int, r.a)),
        0x03 => (r.spec_with_bc(add16(r.spec_bc(), 1)), m),
        0x04 => (Registers { b: spec_add_r(r.b, 1), flag_z: spec_add_r(r.b, 1) == 0, flag_n: false, flag_h: spec_half_carry_add(r.b, 1), ..r }, m),
        0x05 => (Registers { b: spec_sub_r(r.b, 1), flag_z: spec_sub_r(r.b, 1) == 0, flag_n: true, flag_h: spec_half_borrow_sub(r.b, 1), ..r }, m),
        0x06 => (Registers { b: o1, ..r }, m),
        0x07 => (Registers { a: spec_rlc(r.a), flag_z: false, flag_n: false, flag_h: false, flag_c: r.a & 0x80 != 0, ..r }, m),
        0x08 => (r, spec_mem_store(spec_mem_store(m, spec_concat(o1, o2) as int, (r.sp % 256) as u8), add16(spec_concat(o1, o2), 1) as int, (r.sp / 256) as u8)),
        0x09 => (Registers { flag_n: false, flag_h: (r.spec_hl() & 0xFFF) + (r.spec_bc() & 0xFFF) > 0xFFF, flag_c: r.spec_hl() + r.spec_bc() > 0xFFFF, ..r.spec_with_hl(add16(r.spec_hl(), r.spec_bc())) }, m),
        0x0A => (Registers { a: spec_read_of(m, r.spec_bc()), ..r }, m),
        0x0B => (r.spec_with_bc(sub16(r.spec_bc(), 1)), m),
        0x0C => (Registers { c: spec_add_r(r.c, 1), flag_z: spec_add_r(r.c, 1) == 0, flag_n: false, flag_h: spec_half_carry_add(r.c, 1), ..r }, m),
        0x0D => (Registers { c: spec_sub_r(r.c, 1), flag_z: spec_sub_r(r.c, 1) == 0, flag_n: true, flag_h: spec_half_borrow_sub(r.c, 1), ..r }, m),
        0x0E => (Registers { c: o1, ..r }, m),
        0x0F => (Registers { a: spec_rrc(r.a), flag_z: false, flag_n: false, flag_h: false, flag_c: r.a & 1 != 0, ..r }, m),
        _ => (r, m),
    }
}

/// One sixteen-opcode row of `spec_low_effect`.
pub open spec fn spec_low_effect_row1(op: u8, r: Registers, m: Seq<u8>, o1: u8, o2: u8) -> (
    Registers,
    Seq<u8>,
) {
    match op {
        0x10 => (r, m),
        0x11 => (r.spec_with_de(spec_concat(o1, o2)), m),
        0x12 => (r, spec_mem_store(m, r.spec_de() as int, r.a)),
        0x13 => (r.spec_with_de(add16(r.spec_de(), 1)), m),
        0x14 => (Registers { d: spec_add_r(r.d, 1), flag_z: spec_add_r(r.d, 1) == 0, flag_n: false, flag_h: spec_half_carry_add(r.d, 1), ..r }, m),
        0x15 => (Registers { d: spec_sub_r(r.d, 1), flag_z: spec_sub_r(r.d, 1) == 0, flag_n: true, flag_h: spec_half_borrow_sub(r.d, 1), ..r }, m),
        0x16 => (Registers { d: o1, ..r }, m),
        0x17 => (Registers { a: spec_rl(r.a, r.flag_c), flag_z: false, flag_n: false, flag_h: false, flag_c: r.a & 0x80 != 0, ..r }, m),
        0x18 => (Registers { pc: add16(r.pc, spec_sign_ext(o1)), ..r }, m),
        0x19 => (Registers { flag_n: false, flag_h: (r.spec_hl() & 0xFFF) + (r.spec_de() & 0xFFF) > 0xFFF, flag_c: r.spec_hl() + r.spec_de() > 0xFFFF, ..r.spec_with_hl(add16(r.spec_hl(), r.spec_de())) }, m),
        0x1A => (Registers { a: spec_read_of(m, r.spec_de()), ..r }, m),
        0x1B => (r.spec_with_de(sub16(r.spec_de(), 1)), m),
        0x1C => (Registers { e: spec_add_r(r.e, 1), flag_z: spec_add_r(r.e, 1) == 0, flag_n: false, flag_h: spec_half_carry_add(r.e, 1), ..r }, m),
        0x1D => (Registers { e: spec_sub_r(r.e, 1), flag_z: spec_sub_r(r.e, 1) == 0, flag_n: true, flag_h: spec_half_borrow_sub(r.e, 1), ..r }, m),
        0x1E => (Registers { e: o1, ..r }, m),
        0x1F => (Registers { a: spec_rr(r.a, r.flag_c), flag_z: false, flag_n: false, flag_h: false, flag_c: r.a & 1 != 0, ..r }, m),
        _ => (r, m),
    }
}

/// One sixteen-opcode row of `spec_low_effect`.
pub open spec fn spec_low_effect_row2(op: u8, r: Registers, m: Seq<u8>, o1: u8, o2: u8) -> (
    Registers,
    Seq<u8>,
) {
    match op {
        0x20 => (if spec_cond_holds(0x20, r) { Registers { pc: add16(r.pc, spec_sign_ext(o1)), ..r } } else { r }, m),
        0x21 => (r.spec_with_hl(spec_concat(o1, o2)), m),
        0x22 => (r.spec_with_hl(add16(r.spec_hl(), 1)), spec_mem_store(m, r.spec_hl() as int, r.a)),
        0x23 => (r.spec_with_hl(add16(r.spec_hl(), 1)), m),
        0x24 => (Registers { h: spec_add_r(r.h, 1), flag_z: spec_add_r(r.h, 1) == 0, flag_n: false, flag_h: spec_half_carry_add(r.h, 1), ..r }, m),
        0x25 => (Registers { h: spec_sub_r(r.h, 1), flag_z: spec_sub_r(r.h, 1) == 0, flag_n: true, flag_h: spec_half_borrow_sub(r.h, 1), ..r }, m),
        0x26 => (Registers { h: o1, ..r }, m),
        0x27 => (Registers { a: spec_daa(r.a, r.flag_n, r.flag_h, r.flag_c).0, flag_z: spec_daa(r.a, r.flag_n, r.flag_h, r.flag_c).0 == 0, flag_h: false, flag_c: spec_daa(r.a, r.flag_n, r.flag_h, r.flag_c).1, ..r }, m),
        0x28 => (if spec_cond_holds(0x28, r) { Registers { pc: add16(r.pc, spec_sign_ext(o1)), ..r } } else { r }, m),
        0x29 => (Registers { flag_n: false, flag_h: (r.spec_hl() & 0xFFF) + (r.spec_hl() & 0xFFF) > 0xFFF, flag_c: r.spec_hl() + r.spec_hl() > 0xFFFF, ..r.spec_with_hl(add16(r.spec_hl(), r.spec_hl())) }, m),
        0x2A => ((Registers { a: spec_read_of(m, r.spec_hl()), ..r }).spec_with_hl(add16(r.spec_hl(), 1)), m),
        0x2B => (r.spec_with_hl(sub16(r.spec_hl(), 1)), m),
        0x2C => (Registers { l: spec_add_r(r.l, 1), flag_z: spec_add_r(r.l, 1) == 0, flag_n: false, flag_h: spec_half_carry_add(r.l, 1), ..r }, m),
        0x2D => (Registers { l: spec_sub_r(r.l, 1), flag_z: spec_sub_r(r.l, 1) == 0, flag_n: true, flag_h: spec_half_borrow_sub(r.l, 1), ..r }, m),
        0x2E => (Registers { l: o1, ..r }, m),
        0x2F => (Registers { a: !r.a, flag_n: true, flag_h: true, ..r }, m),
        _ => (r, m),
    }
}

/// One sixteen-opcode row of `spec_low_effect`.
pub open spec fn spec_low_effect_row3(op: u8, r: Registers, m: Seq<u8>, o1: u8, o2: u8) -> (
    Registers,
    Seq<u8>,
) {
    match op {
        0x30 => (if spec_cond_holds(0x30, r) { Registers { pc: add16(r.pc, spec_sign_ext(o1)), ..r } } else { r }, m),
        0x31 => (Registers { sp: spec_concat(o1, o2), ..r }, m),
        0x32 => (r.spec_with_hl(sub16(r.spec_hl(), 1)), spec_mem_store(m, r.spec_hl() as int, r.a)),
        0x33 => (Registers { sp: add16(r.sp, 1), ..r }, m),
        0x34 => (Registers { flag_z: spec_add_r(spec_read_of(m, r.spec_hl()), 1) == 0, flag_n: false, flag_h: spec_half_carry_add(spec_read_of(m, r.spec_hl()), 1), ..r }, spec_mem_store(m, r.spec_hl() as int, spec_add_r(spec_read_of(m, r.spec_hl()), 1))),
        0x35 => (Registers { flag_z: spec_sub_r(spec_read_of(m, r.spec_hl()), 1) == 0, flag_n: true, flag_h: spec_half_borrow_sub(spec_read_of(m, r.spec_hl()), 1), ..r }, spec_mem_store(m, r.spec_hl() as int, spec_sub_r(spec_read_of(m, r.spec_hl()), 1))),
        0x36 => (r, spec_mem_store(m, r.spec_hl() as int, o1)),
        0x37 => (Registers { flag_n: false, flag_h: false, flag_c: true, ..r }, m),
        0x38 => (if spec_cond_holds(0x38, r) { Registers { pc: add16(r.pc, spec_sign_ext(o1)), ..r } } else { r }, m),
        0x39 => (Registers { flag_n: false, flag_h: (r.spec_hl() & 0xFFF) + (r.sp & 0xFFF) > 0xFFF, flag_c: r.spec_hl() + r.sp > 0xFFFF, ..r.spec_with_hl(add16(r.spec_hl(), r.sp)) }, m),
        0x3A => ((Registers { a: spec_read_of(m, r.spec_hl()), ..r }).spec_with_hl(sub16(r.spec_hl(), 1)), m),
        0x3B => (Registers { sp: sub16(r.sp, 1), ..r }, m),
        0x3C => (Registers { a: spec_add_r(r.a, 1), flag_z: spec_add_r(r.a, 1) == 0, flag_n: false, flag_h: spec_half_carry_add(r.a, 1), ..r }, m),
        0x3D => (Registers { a: spec_sub_r(r.a, 1), flag_z: spec_sub_r(r.a, 1) == 0, flag_n: true, flag_h: spec_half_borrow_sub(r.a, 1), ..r }, m),
        0x3E => (Registers { a: o1, ..r }, m),
        0x3F => (Registers { flag_n: false, flag_h: false, flag_c: !r.flag_c, ..r }, m),
        _ => (r, m),
    }
}

/// Register file and memory after one opcode of the 0x00..0x3F block,
/// given the operand bytes already fetched (`r.pc` is past the
/// instruction). DI, EI and RETI effects on IME are tracked separately.
pub open spec fn spec_low_effect(op: u8, r: Registers, m: Seq<u8>, o1: u8, o2: u8) -> (
    Registers,
    Seq<u8>,
) {
    if op < 0x10 {
        spec_low_effect_row0(op, r, m, o1, o2)
    } else if op < 0x20 {
        spec_low_effect_row1(op, r, m, o1, o2)
    } else if op < 0x30 {
        spec_low_effect_row2(op, r, m, o1, o2)
    } else {
        spec_low_effect_row3(op, r, m, o1, o2)
    }
}


/// Register file and memory after one opcode of the 0xC0..0xFF block,
/// given the operand bytes already fetched (`r.pc` is past the
/// instruction, so a call pushes exactly `r.pc`). The IME change of DI,
/// EI and RETI is tracked by the separate IME transition.
pub open spec fn spec_hi_effect(op: u8, r: Registers, m: Seq<u8>, o1: u8, o2: u8) -> (Registers, Seq<u8>) {
    match op {
        0xC0 => (if spec_cond_holds(0xC0, r) { Registers { pc: spec_pop16(m, r.sp), sp: add16(r.sp, 2), ..r } } else { r }, m),
        0xC1 => ((Registers { sp: add16(r.sp, 2), ..r }).spec_with_bc(spec_pop16(m, r.sp)), m),
        0xC2 => (if spec_cond_holds(0xC2, r) { Registers { pc: spec_concat(o1, o2), ..r } } else { r }, m),
        0xC3 => (Registers { pc: spec_concat(o1, o2), ..r }, m),
        0xC4 => (if spec_cond_holds(0xC4, r) { Registers { pc: spec_concat(o1, o2), sp: sub16(r.sp, 2), ..r } } else { r }, if spec_cond_holds(0xC4, r) { spec_push16(m, r.sp, r.pc) } else { m }),
        0xC5 => (Registers { sp: sub16(r.sp, 2), ..r }, spec_push16(m, r.sp, r.spec_bc())),
        0xC6 => (spec_alu_imm_effect(op, r, o1), m),
        0xC7 => (Registers { pc: 0x00, sp: sub16(r.sp, 2), ..r }, spec_push16(m, r.sp, r.pc)),
        0xC8 => (if spec_cond_holds(0xC8, r) { Registers { pc: spec_pop16(m, r.sp), sp: add16(r.sp, 2), ..r } } else { r }, m),
        0xC9 => (Registers { pc: spec_pop16(m, r.sp), sp: add16(r.sp, 2), ..r }, m),
        0xCA => (if spec_cond_holds(0xCA, r) { Registers { pc: spec_concat(o1, o2), ..r } } else { r }, m),
        0xCC => (if spec_cond_holds(0xCC, r) { Registers { pc: spec_concat(o1, o2), sp: sub16(r.sp, 2), ..r } } else { r }, if spec_cond_holds(0xCC, r) { spec_push16(m, r.sp, r.pc) } else { m }),
        0xCD => (Registers { pc: spec_concat(o1, o2), sp: sub16(r.sp, 2), ..r }, spec_push16(m, r.sp, r.pc)),
        0xCE => (spec_alu_imm_effect(op, r, o1), m),
        0xCF => (Registers { pc: 0x08, sp: sub16(r.sp, 2), ..r }, spec_push16(m, r.sp, r.pc)),
        0xD0 => (if spec_cond_holds(0xD0, r) { Registers { pc: spec_pop16(m, r.sp), sp: add16(r.sp, 2), ..r } } else { r }, m),
        0xD1 => ((Registers { sp: add16(r.sp, 2), ..r }).spec_with_de(spec_pop16(m, r.sp)), m),
        0xD2 => (if spec_cond_holds(0xD2, r) { Registers { pc: spec_concat(o1, o2), ..r } } else { r }, m),
        0xD4 => (if spec_cond_holds(0xD4, r) { Registers { pc: spec_concat(o1, o2), sp: sub16(r.sp, 2), ..r } } else { r }, if spec_cond_holds(0xD4, r) { spec_push16(m, r.sp, r.pc) } else { m }),
        0xD5 => (Registers { sp: sub16(r.sp, 2), ..r }, spec_push16(m, r.sp, r.spec_de())),
        0xD6 => (spec_alu_imm_effect(op, r, o1), m),
        0xD7 => (Registers { pc: 0x10, sp: sub16(r.sp, 2), ..r }, spec_push16(m, r.sp, r.pc)),
        0xD8 => (if spec_cond_holds(0xD8, r) { Registers { pc: spec_pop16(m, r.sp), sp: add16(r.sp, 2), ..r } } else { r }, m),
        0xD9 => (Registers { pc: spec_pop16(m, r.sp), sp: add16(r.sp, 2), ..r }, m),
        0xDA => (if spec_cond_holds(0xDA, r) { Registers { pc: spec_concat(o1, o2), ..r } } else { r }, m),
        0xDC => (if spec_cond_holds(0xDC, r) { Registers { pc: spec_concat(o1, o2), sp: sub16(r.sp, 2), ..r } } else { r }, if spec_cond_holds(0xDC, r) { spec_push16(m, r.sp, r.pc) } else { m }),
        0xDE => (spec_alu_imm_effect(op, r, o1), m),
        0xDF => (Registers { pc: 0x18, sp: sub16(r.sp, 2), ..r }, spec_push16(m, r.sp, r.pc)),
        0xE0 => (r, spec_mem_store(m, (0xFF00u16 | (o1 as u16)) as int, r.a)),
        0xE1 => ((Registers { sp: add16(r.sp, 2), ..r }).spec_with_hl(spec_pop16(m, r.sp)), m),
        0xE2 => (r, spec_mem_store(m, (0xFF00u16 | (r.c as u16)) as int, r.a)),
        0xE5 => (Registers { sp: sub16(r.sp, 2), ..r }, spec_push16(m, r.sp, r.spec_hl())),
        0xE6 => (spec_alu_imm_effect(op, r, o1), m),
        0xE7 => (Registers { pc: 0x20, sp: sub16(r.sp, 2), ..r }, spec_push16(m, r.sp, r.pc)),
        0xE8 => (Registers { sp: add16(r.sp, spec_sign_ext(o1)), flag_z: false, flag_n: false, flag_h: (r.sp & 0xF) + (o1 & 0xF) > 0xF, flag_c: (r.sp & 0xFF) + o1 > 0xFF, ..r }, m),
        0xE9 => (Registers { pc: r.spec_hl(), ..r }, m),
        0xEA => (r, spec_mem_store(m, spec_concat(o1, o2) as int, r.a)),
        0xEE => (spec_alu_imm_effect(op, r, o1), m),
        0xEF => (Registers { pc: 0x28, sp: sub16(r.sp, 2), ..r }, spec_push16(m, r.sp, r.pc)),
        0xF0 => (Registers { a: spec_read_of(m, 0xFF00u16 | (o1 as u16)), ..r }, m),
        0xF1 => ((Registers { sp: add16(r.sp, 2), ..r }).spec_with_af(spec_pop16(m, r.sp)), m),
        0xF2 => (Registers { a: spec_read_of(m, 0xFF00u16 | (r.c as u16)), ..r }, m),
        0xF3 => (r, m),
        0xF5 => (Registers { sp: sub16(r.sp, 2), ..r }, spec_push16(m, r.sp, r.spec_af())),
        0xF6 => (spec_alu_imm_effect(op, r, o1), m),
        0xF7 => (Registers { pc: 0x30, sp: sub16(r.sp, 2), ..r }, spec_push16(m, r.sp, r.pc)),
        0xF8 => ((Registers { flag_z: false, flag_n: false, flag_h: (r.sp & 0xF) + (o1 & 0xF) > 0xF, flag_c: (r.sp & 0xFF) + o1 > 0xFF, ..r }).spec_with_hl(add16(r.sp, spec_sign_ext(o1))), m),
        0xF9 => (Registers { sp: r.spec_hl(), ..r }, m),
        0xFA => (Registers { a: spec_read_of(m, spec_concat(o1, o2)), ..r }, m),
        0xFB => (r, m),
        0xFE => (spec_alu_imm_effect(op, r, o1), m),
        0xFF => (Registers { pc: 0x38, sp: sub16(r.sp, 2), ..r }, spec_push16(m, r.sp, r.pc)),
        _ => (r, m),
    }
}

/// Register file and memory after any defined base-table opcode, given
/// the post-fetch register file (PC already past the instruction) and the
/// operand bytes.
pub open spec fn spec_base_effect(op: u8, r: Registers, m: Seq<u8>, o1: u8, o2: u8) -> (
    Registers,
    Seq<u8>,
) {
    if op < 0x40 {
        spec_low_effect(op, r, m, o1, o2)
    } else if op < 0x80 {
        spec_ld_effect(op, r, m)
    } else if op < 0xC0 {
        (spec_alu_effect(op, r, m), m)
    } else {
        spec_hi_effect(op, r, m, o1, o2)
    }
}

/// The memory image after the end-of-step serial poll: a start-transfer
/// value in SC is acknowledged by clearing SC.
pub open spec fn spec_serial_poll_mem(m: Seq<u8>) -> Seq<u8> {
    if m[0xFF02] == 0x81 {
        m.update(0xFF02, 0)
    } else {
        m
    }
}

/// The serial log after the end-of-step poll: a start-transfer value in
/// SC commits the SB byte.
pub open spec fn spec_serial_poll_log(m: Seq<u8>, log: Seq<u8>) -> Seq<u8> {
    if m[0xFF02] == 0x81 {
        log.push(m[0xFF01])
    } else {
        log
    }
}

/// Whether one CPU step fails: no interrupt dispatch fires and the
/// fetched opcode is one of the table holes.
pub open spec fn spec_cpu_step_err(c: Cpu, m: Seq<u8>) -> bool {
    let p = spec_pending(m);
    let dispatched = p != 0 && c.interrupts.ime;
    !dispatched && spec_undefined_op(spec_read_of(m, c.registers.pc))
}

/// One whole successful CPU step as a function of the CPU state and the
/// memory image: the new register file, IME, EI delay, memory image,
/// serial log, and the T-cycles taken. The three cases are the interrupt
/// dispatch, a CB-prefixed operation, and a base-table opcode; the serial
/// poll is applied at the end of each.
pub open spec fn spec_cpu_step_ok(c: Cpu, m: Seq<u8>) -> (
    Registers,
    bool,
    u8,
    Seq<u8>,
    Seq<u8>,
    u32,
) {
    let p = spec_pending(m);
    if p != 0 && c.interrupts.ime {
        let i = spec_lowest_bit(p);
        let cleared = (m[0xFF0F] as u8) & !((1u8 << i) as u8);
        let m2 = spec_push16(m.update(0xFF0F, cleared), c.registers.sp, c.registers.pc);
        (
            Registers {
                pc: spec_vector(i),
                sp: sub16(c.registers.sp, 2),
                ..c.registers
            },
            false,
            c.interrupts.ei_delay,
            spec_serial_poll_mem(m2),
            spec_serial_poll_log(m2, c.serial_log@),
            20u32,
        )
    } else {
        let pc0 = c.registers.pc;
        let op = spec_read_of(m, pc0);
        if op == 0xCB {
            let op2 = spec_read_of(m, add16(pc0, 1));
            let fetched = Registers { pc: add16(pc0, 2), ..c.registers };
            let eff = spec_cb_effect(op2, fetched, m);
            let latch = spec_ime_after(c.interrupts.ime, c.interrupts.ei_delay, 0xCB);
            (
                eff.0,
                latch.0,
                latch.1,
                spec_serial_poll_mem(eff.1),
                spec_serial_poll_log(eff.1, c.serial_log@),
                spec_cb_cycles(op2),
            )
        } else {
            let fetched = Registers { pc: add16(pc0, spec_base_len(op)), ..c.registers };
            let o1 = if spec_base_len(op) >= 2 {
                spec_read_of(m, add16(pc0, 1))
            } else {
                0u8
            };
            let o2 = if spec_base_len(op) >= 3 {
                spec_read_of(m, add16(pc0, 2))
            } else {
                0u8
            };
            let eff = spec_base_effect(op, fetched, m, o1, o2);
            let latch = spec_ime_after(c.interrupts.ime, c.interrupts.ei_delay, op);
            (
                eff.0,
                latch.0,
                latch.1,
                spec_serial_poll_mem(eff.1),
                spec_serial_poll_log(eff.1, c.serial_log@),
                spec_step_cycles(op, c.registers),
            )
        }
    }
}

/// The 8-bit register a three-bit slot names (slot 6, the (HL) cell, is
/// handled by the caller).
pub open spec fn spec_slot_reg(index: u8) -> Register {
    if index == 0 {
        Register::B
    } else if index == 1 {
        Register::C
    } else if index == 2 {
        Register::D
    } else if index == 3 {
        Register::E
    } else if index == 4 {
        Register::H
    } else if index == 5 {
        Register::L
    } else {
        Register::A
    }
}

/// Result and carry-out of the eight CB rotate/shift operations.
pub open spec fn spec_cb_rotate(index: u8, v: u8, carry: bool) -> (u8, bool) {
    if index == 0 {
        (crate::alu::spec_rlc(v), v & 0x80 != 0)
    } else if index == 1 {
        (crate::alu::spec_rrc(v), v & 1 != 0)
    } else if index == 2 {
        (crate::alu::spec_rl(v, carry), v & 0x80 != 0)
    } else if index == 3 {
        (crate::alu::spec_rr(v, carry), v & 1 != 0)
    } else if index == 4 {
        (crate::alu::spec_sla(v), v & 0x80 != 0)
    } else if index == 5 {
        (crate::alu::spec_sra(v), v & 1 != 0)
    } else if index == 6 {
        (crate::alu::spec_swap(v), false)
    } else {
        (crate::alu::spec_srl(v), v & 1 != 0)
    }
}

/// Where a CB result lands: slot 6 stores through the bus at HL, every
/// other slot writes its register.
pub open spec fn spec_cb_store(target: u8, r: Registers, m: Seq<u8>, value: u8) -> (
    Registers,
    Seq<u8>,
) {
    if target == 6 {
        (r, spec_mem_store(m, r.spec_hl() as int, value))
    } else {
        (r.spec_set8(spec_slot_reg(target), value), m)
    }
}

/// Register file and memory after one CB-prefixed operation, decoded
/// from the opcode's bit fields: group (rotate/BIT/RES/SET), bit or
/// operation index, and target slot.
pub open spec fn spec_cb_effect(op: u8, r: Registers, m: Seq<u8>) -> (Registers, Seq<u8>) {
    let target = op & 7;
    let group = op >> 6;
    let index = (op >> 3) & 7;
    let v = if target == 6 {
        spec_read_of(m, r.spec_hl())
    } else {
        r.spec_get8(spec_slot_reg(target))
    };
    if group == 0 {
        let rc = spec_cb_rotate(index, v, r.flag_c);
        let stored = spec_cb_store(target, r, m, rc.0);
        (
            Registers {
                flag_z: rc.0 == 0,
                flag_n: false,
                flag_h: false,
                flag_c: rc.1,
                ..stored.0
            },
            stored.1,
        )
    } else if group == 1 {
        (Registers { flag_z: v & (1u8 << index) == 0, flag_n: false, flag_h: true, ..r }, m)
    } else if group == 2 {
        spec_cb_store(target, r, m, v & !(1u8 << index))
    } else {
        spec_cb_store(target, r, m, v | (1u8 << index))
    }
}

/// Decode fields of a CB opcode stay in range.
proof fn lemma_cb_fields(op: u8)
    by (bit_vector)
    ensures
        op & 7 < 8,
        (op >> 3) & 7 < 8,
        op >> 6 < 4,
{
}

/// The next address a disassembly walk visits after `a`: addresses inside
/// the cartridge header range 0x0104..0x0150 are skipped to 0x0150.
pub open spec fn spec_walk_skip(a: int) -> int {
    if 0x104 <= a < 0x150 {
        0x150
    } else {
        a
    }
}

/// The CPU state outside the bus: the register file, the interrupt
/// latch, the (stateless) instruction tables and the serial log.
pub struct Cpu {
    pub registers: Registers,
    pub interrupts: Interrupts,
    pub instruction_set: InstructionSet,
    pub serial_log: Vec<u8>,
}

impl Cpu {
    /// A CPU at power-on: cleared registers, IME off, empty serial log.
    pub fn new() -> (r: Cpu)
        ensures
            r.registers.pc == 0 && r.registers.sp == 0,
            r.registers.a == 0 && r.registers.b == 0 && r.registers.c == 0,
            r.registers.d == 0 && r.registers.e == 0 && r.registers.h == 0 && r.registers.l == 0,
            !r.registers.flag_z && !r.registers.flag_n && !r.registers.flag_h
                && !r.registers.flag_c,
            r.interrupts.ime == false,
            r.interrupts.ei_delay == 0,
            r.serial_log@ == Seq::<u8>::empty(),
    {
        Cpu {
            registers: Registers::new(),
            interrupts: Interrupts::new(),
            instruction_set: InstructionSet::new(),
            serial_log: Vec::new(),
        }
    }

    /// A bus read at a 16-bit address.
    fn bus_read(mmu: &Mmu, address: u16) -> (r: u8)
        requires
            mmu.wf(),
        ensures
            r == spec_read_of(mmu@, address),
    {
        match mmu.read_byte(address as usize) {
            Ok(v) => v,
            Err(_) => 0,
        }
    }

    /// The byte at (HL).
    fn read_hl(&self, mmu: &Mmu) -> (r: u8)
        requires
            mmu.wf(),
        ensures
            r == spec_read_of(mmu@, self.registers.spec_hl()),
    {
        let hl = self.registers.hl();
        Self::bus_read(mmu, hl)
    }

    /// Reads the byte PC points at and advances PC (wrapping).
    fn read_at_program_counter(&mut self, mmu: &Mmu) -> (r: u8)
        requires
            mmu.wf(),
        ensures
            r == spec_read_of(mmu@, old(self).registers.pc),
            final(self).registers == (Registers {
                pc: add16(old(self).registers.pc, 1),
                ..old(self).registers
            }),
            final(self).interrupts == old(self).interrupts,
            final(self).serial_log@ == old(self).serial_log@,
    {
        let pc = self.registers.pc();
        let value = Self::bus_read(mmu, pc);
        self.registers.increment_pc();
        value
    }

    /// Runs down the EI delay at the end of an instruction, raising IME
    /// when it hits zero.
    fn commit_ei(&mut self)
        ensures
            (final(self).interrupts.ime, final(self).interrupts.ei_delay) == spec_ime_commit(
                (old(self).interrupts.ime, old(self).interrupts.ei_delay),
            ),
            final(self).registers == old(self).registers,
            final(self).serial_log@ == old(self).serial_log@,
    {
        if self.interrupts.ei_delay == 1 {
            self.interrupts.ei_delay = 0;
            self.interrupts.set_ime(true);
        } else if self.interrupts.ei_delay > 1 {
            self.interrupts.ei_delay = self.interrupts.ei_delay - 1;
        }
    }

    /// The serial tap: when SC holds the start-transfer value 0x81, the SB
    /// byte is appended to the serial log and SC is cleared.
    pub fn poll_serial(&mut self, mmu: &mut Mmu)
        requires
            old(mmu).wf(),
        ensures
            final(mmu).wf(),
            final(mmu).spec_cartridge() == old(mmu).spec_cartridge(),
            final(self).registers == old(self).registers,
            final(self).interrupts == old(self).interrupts,
            old(mmu)@[0xFF02] == 0x81 ==> final(self).serial_log@ == old(self).serial_log@.push(
                old(mmu)@[0xFF01],
            ) && final(mmu)@ == old(mmu)@.update(0xFF02, 0),
            old(mmu)@[0xFF02] != 0x81 ==> final(self).serial_log@ == old(self).serial_log@
                && final(mmu)@ == old(mmu)@,
    {
        if mmu.sc() == 0x81 {
            let byte = mmu.sb();
            self.serial_log.push(byte);
            mmu.set_sc(0);
        }
    }

    fn execute_low(&mut self, mmu: &mut Mmu, opcode: u8, operand1: u8, operand2: u8) -> (r: u32)
        requires
            old(mmu).wf(),
            !spec_undefined_op(opcode),
            opcode != 0xCB,
            opcode < 0x40,
        ensures
            final(mmu).wf(),
            final(mmu).spec_cartridge() == old(mmu).spec_cartridge(),
            final(self).serial_log@ == old(self).serial_log@,
            r == spec_step_cycles(opcode, old(self).registers),
            !spec_taken(opcode, old(self).registers) ==> final(self).registers.pc == old(
                self,
            ).registers.pc,
            (final(self).interrupts.ime, final(self).interrupts.ei_delay) == spec_ime_effect(
                old(self).interrupts.ime,
                old(self).interrupts.ei_delay,
                opcode,
            ),
            (final(self).registers, final(mmu)@) == spec_low_effect(
                opcode,
                old(self).registers,
                old(mmu)@,
                operand1,
                operand2,
            ),
    {
        if opcode < 0x10 {
            self.execute_low_row0(mmu, opcode, operand1, operand2)
        } else if opcode < 0x20 {
            self.execute_low_row1(mmu, opcode, operand1, operand2)
        } else if opcode < 0x30 {
            self.execute_low_row2(mmu, opcode, operand1, operand2)
        } else {
            self.execute_low_row3(mmu, opcode, operand1, operand2)
        }
    }

    #[verifier::rlimit(100)]
    #[verifier::spinoff_prover]
    fn execute_low_row0(&mut self, mmu: &mut Mmu, opcode: u8, operand1: u8, operand2: u8) -> (r: u32)
        requires
            old(mmu).wf(),
            !spec_undefined_op(opcode),
            opcode != 0xCB,
            0x00 <= opcode && opcode < 0x10,
        ensures
            final(mmu).wf(),
            final(mmu).spec_cartridge() == old(mmu).spec_cartridge(),
            final(self).serial_log@ == old(self).serial_log@,
            r == spec_step_cycles(opcode, old(self).registers),
            !spec_taken(opcode, old(self).registers) ==> final(self).registers.pc == old(
                self,
            ).registers.pc,
            (final(self).interrupts.ime, final(self).interrupts.ei_delay) == spec_ime_effect(
                old(self).interrupts.ime,
                old(self).interrupts.ei_delay,
                opcode,
            ),
            (final(self).registers, final(mmu)@) == spec_low_effect_row0(
                opcode,
                old(self).registers,
                old(mmu)@,
                operand1,
                operand2,
            ),
    {
        match opcode {
            0x00 => {
                4
            },
            0x01 => {
                InstructionSet::ld_16bit(&mut self.registers, Register::BC, operand1, operand2);
                12
            },
            0x03 => {
                InstructionSet::inc_16bit(&mut self.registers, Register::BC);
                8
            },
            0x09 => {
                let v = self.registers.bc();
                InstructionSet::add_16bit(&mut self.registers, Register::HL, v);
                8
            },
            0x0B => {
                InstructionSet::dec_16bit(&mut self.registers, Register::BC);
                8
            },
            0x02 => {
                let v = self.registers.a();
                let ad = self.registers.bc();
                InstructionSet::ld_8bit_mem(mmu, ad, v);
                8
            },
            0x0A => {
                let ad = self.registers.bc();
                let v = Self::bus_read(mmu, ad);
                self.registers.set_a(v);
                8
            },
            0x04 => {
                InstructionSet::inc_8bit(&mut self.registers, Register::B);
                4
            },
            0x05 => {
                InstructionSet::dec_8bit(&mut self.registers, Register::B);
                4
            },
            0x06 => {
                self.registers.set_b(operand1);
                8
            },
            0x0C => {
                InstructionSet::inc_8bit(&mut self.registers, Register::C);
                4
            },
            0x0D => {
                InstructionSet::dec_8bit(&mut self.registers, Register::C);
                4
            },
            0x0E => {
                self.registers.set_c(operand1);
                8
            },
            0x07 => {
                let a = self.registers.a();
                let rc = InstructionSet::rlc(a);
                self.registers.set_a(rc.0);
                self.registers.set_zero_flag(false);
                self.registers.set_subtraction_flag(false);
                self.registers.set_half_carry_flag(false);
                self.registers.set_carry_flag(rc.1);
                4
            },
            0x0F => {
                let a = self.registers.a();
                let rc = InstructionSet::rrc(a);
                self.registers.set_a(rc.0);
                self.registers.set_zero_flag(false);
                self.registers.set_subtraction_flag(false);
                self.registers.set_half_carry_flag(false);
                self.registers.set_carry_flag(rc.1);
                4
            },
            0x08 => {
                let ad = crate::bits::concatenate_bytes(operand1, operand2);
                let sp = self.registers.sp();
                let lohi = crate::bits::split_2bytes(sp);
                InstructionSet::ld_8bit_mem(mmu, ad, lohi.0);
                let ad2: u16 = if ad == 0xFFFF { 0 } else { ad + 1 };
                InstructionSet::ld_8bit_mem(mmu, ad2, lohi.1);
                20
            },
            _ => 0,
        }
    }

    #[verifier::rlimit(100)]
    #[verifier::spinoff_prover]
    fn execute_low_row1(&mut self, mmu: &mut Mmu, opcode: u8, operand1: u8, operand2: u8) -> (r: u32)
        requires
            old(mmu).wf(),
            !spec_undefined_op(opcode),
            opcode != 0xCB,
            0x10 <= opcode && opcode < 0x20,
        ensures
            final(mmu).wf(),
            final(mmu).spec_cartridge() == old(mmu).spec_cartridge(),
            final(self).serial_log@ == old(self).serial_log@,
            r == spec_step_cycles(opcode, old(self).registers),
            !spec_taken(opcode, old(self).registers) ==> final(self).registers.pc == old(
                self,
            ).registers.pc,
            (final(self).interrupts.ime, final(self).interrupts.ei_delay) == spec_ime_effect(
                old(self).interrupts.ime,
                old(self).interrupts.ei_delay,
                opcode,
            ),
            (final(self).registers, final(mmu)@) == spec_low_effect_row1(
                opcode,
                old(self).registers,
                old(mmu)@,
                operand1,
                operand2,
            ),
    {
        match opcode {
            0x11 => {
                InstructionSet::ld_16bit(&mut self.registers, Register::DE, operand1, operand2);
                12
            },
            0x13 => {
                InstructionSet::inc_16bit(&mut self.registers, Register::DE);
                8
            },
            0x19 => {
                let v = self.registers.de();
                InstructionSet::add_16bit(&mut self.registers, Register::HL, v);
                8
            },
            0x1B => {
                InstructionSet::dec_16bit(&mut self.registers, Register::DE);
                8
            },
            0x12 => {
                let v = self.registers.a();
                let ad = self.registers.de();
                InstructionSet::ld_8bit_mem(mmu, ad, v);
                8
            },
            0x1A => {
                let ad = self.registers.de();
                let v = Self::bus_read(mmu, ad);
                self.registers.set_a(v);
                8
            },
            0x14 => {
                InstructionSet::inc_8bit(&mut self.registers, Register::D);
                4
            },
            0x15 => {
                InstructionSet::dec_8bit(&mut self.registers, Register::D);
                4
            },
            0x16 => {
                self.registers.set_d(operand1);
                8
            },
            0x1C => {
                InstructionSet::inc_8bit(&mut self.registers, Register::E);
                4
            },
            0x1D => {
                InstructionSet::dec_8bit(&mut self.registers, Register::E);
                4
            },
            0x1E => {
                self.registers.set_e(operand1);
                8
            },
            0x17 => {
                let a = self.registers.a();
                let rc = InstructionSet::rl(a, self.registers.carry_flag());
                self.registers.set_a(rc.0);
                self.registers.set_zero_flag(false);
                self.registers.set_subtraction_flag(false);
                self.registers.set_half_carry_flag(false);
                self.registers.set_carry_flag(rc.1);
                4
            },
            0x1F => {
                let a = self.registers.a();
                let rc = InstructionSet::rr(a, self.registers.carry_flag());
                self.registers.set_a(rc.0);
                self.registers.set_zero_flag(false);
                self.registers.set_subtraction_flag(false);
                self.registers.set_half_carry_flag(false);
                self.registers.set_carry_flag(rc.1);
                4
            },
            0x10 => {
                4
            },
            0x18 => {
                InstructionSet::jr(&mut self.registers, operand1);
                12
            },
            _ => 0,
        }
    }

    #[verifier::rlimit(100)]
    #[verifier::spinoff_prover]
    fn execute_low_row2(&mut self, mmu: &mut Mmu, opcode: u8, operand1: u8, operand2: u8) -> (r: u32)
        requires
            old(mmu).wf(),
            !spec_undefined_op(opcode),
            opcode != 0xCB,
            0x20 <= opcode && opcode < 0x30,
        ensures
            final(mmu).wf(),
            final(mmu).spec_cartridge() == old(mmu).spec_cartridge(),
            final(self).serial_log@ == old(self).serial_log@,
            r == spec_step_cycles(opcode, old(self).registers),
            !spec_taken(opcode, old(self).registers) ==> final(self).registers.pc == old(
                self,
            ).registers.pc,
            (final(self).interrupts.ime, final(self).interrupts.ei_delay) == spec_ime_effect(
                old(self).interrupts.ime,
                old(self).interrupts.ei_delay,
                opcode,
            ),
            (final(self).registers, final(mmu)@) == spec_low_effect_row2(
                opcode,
                old(self).registers,
                old(mmu)@,
                operand1,
                operand2,
            ),
    {
        match opcode {
            0x21 => {
                InstructionSet::ld_16bit(&mut self.registers, Register::HL, operand1, operand2);
                12
            },
            0x23 => {
                InstructionSet::inc_16bit(&mut self.registers, Register::HL);
                8
            },
            0x29 => {
                let v = self.registers.hl();
                InstructionSet::add_16bit(&mut self.registers, Register::HL, v);
                8
            },
            0x2B => {
                InstructionSet::dec_16bit(&mut self.registers, Register::HL);
                8
            },
            0x22 => {
                let v = self.registers.a();
                let ad = self.registers.hl();
                InstructionSet::ld_8bit_mem(mmu, ad, v);
                InstructionSet::inc_16bit(&mut self.registers, Register::HL);
                8
            },
            0x2A => {
                let v = self.read_hl(mmu);
                self.registers.set_a(v);
                InstructionSet::inc_16bit(&mut self.registers, Register::HL);
                8
            },
            0x24 => {
                InstructionSet::inc_8bit(&mut self.registers, Register::H);
                4
            },
            0x25 => {
                InstructionSet::dec_8bit(&mut self.registers, Register::H);
                4
            },
            0x26 => {
                self.registers.set_h(operand1);
                8
            },
            0x2C => {
                InstructionSet::inc_8bit(&mut self.registers, Register::L);
                4
            },
            0x2D => {
                InstructionSet::dec_8bit(&mut self.registers, Register::L);
                4
            },
            0x2E => {
                self.registers.set_l(operand1);
                8
            },
            0x20 => {
                if !self.registers.zero_flag() {
                    InstructionSet::jr(&mut self.registers, operand1);
                    12
                } else {
                    8
                }
            },
            0x28 => {
                if self.registers.zero_flag() {
                    InstructionSet::jr(&mut self.registers, operand1);
                    12
                } else {
                    8
                }
            },
            0x27 => {
                InstructionSet::daa(&mut self.registers);
                4
            },
            0x2F => {
                InstructionSet::cpl(&mut self.registers);
                4
            },
            _ => 0,
        }
    }

    #[verifier::rlimit(100)]
    #[verifier::spinoff_prover]
    fn execute_low_row3(&mut self, mmu: &mut Mmu, opcode: u8, operand1: u8, operand2: u8) -> (r: u32)
        requires
            old(mmu).wf(),
            !spec_undefined_op(opcode),
            opcode != 0xCB,
            0x30 <= opcode && opcode < 0x40,
        ensures
            final(mmu).wf(),
            final(mmu).spec_cartridge() == old(mmu).spec_cartridge(),
            final(self).serial_log@ == old(self).serial_log@,
            r == spec_step_cycles(opcode, old(self).registers),
            !spec_taken(opcode, old(self).registers) ==> final(self).registers.pc == old(
                self,
            ).registers.pc,
            (final(self).interrupts.ime, final(self).interrupts.ei_delay) == spec_ime_effect(
                old(self).interrupts.ime,
                old(self).interrupts.ei_delay,
                opcode,
            ),
            (final(self).registers, final(mmu)@) == spec_low_effect_row3(
                opcode,
                old(self).registers,
                old(mmu)@,
                operand1,
                operand2,
            ),
    {
        match opcode {
            0x31 => {
                InstructionSet::ld_16bit(&mut self.registers, Register::SP, operand1, operand2);
                12
            },
            0x33 => {
                InstructionSet::inc_16bit(&mut self.registers, Register::SP);
                8
            },
            0x39 => {
                let v = self.registers.sp();
                InstructionSet::add_16bit(&mut self.registers, Register::HL, v);
                8
            },
            0x3B => {
                InstructionSet::dec_16bit(&mut self.registers, Register::SP);
                8
            },
            0x32 => {
                let v = self.registers.a();
                let ad = self.registers.hl();
                InstructionSet::ld_8bit_mem(mmu, ad, v);
                InstructionSet::dec_16bit(&mut self.registers, Register::HL);
                8
            },
            0x3A => {
                let v = self.read_hl(mmu);
                self.registers.set_a(v);
                InstructionSet::dec_16bit(&mut self.registers, Register::HL);
                8
            },
            0x34 => {
                let ad = self.registers.hl() as usize;
                InstructionSet::inc_mem(&mut self.registers, mmu, ad);
                12
            },
            0x35 => {
                let ad = self.registers.hl() as usize;
                InstructionSet::dec_mem(&mut self.registers, mmu, ad);
                12
            },
            0x36 => {
                let ad = self.registers.hl();
                InstructionSet::ld_8bit_mem(mmu, ad, operand1);
                12
            },
            0x3C => {
                InstructionSet::inc_8bit(&mut self.registers, Register::A);
                4
            },
            0x3D => {
                InstructionSet::dec_8bit(&mut self.registers, Register::A);
                4
            },
            0x3E => {
                self.registers.set_a(operand1);
                8
            },
            0x30 => {
                if !self.registers.carry_flag() {
                    InstructionSet::jr(&mut self.registers, operand1);
                    12
                } else {
                    8
                }
            },
            0x38 => {
                if self.registers.carry_flag() {
                    InstructionSet::jr(&mut self.registers, operand1);
                    12
                } else {
                    8
                }
            },
            0x37 => {
                InstructionSet::scf(&mut self.registers);
                4
            },
            0x3F => {
                InstructionSet::ccf(&mut self.registers);
                4
            },
            _ => 0,
        }
    }

    fn execute_ld(&mut self, mmu: &mut Mmu, opcode: u8, operand1: u8, operand2: u8) -> (r: u32)
        requires
            old(mmu).wf(),
            !spec_undefined_op(opcode),
            opcode != 0xCB,
            0x40 <= opcode && opcode < 0x80,
        ensures
            final(mmu).wf(),
            final(mmu).spec_cartridge() == old(mmu).spec_cartridge(),
            final(self).serial_log@ == old(self).serial_log@,
            r == spec_step_cycles(opcode, old(self).registers),
            !spec_taken(opcode, old(self).registers) ==> final(self).registers.pc == old(
                self,
            ).registers.pc,
            (final(self).interrupts.ime, final(self).interrupts.ei_delay) == spec_ime_effect(
                old(self).interrupts.ime,
                old(self).interrupts.ei_delay,
                opcode,
            ),
            (final(self).registers, final(mmu)@) == spec_ld_effect(
                opcode,
                old(self).registers,
                old(mmu)@,
            ),
            final(self).interrupts == old(self).interrupts,
    {
        match opcode {
            0x40 => {
                let v = self.registers.b();
                self.registers.set_b(v);
                4
            },
            0x41 => {
                let v = self.registers.c();
                self.registers.set_b(v);
                4
            },
            0x42 => {
                let v = self.registers.d();
                self.registers.set_b(v);
                4
            },
            0x43 => {
                let v = self.registers.e();
                self.registers.set_b(v);
                4
            },
            0x44 => {
                let v = self.registers.h();
                self.registers.set_b(v);
                4
            },
            0x45 => {
                let v = self.registers.l();
                self.registers.set_b(v);
                4
            },
            0x46 => {
                let v = self.read_hl(mmu);
                self.registers.set_b(v);
                8
            },
            0x47 => {
                let v = self.registers.a();
                self.registers.set_b(v);
                4
            },
            0x48 => {
                let v = self.registers.b();
                self.registers.set_c(v);
                4
            },
            0x49 => {
                let v = self.registers.c();
                self.registers.set_c(v);
                4
            },
            0x4A => {
                let v = self.registers.d();
                self.registers.set_c(v);
                4
            },
            0x4B => {
                let v = self.registers.e();
                self.registers.set_c(v);
                4
            },
            0x4C => {
                let v = self.registers.h();
                self.registers.set_c(v);
                4
            },
            0x4D => {
                let v = self.registers.l();
                self.registers.set_c(v);
                4
            },
            0x4E => {
                let v = self.read_hl(mmu);
                self.registers.set_c(v);
                8
            },
            0x4F => {
                let v = self.registers.a();
                self.registers.set_c(v);
                4
            },
            0x50 => {
                let v = self.registers.b();
                self.registers.set_d(v);
                4
            },
            0x51 => {
                let v = self.registers.c();
                self.registers.set_d(v);
                4
            },
            0x52 => {
                let v = self.registers.d();
                self.registers.set_d(v);
                4
            },
            0x53 => {
                let v = self.registers.e();
                self.registers.set_d(v);
                4
            },
            0x54 => {
                let v = self.registers.h();
                self.registers.set_d(v);
                4
            },
            0x55 => {
                let v = self.registers.l();
                self.registers.set_d(v);
                4
            },
            0x56 => {
                let v = self.read_hl(mmu);
                self.registers.set_d(v);
                8
            },
            0x57 => {
                let v = self.registers.a();
                self.registers.set_d(v);
                4
            },
            0x58 => {
                let v = self.registers.b();
                self.registers.set_e(v);
                4
            },
            0x59 => {
                let v = self.registers.c();
                self.registers.set_e(v);
                4
            },
            0x5A => {
                let v = self.registers.d();
                self.registers.set_e(v);
                4
            },
            0x5B => {
                let v = self.registers.e();
                self.registers.set_e(v);
                4
            },
            0x5C => {
                let v = self.registers.h();
                self.registers.set_e(v);
                4
            },
            0x5D => {
                let v = self.registers.l();
                self.registers.set_e(v);
                4
            },
            0x5E => {
                let v = self.read_hl(mmu);
                self.registers.set_e(v);
                8
            },
            0x5F => {
                let v = self.registers.a();
                self.registers.set_e(v);
                4
            },
            0x60 => {
                let v = self.registers.b();
                self.registers.set_h(v);
                4
            },
            0x61 => {
                let v = self.registers.c();
                self.registers.set_h(v);
                4
            },
            0x62 => {
                let v = self.registers.d();
                self.registers.set_h(v);
                4
            },
            0x63 => {
                let v = self.registers.e();
                self.registers.set_h(v);
                4
            },
            0x64 => {
                let v = self.registers.h();
                self.registers.set_h(v);
                4
            },
            0x65 => {
                let v = self.registers.l();
                self.registers.set_h(v);
                4
            },
            0x66 => {
                let v = self.read_hl(mmu);
                self.registers.set_h(v);
                8
            },
            0x67 => {
                let v = self.registers.a();
                self.registers.set_h(v);
                4
            },
            0x68 => {
                let v = self.registers.b();
                self.registers.set_l(v);
                4
            },
            0x69 => {
                let v = self.registers.c();
                self.registers.set_l(v);
                4
            },
            0x6A => {
                let v = self.registers.d();
                self.registers.set_l(v);
                4
            },
            0x6B => {
                let v = self.registers.e();
                self.registers.set_l(v);
                4
            },
            0x6C => {
                let v = self.registers.h();
                self.registers.set_l(v);
                4
            },
            0x6D => {
                let v = self.registers.l();
                self.registers.set_l(v);
                4
            },
            0x6E => {
                let v = self.read_hl(mmu);
                self.registers.set_l(v);
                8
            },
            0x6F => {
                let v = self.registers.a();
                self.registers.set_l(v);
                4
            },
            0x70 => {
                let v = self.registers.b();
                let ad = self.registers.hl();
                InstructionSet::ld_8bit_mem(mmu, ad, v);
                8
            },
            0x71 => {
                let v = self.registers.c();
                let ad = self.registers.hl();
                InstructionSet::ld_8bit_mem(mmu, ad, v);
                8
            },
            0x72 => {
                let v = self.registers.d();
                let ad = self.registers.hl();
                InstructionSet::ld_8bit_mem(mmu, ad, v);
                8
            },
            0x73 => {
                let v = self.registers.e();
                let ad = self.registers.hl();
                InstructionSet::ld_8bit_mem(mmu, ad, v);
                8
            },
            0x74 => {
                let v = self.registers.h();
                let ad = self.registers.hl();
                InstructionSet::ld_8bit_mem(mmu, ad, v);
                8
            },
            0x75 => {
                let v = self.registers.l();
                let ad = self.registers.hl();
                InstructionSet::ld_8bit_mem(mmu, ad, v);
                8
            },
            0x76 => {
                4
            },
            0x77 => {
                let v = self.registers.a();
                let ad = self.registers.hl();
                InstructionSet::ld_8bit_mem(mmu, ad, v);
                8
            },
            0x78 => {
                let v = self.registers.b();
                self.registers.set_a(v);
                4
            },
            0x79 => {
                let v = self.registers.c();
                self.registers.set_a(v);
                4
            },
            0x7A => {
                let v = self.registers.d();
                self.registers.set_a(v);
                4
            },
            0x7B => {
                let v = self.registers.e();
                self.registers.set_a(v);
                4
            },
            0x7C => {
                let v = self.registers.h();
                self.registers.set_a(v);
                4
            },
            0x7D => {
                let v = self.registers.l();
                self.registers.set_a(v);
                4
            },
            0x7E => {
                let v = self.read_hl(mmu);
                self.registers.set_a(v);
                8
            },
            0x7F => {
                let v = self.registers.a();
                self.registers.set_a(v);
                4
            },
            _ => 0,
        }
    }

    fn execute_alu(&mut self, mmu: &mut Mmu, opcode: u8, operand1: u8, operand2: u8) -> (r: u32)
        requires
            old(mmu).wf(),
            !spec_undefined_op(opcode),
            opcode != 0xCB,
            0x80 <= opcode && opcode < 0xC0,
        ensures
            final(mmu).wf(),
            final(mmu).spec_cartridge() == old(mmu).spec_cartridge(),
            final(self).serial_log@ == old(self).serial_log@,
            r == spec_step_cycles(opcode, old(self).registers),
            !spec_taken(opcode, old(self).registers) ==> final(self).registers.pc == old(
                self,
            ).registers.pc,
            (final(self).interrupts.ime, final(self).interrupts.ei_delay) == spec_ime_effect(
                old(self).interrupts.ime,
                old(self).interrupts.ei_delay,
                opcode,
            ),
            final(self).registers == spec_alu_effect(opcode, old(self).registers, old(mmu)@),
            final(mmu)@ == old(mmu)@,
            final(self).interrupts == old(self).interrupts,
    {
        match opcode {
            0x80 => {
                let acc = self.registers.a();
                let v = self.registers.b();
                InstructionSet::add(&mut self.registers, acc, v);
                4
            },
            0x81 => {
                let acc = self.registers.a();
                let v = self.registers.c();
                InstructionSet::add(&mut self.registers, acc, v);
                4
            },
            0x82 => {
                let acc = self.registers.a();
                let v = self.registers.d();
                InstructionSet::add(&mut self.registers, acc, v);
                4
            },
            0x83 => {
                let acc = self.registers.a();
                let v = self.registers.e();
                InstructionSet::add(&mut self.registers, acc, v);
                4
            },
            0x84 => {
                let acc = self.registers.a();
                let v = self.registers.h();
                InstructionSet::add(&mut self.registers, acc, v);
                4
            },
            0x85 => {
                let acc = self.registers.a();
                let v = self.registers.l();
                InstructionSet::add(&mut self.registers, acc, v);
                4
            },
            0x86 => {
                let acc = self.registers.a();
                let v = self.read_hl(mmu);
                InstructionSet::add(&mut self.registers, acc, v);
                8
            },
            0x87 => {
                let acc = self.registers.a();
                let v = self.registers.a();
                InstructionSet::add(&mut self.registers, acc, v);
                4
            },
            0x88 => {
                let acc = self.registers.a();
                let v = self.registers.b();
                InstructionSet::adc(&mut self.registers, acc, v);
                4
            },
            0x89 => {
                let acc = self.registers.a();
                let v = self.registers.c();
                InstructionSet::adc(&mut self.registers, acc, v);
                4
            },
            0x8A => {
                let acc = self.registers.a();
                let v = self.registers.d();
                InstructionSet::adc(&mut self.registers, acc, v);
                4
            },
            0x8B => {
                let acc = self.registers.a();
                let v = self.registers.e();
                InstructionSet::adc(&mut self.registers, acc, v);
                4
            },
            0x8C => {
                let acc = self.registers.a();
                let v = self.registers.h();
                InstructionSet::adc(&mut self.registers, acc, v);
                4
            },
            0x8D => {
                let acc = self.registers.a();
                let v = self.registers.l();
                InstructionSet::adc(&mut self.registers, acc, v);
                4
            },
            0x8E => {
                let acc = self.registers.a();
                let v = self.read_hl(mmu);
                InstructionSet::adc(&mut self.registers, acc, v);
                8
            },
            0x8F => {
                let acc = self.registers.a();
                let v = self.registers.a();
                InstructionSet::adc(&mut self.registers, acc, v);
                4
            },
            0x90 => {
                let acc = self.registers.a();
                let v = self.registers.b();
                InstructionSet::sub(&mut self.registers, acc, v);
                4
            },
            0x91 => {
                let acc = self.registers.a();
                let v = self.registers.c();
                InstructionSet::sub(&mut self.registers, acc, v);
                4
            },
            0x92 => {
                let acc = self.registers.a();
                let v = self.registers.d();
                InstructionSet::sub(&mut self.registers, acc, v);
                4
            },
            0x93 => {
                let acc = self.registers.a();
                let v = self.registers.e();
                InstructionSet::sub(&mut self.registers, acc, v);
                4
            },
            0x94 => {
                let acc = self.registers.a();
                let v = self.registers.h();
                InstructionSet::sub(&mut self.registers, acc, v);
                4
            },
            0x95 => {
                let acc = self.registers.a();
                let v = self.registers.l();
                InstructionSet::sub(&mut self.registers, acc, v);
                4
            },
            0x96 => {
                let acc = self.registers.a();
                let v = self.read_hl(mmu);
                InstructionSet::sub(&mut self.registers, acc, v);
                8
            },
            0x97 => {
                let acc = self.registers.a();
                let v = self.registers.a();
                InstructionSet::sub(&mut self.registers, acc, v);
                4
            },
            0x98 => {
                let acc = self.registers.a();
                let v = self.registers.b();
                InstructionSet::sbc(&mut self.registers, acc, v);
                4
            },
            0x99 => {
                let acc = self.registers.a();
                let v = self.registers.c();
                InstructionSet::sbc(&mut self.registers, acc, v);
                4
            },
            0x9A => {
                let acc = self.registers.a();
                let v = self.registers.d();
                InstructionSet::sbc(&mut self.registers, acc, v);
                4
            },
            0x9B => {
                let acc = self.registers.a();
                let v = self.registers.e();
                InstructionSet::sbc(&mut self.registers, acc, v);
                4
            },
            0x9C => {
                let acc = self.registers.a();
                let v = self.registers.h();
                InstructionSet::sbc(&mut self.registers, acc, v);
                4
            },
            0x9D => {
                let acc = self.registers.a();
                let v = self.registers.l();
                InstructionSet::sbc(&mut self.registers, acc, v);
                4
            },
            0x9E => {
                let acc = self.registers.a();
                let v = self.read_hl(mmu);
                InstructionSet::sbc(&mut self.registers, acc, v);
                8
            },
            0x9F => {
                let acc = self.registers.a();
                let v = self.registers.a();
                InstructionSet::sbc(&mut self.registers, acc, v);
                4
            },
            0xA0 => {
                let acc = self.registers.a();
                let v = self.registers.b();
                InstructionSet::and(&mut self.registers, acc, v);
                4
            },
            0xA1 => {
                let acc = self.registers.a();
                let v = self.registers.c();
                InstructionSet::and(&mut self.registers, acc, v);
                4
            },
            0xA2 => {
                let acc = self.registers.a();
                let v = self.registers.d();
                InstructionSet::and(&mut self.registers, acc, v);
                4
            },
            0xA3 => {
                let acc = self.registers.a();
                let v = self.registers.e();
                InstructionSet::and(&mut self.registers, acc, v);
                4
            },
            0xA4 => {
                let acc = self.registers.a();
                let v = self.registers.h();
                InstructionSet::and(&mut self.registers, acc, v);
                4
            },
            0xA5 => {
                let acc = self.registers.a();
                let v = self.registers.l();
                InstructionSet::and(&mut self.registers, acc, v);
                4
            },
            0xA6 => {
                let acc = self.registers.a();
                let v = self.read_hl(mmu);
                InstructionSet::and(&mut self.registers, acc, v);
                8
            },
            0xA7 => {
                let acc = self.registers.a();
                let v = self.registers.a();
                InstructionSet::and(&mut self.registers, acc, v);
                4
            },
            0xA8 => {
                let acc = self.registers.a();
                let v = self.registers.b();
                InstructionSet::xor(&mut self.registers, acc, v);
                4
            },
            0xA9 => {
                let acc = self.registers.a();
                let v = self.registers.c();
                InstructionSet::xor(&mut self.registers, acc, v);
                4
            },
            0xAA => {
                let acc = self.registers.a();
                let v = self.registers.d();
                InstructionSet::xor(&mut self.registers, acc, v);
                4
            },
            0xAB => {
                let acc = self.registers.a();
                let v = self.registers.e();
                InstructionSet::xor(&mut self.registers, acc, v);
                4
            },
            0xAC => {
                let acc = self.registers.a();
                let v = self.registers.h();
                InstructionSet::xor(&mut self.registers, acc, v);
                4
            },
            0xAD => {
                let acc = self.registers.a();
                let v = self.registers.l();
                InstructionSet::xor(&mut self.registers, acc, v);
                4
            },
            0xAE => {
                let acc = self.registers.a();
                let v = self.read_hl(mmu);
                InstructionSet::xor(&mut self.registers, acc, v);
                8
            },
            0xAF => {
                let acc = self.registers.a();
                let v = self.registers.a();
                InstructionSet::xor(&mut self.registers, acc, v);
                4
            },
            0xB0 => {
                let acc = self.registers.a();
                let v = self.registers.b();
                InstructionSet::or(&mut self.registers, acc, v);
                4
            },
            0xB1 => {
                let acc = self.registers.a();
                let v = self.registers.c();
                InstructionSet::or(&mut self.registers, acc, v);
                4
            },
            0xB2 => {
                let acc = self.registers.a();
                let v = self.registers.d();
                InstructionSet::or(&mut self.registers, acc, v);
                4
            },
            0xB3 => {
                let acc = self.registers.a();
                let v = self.registers.e();
                InstructionSet::or(&mut self.registers, acc, v);
                4
            },
            0xB4 => {
                let acc = self.registers.a();
                let v = self.registers.h();
                InstructionSet::or(&mut self.registers, acc, v);
                4
            },
            0xB5 => {
                let acc = self.registers.a();
                let v = self.registers.l();
                InstructionSet::or(&mut self.registers, acc, v);
                4
            },
            0xB6 => {
                let acc = self.registers.a();
                let v = self.read_hl(mmu);
                InstructionSet::or(&mut self.registers, acc, v);
                8
            },
            0xB7 => {
                let acc = self.registers.a();
                let v = self.registers.a();
                InstructionSet::or(&mut self.registers, acc, v);
                4
            },
            0xB8 => {
                let acc = self.registers.a();
                let v = self.registers.b();
                InstructionSet::cp(&mut self.registers, acc, v);
                4
            },
            0xB9 => {
                let acc = self.registers.a();
                let v = self.registers.c();
                InstructionSet::cp(&mut self.registers, acc, v);
                4
            },
            0xBA => {
                let acc = self.registers.a();
                let v = self.registers.d();
                InstructionSet::cp(&mut self.registers, acc, v);
                4
            },
            0xBB => {
                let acc = self.registers.a();
                let v = self.registers.e();
                InstructionSet::cp(&mut self.registers, acc, v);
                4
            },
            0xBC => {
                let acc = self.registers.a();
                let v = self.registers.h();
                InstructionSet::cp(&mut self.registers, acc, v);
                4
            },
            0xBD => {
                let acc = self.registers.a();
                let v = self.registers.l();
                InstructionSet::cp(&mut self.registers, acc, v);
                4
            },
            0xBE => {
                let acc = self.registers.a();
                let v = self.read_hl(mmu);
                InstructionSet::cp(&mut self.registers, acc, v);
                8
            },
            0xBF => {
                let acc = self.registers.a();
                let v = self.registers.a();
                InstructionSet::cp(&mut self.registers, acc, v);
                4
            },
            _ => 0,
        }
    }

    #[verifier::rlimit(100)]
    #[verifier::spinoff_prover]
    fn execute_hi(&mut self, mmu: &mut Mmu, opcode: u8, operand1: u8, operand2: u8) -> (r: u32)
        requires
            old(mmu).wf(),
            !spec_undefined_op(opcode),
            opcode != 0xCB,
            0xC0 <= opcode,
        ensures
            final(mmu).wf(),
            final(mmu).spec_cartridge() == old(mmu).spec_cartridge(),
            final(self).serial_log@ == old(self).serial_log@,
            r == spec_step_cycles(opcode, old(self).registers),
            !spec_taken(opcode, old(self).registers) ==> final(self).registers.pc == old(
                self,
            ).registers.pc,
            (final(self).interrupts.ime, final(self).interrupts.ei_delay) == spec_ime_effect(
                old(self).interrupts.ime,
                old(self).interrupts.ei_delay,
                opcode,
            ),
            (final(self).registers, final(mmu)@) == spec_hi_effect(
                opcode,
                old(self).registers,
                old(mmu)@,
                operand1,
                operand2,
            ),
    {
        match opcode {
            0xC0 => {
                if !self.registers.zero_flag() {
                    InstructionSet::ret(mmu, &mut self.registers);
                    20
                } else {
                    8
                }
            },
            0xC8 => {
                if self.registers.zero_flag() {
                    InstructionSet::ret(mmu, &mut self.registers);
                    20
                } else {
                    8
                }
            },
            0xD0 => {
                if !self.registers.carry_flag() {
                    InstructionSet::ret(mmu, &mut self.registers);
                    20
                } else {
                    8
                }
            },
            0xD8 => {
                if self.registers.carry_flag() {
                    InstructionSet::ret(mmu, &mut self.registers);
                    20
                } else {
                    8
                }
            },
            0xC1 => {
                InstructionSet::pop(mmu, &mut self.registers, Register::BC);
                12
            },
            0xD1 => {
                InstructionSet::pop(mmu, &mut self.registers, Register::DE);
                12
            },
            0xE1 => {
                InstructionSet::pop(mmu, &mut self.registers, Register::HL);
                12
            },
            0xF1 => {
                InstructionSet::pop(mmu, &mut self.registers, Register::AF);
                12
            },
            0xC2 => {
                if !self.registers.zero_flag() {
                    InstructionSet::jmp(&mut self.registers, operand1, operand2);
                    16
                } else {
                    12
                }
            },
            0xCA => {
                if self.registers.zero_flag() {
                    InstructionSet::jmp(&mut self.registers, operand1, operand2);
                    16
                } else {
                    12
                }
            },
            0xD2 => {
                if !self.registers.carry_flag() {
                    InstructionSet::jmp(&mut self.registers, operand1, operand2);
                    16
                } else {
                    12
                }
            },
            0xDA => {
                if self.registers.carry_flag() {
                    InstructionSet::jmp(&mut self.registers, operand1, operand2);
                    16
                } else {
                    12
                }
            },
            0xC3 => {
                InstructionSet::jmp(&mut self.registers, operand1, operand2);
                16
            },
            0xC4 => {
                if !self.registers.zero_flag() {
                    InstructionSet::call(mmu, &mut self.registers, operand1, operand2);
                    24
                } else {
                    12
                }
            },
            0xCC => {
                if self.registers.zero_flag() {
                    InstructionSet::call(mmu, &mut self.registers, operand1, operand2);
                    24
                } else {
                    12
                }
            },
            0xD4 => {
                if !self.registers.carry_flag() {
                    InstructionSet::call(mmu, &mut self.registers, operand1, operand2);
                    24
                } else {
                    12
                }
            },
            0xDC => {
                if self.registers.carry_flag() {
                    InstructionSet::call(mmu, &mut self.registers, operand1, operand2);
                    24
                } else {
                    12
                }
            },
            0xC5 => {
                let v = self.registers.bc();
                InstructionSet::push(mmu, &mut self.registers, v);
                16
            },
            0xD5 => {
                let v = self.registers.de();
                InstructionSet::push(mmu, &mut self.registers, v);
                16
            },
            0xE5 => {
                let v = self.registers.hl();
                InstructionSet::push(mmu, &mut self.registers, v);
                16
            },
            0xF5 => {
                let v = self.registers.af();
                InstructionSet::push(mmu, &mut self.registers, v);
                16
            },
            0xC6 => {
                let acc = self.registers.a();
                InstructionSet::add(&mut self.registers, acc, operand1);
                8
            },
            0xCE => {
                let acc = self.registers.a();
                InstructionSet::adc(&mut self.registers, acc, operand1);
                8
            },
            0xD6 => {
                let acc = self.registers.a();
                InstructionSet::sub(&mut self.registers, acc, operand1);
                8
            },
            0xDE => {
                let acc = self.registers.a();
                InstructionSet::sbc(&mut self.registers, acc, operand1);
                8
            },
            0xE6 => {
                let acc = self.registers.a();
                InstructionSet::and(&mut self.registers, acc, operand1);
                8
            },
            0xEE => {
                let acc = self.registers.a();
                InstructionSet::xor(&mut self.registers, acc, operand1);
                8
            },
            0xF6 => {
                let acc = self.registers.a();
                InstructionSet::or(&mut self.registers, acc, operand1);
                8
            },
            0xFE => {
                let acc = self.registers.a();
                InstructionSet::cp(&mut self.registers, acc, operand1);
                8
            },
            0xC7 => {
                InstructionSet::call(mmu, &mut self.registers, 0x00, 0);
                16
            },
            0xCF => {
                InstructionSet::call(mmu, &mut self.registers, 0x08, 0);
                16
            },
            0xD7 => {
                InstructionSet::call(mmu, &mut self.registers, 0x10, 0);
                16
            },
            0xDF => {
                InstructionSet::call(mmu, &mut self.registers, 0x18, 0);
                16
            },
            0xE7 => {
                InstructionSet::call(mmu, &mut self.registers, 0x20, 0);
                16
            },
            0xEF => {
                InstructionSet::call(mmu, &mut self.registers, 0x28, 0);
                16
            },
            0xF7 => {
                InstructionSet::call(mmu, &mut self.registers, 0x30, 0);
                16
            },
            0xFF => {
                InstructionSet::call(mmu, &mut self.registers, 0x38, 0);
                16
            },
            0xC9 => {
                InstructionSet::ret(mmu, &mut self.registers);
                16
            },
            0xD9 => {
                InstructionSet::ret(mmu, &mut self.registers);
                self.interrupts.set_ime(true);
                16
            },
            0xCD => {
                InstructionSet::call(mmu, &mut self.registers, operand1, operand2);
                24
            },
            0xE0 => {
                let ad: u16 = 0xFF00u16 | (operand1 as u16);
                let v = self.registers.a();
                InstructionSet::ld_8bit_mem(mmu, ad, v);
                12
            },
            0xF0 => {
                let ad: u16 = 0xFF00u16 | (operand1 as u16);
                let v = Self::bus_read(mmu, ad);
                self.registers.set_a(v);
                12
            },
            0xE2 => {
                let ad: u16 = 0xFF00u16 | (self.registers.c() as u16);
                let v = self.registers.a();
                InstructionSet::ld_8bit_mem(mmu, ad, v);
                8
            },
            0xF2 => {
                let ad: u16 = 0xFF00u16 | (self.registers.c() as u16);
                let v = Self::bus_read(mmu, ad);
                self.registers.set_a(v);
                8
            },
            0xE8 => {
                InstructionSet::add_8bit_signed(&mut self.registers, Register::SP, operand1);
                16
            },
            0xF8 => {
                InstructionSet::add_8bit_signed(&mut self.registers, Register::HL, operand1);
                12
            },
            0xE9 => {
                let hl = self.registers.hl();
                InstructionSet::jp(&mut self.registers, hl);
                4
            },
            0xF9 => {
                let hl = self.registers.hl();
                self.registers.set_sp(hl);
                8
            },
            0xEA => {
                let ad = crate::bits::concatenate_bytes(operand1, operand2);
                let v = self.registers.a();
                InstructionSet::ld_8bit_mem(mmu, ad, v);
                16
            },
            0xFA => {
                let ad = crate::bits::concatenate_bytes(operand1, operand2);
                let v = Self::bus_read(mmu, ad);
                self.registers.set_a(v);
                16
            },
            0xF3 => {
                self.interrupts.set_ime(false);
                self.interrupts.ei_delay = 0;
                4
            },
            0xFB => {
                if self.interrupts.ei_delay == 0 {
                    self.interrupts.ei_delay = 2;
                }
                4
            },
            _ => 0,
        }
    }

    /// One CB-prefixed operation: rotates and shifts, BIT, RES, SET, on a
    /// register or on (HL) through the bus.
    fn execute_cb(&mut self, mmu: &mut Mmu, opcode: u8) -> (r: u32)
        requires
            old(mmu).wf(),
        ensures
            final(mmu).wf(),
            final(mmu).spec_cartridge() == old(mmu).spec_cartridge(),
            final(self).serial_log@ == old(self).serial_log@,
            final(self).interrupts == old(self).interrupts,
            final(self).registers.pc == old(self).registers.pc,
            r == spec_cb_cycles(opcode),
            (final(self).registers, final(mmu)@) == spec_cb_effect(
                opcode,
                old(self).registers,
                old(mmu)@,
            ),
    {
        proof {
            lemma_cb_fields(opcode);
        }
        let target: u8 = opcode & 7;
        let group: u8 = opcode >> 6;
        let index: u8 = (opcode >> 3) & 7;
        let value: u8 = if target == 6 {
            self.read_hl(mmu)
        } else {
            self.registers.get_8bit_register(Self::reg8_of(target))
        };
        if group == 0 {
            let rc: (u8, bool) = if index == 0 {
                InstructionSet::rlc(value)
            } else if index == 1 {
                InstructionSet::rrc(value)
            } else if index == 2 {
                InstructionSet::rl(value, self.registers.carry_flag())
            } else if index == 3 {
                InstructionSet::rr(value, self.registers.carry_flag())
            } else if index == 4 {
                InstructionSet::sla(value)
            } else if index == 5 {
                InstructionSet::sra(value)
            } else if index == 6 {
                InstructionSet::swap(value)
            } else {
                InstructionSet::srl(value)
            };
            self.write_cb_target(mmu, target, rc.0);
            self.registers.set_zero_flag(rc.0 == 0);
            self.registers.set_subtraction_flag(false);
            self.registers.set_half_carry_flag(false);
            self.registers.set_carry_flag(rc.1);
        } else if group == 1 {
            InstructionSet::bit(&mut self.registers, value, index);
        } else if group == 2 {
            let mut cell: u8 = value;
            InstructionSet::res(&mut cell, index);
            self.write_cb_target(mmu, target, cell);
        } else {
            let mut cell: u8 = value;
            InstructionSet::set(&mut cell, index);
            self.write_cb_target(mmu, target, cell);
        }
        InstructionSet::cb_instruction_cycles(opcode)
    }

    /// Stores a CB result back into its register or into (HL).
    fn write_cb_target(&mut self, mmu: &mut Mmu, target: u8, value: u8)
        requires
            old(mmu).wf(),
            target < 8,
        ensures
            final(mmu).wf(),
            final(mmu).spec_cartridge() == old(mmu).spec_cartridge(),
            final(self).serial_log@ == old(self).serial_log@,
            final(self).interrupts == old(self).interrupts,
            (final(self).registers, final(mmu)@) == spec_cb_store(
                target,
                old(self).registers,
                old(mmu)@,
                value,
            ),
    {
        if target == 6 {
            let ad = self.registers.hl();
            InstructionSet::ld_8bit_mem(mmu, ad, value);
        } else {
            self.registers.set_8bit_register(Self::reg8_of(target), value);
        }
    }

    /// The register an index in a CB or LD slot names (6, the (HL) slot,
    /// is excluded).
    fn reg8_of(index: u8) -> (r: Register)
        requires
            index < 8,
            index != 6,
        ensures
            Registers::spec_is_8bit(r),
            r == spec_slot_reg(index),
    {
        if index == 0 {
            Register::B
        } else if index == 1 {
            Register::C
        } else if index == 2 {
            Register::D
        } else if index == 3 {
            Register::E
        } else if index == 4 {
            Register::H
        } else if index == 5 {
            Register::L
        } else {
            Register::A
        }
    }

    /// Fetches, decodes and executes one opcode, without the interrupt
    /// dispatch or the serial poll.
    ///
    /// The contract pins, against the pre-state: which opcodes report
    /// `UndefinedOpcode`; the exact T-cycle cost, conditional branches
    /// paying their not-taken price exactly when their condition fails;
    /// that PC advances by exactly the instruction's byte length unless a
    /// control transfer is taken; and the IME/EI-delay transition.
    pub fn run_next_opcode(&mut self, mmu: &mut Mmu) -> (r: Result<u32, EmuError>)
        requires
            old(mmu).wf(),
        ensures
            final(mmu).wf(),
            final(mmu).spec_cartridge() == old(mmu).spec_cartridge(),
            final(self).serial_log@ == old(self).serial_log@,
            ({
                let pc0 = old(self).registers.pc;
                let op = spec_read_of(old(mmu)@, pc0);
                &&& (r is Err <==> spec_undefined_op(op))
                &&& (spec_undefined_op(op) ==> {
                    &&& r == Err::<u32, EmuError>(
                        EmuError::UndefinedOpcode { pc: pc0, opcode: op, cb: false },
                    )
                    &&& final(mmu)@ == old(mmu)@
                    &&& final(self).interrupts == old(self).interrupts
                })
                &&& (!spec_undefined_op(op) && op != 0xCB ==> {
                    let fetched = Registers {
                        pc: add16(pc0, spec_base_len(op)),
                        ..old(self).registers
                    };
                    let o1 = if spec_base_len(op) >= 2 {
                        spec_read_of(old(mmu)@, add16(pc0, 1))
                    } else {
                        0u8
                    };
                    let o2 = if spec_base_len(op) >= 3 {
                        spec_read_of(old(mmu)@, add16(pc0, 2))
                    } else {
                        0u8
                    };
                    &&& r == Ok::<u32, EmuError>(spec_step_cycles(op, old(self).registers))
                    &&& (final(self).registers, final(mmu)@) == spec_base_effect(
                        op,
                        fetched,
                        old(mmu)@,
                        o1,
                        o2,
                    )
                    &&& (!spec_taken(op, old(self).registers) ==> final(self).registers.pc
                        == add16(pc0, spec_base_len(op)))
                    &&& (final(self).interrupts.ime, final(self).interrupts.ei_delay)
                        == spec_ime_after(
                        old(self).interrupts.ime,
                        old(self).interrupts.ei_delay,
                        op,
                    )
                })
                &&& (op == 0xCB ==> {
                    let op2 = spec_read_of(old(mmu)@, add16(pc0, 1));
                    let fetched = Registers { pc: add16(pc0, 2), ..old(self).registers };
                    &&& r == Ok::<u32, EmuError>(spec_cb_cycles(op2))
                    &&& final(self).registers.pc == add16(pc0, 2)
                    &&& (final(self).registers, final(mmu)@) == spec_cb_effect(
                        op2,
                        fetched,
                        old(mmu)@,
                    )
                    &&& (final(self).interrupts.ime, final(self).interrupts.ei_delay)
                        == spec_ime_after(
                        old(self).interrupts.ime,
                        old(self).interrupts.ei_delay,
                        op,
                    )
                })
            }),
    {
        let pc0 = self.registers.pc();
        let opcode = self.read_at_program_counter(mmu);
        if InstructionSet::is_undefined(opcode) {
            return Err(EmuError::UndefinedOpcode { pc: pc0, opcode, cb: false });
        }
        proof {
            crate::bits::lemma_add16_chain(pc0);
        }
        if opcode == 0xCB {
            let second = self.read_at_program_counter(mmu);
            let cycles = self.execute_cb(mmu, second);
            self.commit_ei();
            return Ok(cycles);
        }
        let length = InstructionSet::instruction_length(opcode);
        let operand1: u8 = if length >= 2 {
            self.read_at_program_counter(mmu)
        } else {
            0
        };
        let operand2: u8 = if length >= 3 {
            self.read_at_program_counter(mmu)
        } else {
            0
        };
        let cycles: u32 = if opcode < 0x40 {
            self.execute_low(mmu, opcode, operand1, operand2)
        } else if opcode < 0x80 {
            self.execute_ld(mmu, opcode, operand1, operand2)
        } else if opcode < 0xC0 {
            self.execute_alu(mmu, opcode, operand1, operand2)
        } else {
            self.execute_hi(mmu, opcode, operand1, operand2)
        };
        self.commit_ei();
        Ok(cycles)
    }

    /// One full CPU step: the interrupt dispatch first (consuming the
    /// whole step when it fires), otherwise one opcode, then the serial
    /// poll.
    pub fn emulation_loop(&mut self, mmu: &mut Mmu) -> (r: Result<u32, EmuError>)
        requires
            old(mmu).wf(),
        ensures
            final(mmu).wf(),
            final(mmu).spec_cartridge() == old(mmu).spec_cartridge(),
            r is Err <==> spec_cpu_step_err(*old(self), old(mmu)@),
            r is Err ==> {
                &&& final(mmu)@ == old(mmu)@
                &&& final(self).serial_log@ == old(self).serial_log@
                &&& final(self).interrupts == old(self).interrupts
            },
            r is Ok ==> {
                let next = spec_cpu_step_ok(*old(self), old(mmu)@);
                &&& r == Ok::<u32, EmuError>(next.5)
                &&& final(self).registers == next.0
                &&& final(self).interrupts.ime == next.1
                &&& final(self).interrupts.ei_delay == next.2
                &&& final(mmu)@ == next.3
                &&& final(self).serial_log@ == next.4
            },
            ({
                let p = spec_pending(old(mmu)@);
                let dispatched = p != 0 && old(self).interrupts.ime;
                let pc0 = old(self).registers.pc;
                let op = spec_read_of(old(mmu)@, pc0);
                &&& (dispatched ==> {
                    let i = spec_lowest_bit(p);
                    let cleared = (old(mmu)@[0xFF0F] as u8) & !((1u8 << i) as u8);
                    let m2 = crate::instructions::spec_push16(
                        old(mmu)@.update(0xFF0F, cleared),
                        old(self).registers.sp,
                        pc0,
                    );
                    &&& r == Ok::<u32, EmuError>(20)
                    &&& final(self).registers == (Registers {
                        pc: spec_vector(i),
                        sp: crate::bits::sub16(old(self).registers.sp, 2),
                        ..old(self).registers
                    })
                    &&& final(self).interrupts.ime == false
                    &&& final(mmu)@ == spec_serial_poll_mem(m2)
                    &&& final(self).serial_log@ == spec_serial_poll_log(
                        m2,
                        old(self).serial_log@,
                    )
                })
                &&& (!dispatched ==> {
                    &&& (r is Err <==> spec_undefined_op(op))
                    &&& (spec_undefined_op(op) ==> {
                        &&& final(mmu)@ == old(mmu)@
                        &&& final(self).serial_log@ == old(self).serial_log@
                    })
                    &&& (!spec_undefined_op(op) && op != 0xCB ==> {
                        let fetched = Registers {
                            pc: add16(pc0, spec_base_len(op)),
                            ..old(self).registers
                        };
                        let o1 = if spec_base_len(op) >= 2 {
                            spec_read_of(old(mmu)@, add16(pc0, 1))
                        } else {
                            0u8
                        };
                        let o2 = if spec_base_len(op) >= 3 {
                            spec_read_of(old(mmu)@, add16(pc0, 2))
                        } else {
                            0u8
                        };
                        let eff = spec_base_effect(op, fetched, old(mmu)@, o1, o2);
                        &&& r == Ok::<u32, EmuError>(spec_step_cycles(op, old(self).registers))
                        &&& final(self).registers == eff.0
                        &&& final(mmu)@ == spec_serial_poll_mem(eff.1)
                        &&& final(self).serial_log@ == spec_serial_poll_log(
                            eff.1,
                            old(self).serial_log@,
                        )
                        &&& (final(self).interrupts.ime, final(self).interrupts.ei_delay)
                            == spec_ime_after(
                            old(self).interrupts.ime,
                            old(self).interrupts.ei_delay,
                            op,
                        )
                    })
                    &&& (op == 0xCB ==> {
                        let op2 = spec_read_of(old(mmu)@, add16(pc0, 1));
                        let fetched = Registers { pc: add16(pc0, 2), ..old(self).registers };
                        let eff = spec_cb_effect(op2, fetched, old(mmu)@);
                        &&& r == Ok::<u32, EmuError>(spec_cb_cycles(op2))
                        &&& final(self).registers == eff.0
                        &&& final(mmu)@ == spec_serial_poll_mem(eff.1)
                        &&& final(self).serial_log@ == spec_serial_poll_log(
                            eff.1,
                            old(self).serial_log@,
                        )
                    })
                })
            }),
    {
        let dispatch = self.interrupts.handle_interrupts(&mut self.registers, mmu);
        if dispatch.0 && dispatch.1 > 0 {
            self.poll_serial(mmu);
            return Ok(dispatch.1);
        }
        let cycles = self.run_next_opcode(mmu)?;
        self.poll_serial(mmu);
        Ok(cycles)
    }

    /// Walks the whole address space in order and disassembles it: the
    /// listing starts at address 0, each next entry sits exactly one
    /// instruction length after the previous one (the cartridge header
    /// range is skipped to 0x0150), the walk ends only at the top of
    /// memory, and every entry carries the stored opcode, the table's
    /// mnemonic, and the operand bytes its length asks for.
    pub fn dump_instructions(&self, mmu: &Mmu, current_address: usize) -> (r: Vec<
        DebugInstruction,
    >)
        requires
            mmu.wf(),
        ensures
            r@.len() > 0,
            r@[0].address == 0,
            forall|i: int|
                0 <= i < r@.len() ==> {
                    let e = #[trigger] r@[i];
                    &&& e.address < 0x10000
                    &&& !(0x104 <= e.address < 0x150)
                    &&& e.opcode == mmu@[e.address as int]
                    &&& e.name@ == spec_opcode_name(e.opcode)
                    &&& e.first_operand == (if spec_base_len(e.opcode) >= 2 && e.address + 1
                        < 0x10000 {
                        Option::Some(mmu@[e.address + 1])
                    } else {
                        Option::None
                    })
                    &&& e.second_operand == (if spec_base_len(e.opcode) >= 3 && e.address + 2
                        < 0x10000 {
                        Option::Some(mmu@[e.address + 2])
                    } else {
                        Option::None
                    })
                },
            forall|i: int|
                0 <= i < r@.len() - 1 ==> (#[trigger] r@[i + 1]).address == spec_walk_skip(
                    r@[i].address + spec_base_len(r@[i].opcode),
                ),
            r@[r@.len() - 1].address + spec_base_len(r@[r@.len() - 1].opcode) >= 0x10000,
    {
        let _ = current_address;
        let memory = mmu.to_vec();
        let mut instructions: Vec<DebugInstruction> = Vec::new();
        let mut pc: usize = 0;
        while pc < 0x10000
            invariant
                mmu.wf(),
                memory@.len() == 0x10000,
                forall|i: int| 0 <= i < 0x10000 ==> memory@[i] == mmu@[i],
                pc <= 0x10000,
                instructions@.len() == 0 ==> pc == 0,
                instructions@.len() > 0 ==> instructions@[0].address == 0,
                instructions@.len() > 0 ==> {
                    let last = instructions@[instructions@.len() - 1];
                    let next = last.address + spec_base_len(last.opcode);
                    ||| pc == next
                    ||| (pc == 0x150 && 0x104 <= next < 0x150)
                    ||| (pc == 0x10000 && next > 0x10000)
                },
                forall|i: int|
                    0 <= i < instructions@.len() ==> {
                        let e = #[trigger] instructions@[i];
                        &&& e.address < 0x10000
                        &&& !(0x104 <= e.address < 0x150)
                        &&& e.opcode == mmu@[e.address as int]
                        &&& e.name@ == spec_opcode_name(e.opcode)
                        &&& e.first_operand == (if spec_base_len(e.opcode) >= 2 && e.address + 1
                            < 0x10000 {
                            Option::Some(mmu@[e.address + 1])
                        } else {
                            Option::None
                        })
                        &&& e.second_operand == (if spec_base_len(e.opcode) >= 3 && e.address + 2
                            < 0x10000 {
                            Option::Some(mmu@[e.address + 2])
                        } else {
                            Option::None
                        })
                    },
                forall|i: int|
                    0 <= i < instructions@.len() - 1 ==> (#[trigger] instructions@[i + 1]).address
                        == spec_walk_skip(
                        instructions@[i].address + spec_base_len(instructions@[i].opcode),
                    ),
            decreases 0x10000 - pc,
        {
            if pc >= 0x104 && pc < 0x150 {
                pc = 0x150;
                continue ;
            }
            let address = pc;
            let opcode = memory[address];
            let instruction = self.instruction_set.fetch_instruction(opcode);
            pc = pc + 1;
            let mut first_operand: Option<u8> = Option::None;
            let mut second_operand: Option<u8> = Option::None;
            if instruction.length >= 2 && pc < 0x10000 {
                first_operand = Option::Some(memory[pc]);
                pc = pc + 1;
            }
            if instruction.length >= 3 && pc < 0x10000 {
                second_operand = Option::Some(memory[pc]);
                pc = pc + 1;
            }
            instructions.push(
                DebugInstruction {
                    address,
                    opcode,
                    first_operand,
                    second_operand,
                    name: instruction.name,
                },
            );
        }
        instructions
    }

}

} // verus!
