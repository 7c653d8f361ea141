//! The instruction tables: per-opcode metadata (mnemonic, byte length,
//! base T-cycle count, operand arity) for the base set and the CB-prefixed
//! set, together with the load, jump, call and stack primitives that the
//! CPU's dispatcher builds every opcode effect from. Conditional branches
//! store their taken cycle count; the not-taken count has its own table.

use vstd::prelude::*;

use crate::bits::{add16, spec_concat, sub16};
use crate::errors::EmuError;
use crate::mmu::{spec_mem_store, spec_read_of, Mmu};
use crate::registers::{Register, Registers};

verus! {

/// Operand arity of a table entry. `Undefined` marks a table hole;
/// `Prefix` marks the CB prefix byte itself.
#[derive(Debug, Copy, Clone, PartialEq, Eq, Structural)]
pub enum Operation {
    Undefined,
    Prefix,
    Nullary,
    Unary,
    Binary,
}

/// One decoded table entry.
pub struct Instruction {
    pub name: String,
    pub opcode: u8,
    pub length: usize,
    pub cycles: usize,
    pub operation: Operation,
}

/// One disassembled instruction of a memory walk.
pub struct DebugInstruction {
    pub address: usize,
    pub opcode: u8,
    pub first_operand: Option<u8>,
    pub second_operand: Option<u8>,
    pub name: String,
}

/// The two 256-entry tables. The metadata is functional, so the set
/// itself carries no state.
pub struct InstructionSet {}

/// The 11 table holes of the base set.
pub open spec fn spec_undefined_op(op: u8) -> bool {
    match op {
        0xD3 | 0xDB | 0xDD | 0xE3 | 0xE4 | 0xEB | 0xEC | 0xED | 0xF4 | 0xFC | 0xFD => true,
        _ => false,
    }
}

/// Byte length of a base-table instruction (the CB prefix counts as a
/// two-byte instruction; undefined entries read as one byte).
pub open spec fn spec_base_len(op: u8) -> u16 {
    match op {
        0x06 | 0x0E | 0x10 | 0x16 | 0x18 | 0x1E | 0x20 | 0x26 | 0x28 | 0x2E | 0x30 | 0x36 | 0x38 | 0x3E | 0xC6 | 0xCB | 0xCE | 0xD6 | 0xDE | 0xE0 | 0xE6 | 0xE8 | 0xEE | 0xF0 | 0xF6 | 0xF8 | 0xFE => 2,
        0x01 | 0x08 | 0x11 | 0x21 | 0x31 | 0xC2 | 0xC3 | 0xC4 | 0xCA | 0xCC | 0xCD | 0xD2 | 0xD4 | 0xDA | 0xDC | 0xEA | 0xFA => 3,
        _ => 1,
    }
}

/// Base T-cycle count of a base-table instruction; for conditional
/// branches this is the taken count. Undefined entries count zero.
pub open spec fn spec_base_cycles(op: u8) -> u32 {
    if spec_undefined_op(op) {
        0
    } else {
        match op {
        0x02 | 0x03 | 0x06 | 0x09 | 0x0A | 0x0B | 0x0E | 0x12 | 0x13 | 0x16 | 0x19 | 0x1A | 0x1B | 0x1E | 0x22 | 0x23 | 0x26 | 0x29 | 0x2A | 0x2B | 0x2E | 0x32 | 0x33 | 0x39 | 0x3A | 0x3B | 0x3E | 0x46 | 0x4E | 0x56 | 0x5E | 0x66 | 0x6E | 0x70 | 0x71 | 0x72 | 0x73 | 0x74 | 0x75 | 0x77 | 0x7E | 0x86 | 0x8E | 0x96 | 0x9E | 0xA6 | 0xAE | 0xB6 | 0xBE | 0xC6 | 0xCE | 0xD6 | 0xDE | 0xE2 | 0xE6 | 0xEE | 0xF2 | 0xF6 | 0xF9 | 0xFE => 8,
        0x01 | 0x11 | 0x18 | 0x20 | 0x21 | 0x28 | 0x30 | 0x31 | 0x34 | 0x35 | 0x36 | 0x38 | 0xC1 | 0xD1 | 0xE0 | 0xE1 | 0xF0 | 0xF1 | 0xF8 => 12,
        0xC2 | 0xC3 | 0xC5 | 0xC7 | 0xC9 | 0xCA | 0xCF | 0xD2 | 0xD5 | 0xD7 | 0xD9 | 0xDA | 0xDF | 0xE5 | 0xE7 | 0xE8 | 0xEA | 0xEF | 0xF5 | 0xF7 | 0xFA | 0xFF => 16,
        0x08 | 0xC0 | 0xC8 | 0xD0 | 0xD8 => 20,
        0xC4 | 0xCC | 0xCD | 0xD4 | 0xDC => 24,
        _ => 4,
        }
    }
}

/// T-cycle count when a conditional branch is not taken (equal to the
/// base count for everything else).
pub open spec fn spec_base_cycles_not_taken(op: u8) -> u32 {
    if spec_undefined_op(op) {
        0
    } else {
        match op {
        0x02 | 0x03 | 0x06 | 0x09 | 0x0A | 0x0B | 0x0E | 0x12 | 0x13 | 0x16 | 0x19 | 0x1A | 0x1B | 0x1E | 0x20 | 0x22 | 0x23 | 0x26 | 0x28 | 0x29 | 0x2A | 0x2B | 0x2E | 0x30 | 0x32 | 0x33 | 0x38 | 0x39 | 0x3A | 0x3B | 0x3E | 0x46 | 0x4E | 0x56 | 0x5E | 0x66 | 0x6E | 0x70 | 0x71 | 0x72 | 0x73 | 0x74 | 0x75 | 0x77 | 0x7E | 0x86 | 0x8E | 0x96 | 0x9E | 0xA6 | 0xAE | 0xB6 | 0xBE | 0xC0 | 0xC6 | 0xC8 | 0xCE | 0xD0 | 0xD6 | 0xD8 | 0xDE | 0xE2 | 0xE6 | 0xEE | 0xF2 | 0xF6 | 0xF9 | 0xFE => 8,
        0x01 | 0x11 | 0x18 | 0x21 | 0x31 | 0x34 | 0x35 | 0x36 | 0xC1 | 0xC2 | 0xC4 | 0xCA | 0xCC | 0xD1 | 0xD2 | 0xD4 | 0xDA | 0xDC | 0xE0 | 0xE1 | 0xF0 | 0xF1 | 0xF8 => 12,
        0xC3 | 0xC5 | 0xC7 | 0xC9 | 0xCF | 0xD5 | 0xD7 | 0xD9 | 0xDF | 0xE5 | 0xE7 | 0xE8 | 0xEA | 0xEF | 0xF5 | 0xF7 | 0xFA | 0xFF => 16,
        0x08 => 20,
        0xCD => 24,
        _ => 4,
        }
    }
}

/// Whether a base opcode is a conditional branch, call or return.
pub open spec fn spec_is_cond(op: u8) -> bool {
    match op {
        0x20 | 0x28 | 0x30 | 0x38 | 0xC0 | 0xC2 | 0xC4 | 0xC8 | 0xCA | 0xCC | 0xD0 | 0xD2 | 0xD4
            | 0xD8 | 0xDA | 0xDC => true,
        _ => false,
    }
}

/// Condition decode shared by JR cc, JP cc, CALL cc and RET cc: NZ, Z,
/// NC or C.
pub open spec fn spec_cond_holds(op: u8, r: Registers) -> bool {
    match op {
        0x20 | 0xC0 | 0xC2 | 0xC4 => !r.flag_z,
        0x28 | 0xC8 | 0xCA | 0xCC => r.flag_z,
        0x30 | 0xD0 | 0xD2 | 0xD4 => !r.flag_c,
        _ => r.flag_c,
    }
}

/// Whether a base opcode transfers control (taken or not): jumps,
/// relative jumps, calls, returns and restarts.
pub open spec fn spec_is_control(op: u8) -> bool {
    match op {
        0x18 | 0x20 | 0x28 | 0x30 | 0x38 | 0xC0 | 0xC2 | 0xC3 | 0xC4 | 0xC7 | 0xC8 | 0xC9 | 0xCA
            | 0xCC | 0xCD | 0xCF | 0xD0 | 0xD2 | 0xD4 | 0xD7 | 0xD8 | 0xD9 | 0xDA | 0xDC | 0xDF
            | 0xE7 | 0xE9 | 0xEF | 0xF7 | 0xFF => true,
        _ => false,
    }
}

/// Whether executing a base opcode in register state `r` transfers
/// control: an unconditional transfer, or a conditional one whose
/// condition holds.
pub open spec fn spec_taken(op: u8, r: Registers) -> bool {
    spec_is_control(op) && (!spec_is_cond(op) || spec_cond_holds(op, r))
}

/// T-cycles a base opcode costs in register state `r` (conditionals pay
/// the taken price exactly when their condition holds).
pub open spec fn spec_step_cycles(op: u8, r: Registers) -> u32 {
    if spec_is_cond(op) && !spec_cond_holds(op, r) {
        spec_base_cycles_not_taken(op)
    } else {
        spec_base_cycles(op)
    }
}

/// Total T-cycle count of a CB-prefixed instruction, prefix included:
/// 8 on a register, 16 on (HL), except BIT b,(HL) at 12.
pub open spec fn spec_cb_cycles(op: u8) -> u32 {
    if op & 7 == 6 {
        if 0x40 <= op < 0x80 {
            12
        } else {
            16
        }
    } else {
        8
    }
}

/// The two bytes a 16-bit push stores: high at SP-1, low at SP-2 (the
/// CALL-compatible order), both through the bus policy; SP moves down by
/// two elsewhere.
pub open spec fn spec_push16(m: Seq<u8>, sp: u16, v: u16) -> Seq<u8> {
    spec_mem_store(
        spec_mem_store(m, sub16(sp, 1) as int, (v / 256) as u8),
        sub16(sp, 2) as int,
        (v % 256) as u8,
    )
}

/// The 16-bit value a pop reads: low byte at SP, high byte at SP+1.
pub open spec fn spec_pop16(m: Seq<u8>, sp: u16) -> u16 {
    spec_concat(spec_read_of(m, sp), spec_read_of(m, add16(sp, 1)))
}

/// The mnemonic of a base-table opcode.
pub open spec fn spec_opcode_name(op: u8) -> Seq<char> {
    match op {
        0x00 => "NOP"@,
        0x01 => "LD BC, d16"@,
        0x02 => "LD (BC), A"@,
        0x03 => "INC BC"@,
        0x04 => "INC B"@,
        0x05 => "DEC B"@,
        0x06 => "LD B, d8"@,
        0x07 => "RLCA"@,
        0x08 => "LD (a16), SP"@,
        0x09 => "ADD HL, BC"@,
        0x0A => "LD A, (BC)"@,
        0x0B => "DEC BC"@,
        0x0C => "INC C"@,
        0x0D => "DEC C"@,
        0x0E => "LD C, d8"@,
        0x0F => "RRCA"@,
        0x10 => "STOP"@,
        0x11 => "LD DE, d16"@,
        0x12 => "LD (DE), A"@,
        0x13 => "INC DE"@,
        0x14 => "INC D"@,
        0x15 => "DEC D"@,
        0x16 => "LD D, d8"@,
        0x17 => "RLA"@,
        0x18 => "JR s8"@,
        0x19 => "ADD HL, DE"@,
        0x1A => "LD A, (DE)"@,
        0x1B => "DEC DE"@,
        0x1C => "INC E"@,
        0x1D => "DEC E"@,
        0x1E => "LD E, d8"@,
        0x1F => "RRA"@,
        0x20 => "JR NZ, s8"@,
        0x21 => "LD HL, d16"@,
        0x22 => "LD (HL+), A"@,
        0x23 => "INC HL"@,
        0x24 => "INC H"@,
        0x25 => "DEC H"@,
        0x26 => "LD H, d8"@,
        0x27 => "DAA"@,
        0x28 => "JR Z, s8"@,
        0x29 => "ADD HL, HL"@,
        0x2A => "LD A, (HL+)"@,
        0x2B => "DEC HL"@,
        0x2C => "INC L"@,
        0x2D => "DEC L"@,
        0x2E => "LD L, d8"@,
        0x2F => "CPL"@,
        0x30 => "JR NC, s8"@,
        0x31 => "LD SP, d16"@,
        0x32 => "LD (HL-), A"@,
        0x33 => "INC SP"@,
        0x34 => "INC (HL)"@,
        0x35 => "DEC (HL)"@,
        0x36 => "LD (HL), d8"@,
        0x37 => "SCF"@,
        0x38 => "JR C, s8"@,
        0x39 => "ADD HL, SP"@,
        0x3A => "LD A, (HL-)"@,
        0x3B => "DEC SP"@,
        0x3C => "INC A"@,
        0x3D => "DEC A"@,
        0x3E => "LD A, d8"@,
        0x3F => "CCF"@,
        0x40 => "LD B, B"@,
        0x41 => "LD B, C"@,
        0x42 => "LD B, D"@,
        0x43 => "LD B, E"@,
        0x44 => "LD B, H"@,
        0x45 => "LD B, L"@,
        0x46 => "LD B, (HL)"@,
        0x47 => "LD B, A"@,
        0x48 => "LD C, B"@,
        0x49 => "LD C, C"@,
        0x4A => "LD C, D"@,
        0x4B => "LD C, E"@,
        0x4C => "LD C, H"@,
        0x4D => "LD C, L"@,
        0x4E => "LD C, (HL)"@,
        0x4F => "LD C, A"@,
        0x50 => "LD D, B"@,
        0x51 => "LD D, C"@,
        0x52 => "LD D, D"@,
        0x53 => "LD D, E"@,
        0x54 => "LD D, H"@,
        0x55 => "LD D, L"@,
        0x56 => "LD D, (HL)"@,
        0x57 => "LD D, A"@,
        0x58 => "LD E, B"@,
        0x59 => "LD E, C"@,
        0x5A => "LD E, D"@,
        0x5B => "LD E, E"@,
        0x5C => "LD E, H"@,
        0x5D => "LD E, L"@,
        0x5E => "LD E, (HL)"@,
        0x5F => "LD E, A"@,
        0x60 => "LD H, B"@,
        0x61 => "LD H, C"@,
        0x62 => "LD H, D"@,
        0x63 => "LD H, E"@,
        0x64 => "LD H, H"@,
        0x65 => "LD H, L"@,
        0x66 => "LD H, (HL)"@,
        0x67 => "LD H, A"@,
        0x68 => "LD L, B"@,
        0x69 => "LD L, C"@,
        0x6A => "LD L, D"@,
        0x6B => "LD L, E"@,
        0x6C => "LD L, H"@,
        0x6D => "LD L, L"@,
        0x6E => "LD L, (HL)"@,
        0x6F => "LD L, A"@,
        0x70 => "LD (HL), B"@,
        0x71 => "LD (HL), C"@,
        0x72 => "LD (HL), D"@,
        0x73 => "LD (HL), E"@,
        0x74 => "LD (HL), H"@,
        0x75 => "LD (HL), L"@,
        0x76 => "HALT"@,
        0x77 => "LD (HL), A"@,
        0x78 => "LD A, B"@,
        0x79 => "LD A, C"@,
        0x7A => "LD A, D"@,
        0x7B => "LD A, E"@,
        0x7C => "LD A, H"@,
        0x7D => "LD A, L"@,
        0x7E => "LD A, (HL)"@,
        0x7F => "LD A, A"@,
        0x80 => "ADD A, B"@,
        0x81 => "ADD A, C"@,
        0x82 => "ADD A, D"@,
        0x83 => "ADD A, E"@,
        0x84 => "ADD A, H"@,
        0x85 => "ADD A, L"@,
        0x86 => "ADD A, (HL)"@,
        0x87 => "ADD A, A"@,
        0x88 => "ADC A, B"@,
        0x89 => "ADC A, C"@,
        0x8A => "ADC A, D"@,
        0x8B => "ADC A, E"@,
        0x8C => "ADC A, H"@,
        0x8D => "ADC A, L"@,
        0x8E => "ADC A, (HL)"@,
        0x8F => "ADC A, A"@,
        0x90 => "SUB B"@,
        0x91 => "SUB C"@,
        0x92 => "SUB D"@,
        0x93 => "SUB E"@,
        0x94 => "SUB H"@,
        0x95 => "SUB L"@,
        0x96 => "SUB (HL)"@,
        0x97 => "SUB A"@,
        0x98 => "SBC A, B"@,
        0x99 => "SBC A, C"@,
        0x9A => "SBC A, D"@,
        0x9B => "SBC A, E"@,
        0x9C => "SBC A, H"@,
        0x9D => "SBC A, L"@,
        0x9E => "SBC A, (HL)"@,
        0x9F => "SBC A, A"@,
        0xA0 => "AND B"@,
        0xA1 => "AND C"@,
        0xA2 => "AND D"@,
        0xA3 => "AND E"@,
        0xA4 => "AND H"@,
        0xA5 => "AND L"@,
        0xA6 => "AND (HL)"@,
        0xA7 => "AND A"@,
        0xA8 => "XOR B"@,
        0xA9 => "XOR C"@,
        0xAA => "XOR D"@,
        0xAB => "XOR E"@,
        0xAC => "XOR H"@,
        0xAD => "XOR L"@,
        0xAE => "XOR (HL)"@,
        0xAF => "XOR A"@,
        0xB0 => "OR B"@,
        0xB1 => "OR C"@,
        0xB2 => "OR D"@,
        0xB3 => "OR E"@,
        0xB4 => "OR H"@,
        0xB5 => "OR L"@,
        0xB6 => "OR (HL)"@,
        0xB7 => "OR A"@,
        0xB8 => "CP B"@,
        0xB9 => "CP C"@,
        0xBA => "CP D"@,
        0xBB => "CP E"@,
        0xBC => "CP H"@,
        0xBD => "CP L"@,
        0xBE => "CP (HL)"@,
        0xBF => "CP A"@,
        0xC0 => "RET NZ"@,
        0xC1 => "POP BC"@,
        0xC2 => "JP NZ, a16"@,
        0xC3 => "JP a16"@,
        0xC4 => "CALL NZ, a16"@,
        0xC5 => "PUSH BC"@,
        0xC6 => "ADD A, d8"@,
        0xC7 => "RST 0"@,
        0xC8 => "RET Z"@,
        0xC9 => "RET"@,
        0xCA => "JP Z, a16"@,
        0xCB => "PREFIX CB"@,
        0xCC => "CALL Z, a16"@,
        0xCD => "CALL a16"@,
        0xCE => "ADC A, d8"@,
        0xCF => "RST 1"@,
        0xD0 => "RET NC"@,
        0xD1 => "POP DE"@,
        0xD2 => "JP NC, a16"@,
        0xD3 => "UNDEFINED"@,
        0xD4 => "CALL NC, a16"@,
        0xD5 => "PUSH DE"@,
        0xD6 => "SUB d8"@,
        0xD7 => "RST 2"@,
        0xD8 => "RET C"@,
        0xD9 => "RETI"@,
        0xDA => "JP C, a16"@,
        0xDB => "UNDEFINED"@,
        0xDC => "CALL C, a16"@,
        0xDD => "UNDEFINED"@,
        0xDE => "SBC A, d8"@,
        0xDF => "RST 3"@,
        0xE0 => "LDH (a8), A"@,
        0xE1 => "POP HL"@,
        0xE2 => "LD (C), A"@,
        0xE3 => "UNDEFINED"@,
        0xE4 => "UNDEFINED"@,
        0xE5 => "PUSH HL"@,
        0xE6 => "AND d8"@,
        0xE7 => "RST 4"@,
        0xE8 => "ADD SP, s8"@,
        0xE9 => "JP HL"@,
        0xEA => "LD (a16), A"@,
        0xEB => "UNDEFINED"@,
        0xEC => "UNDEFINED"@,
        0xED => "UNDEFINED"@,
        0xEE => "XOR d8"@,
        0xEF => "RST 5"@,
        0xF0 => "LDH A, (a8)"@,
        0xF1 => "POP AF"@,
        0xF2 => "LD A, (C)"@,
        0xF3 => "DI"@,
        0xF4 => "UNDEFINED"@,
        0xF5 => "PUSH AF"@,
        0xF6 => "OR d8"@,
        0xF7 => "RST 6"@,
        0xF8 => "LD HL, SP+s8"@,
        0xF9 => "LD SP, HL"@,
        0xFA => "LD A, (a16)"@,
        0xFB => "EI"@,
        0xFC => "UNDEFINED"@,
        0xFD => "UNDEFINED"@,
        0xFE => "CP d8"@,
        0xFF => "RST 7"@,
    }
}

/// The mnemonic of a CB-table opcode.
pub open spec fn spec_cb_opcode_name(op: u8) -> Seq<char> {
    match op {
        0x00 => "RLC B"@,
        0x01 => "RLC C"@,
        0x02 => "RLC D"@,
        0x03 => "RLC E"@,
        0x04 => "RLC H"@,
        0x05 => "RLC L"@,
        0x06 => "RLC (HL)"@,
        0x07 => "RLC A"@,
        0x08 => "RRC B"@,
        0x09 => "RRC C"@,
        0x0A => "RRC D"@,
        0x0B => "RRC E"@,
        0x0C => "RRC H"@,
        0x0D => "RRC L"@,
        0x0E => "RRC (HL)"@,
        0x0F => "RRC A"@,
        0x10 => "RL B"@,
        0x11 => "RL C"@,
        0x12 => "RL D"@,
        0x13 => "RL E"@,
        0x14 => "RL H"@,
        0x15 => "RL L"@,
        0x16 => "RL (HL)"@,
        0x17 => "RL A"@,
        0x18 => "RR B"@,
        0x19 => "RR C"@,
        0x1A => "RR D"@,
        0x1B => "RR E"@,
        0x1C => "RR H"@,
        0x1D => "RR L"@,
        0x1E => "RR (HL)"@,
        0x1F => "RR A"@,
        0x20 => "SLA B"@,
        0x21 => "SLA C"@,
        0x22 => "SLA D"@,
        0x23 => "SLA E"@,
        0x24 => "SLA H"@,
        0x25 => "SLA L"@,
        0x26 => "SLA (HL)"@,
        0x27 => "SLA A"@,
        0x28 => "SRA B"@,
        0x29 => "SRA C"@,
        0x2A => "SRA D"@,
        0x2B => "SRA E"@,
        0x2C => "SRA H"@,
        0x2D => "SRA L"@,
        0x2E => "SRA (HL)"@,
        0x2F => "SRA A"@,
        0x30 => "SWAP B"@,
        0x31 => "SWAP C"@,
        0x32 => "SWAP D"@,
        0x33 => "SWAP E"@,
        0x34 => "SWAP H"@,
        0x35 => "SWAP L"@,
        0x36 => "SWAP (HL)"@,
        0x37 => "SWAP A"@,
        0x38 => "SRL B"@,
        0x39 => "SRL C"@,
        0x3A => "SRL D"@,
        0x3B => "SRL E"@,
        0x3C => "SRL H"@,
        0x3D => "SRL L"@,
        0x3E => "SRL (HL)"@,
        0x3F => "SRL A"@,
        0x40 => "BIT 0, B"@,
        0x41 => "BIT 0, C"@,
        0x42 => "BIT 0, D"@,
        0x43 => "BIT 0, E"@,
        0x44 => "BIT 0, H"@,
        0x45 => "BIT 0, L"@,
        0x46 => "BIT 0, (HL)"@,
        0x47 => "BIT 0, A"@,
        0x48 => "BIT 1, B"@,
        0x49 => "BIT 1, C"@,
        0x4A => "BIT 1, D"@,
        0x4B => "BIT 1, E"@,
        0x4C => "BIT 1, H"@,
        0x4D => "BIT 1, L"@,
        0x4E => "BIT 1, (HL)"@,
        0x4F => "BIT 1, A"@,
        0x50 => "BIT 2, B"@,
        0x51 => "BIT 2, C"@,
        0x52 => "BIT 2, D"@,
        0x53 => "BIT 2, E"@,
        0x54 => "BIT 2, H"@,
        0x55 => "BIT 2, L"@,
        0x56 => "BIT 2, (HL)"@,
        0x57 => "BIT 2, A"@,
        0x58 => "BIT 3, B"@,
        0x59 => "BIT 3, C"@,
        0x5A => "BIT 3, D"@,
        0x5B => "BIT 3, E"@,
        0x5C => "BIT 3, H"@,
        0x5D => "BIT 3, L"@,
        0x5E => "BIT 3, (HL)"@,
        0x5F => "BIT 3, A"@,
        0x60 => "BIT 4, B"@,
        0x61 => "BIT 4, C"@,
        0x62 => "BIT 4, D"@,
        0x63 => "BIT 4, E"@,
        0x64 => "BIT 4, H"@,
        0x65 => "BIT 4, L"@,
        0x66 => "BIT 4, (HL)"@,
        0x67 => "BIT 4, A"@,
        0x68 => "BIT 5, B"@,
        0x69 => "BIT 5, C"@,
        0x6A => "BIT 5, D"@,
        0x6B => "BIT 5, E"@,
        0x6C => "BIT 5, H"@,
        0x6D => "BIT 5, L"@,
        0x6E => "BIT 5, (HL)"@,
        0x6F => "BIT 5, A"@,
        0x70 => "BIT 6, B"@,
        0x71 => "BIT 6, C"@,
        0x72 => "BIT 6, D"@,
        0x73 => "BIT 6, E"@,
        0x74 => "BIT 6, H"@,
        0x75 => "BIT 6, L"@,
        0x76 => "BIT 6, (HL)"@,
        0x77 => "BIT 6, A"@,
        0x78 => "BIT 7, B"@,
        0x79 => "BIT 7, C"@,
        0x7A => "BIT 7, D"@,
        0x7B => "BIT 7, E"@,
        0x7C => "BIT 7, H"@,
        0x7D => "BIT 7, L"@,
        0x7E => "BIT 7, (HL)"@,
        0x7F => "BIT 7, A"@,
        0x80 => "RES 0, B"@,
        0x81 => "RES 0, C"@,
        0x82 => "RES 0, D"@,
        0x83 => "RES 0, E"@,
        0x84 => "RES 0, H"@,
        0x85 => "RES 0, L"@,
        0x86 => "RES 0, (HL)"@,
        0x87 => "RES 0, A"@,
        0x88 => "RES 1, B"@,
        0x89 => "RES 1, C"@,
        0x8A => "RES 1, D"@,
        0x8B => "RES 1, E"@,
        0x8C => "RES 1, H"@,
        0x8D => "RES 1, L"@,
        0x8E => "RES 1, (HL)"@,
        0x8F => "RES 1, A"@,
        0x90 => "RES 2, B"@,
        0x91 => "RES 2, C"@,
        0x92 => "RES 2, D"@,
        0x93 => "RES 2, E"@,
        0x94 => "RES 2, H"@,
        0x95 => "RES 2, L"@,
        0x96 => "RES 2, (HL)"@,
        0x97 => "RES 2, A"@,
        0x98 => "RES 3, B"@,
        0x99 => "RES 3, C"@,
        0x9A => "RES 3, D"@,
        0x9B => "RES 3, E"@,
        0x9C => "RES 3, H"@,
        0x9D => "RES 3, L"@,
        0x9E => "RES 3, (HL)"@,
        0x9F => "RES 3, A"@,
        0xA0 => "RES 4, B"@,
        0xA1 => "RES 4, C"@,
        0xA2 => "RES 4, D"@,
        0xA3 => "RES 4, E"@,
        0xA4 => "RES 4, H"@,
        0xA5 => "RES 4, L"@,
        0xA6 => "RES 4, (HL)"@,
        0xA7 => "RES 4, A"@,
        0xA8 => "RES 5, B"@,
        0xA9 => "RES 5, C"@,
        0xAA => "RES 5, D"@,
        0xAB => "RES 5, E"@,
        0xAC => "RES 5, H"@,
        0xAD => "RES 5, L"@,
        0xAE => "RES 5, (HL)"@,
        0xAF => "RES 5, A"@,
        0xB0 => "RES 6, B"@,
        0xB1 => "RES 6, C"@,
        0xB2 => "RES 6, D"@,
        0xB3 => "RES 6, E"@,
        0xB4 => "RES 6, H"@,
        0xB5 => "RES 6, L"@,
        0xB6 => "RES 6, (HL)"@,
        0xB7 => "RES 6, A"@,
        0xB8 => "RES 7, B"@,
        0xB9 => "RES 7, C"@,
        0xBA => "RES 7, D"@,
        0xBB => "RES 7, E"@,
        0xBC => "RES 7, H"@,
        0xBD => "RES 7, L"@,
        0xBE => "RES 7, (HL)"@,
        0xBF => "RES 7, A"@,
        0xC0 => "SET 0, B"@,
        0xC1 => "SET 0, C"@,
        0xC2 => "SET 0, D"@,
        0xC3 => "SET 0, E"@,
        0xC4 => "SET 0, H"@,
        0xC5 => "SET 0, L"@,
        0xC6 => "SET 0, (HL)"@,
        0xC7 => "SET 0, A"@,
        0xC8 => "SET 1, B"@,
        0xC9 => "SET 1, C"@,
        0xCA => "SET 1, D"@,
        0xCB => "SET 1, E"@,
        0xCC => "SET 1, H"@,
        0xCD => "SET 1, L"@,
        0xCE => "SET 1, (HL)"@,
        0xCF => "SET 1, A"@,
        0xD0 => "SET 2, B"@,
        0xD1 => "SET 2, C"@,
        0xD2 => "SET 2, D"@,
        0xD3 => "SET 2, E"@,
        0xD4 => "SET 2, H"@,
        0xD5 => "SET 2, L"@,
        0xD6 => "SET 2, (HL)"@,
        0xD7 => "SET 2, A"@,
        0xD8 => "SET 3, B"@,
        0xD9 => "SET 3, C"@,
        0xDA => "SET 3, D"@,
        0xDB => "SET 3, E"@,
        0xDC => "SET 3, H"@,
        0xDD => "SET 3, L"@,
        0xDE => "SET 3, (HL)"@,
        0xDF => "SET 3, A"@,
        0xE0 => "SET 4, B"@,
        0xE1 => "SET 4, C"@,
        0xE2 => "SET 4, D"@,
        0xE3 => "SET 4, E"@,
        0xE4 => "SET 4, H"@,
        0xE5 => "SET 4, L"@,
        0xE6 => "SET 4, (HL)"@,
        0xE7 => "SET 4, A"@,
        0xE8 => "SET 5, B"@,
        0xE9 => "SET 5, C"@,
        0xEA => "SET 5, D"@,
        0xEB => "SET 5, E"@,
        0xEC => "SET 5, H"@,
        0xED => "SET 5, L"@,
        0xEE => "SET 5, (HL)"@,
        0xEF => "SET 5, A"@,
        0xF0 => "SET 6, B"@,
        0xF1 => "SET 6, C"@,
        0xF2 => "SET 6, D"@,
        0xF3 => "SET 6, E"@,
        0xF4 => "SET 6, H"@,
        0xF5 => "SET 6, L"@,
        0xF6 => "SET 6, (HL)"@,
        0xF7 => "SET 6, A"@,
        0xF8 => "SET 7, B"@,
        0xF9 => "SET 7, C"@,
        0xFA => "SET 7, D"@,
        0xFB => "SET 7, E"@,
        0xFC => "SET 7, H"@,
        0xFD => "SET 7, L"@,
        0xFE => "SET 7, (HL)"@,
        0xFF => "SET 7, A"@,
    }
}

fn opcode_name(op: u8) -> (r: &'static str)
    ensures
        r@ == spec_opcode_name(op),
{
    match op {
            0x00 => "NOP",
            0x01 => "LD BC, d16",
            0x02 => "LD (BC), A",
            0x03 => "INC BC",
            0x04 => "INC B",
            0x05 => "DEC B",
            0x06 => "LD B, d8",
            0x07 => "RLCA",
            0x08 => "LD (a16), SP",
            0x09 => "ADD HL, BC",
            0x0A => "LD A, (BC)",
            0x0B => "DEC BC",
            0x0C => "INC C",
            0x0D => "DEC C",
            0x0E => "LD C, d8",
            0x0F => "RRCA",
            0x10 => "STOP",
            0x11 => "LD DE, d16",
            0x12 => "LD (DE), A",
            0x13 => "INC DE",
            0x14 => "INC D",
            0x15 => "DEC D",
            0x16 => "LD D, d8",
            0x17 => "RLA",
            0x18 => "JR s8",
            0x19 => "ADD HL, DE",
            0x1A => "LD A, (DE)",
            0x1B => "DEC DE",
            0x1C => "INC E",
            0x1D => "DEC E",
            0x1E => "LD E, d8",
            0x1F => "RRA",
            0x20 => "JR NZ, s8",
            0x21 => "LD HL, d16",
            0x22 => "LD (HL+), A",
            0x23 => "INC HL",
            0x24 => "INC H",
            0x25 => "DEC H",
            0x26 => "LD H, d8",
            0x27 => "DAA",
            0x28 => "JR Z, s8",
            0x29 => "ADD HL, HL",
            0x2A => "LD A, (HL+)",
            0x2B => "DEC HL",
            0x2C => "INC L",
            0x2D => "DEC L",
            0x2E => "LD L, d8",
            0x2F => "CPL",
            0x30 => "JR NC, s8",
            0x31 => "LD SP, d16",
            0x32 => "LD (HL-), A",
            0x33 => "INC SP",
            0x34 => "INC (HL)",
            0x35 => "DEC (HL)",
            0x36 => "LD (HL), d8",
            0x37 => "SCF",
            0x38 => "JR C, s8",
            0x39 => "ADD HL, SP",
            0x3A => "LD A, (HL-)",
            0x3B => "DEC SP",
            0x3C => "INC A",
            0x3D => "DEC A",
            0x3E => "LD A, d8",
            0x3F => "CCF",
            0x40 => "LD B, B",
            0x41 => "LD B, C",
            0x42 => "LD B, D",
            0x43 => "LD B, E",
            0x44 => "LD B, H",
            0x45 => "LD B, L",
            0x46 => "LD B, (HL)",
            0x47 => "LD B, A",
            0x48 => "LD C, B",
            0x49 => "LD C, C",
            0x4A => "LD C, D",
            0x4B => "LD C, E",
            0x4C => "LD C, H",
            0x4D => "LD C, L",
            0x4E => "LD C, (HL)",
            0x4F => "LD C, A",
            0x50 => "LD D, B",
            0x51 => "LD D, C",
            0x52 => "LD D, D",
            0x53 => "LD D, E",
            0x54 => "LD D, H",
            0x55 => "LD D, L",
            0x56 => "LD D, (HL)",
            0x57 => "LD D, A",
            0x58 => "LD E, B",
            0x59 => "LD E, C",
            0x5A => "LD E, D",
            0x5B => "LD E, E",
            0x5C => "LD E, H",
            0x5D => "LD E, L",
            0x5E => "LD E, (HL)",
            0x5F => "LD E, A",
            0x60 => "LD H, B",
            0x61 => "LD H, C",
            0x62 => "LD H, D",
            0x63 => "LD H, E",
            0x64 => "LD H, H",
            0x65 => "LD H, L",
            0x66 => "LD H, (HL)",
            0x67 => "LD H, A",
            0x68 => "LD L, B",
            0x69 => "LD L, C",
            0x6A => "LD L, D",
            0x6B => "LD L, E",
            0x6C => "LD L, H",
            0x6D => "LD L, L",
            0x6E => "LD L, (HL)",
            0x6F => "LD L, A",
            0x70 => "LD (HL), B",
            0x71 => "LD (HL), C",
            0x72 => "LD (HL), D",
            0x73 => "LD (HL), E",
            0x74 => "LD (HL), H",
            0x75 => "LD (HL), L",
            0x76 => "HALT",
            0x77 => "LD (HL), A",
            0x78 => "LD A, B",
            0x79 => "LD A, C",
            0x7A => "LD A, D",
            0x7B => "LD A, E",
            0x7C => "LD A, H",
            0x7D => "LD A, L",
            0x7E => "LD A, (HL)",
            0x7F => "LD A, A",
            0x80 => "ADD A, B",
            0x81 => "ADD A, C",
            0x82 => "ADD A, D",
            0x83 => "ADD A, E",
            0x84 => "ADD A, H",
            0x85 => "ADD A, L",
            0x86 => "ADD A, (HL)",
            0x87 => "ADD A, A",
            0x88 => "ADC A, B",
            0x89 => "ADC A, C",
            0x8A => "ADC A, D",
            0x8B => "ADC A, E",
            0x8C => "ADC A, H",
            0x8D => "ADC A, L",
            0x8E => "ADC A, (HL)",
            0x8F => "ADC A, A",
            0x90 => "SUB B",
            0x91 => "SUB C",
            0x92 => "SUB D",
            0x93 => "SUB E",
            0x94 => "SUB H",
            0x95 => "SUB L",
            0x96 => "SUB (HL)",
            0x97 => "SUB A",
            0x98 => "SBC A, B",
            0x99 => "SBC A, C",
            0x9A => "SBC A, D",
            0x9B => "SBC A, E",
            0x9C => "SBC A, H",
            0x9D => "SBC A, L",
            0x9E => "SBC A, (HL)",
            0x9F => "SBC A, A",
            0xA0 => "AND B",
            0xA1 => "AND C",
            0xA2 => "AND D",
            0xA3 => "AND E",
            0xA4 => "AND H",
            0xA5 => "AND L",
            0xA6 => "AND (HL)",
            0xA7 => "AND A",
            0xA8 => "XOR B",
            0xA9 => "XOR C",
            0xAA => "XOR D",
            0xAB => "XOR E",
            0xAC => "XOR H",
            0xAD => "XOR L",
            0xAE => "XOR (HL)",
            0xAF => "XOR A",
            0xB0 => "OR B",
            0xB1 => "OR C",
            0xB2 => "OR D",
            0xB3 => "OR E",
            0xB4 => "OR H",
            0xB5 => "OR L",
            0xB6 => "OR (HL)",
            0xB7 => "OR A",
            0xB8 => "CP B",
            0xB9 => "CP C",
            0xBA => "CP D",
            0xBB => "CP E",
            0xBC => "CP H",
            0xBD => "CP L",
            0xBE => "CP (HL)",
            0xBF => "CP A",
            0xC0 => "RET NZ",
            0xC1 => "POP BC",
            0xC2 => "JP NZ, a16",
            0xC3 => "JP a16",
            0xC4 => "CALL NZ, a16",
            0xC5 => "PUSH BC",
            0xC6 => "ADD A, d8",
            0xC7 => "RST 0",
            0xC8 => "RET Z",
            0xC9 => "RET",
            0xCA => "JP Z, a16",
            0xCB => "PREFIX CB",
            0xCC => "CALL Z, a16",
            0xCD => "CALL a16",
            0xCE => "ADC A, d8",
            0xCF => "RST 1",
            0xD0 => "RET NC",
            0xD1 => "POP DE",
            0xD2 => "JP NC, a16",
            0xD3 => "UNDEFINED",
            0xD4 => "CALL NC, a16",
            0xD5 => "PUSH DE",
            0xD6 => "SUB d8",
            0xD7 => "RST 2",
            0xD8 => "RET C",
            0xD9 => "RETI",
            0xDA => "JP C, a16",
            0xDB => "UNDEFINED",
            0xDC => "CALL C, a16",
            0xDD => "UNDEFINED",
            0xDE => "SBC A, d8",
            0xDF => "RST 3",
            0xE0 => "LDH (a8), A",
            0xE1 => "POP HL",
            0xE2 => "LD (C), A",
            0xE3 => "UNDEFINED",
            0xE4 => "UNDEFINED",
            0xE5 => "PUSH HL",
            0xE6 => "AND d8",
            0xE7 => "RST 4",
            0xE8 => "ADD SP, s8",
            0xE9 => "JP HL",
            0xEA => "LD (a16), A",
            0xEB => "UNDEFINED",
            0xEC => "UNDEFINED",
            0xED => "UNDEFINED",
            0xEE => "XOR d8",
            0xEF => "RST 5",
            0xF0 => "LDH A, (a8)",
            0xF1 => "POP AF",
            0xF2 => "LD A, (C)",
            0xF3 => "DI",
            0xF4 => "UNDEFINED",
            0xF5 => "PUSH AF",
            0xF6 => "OR d8",
            0xF7 => "RST 6",
            0xF8 => "LD HL, SP+s8",
            0xF9 => "LD SP, HL",
            0xFA => "LD A, (a16)",
            0xFB => "EI",
            0xFC => "UNDEFINED",
            0xFD => "UNDEFINED",
            0xFE => "CP d8",
            0xFF => "RST 7",
    }
}

fn cb_opcode_name(op: u8) -> (r: &'static str)
    ensures
        r@ == spec_cb_opcode_name(op),
{
    match op {
        0x00 => "RLC B",
        0x01 => "RLC C",
        0x02 => "RLC D",
        0x03 => "RLC E",
        0x04 => "RLC H",
        0x05 => "RLC L",
        0x06 => "RLC (HL)",
        0x07 => "RLC A",
        0x08 => "RRC B",
        0x09 => "RRC C",
        0x0A => "RRC D",
        0x0B => "RRC E",
        0x0C => "RRC H",
        0x0D => "RRC L",
        0x0E => "RRC (HL)",
        0x0F => "RRC A",
        0x10 => "RL B",
        0x11 => "RL C",
        0x12 => "RL D",
        0x13 => "RL E",
        0x14 => "RL H",
        0x15 => "RL L",
        0x16 => "RL (HL)",
        0x17 => "RL A",
        0x18 => "RR B",
        0x19 => "RR C",
        0x1A => "RR D",
        0x1B => "RR E",
        0x1C => "RR H",
        0x1D => "RR L",
        0x1E => "RR (HL)",
        0x1F => "RR A",
        0x20 => "SLA B",
        0x21 => "SLA C",
        0x22 => "SLA D",
        0x23 => "SLA E",
        0x24 => "SLA H",
        0x25 => "SLA L",
        0x26 => "SLA (HL)",
        0x27 => "SLA A",
        0x28 => "SRA B",
        0x29 => "SRA C",
        0x2A => "SRA D",
        0x2B => "SRA E",
        0x2C => "SRA H",
        0x2D => "SRA L",
        0x2E => "SRA (HL)",
        0x2F => "SRA A",
        0x30 => "SWAP B",
        0x31 => "SWAP C",
        0x32 => "SWAP D",
        0x33 => "SWAP E",
        0x34 => "SWAP H",
        0x35 => "SWAP L",
        0x36 => "SWAP (HL)",
        0x37 => "SWAP A",
        0x38 => "SRL B",
        0x39 => "SRL C",
        0x3A => "SRL D",
        0x3B => "SRL E",
        0x3C => "SRL H",
        0x3D => "SRL L",
        0x3E => "SRL (HL)",
        0x3F => "SRL A",
        0x40 => "BIT 0, B",
        0x41 => "BIT 0, C",
        0x42 => "BIT 0, D",
        0x43 => "BIT 0, E",
        0x44 => "BIT 0, H",
        0x45 => "BIT 0, L",
        0x46 => "BIT 0, (HL)",
        0x47 => "BIT 0, A",
        0x48 => "BIT 1, B",
        0x49 => "BIT 1, C",
        0x4A => "BIT 1, D",
        0x4B => "BIT 1, E",
        0x4C => "BIT 1, H",
        0x4D => "BIT 1, L",
        0x4E => "BIT 1, (HL)",
        0x4F => "BIT 1, A",
        0x50 => "BIT 2, B",
        0x51 => "BIT 2, C",
        0x52 => "BIT 2, D",
        0x53 => "BIT 2, E",
        0x54 => "BIT 2, H",
        0x55 => "BIT 2, L",
        0x56 => "BIT 2, (HL)",
        0x57 => "BIT 2, A",
        0x58 => "BIT 3, B",
        0x59 => "BIT 3, C",
        0x5A => "BIT 3, D",
        0x5B => "BIT 3, E",
        0x5C => "BIT 3, H",
        0x5D => "BIT 3, L",
        0x5E => "BIT 3, (HL)",
        0x5F => "BIT 3, A",
        0x60 => "BIT 4, B",
        0x61 => "BIT 4, C",
        0x62 => "BIT 4, D",
        0x63 => "BIT 4, E",
        0x64 => "BIT 4, H",
        0x65 => "BIT 4, L",
        0x66 => "BIT 4, (HL)",
        0x67 => "BIT 4, A",
        0x68 => "BIT 5, B",
        0x69 => "BIT 5, C",
        0x6A => "BIT 5, D",
        0x6B => "BIT 5, E",
        0x6C => "BIT 5, H",
        0x6D => "BIT 5, L",
        0x6E => "BIT 5, (HL)",
        0x6F => "BIT 5, A",
        0x70 => "BIT 6, B",
        0x71 => "BIT 6, C",
        0x72 => "BIT 6, D",
        0x73 => "BIT 6, E",
        0x74 => "BIT 6, H",
        0x75 => "BIT 6, L",
        0x76 => "BIT 6, (HL)",
        0x77 => "BIT 6, A",
        0x78 => "BIT 7, B",
        0x79 => "BIT 7, C",
        0x7A => "BIT 7, D",
        0x7B => "BIT 7, E",
        0x7C => "BIT 7, H",
        0x7D => "BIT 7, L",
        0x7E => "BIT 7, (HL)",
        0x7F => "BIT 7, A",
        0x80 => "RES 0, B",
        0x81 => "RES 0, C",
        0x82 => "RES 0, D",
        0x83 => "RES 0, E",
        0x84 => "RES 0, H",
        0x85 => "RES 0, L",
        0x86 => "RES 0, (HL)",
        0x87 => "RES 0, A",
        0x88 => "RES 1, B",
        0x89 => "RES 1, C",
        0x8A => "RES 1, D",
        0x8B => "RES 1, E",
        0x8C => "RES 1, H",
        0x8D => "RES 1, L",
        0x8E => "RES 1, (HL)",
        0x8F => "RES 1, A",
        0x90 => "RES 2, B",
        0x91 => "RES 2, C",
        0x92 => "RES 2, D",
        0x93 => "RES 2, E",
        0x94 => "RES 2, H",
        0x95 => "RES 2, L",
        0x96 => "RES 2, (HL)",
        0x97 => "RES 2, A",
        0x98 => "RES 3, B",
        0x99 => "RES 3, C",
        0x9A => "RES 3, D",
        0x9B => "RES 3, E",
        0x9C => "RES 3, H",
        0x9D => "RES 3, L",
        0x9E => "RES 3, (HL)",
        0x9F => "RES 3, A",
        0xA0 => "RES 4, B",
        0xA1 => "RES 4, C",
        0xA2 => "RES 4, D",
        0xA3 => "RES 4, E",
        0xA4 => "RES 4, H",
        0xA5 => "RES 4, L",
        0xA6 => "RES 4, (HL)",
        0xA7 => "RES 4, A",
        0xA8 => "RES 5, B",
        0xA9 => "RES 5, C",
        0xAA => "RES 5, D",
        0xAB => "RES 5, E",
        0xAC => "RES 5, H",
        0xAD => "RES 5, L",
        0xAE => "RES 5, (HL)",
        0xAF => "RES 5, A",
        0xB0 => "RES 6, B",
        0xB1 => "RES 6, C",
        0xB2 => "RES 6, D",
        0xB3 => "RES 6, E",
        0xB4 => "RES 6, H",
        0xB5 => "RES 6, L",
        0xB6 => "RES 6, (HL)",
        0xB7 => "RES 6, A",
        0xB8 => "RES 7, B",
        0xB9 => "RES 7, C",
        0xBA => "RES 7, D",
        0xBB => "RES 7, E",
        0xBC => "RES 7, H",
        0xBD => "RES 7, L",
        0xBE => "RES 7, (HL)",
        0xBF => "RES 7, A",
        0xC0 => "SET 0, B",
        0xC1 => "SET 0, C",
        0xC2 => "SET 0, D",
        0xC3 => "SET 0, E",
        0xC4 => "SET 0, H",
        0xC5 => "SET 0, L",
        0xC6 => "SET 0, (HL)",
        0xC7 => "SET 0, A",
        0xC8 => "SET 1, B",
        0xC9 => "SET 1, C",
        0xCA => "SET 1, D",
        0xCB => "SET 1, E",
        0xCC => "SET 1, H",
        0xCD => "SET 1, L",
        0xCE => "SET 1, (HL)",
        0xCF => "SET 1, A",
        0xD0 => "SET 2, B",
        0xD1 => "SET 2, C",
        0xD2 => "SET 2, D",
        0xD3 => "SET 2, E",
        0xD4 => "SET 2, H",
        0xD5 => "SET 2, L",
        0xD6 => "SET 2, (HL)",
        0xD7 => "SET 2, A",
        0xD8 => "SET 3, B",
        0xD9 => "SET 3, C",
        0xDA => "SET 3, D",
        0xDB => "SET 3, E",
        0xDC => "SET 3, H",
        0xDD => "SET 3, L",
        0xDE => "SET 3, (HL)",
        0xDF => "SET 3, A",
        0xE0 => "SET 4, B",
        0xE1 => "SET 4, C",
        0xE2 => "SET 4, D",
        0xE3 => "SET 4, E",
        0xE4 => "SET 4, H",
        0xE5 => "SET 4, L",
        0xE6 => "SET 4, (HL)",
        0xE7 => "SET 4, A",
        0xE8 => "SET 5, B",
        0xE9 => "SET 5, C",
        0xEA => "SET 5, D",
        0xEB => "SET 5, E",
        0xEC => "SET 5, H",
        0xED => "SET 5, L",
        0xEE => "SET 5, (HL)",
        0xEF => "SET 5, A",
        0xF0 => "SET 6, B",
        0xF1 => "SET 6, C",
        0xF2 => "SET 6, D",
        0xF3 => "SET 6, E",
        0xF4 => "SET 6, H",
        0xF5 => "SET 6, L",
        0xF6 => "SET 6, (HL)",
        0xF7 => "SET 6, A",
        0xF8 => "SET 7, B",
        0xF9 => "SET 7, C",
        0xFA => "SET 7, D",
        0xFB => "SET 7, E",
        0xFC => "SET 7, H",
        0xFD => "SET 7, L",
        0xFE => "SET 7, (HL)",
        0xFF => "SET 7, A",
    }
}

impl InstructionSet {
    pub fn new() -> (r: InstructionSet) {
        InstructionSet {  }
    }

    /// The metadata of a base-table opcode. Length and cycle count equal
    /// the table functions; the arity is `None` exactly on the 11
    /// undefined entries, `Prefix` on 0xCB, and otherwise follows the
    /// instruction's byte length.
    pub fn fetch_instruction(&self, opcode: u8) -> (r: Instruction)
        ensures
            r.opcode == opcode,
            r.length == spec_base_len(opcode),
            r.cycles == spec_base_cycles(opcode),
            r.name@ == spec_opcode_name(opcode),
            (r.operation is Undefined) == spec_undefined_op(opcode),
            (r.operation is Prefix) == (opcode == 0xCB),
    {
        let length = Self::instruction_length(opcode);
        let cycles = Self::instruction_cycles(opcode);
        let operation = if Self::is_undefined(opcode) {
            Operation::Undefined
        } else if opcode == 0xCB {
            Operation::Prefix
        } else if length == 1 {
            Operation::Nullary
        } else if length == 2 {
            Operation::Unary
        } else {
            Operation::Binary
        };
        Instruction {
            name: String::from_str(opcode_name(opcode)),
            opcode,
            length: length as usize,
            cycles: cycles as usize,
            operation,
        }
    }

    /// The metadata of a CB-table opcode: every entry is defined, two
    /// bytes long, and costs the CB cycle count.
    pub fn fetch_instruction_16bit(&self, opcode: u8) -> (r: Instruction)
        ensures
            r.opcode == opcode,
            r.length == 2,
            r.cycles == spec_cb_cycles(opcode),
            r.name@ == spec_cb_opcode_name(opcode),
            r.operation is Nullary,
    {
        Instruction {
            name: String::from_str(cb_opcode_name(opcode)),
            opcode,
            length: 2,
            cycles: Self::cb_instruction_cycles(opcode) as usize,
            operation: Operation::Nullary,
        }
    }

    /// Byte length of a base opcode.
    pub fn instruction_length(opcode: u8) -> (r: u16)
        ensures
            r == spec_base_len(opcode),
    {
        match opcode {
            0x06 | 0x0E | 0x10 | 0x16 | 0x18 | 0x1E | 0x20 | 0x26 | 0x28 | 0x2E | 0x30 | 0x36
                | 0x38 | 0x3E | 0xC6 | 0xCB | 0xCE | 0xD6 | 0xDE | 0xE0 | 0xE6 | 0xE8 | 0xEE
                | 0xF0 | 0xF6 | 0xF8 | 0xFE => 2,
            0x01 | 0x08 | 0x11 | 0x21 | 0x31 | 0xC2 | 0xC3 | 0xC4 | 0xCA | 0xCC | 0xCD | 0xD2
                | 0xD4 | 0xDA | 0xDC | 0xEA | 0xFA => 3,
            _ => 1,
        }
    }

    /// Base (taken) T-cycle count of a base opcode.
    pub fn instruction_cycles(opcode: u8) -> (r: u32)
        ensures
            r == spec_base_cycles(opcode),
    {
        if Self::is_undefined(opcode) {
            0
        } else {
            match opcode {
                0x02 | 0x03 | 0x06 | 0x09 | 0x0A | 0x0B | 0x0E | 0x12 | 0x13 | 0x16 | 0x19
                    | 0x1A | 0x1B | 0x1E | 0x22 | 0x23 | 0x26 | 0x29 | 0x2A | 0x2B | 0x2E | 0x32
                    | 0x33 | 0x39 | 0x3A | 0x3B | 0x3E | 0x46 | 0x4E | 0x56 | 0x5E | 0x66 | 0x6E
                    | 0x70 | 0x71 | 0x72 | 0x73 | 0x74 | 0x75 | 0x77 | 0x7E | 0x86 | 0x8E | 0x96
                    | 0x9E | 0xA6 | 0xAE | 0xB6 | 0xBE | 0xC6 | 0xCE | 0xD6 | 0xDE | 0xE2 | 0xE6
                    | 0xEE | 0xF2 | 0xF6 | 0xF9 | 0xFE => 8,
                0x01 | 0x11 | 0x18 | 0x20 | 0x21 | 0x28 | 0x30 | 0x31 | 0x34 | 0x35 | 0x36 | 0x38
                    | 0xC1 | 0xD1 | 0xE0 | 0xE1 | 0xF0 | 0xF1 | 0xF8 => 12,
                0xC2 | 0xC3 | 0xC5 | 0xC7 | 0xC9 | 0xCA | 0xCF | 0xD2 | 0xD5 | 0xD7 | 0xD9 | 0xDA
                    | 0xDF | 0xE5 | 0xE7 | 0xE8 | 0xEA | 0xEF | 0xF5 | 0xF7 | 0xFA | 0xFF => 16,
                0x08 | 0xC0 | 0xC8 | 0xD0 | 0xD8 => 20,
                0xC4 | 0xCC | 0xCD | 0xD4 | 0xDC => 24,
                _ => 4,
            }
        }
    }

    /// Not-taken T-cycle count of a base opcode.
    pub fn instruction_cycles_not_taken(opcode: u8) -> (r: u32)
        ensures
            r == spec_base_cycles_not_taken(opcode),
    {
        if Self::is_undefined(opcode) {
            0
        } else {
            match opcode {
                0x02 | 0x03 | 0x06 | 0x09 | 0x0A | 0x0B | 0x0E | 0x12 | 0x13 | 0x16 | 0x19
                    | 0x1A | 0x1B | 0x1E | 0x20 | 0x22 | 0x23 | 0x26 | 0x28 | 0x29 | 0x2A | 0x2B
                    | 0x2E | 0x30 | 0x32 | 0x33 | 0x38 | 0x39 | 0x3A | 0x3B | 0x3E | 0x46 | 0x4E
                    | 0x56 | 0x5E | 0x66 | 0x6E | 0x70 | 0x71 | 0x72 | 0x73 | 0x74 | 0x75 | 0x77
                    | 0x7E | 0x86 | 0x8E | 0x96 | 0x9E | 0xA6 | 0xAE | 0xB6 | 0xBE | 0xC0 | 0xC6
                    | 0xC8 | 0xCE | 0xD0 | 0xD6 | 0xD8 | 0xDE | 0xE2 | 0xE6 | 0xEE | 0xF2 | 0xF6
                    | 0xF9 | 0xFE => 8,
                0x01 | 0x11 | 0x18 | 0x21 | 0x31 | 0x34 | 0x35 | 0x36 | 0xC1 | 0xC2 | 0xC4 | 0xCA
                    | 0xCC | 0xD1 | 0xD2 | 0xD4 | 0xDA | 0xDC | 0xE0 | 0xE1 | 0xF0 | 0xF1
                    | 0xF8 => 12,
                0xC3 | 0xC5 | 0xC7 | 0xC9 | 0xCF | 0xD5 | 0xD7 | 0xD9 | 0xDF | 0xE5 | 0xE7 | 0xE8
                    | 0xEA | 0xEF | 0xF5 | 0xF7 | 0xFA | 0xFF => 16,
                0x08 => 20,
                0xCD => 24,
                _ => 4,
            }
        }
    }

    /// Total T-cycle count of a CB opcode, prefix included.
    pub fn cb_instruction_cycles(opcode: u8) -> (r: u32)
        ensures
            r == spec_cb_cycles(opcode),
    {
        if opcode & 7 == 6 {
            if 0x40 <= opcode && opcode < 0x80 {
                12
            } else {
                16
            }
        } else {
            8
        }
    }

    /// Whether a base opcode is one of the 11 table holes.
    pub fn is_undefined(opcode: u8) -> (r: bool)
        ensures
            r == spec_undefined_op(opcode),
    {
        match opcode {
            0xD3 | 0xDB | 0xDD | 0xE3 | 0xE4 | 0xEB | 0xEC | 0xED | 0xF4 | 0xFC | 0xFD => true,
            _ => false,
        }
    }

    /// Condition decode of JR/JP/CALL/RET cc.
    pub fn condition_holds(opcode: u8, registers: &Registers) -> (r: bool)
        ensures
            r == spec_cond_holds(opcode, *registers),
    {
        match opcode {
            0x20 | 0xC0 | 0xC2 | 0xC4 => !registers.zero_flag(),
            0x28 | 0xC8 | 0xCA | 0xCC => registers.zero_flag(),
            0x30 | 0xD0 | 0xD2 | 0xD4 => !registers.carry_flag(),
            _ => registers.carry_flag(),
        }
    }

    /// LD r, v.
    pub fn ld_8bit(registers: &mut Registers, register: Register, value: u8)
        requires
            Registers::spec_is_8bit(register),
        ensures
            final(registers).spec_get8(register) == value,
            forall|o: Register|
                Registers::spec_is_8bit(o) && o != register ==> final(registers).spec_get8(o)
                    == old(registers).spec_get8(o),
            final(registers).flag_z == old(registers).flag_z,
            final(registers).flag_n == old(registers).flag_n,
            final(registers).flag_h == old(registers).flag_h,
            final(registers).flag_c == old(registers).flag_c,
            final(registers).sp == old(registers).sp,
            final(registers).pc == old(registers).pc,
    {
        registers.set_8bit_register(register, value);
    }

    /// LD (addr), v through the bus policy; a rejected write is a no-op.
    pub fn ld_8bit_mem(mmu: &mut Mmu, address: u16, value: u8)
        requires
            old(mmu).wf(),
        ensures
            final(mmu).wf(),
            final(mmu).spec_cartridge() == old(mmu).spec_cartridge(),
            final(mmu)@ == spec_mem_store(old(mmu)@, address as int, value),
    {
        match mmu.write_byte(address as usize, value) {
            Ok(()) => (),
            Err(_) => (),
        }
    }

    /// LD rr, d16.
    pub fn ld_16bit(registers: &mut Registers, register: Register, lower_byte: u8, higher_byte: u8)
        requires
            Registers::spec_is_16bit(register),
        ensures
            ({
                let v = spec_concat(lower_byte, higher_byte);
                &&& (register is AF ==> *final(registers) == old(registers).spec_with_af(v))
                &&& (register is BC ==> *final(registers) == old(registers).spec_with_bc(v))
                &&& (register is DE ==> *final(registers) == old(registers).spec_with_de(v))
                &&& (register is HL ==> *final(registers) == old(registers).spec_with_hl(v))
                &&& (register is SP ==> *final(registers) == (Registers {
                    sp: v,
                    ..*old(registers)
                }))
                &&& (register is PC ==> *final(registers) == (Registers {
                    pc: v,
                    ..*old(registers)
                }))
            }),
    {
        let value = crate::bits::concatenate_bytes(lower_byte, higher_byte);
        registers.set_16bit_register(register, value);
    }

    /// JP a16: absolute jump from two operand bytes.
    pub fn jmp(registers: &mut Registers, lower_order_byte: u8, higher_order_byte: u8)
        ensures
            *final(registers) == (Registers {
                pc: spec_concat(lower_order_byte, higher_order_byte),
                ..*old(registers)
            }),
    {
        let address = crate::bits::concatenate_bytes(lower_order_byte, higher_order_byte);
        registers.set_pc(address);
    }

    /// JP to an absolute address.
    pub fn jp(registers: &mut Registers, address: u16)
        ensures
            *final(registers) == (Registers { pc: address, ..*old(registers) }),
    {
        registers.set_pc(address);
    }

    /// JR s8: relative jump; the byte is read as a two's-complement
    /// offset from the address after the operand.
    pub fn jr(registers: &mut Registers, steps: u8)
        ensures
            *final(registers) == (Registers {
                pc: add16(old(registers).pc, crate::alu::spec_sign_ext(steps)),
                ..*old(registers)
            }),
    {
        let ext: u16 = if steps < 0x80 {
            steps as u16
        } else {
            steps as u16 + 0xFF00
        };
        let target: u16 = (((registers.pc() as u32) + (ext as u32)) % 0x10000) as u16;
        registers.set_pc(target);
    }

    /// PUSH v: high byte at SP-1, low byte at SP-2; SP moves down by two.
    pub fn push(mmu: &mut Mmu, registers: &mut Registers, value: u16)
        requires
            old(mmu).wf(),
        ensures
            final(mmu).wf(),
            final(mmu).spec_cartridge() == old(mmu).spec_cartridge(),
            final(mmu)@ == spec_push16(old(mmu)@, old(registers).sp, value),
            *final(registers) == (Registers {
                sp: sub16(old(registers).sp, 2),
                ..*old(registers)
            }),
    {
        let (value_lower, value_higher) = crate::bits::split_2bytes(value);
        registers.decrement_sp();
        Self::ld_8bit_mem(mmu, registers.sp(), value_higher);
        registers.decrement_sp();
        Self::ld_8bit_mem(mmu, registers.sp(), value_lower);
    }

    /// POP rr: reads low at SP, high at SP+1, moves SP up by two, and
    /// stores into the pair (AF discards the low nibble of F).
    pub fn pop(mmu: &Mmu, registers: &mut Registers, register: Register)
        requires
            mmu.wf(),
            register is AF || register is BC || register is DE || register is HL,
        ensures
            ({
                let v = spec_pop16(mmu@, old(registers).sp);
                let moved = Registers { sp: add16(old(registers).sp, 2), ..*old(registers) };
                &&& (register is AF ==> *final(registers) == moved.spec_with_af(v))
                &&& (register is BC ==> *final(registers) == moved.spec_with_bc(v))
                &&& (register is DE ==> *final(registers) == moved.spec_with_de(v))
                &&& (register is HL ==> *final(registers) == moved.spec_with_hl(v))
            }),
    {
        let value_lower = match mmu.read_byte(registers.sp() as usize) {
            Ok(v) => v,
            Err(_) => 0,
        };
        registers.increment_sp();
        let value_higher = match mmu.read_byte(registers.sp() as usize) {
            Ok(v) => v,
            Err(_) => 0,
        };
        registers.increment_sp();
        let value = crate::bits::concatenate_bytes(value_lower, value_higher);
        registers.set_16bit_register(register, value);
    }

    /// RET: pops the return address into PC.
    pub fn ret(mmu: &Mmu, registers: &mut Registers)
        requires
            mmu.wf(),
        ensures
            *final(registers) == (Registers {
                pc: spec_pop16(mmu@, old(registers).sp),
                sp: add16(old(registers).sp, 2),
                ..*old(registers)
            }),
    {
        let value_lower = match mmu.read_byte(registers.sp() as usize) {
            Ok(v) => v,
            Err(_) => 0,
        };
        registers.increment_sp();
        let value_higher = match mmu.read_byte(registers.sp() as usize) {
            Ok(v) => v,
            Err(_) => 0,
        };
        registers.increment_sp();
        let value = crate::bits::concatenate_bytes(value_lower, value_higher);
        registers.set_pc(value);
    }

    /// CALL a16: pushes the address of the next instruction, then jumps.
    pub fn call(mmu: &mut Mmu, registers: &mut Registers, lower_byte: u8, higher_byte: u8)
        requires
            old(mmu).wf(),
        ensures
            final(mmu).wf(),
            final(mmu).spec_cartridge() == old(mmu).spec_cartridge(),
            final(mmu)@ == spec_push16(old(mmu)@, old(registers).sp, old(registers).pc),
            *final(registers) == (Registers {
                pc: spec_concat(lower_byte, higher_byte),
                sp: sub16(old(registers).sp, 2),
                ..*old(registers)
            }),
    {
        let pc = registers.pc();
        Self::push(mmu, registers, pc);
        let jump_address = crate::bits::concatenate_bytes(lower_byte, higher_byte);
        registers.set_pc(jump_address);
    }
}

} // verus!
