//! Value-level semantics of the arithmetic, logic, rotate and shift
//! operations, and their register-file effects. Every operation is given an
//! exact mathematical result together with the Z/N/H/C flag rules of the
//! DMG core: additions carry the incoming carry into both the half-carry
//! and carry tests, subtractions use the symmetric borrow rules, and every
//! 8- and 16-bit result wraps.

use vstd::prelude::*;

use crate::bits::{add16, spec_concat, spec_half_borrow_sub, spec_half_carry_add};
use crate::instructions::InstructionSet;
use crate::mmu::{spec_mem_store, spec_read_of, Mmu};
use crate::registers::{Register, Registers};

verus! {

/// Carry-in as an integer.
pub open spec fn carry_in(c: bool) -> int {
    if c {
        1
    } else {
        0
    }
}

/// 8-bit sum, wrapping.
pub open spec fn spec_add_r(a: u8, x: u8) -> u8 {
    ((a + x) % 256) as u8
}

/// 8-bit sum with carry-in, wrapping.
pub open spec fn spec_adc_r(a: u8, x: u8, c: bool) -> u8 {
    ((a + x + carry_in(c)) % 256) as u8
}

/// Half-carry of an addition that includes the carry-in.
pub open spec fn spec_adc_h(a: u8, x: u8, c: bool) -> bool {
    (a & 0xF) + (x & 0xF) + carry_in(c) > 0xF
}

/// 8-bit difference, wrapping.
pub open spec fn spec_sub_r(a: u8, x: u8) -> u8 {
    ((a + 256 - x) % 256) as u8
}

/// 8-bit difference with borrow-in, wrapping.
pub open spec fn spec_sbc_r(a: u8, x: u8, c: bool) -> u8 {
    ((a + 512 - x - carry_in(c)) % 256) as u8
}

/// Half-borrow of a subtraction that includes the borrow-in.
pub open spec fn spec_sbc_h(a: u8, x: u8, c: bool) -> bool {
    (a & 0xF) < (x & 0xF) + carry_in(c)
}

/// The sign-extended 16-bit reading of a byte used by relative jumps and
/// the SP+s8 forms.
pub open spec fn spec_sign_ext(steps: u8) -> u16 {
    if steps < 0x80 {
        steps as u16
    } else {
        (steps + 0xFF00) as u16
    }
}

/// Rotate left, bit 7 into bit 0.
pub open spec fn spec_rlc(v: u8) -> u8 {
    (v << 1) | (v >> 7)
}

/// Rotate right, bit 0 into bit 7.
pub open spec fn spec_rrc(v: u8) -> u8 {
    (v >> 1) | (v << 7)
}

/// Rotate left through carry.
pub open spec fn spec_rl(v: u8, c: bool) -> u8 {
    (v << 1) | (if c {
        1u8
    } else {
        0u8
    })
}

/// Rotate right through carry.
pub open spec fn spec_rr(v: u8, c: bool) -> u8 {
    (v >> 1) | (if c {
        0x80u8
    } else {
        0u8
    })
}

/// Arithmetic shift left.
pub open spec fn spec_sla(v: u8) -> u8 {
    v << 1
}

/// Arithmetic shift right (bit 7 kept).
pub open spec fn spec_sra(v: u8) -> u8 {
    (v >> 1) | (v & 0x80)
}

/// Nibble swap.
pub open spec fn spec_swap(v: u8) -> u8 {
    (v << 4) | (v >> 4)
}

/// Logical shift right.
pub open spec fn spec_srl(v: u8) -> u8 {
    v >> 1
}

/// The A-register adjustment of DAA: the pair (new A, new carry), derived
/// from the N, H and C flags after a BCD addition or subtraction.
pub open spec fn spec_daa(a: u8, n: bool, h: bool, c: bool) -> (u8, bool) {
    if !n {
        let lo_adj: u8 = if h || (a & 0xF) > 9 {
            0x06
        } else {
            0
        };
        let hi_adj: bool = c || a > 0x99;
        let adj: u8 = if hi_adj {
            (lo_adj + 0x60) as u8
        } else {
            lo_adj
        };
        ((((a + adj) % 256) as u8), hi_adj)
    } else {
        let adj: int = (if h {
            6int
        } else {
            0int
        }) + (if c {
            0x60int
        } else {
            0int
        });
        ((((a + 256 - adj) % 256) as u8), c)
    }
}

/// The register file after ADD A, x.
pub open spec fn spec_apply_add(r: Registers, a: u8, x: u8) -> Registers {
    Registers {
        a: spec_add_r(a, x),
        flag_z: spec_add_r(a, x) == 0,
        flag_n: false,
        flag_h: spec_half_carry_add(a, x),
        flag_c: a + x > 0xFF,
        ..r
    }
}

/// The register file after ADC A, x (the old carry joins every test).
pub open spec fn spec_apply_adc(r: Registers, a: u8, x: u8) -> Registers {
    Registers {
        a: spec_adc_r(a, x, r.flag_c),
        flag_z: spec_adc_r(a, x, r.flag_c) == 0,
        flag_n: false,
        flag_h: spec_adc_h(a, x, r.flag_c),
        flag_c: a + x + carry_in(r.flag_c) > 0xFF,
        ..r
    }
}

/// The register file after SUB x.
pub open spec fn spec_apply_sub(r: Registers, a: u8, x: u8) -> Registers {
    Registers {
        a: spec_sub_r(a, x),
        flag_z: spec_sub_r(a, x) == 0,
        flag_n: true,
        flag_h: spec_half_borrow_sub(a, x),
        flag_c: x > a,
        ..r
    }
}

/// The register file after SBC A, x.
pub open spec fn spec_apply_sbc(r: Registers, a: u8, x: u8) -> Registers {
    Registers {
        a: spec_sbc_r(a, x, r.flag_c),
        flag_z: spec_sbc_r(a, x, r.flag_c) == 0,
        flag_n: true,
        flag_h: spec_sbc_h(a, x, r.flag_c),
        flag_c: x + carry_in(r.flag_c) > a,
        ..r
    }
}

/// The register file after AND x.
pub open spec fn spec_apply_and(r: Registers, a: u8, x: u8) -> Registers {
    Registers { a: a & x, flag_z: a & x == 0, flag_n: false, flag_h: true, flag_c: false, ..r }
}

/// The register file after XOR x.
pub open spec fn spec_apply_xor(r: Registers, a: u8, x: u8) -> Registers {
    Registers { a: a ^ x, flag_z: a ^ x == 0, flag_n: false, flag_h: false, flag_c: false, ..r }
}

/// The register file after OR x.
pub open spec fn spec_apply_or(r: Registers, a: u8, x: u8) -> Registers {
    Registers { a: a | x, flag_z: a | x == 0, flag_n: false, flag_h: false, flag_c: false, ..r }
}

/// The register file after CP x: the flags of SUB, A untouched.
pub open spec fn spec_apply_cp(r: Registers, a: u8, x: u8) -> Registers {
    Registers {
        flag_z: spec_sub_r(a, x) == 0,
        flag_n: true,
        flag_h: spec_half_borrow_sub(a, x),
        flag_c: x > a,
        ..r
    }
}

/// Register file and memory after one opcode of the LD block
/// (0x40..0x7F): a plain move between registers, a load from (HL), a
/// store to (HL), or HALT (a no-op in this core).
pub open spec fn spec_ld_effect(op: u8, r: Registers, m: Seq<u8>) -> (Registers, Seq<u8>) {
    match op {
        0x40 => (Registers { b: r.b, ..r }, m),
        0x41 => (Registers { b: r.c, ..r }, m),
        0x42 => (Registers { b: r.d, ..r }, m),
        0x43 => (Registers { b: r.e, ..r }, m),
        0x44 => (Registers { b: r.h, ..r }, m),
        0x45 => (Registers { b: r.l, ..r }, m),
        0x46 => (Registers { b: spec_read_of(m, r.spec_hl()), ..r }, m),
        0x47 => (Registers { b: r.a, ..r }, m),
        0x48 => (Registers { c: r.b, ..r }, m),
        0x49 => (Registers { c: r.c, ..r }, m),
        0x4A => (Registers { c: r.d, ..r }, m),
        0x4B => (Registers { c: r.e, ..r }, m),
        0x4C => (Registers { c: r.h, ..r }, m),
        0x4D => (Registers { c: r.l, ..r }, m),
        0x4E => (Registers { c: spec_read_of(m, r.spec_hl()), ..r }, m),
        0x4F => (Registers { c: r.a, ..r }, m),
        0x50 => (Registers { d: r.b, ..r }, m),
        0x51 => (Registers { d: r.c, ..r }, m),
        0x52 => (Registers { d: r.d, ..r }, m),
        0x53 => (Registers { d: r.e, ..r }, m),
        0x54 => (Registers { d: r.h, ..r }, m),
        0x55 => (Registers { d: r.l, ..r }, m),
        0x56 => (Registers { d: spec_read_of(m, r.spec_hl()), ..r }, m),
        0x57 => (Registers { d: r.a, ..r }, m),
        0x58 => (Registers { e: r.b, ..r }, m),
        0x59 => (Registers { e: r.c, ..r }, m),
        0x5A => (Registers { e: r.d, ..r }, m),
        0x5B => (Registers { e: r.e, ..r }, m),
        0x5C => (Registers { e: r.h, ..r }, m),
        0x5D => (Registers { e: r.l, ..r }, m),
        0x5E => (Registers { e: spec_read_of(m, r.spec_hl()), ..r }, m),
        0x5F => (Registers { e: r.a, ..r }, m),
        0x60 => (Registers { h: r.b, ..r }, m),
        0x61 => (Registers { h: r.c, ..r }, m),
        0x62 => (Registers { h: r.d, ..r }, m),
        0x63 => (Registers { h: r.e, ..r }, m),
        0x64 => (Registers { h: r.h, ..r }, m),
        0x65 => (Registers { h: r.l, ..r }, m),
        0x66 => (Registers { h: spec_read_of(m, r.spec_hl()), ..r }, m),
        0x67 => (Registers { h: r.a, ..r }, m),
        0x68 => (Registers { l: r.b, ..r }, m),
        0x69 => (Registers { l: r.c, ..r }, m),
        0x6A => (Registers { l: r.d, ..r }, m),
        0x6B => (Registers { l: r.e, ..r }, m),
        0x6C => (Registers { l: r.h, ..r }, m),
        0x6D => (Registers { l: r.l, ..r }, m),
        0x6E => (Registers { l: spec_read_of(m, r.spec_hl()), ..r }, m),
        0x6F => (Registers { l: r.a, ..r }, m),
        0x70 => (r, spec_mem_store(m, r.spec_hl() as int, r.b)),
        0x71 => (r, spec_mem_store(m, r.spec_hl() as int, r.c)),
        0x72 => (r, spec_mem_store(m, r.spec_hl() as int, r.d)),
        0x73 => (r, spec_mem_store(m, r.spec_hl() as int, r.e)),
        0x74 => (r, spec_mem_store(m, r.spec_hl() as int, r.h)),
        0x75 => (r, spec_mem_store(m, r.spec_hl() as int, r.l)),
        0x76 => (r, m),
        0x77 => (r, spec_mem_store(m, r.spec_hl() as int, r.a)),
        0x78 => (Registers { a: r.b, ..r }, m),
        0x79 => (Registers { a: r.c, ..r }, m),
        0x7A => (Registers { a: r.d, ..r }, m),
        0x7B => (Registers { a: r.e, ..r }, m),
        0x7C => (Registers { a: r.h, ..r }, m),
        0x7D => (Registers { a: r.l, ..r }, m),
        0x7E => (Registers { a: spec_read_of(m, r.spec_hl()), ..r }, m),
        0x7F => (Registers { a: r.a, ..r }, m),
        _ => (r, m),
    }
}

/// The register file after one opcode of the ALU block (0x80..0xBF),
/// reading its source register or (HL).
pub open spec fn spec_alu_effect(op: u8, r: Registers, m: Seq<u8>) -> Registers {
    match op {
        0x80 => spec_apply_add(r, r.a, r.b),
        0x81 => spec_apply_add(r, r.a, r.c),
        0x82 => spec_apply_add(r, r.a, r.d),
        0x83 => spec_apply_add(r, r.a, r.e),
        0x84 => spec_apply_add(r, r.a, r.h),
        0x85 => spec_apply_add(r, r.a, r.l),
        0x86 => spec_apply_add(r, r.a, spec_read_of(m, r.spec_hl())),
        0x87 => spec_apply_add(r, r.a, r.a),
        0x88 => spec_apply_adc(r, r.a, r.b),
        0x89 => spec_apply_adc(r, r.a, r.c),
        0x8A => spec_apply_adc(r, r.a, r.d),
        0x8B => spec_apply_adc(r, r.a, r.e),
        0x8C => spec_apply_adc(r, r.a, r.h),
        0x8D => spec_apply_adc(r, r.a, r.l),
        0x8E => spec_apply_adc(r, r.a, spec_read_of(m, r.spec_hl())),
        0x8F => spec_apply_adc(r, r.a, r.a),
        0x90 => spec_apply_sub(r, r.a, r.b),
        0x91 => spec_apply_sub(r, r.a, r.c),
        0x92 => spec_apply_sub(r, r.a, r.d),
        0x93 => spec_apply_sub(r, r.a, r.e),
        0x94 => spec_apply_sub(r, r.a, r.h),
        0x95 => spec_apply_sub(r, r.a, r.l),
        0x96 => spec_apply_sub(r, r.a, spec_read_of(m, r.spec_hl())),
        0x97 => spec_apply_sub(r, r.a, r.a),
        0x98 => spec_apply_sbc(r, r.a, r.b),
        0x99 => spec_apply_sbc(r, r.a, r.c),
        0x9A => spec_apply_sbc(r, r.a, r.d),
        0x9B => spec_apply_sbc(r, r.a, r.e),
        0x9C => spec_apply_sbc(r, r.a, r.h),
        0x9D => spec_apply_sbc(r, r.a, r.l),
        0x9E => spec_apply_sbc(r, r.a, spec_read_of(m, r.spec_hl())),
        0x9F => spec_apply_sbc(r, r.a, r.a),
        0xA0 => spec_apply_and(r, r.a, r.b),
        0xA1 => spec_apply_and(r, r.a, r.c),
        0xA2 => spec_apply_and(r, r.a, r.d),
        0xA3 => spec_apply_and(r, r.a, r.e),
        0xA4 => spec_apply_and(r, r.a, r.h),
        0xA5 => spec_apply_and(r, r.a, r.l),
        0xA6 => spec_apply_and(r, r.a, spec_read_of(m, r.spec_hl())),
        0xA7 => spec_apply_and(r, r.a, r.a),
        0xA8 => spec_apply_xor(r, r.a, r.b),
        0xA9 => spec_apply_xor(r, r.a, r.c),
        0xAA => spec_apply_xor(r, r.a, r.d),
        0xAB => spec_apply_xor(r, r.a, r.e),
        0xAC => spec_apply_xor(r, r.a, r.h),
        0xAD => spec_apply_xor(r, r.a, r.l),
        0xAE => spec_apply_xor(r, r.a, spec_read_of(m, r.spec_hl())),
        0xAF => spec_apply_xor(r, r.a, r.a),
        0xB0 => spec_apply_or(r, r.a, r.b),
        0xB1 => spec_apply_or(r, r.a, r.c),
        0xB2 => spec_apply_or(r, r.a, r.d),
        0xB3 => spec_apply_or(r, r.a, r.e),
        0xB4 => spec_apply_or(r, r.a, r.h),
        0xB5 => spec_apply_or(r, r.a, r.l),
        0xB6 => spec_apply_or(r, r.a, spec_read_of(m, r.spec_hl())),
        0xB7 => spec_apply_or(r, r.a, r.a),
        0xB8 => spec_apply_cp(r, r.a, r.b),
        0xB9 => spec_apply_cp(r, r.a, r.c),
        0xBA => spec_apply_cp(r, r.a, r.d),
        0xBB => spec_apply_cp(r, r.a, r.e),
        0xBC => spec_apply_cp(r, r.a, r.h),
        0xBD => spec_apply_cp(r, r.a, r.l),
        0xBE => spec_apply_cp(r, r.a, spec_read_of(m, r.spec_hl())),
        0xBF => spec_apply_cp(r, r.a, r.a),
        _ => r,
    }
}

/// The register file after an immediate-operand ALU opcode
/// (0xC6, 0xCE, ... 0xFE) with operand byte x.
pub open spec fn spec_alu_imm_effect(op: u8, r: Registers, x: u8) -> Registers {
    match op {
        0xC6 => spec_apply_add(r, r.a, x),
        0xCE => spec_apply_adc(r, r.a, x),
        0xD6 => spec_apply_sub(r, r.a, x),
        0xDE => spec_apply_sbc(r, r.a, x),
        0xE6 => spec_apply_and(r, r.a, x),
        0xEE => spec_apply_xor(r, r.a, x),
        0xF6 => spec_apply_or(r, r.a, x),
        0xFE => spec_apply_cp(r, r.a, x),
        _ => r,
    }
}

impl InstructionSet {
    /// Increment an 8-bit register. Flags: Z from the result, N cleared,
    /// H from the half-carry of old+1, C untouched.
    pub fn inc_8bit(registers: &mut Registers, register: Register)
        requires
            Registers::spec_is_8bit(register),
        ensures
            ({
                let v = old(registers).spec_get8(register);
                let r = spec_add_r(v, 1);
                *final(registers) == (Registers {
                    flag_z: r == 0,
                    flag_n: false,
                    flag_h: spec_half_carry_add(v, 1),
                    ..old(registers).spec_set8(register, r)
                })
            }),
    {
        let original_value = registers.get_8bit_register(register);
        let new_value: u8 = if original_value == 0xFF {
            0
        } else {
            original_value + 1
        };
        registers.set_8bit_register(register, new_value);
        registers.set_zero_flag(new_value == 0);
        registers.set_subtraction_flag(false);
        registers.set_half_carry_flag(crate::bits::carry_check_add_8bit(original_value, 1));
    }

    /// Decrement an 8-bit register. Flags: Z from the result, N set,
    /// H from the half-borrow of old-1, C untouched.
    pub fn dec_8bit(registers: &mut Registers, register: Register)
        requires
            Registers::spec_is_8bit(register),
        ensures
            ({
                let v = old(registers).spec_get8(register);
                let r = spec_sub_r(v, 1);
                *final(registers) == (Registers {
                    flag_z: r == 0,
                    flag_n: true,
                    flag_h: spec_half_borrow_sub(v, 1),
                    ..old(registers).spec_set8(register, r)
                })
            }),
    {
        let original_value = registers.get_8bit_register(register);
        let new_value: u8 = if original_value == 0 {
            0xFF
        } else {
            original_value - 1
        };
        registers.set_8bit_register(register, new_value);
        registers.set_zero_flag(new_value == 0);
        registers.set_subtraction_flag(true);
        registers.set_half_carry_flag(crate::bits::carry_check_sub_8bit(original_value, 1));
    }

    /// Increment a 16-bit register pair, wrapping; no flags.
    pub fn inc_16bit(registers: &mut Registers, register: Register)
        requires
            Registers::spec_is_16bit(register),
            !(register is AF),
        ensures
            ({
                let v = add16(old(registers).spec_get16(register), 1);
                &&& (register is BC ==> *final(registers) == old(registers).spec_with_bc(v))
                &&& (register is DE ==> *final(registers) == old(registers).spec_with_de(v))
                &&& (register is HL ==> *final(registers) == old(registers).spec_with_hl(v))
                &&& (register is SP ==> *final(registers) == (Registers {
                    sp: v,
                    ..*old(registers)
                }))
                &&& (register is PC ==> *final(registers) == (Registers {
                    pc: v,
                    ..*old(registers)
                }))
            }),
    {
        let original_value = registers.get_16bit_register(register);
        let new_value: u16 = if original_value == 0xFFFF {
            0
        } else {
            original_value + 1
        };
        registers.set_16bit_register(register, new_value);
    }

    /// Decrement a 16-bit register pair, wrapping; no flags.
    pub fn dec_16bit(registers: &mut Registers, register: Register)
        requires
            Registers::spec_is_16bit(register),
            !(register is AF),
        ensures
            ({
                let v = crate::bits::sub16(old(registers).spec_get16(register), 1);
                &&& (register is BC ==> *final(registers) == old(registers).spec_with_bc(v))
                &&& (register is DE ==> *final(registers) == old(registers).spec_with_de(v))
                &&& (register is HL ==> *final(registers) == old(registers).spec_with_hl(v))
                &&& (register is SP ==> *final(registers) == (Registers {
                    sp: v,
                    ..*old(registers)
                }))
                &&& (register is PC ==> *final(registers) == (Registers {
                    pc: v,
                    ..*old(registers)
                }))
            }),
    {
        let original_value = registers.get_16bit_register(register);
        let new_value: u16 = if original_value == 0 {
            0xFFFF
        } else {
            original_value - 1
        };
        registers.set_16bit_register(register, new_value);
    }

    /// Increment the byte at a bus address (the `(HL)` form). The write
    /// obeys the bus policy; flags are set from the old byte even when the
    /// region rejects the store.
    pub fn inc_mem(registers: &mut Registers, mmu: &mut Mmu, address: usize)
        requires
            old(mmu).wf(),
            address <= 0xFFFF,
        ensures
            final(mmu).wf(),
            final(mmu).spec_cartridge() == old(mmu).spec_cartridge(),
            ({
                let v = old(mmu).spec_read(address as int);
                let r = spec_add_r(v, 1);
                &&& final(mmu)@ == spec_mem_store(old(mmu)@, address as int, r)
                &&& *final(registers) == (Registers {
                    flag_z: r == 0,
                    flag_n: false,
                    flag_h: spec_half_carry_add(v, 1),
                    ..*old(registers)
                })
            }),
    {
        let original_value = match mmu.read_byte(address) {
            Ok(v) => v,
            Err(_) => 0,
        };
        let new_value: u8 = if original_value == 0xFF {
            0
        } else {
            original_value + 1
        };
        Self::ld_8bit_mem(mmu, address as u16, new_value);
        registers.set_zero_flag(new_value == 0);
        registers.set_subtraction_flag(false);
        registers.set_half_carry_flag(crate::bits::carry_check_add_8bit(original_value, 1));
    }

    /// Decrement the byte at a bus address (the `(HL)` form).
    pub fn dec_mem(registers: &mut Registers, mmu: &mut Mmu, address: usize)
        requires
            old(mmu).wf(),
            address <= 0xFFFF,
        ensures
            final(mmu).wf(),
            final(mmu).spec_cartridge() == old(mmu).spec_cartridge(),
            ({
                let v = old(mmu).spec_read(address as int);
                let r = spec_sub_r(v, 1);
                &&& final(mmu)@ == spec_mem_store(old(mmu)@, address as int, r)
                &&& *final(registers) == (Registers {
                    flag_z: r == 0,
                    flag_n: true,
                    flag_h: spec_half_borrow_sub(v, 1),
                    ..*old(registers)
                })
            }),
    {
        let original_value = match mmu.read_byte(address) {
            Ok(v) => v,
            Err(_) => 0,
        };
        let new_value: u8 = if original_value == 0 {
            0xFF
        } else {
            original_value - 1
        };
        Self::ld_8bit_mem(mmu, address as u16, new_value);
        registers.set_zero_flag(new_value == 0);
        registers.set_subtraction_flag(true);
        registers.set_half_carry_flag(crate::bits::carry_check_sub_8bit(original_value, 1));
    }

    /// ADD A, x. Flags: Z from result, N cleared, H half-carry, C carry.
    pub fn add(registers: &mut Registers, left: u8, right: u8)
        ensures
            *final(registers) == (Registers {
                a: spec_add_r(left, right),
                flag_z: spec_add_r(left, right) == 0,
                flag_n: false,
                flag_h: spec_half_carry_add(left, right),
                flag_c: left + right > 0xFF,
                ..*old(registers)
            }),
    {
        let sum_wide: u16 = left as u16 + right as u16;
        let sum: u8 = (sum_wide % 256) as u8;
        registers.set_a(sum);
        registers.set_zero_flag(sum == 0);
        registers.set_subtraction_flag(false);
        registers.set_half_carry_flag(crate::bits::carry_check_add_8bit(left, right));
        registers.set_carry_flag(sum_wide > 0xFF);
    }

    /// ADC A, x: the carry flag joins both the sum and the H/C tests.
    pub fn adc(registers: &mut Registers, left: u8, right: u8)
        ensures
            ({
                let cin = old(registers).flag_c;
                let r = spec_adc_r(left, right, cin);
                *final(registers) == (Registers {
                    a: r,
                    flag_z: r == 0,
                    flag_n: false,
                    flag_h: spec_adc_h(left, right, cin),
                    flag_c: left + right + carry_in(cin) > 0xFF,
                    ..*old(registers)
                })
            }),
    {
        let cin: u8 = if registers.carry_flag() {
            1
        } else {
            0
        };
        let sum_wide: u16 = left as u16 + right as u16 + cin as u16;
        let sum: u8 = (sum_wide % 256) as u8;
        proof {
            crate::bits::lemma_low_nibble_bound(left);
            crate::bits::lemma_low_nibble_bound(right);
        }
        let half: bool = (left & 0xF) + (right & 0xF) + cin > 0xF;
        registers.set_a(sum);
        registers.set_zero_flag(sum == 0);
        registers.set_subtraction_flag(false);
        registers.set_half_carry_flag(half);
        registers.set_carry_flag(sum_wide > 0xFF);
    }

    /// SUB x. Flags: Z from result, N set, H half-borrow, C borrow.
    pub fn sub(registers: &mut Registers, left: u8, right: u8)
        ensures
            *final(registers) == (Registers {
                a: spec_sub_r(left, right),
                flag_z: spec_sub_r(left, right) == 0,
                flag_n: true,
                flag_h: spec_half_borrow_sub(left, right),
                flag_c: right > left,
                ..*old(registers)
            }),
    {
        let diff: u8 = if left >= right {
            left - right
        } else {
            (((left as u16 + 256) - right as u16) % 256) as u8
        };
        registers.set_a(diff);
        registers.set_zero_flag(diff == 0);
        registers.set_subtraction_flag(true);
        registers.set_half_carry_flag(crate::bits::carry_check_sub_8bit(left, right));
        registers.set_carry_flag(right > left);
    }

    /// SBC A, x: the carry flag joins both the difference and the H/C
    /// tests.
    pub fn sbc(registers: &mut Registers, left: u8, right: u8)
        ensures
            ({
                let cin = old(registers).flag_c;
                let r = spec_sbc_r(left, right, cin);
                *final(registers) == (Registers {
                    a: r,
                    flag_z: r == 0,
                    flag_n: true,
                    flag_h: spec_sbc_h(left, right, cin),
                    flag_c: right + carry_in(cin) > left,
                    ..*old(registers)
                })
            }),
    {
        let cin: u8 = if registers.carry_flag() {
            1
        } else {
            0
        };
        let diff: u8 = ((left as u16 + 512 - right as u16 - cin as u16) % 256) as u8;
        proof {
            crate::bits::lemma_low_nibble_bound(left);
            crate::bits::lemma_low_nibble_bound(right);
        }
        let half: bool = (left & 0xF) < (right & 0xF) + cin;
        registers.set_a(diff);
        registers.set_zero_flag(diff == 0);
        registers.set_subtraction_flag(true);
        registers.set_half_carry_flag(half);
        registers.set_carry_flag(right as u16 + cin as u16 > left as u16);
    }

    /// AND x. Flags: Z from result, N=0, H=1, C=0.
    pub fn and(registers: &mut Registers, left: u8, right: u8)
        ensures
            *final(registers) == (Registers {
                a: left & right,
                flag_z: left & right == 0,
                flag_n: false,
                flag_h: true,
                flag_c: false,
                ..*old(registers)
            }),
    {
        let result = left & right;
        registers.set_a(result);
        registers.set_zero_flag(result == 0);
        registers.set_subtraction_flag(false);
        registers.set_half_carry_flag(true);
        registers.set_carry_flag(false);
    }

    /// OR x. Flags: Z from result, N=0, H=0, C=0.
    pub fn or(registers: &mut Registers, left: u8, right: u8)
        ensures
            *final(registers) == (Registers {
                a: left | right,
                flag_z: left | right == 0,
                flag_n: false,
                flag_h: false,
                flag_c: false,
                ..*old(registers)
            }),
    {
        let result = left | right;
        registers.set_a(result);
        registers.set_zero_flag(result == 0);
        registers.set_subtraction_flag(false);
        registers.set_half_carry_flag(false);
        registers.set_carry_flag(false);
    }

    /// XOR x. Flags: Z from result, N=0, H=0, C=0.
    pub fn xor(registers: &mut Registers, left: u8, right: u8)
        ensures
            *final(registers) == (Registers {
                a: left ^ right,
                flag_z: left ^ right == 0,
                flag_n: false,
                flag_h: false,
                flag_c: false,
                ..*old(registers)
            }),
    {
        let result = left ^ right;
        registers.set_a(result);
        registers.set_zero_flag(result == 0);
        registers.set_subtraction_flag(false);
        registers.set_half_carry_flag(false);
        registers.set_carry_flag(false);
    }

    /// CP x: the flags of SUB without storing the result.
    pub fn cp(registers: &mut Registers, left: u8, right: u8)
        ensures
            *final(registers) == (Registers {
                flag_z: spec_sub_r(left, right) == 0,
                flag_n: true,
                flag_h: spec_half_borrow_sub(left, right),
                flag_c: right > left,
                ..*old(registers)
            }),
    {
        let diff: u8 = if left >= right {
            left - right
        } else {
            (((left as u16 + 256) - right as u16) % 256) as u8
        };
        registers.set_zero_flag(diff == 0);
        registers.set_subtraction_flag(true);
        registers.set_half_carry_flag(crate::bits::carry_check_sub_8bit(left, right));
        registers.set_carry_flag(right > left);
    }

    /// ADD HL, rr: 16-bit add into HL. Flags: Z untouched, N=0, H carry
    /// out of bit 11, C carry out of bit 15.
    pub fn add_16bit(registers: &mut Registers, register: Register, value: u16)
        requires
            register is HL,
        ensures
            ({
                let hl = old(registers).spec_hl();
                let r = add16(hl, value);
                *final(registers) == (Registers {
                    flag_n: false,
                    flag_h: (hl & 0xFFF) + (value & 0xFFF) > 0xFFF,
                    flag_c: hl + value > 0xFFFF,
                    ..old(registers).spec_with_hl(r)
                })
            }),
    {
        let left: u16 = registers.hl();
        let sum_wide: u32 = left as u32 + value as u32;
        let sum: u16 = (sum_wide % 0x10000) as u16;
        proof {
            assert(left & 0xFFF < 0x1000 && value & 0xFFF < 0x1000) by (bit_vector);
        }
        let half: bool = (left & 0xFFF) + (value & 0xFFF) > 0xFFF;
        registers.set_hl(sum);
        registers.set_subtraction_flag(false);
        registers.set_half_carry_flag(half);
        registers.set_carry_flag(sum_wide > 0xFFFF);
    }

    /// The SP+s8 form shared by ADD SP,s8 and LD HL,SP+s8: the result is
    /// SP plus the sign-extended byte; flags come from the unsigned byte:
    /// Z=0, N=0, H carry out of bit 3 of SP_low + s8, C carry out of bit 7.
    pub fn add_8bit_signed(registers: &mut Registers, register: Register, value: u8)
        requires
            register is SP || register is HL,
        ensures
            ({
                let sp = old(registers).sp;
                let r = add16(sp, spec_sign_ext(value));
                let base = Registers {
                    flag_z: false,
                    flag_n: false,
                    flag_h: (sp & 0xF) + (value & 0xF) > 0xF,
                    flag_c: (sp & 0xFF) + value > 0xFF,
                    ..*old(registers)
                };
                &&& (register is SP ==> *final(registers) == (Registers { sp: r, ..base }))
                &&& (register is HL ==> *final(registers) == base.spec_with_hl(r))
            }),
    {
        let sp: u16 = registers.sp();
        let ext: u16 = if value < 0x80 {
            value as u16
        } else {
            value as u16 + 0xFF00
        };
        let sum: u16 = (((sp as u32) + (ext as u32)) % 0x10000) as u16;
        proof {
            assert(sp & 0xF < 0x10 && sp & 0xFF < 0x100) by (bit_vector);
            crate::bits::lemma_low_nibble_bound(value);
        }
        let half: bool = (sp & 0xF) + (value & 0xF) as u16 > 0xF;
        let carry: bool = (sp & 0xFF) + value as u16 > 0xFF;
        registers.set_zero_flag(false);
        registers.set_subtraction_flag(false);
        registers.set_half_carry_flag(half);
        registers.set_carry_flag(carry);
        match register {
            Register::SP => registers.set_sp(sum),
            _ => registers.set_hl(sum),
        }
    }

    /// CPL: complement A; N and H set, Z and C untouched.
    pub fn cpl(registers: &mut Registers)
        ensures
            *final(registers) == (Registers {
                a: !old(registers).a,
                flag_n: true,
                flag_h: true,
                ..*old(registers)
            }),
    {
        let value = registers.a();
        registers.set_a(!value);
        registers.set_subtraction_flag(true);
        registers.set_half_carry_flag(true);
    }

    /// CCF: flip C; N and H cleared, Z untouched.
    pub fn ccf(registers: &mut Registers)
        ensures
            *final(registers) == (Registers {
                flag_n: false,
                flag_h: false,
                flag_c: !old(registers).flag_c,
                ..*old(registers)
            }),
    {
        let c = registers.carry_flag();
        registers.set_carry_flag(!c);
        registers.set_subtraction_flag(false);
        registers.set_half_carry_flag(false);
    }

    /// SCF: set C; N and H cleared, Z untouched.
    pub fn scf(registers: &mut Registers)
        ensures
            *final(registers) == (Registers {
                flag_n: false,
                flag_h: false,
                flag_c: true,
                ..*old(registers)
            }),
    {
        registers.set_carry_flag(true);
        registers.set_subtraction_flag(false);
        registers.set_half_carry_flag(false);
    }

    /// DAA: decimal-adjust A after a BCD addition or subtraction, using N,
    /// H and C. Z follows the result, H clears, N stays.
    pub fn daa(registers: &mut Registers)
        ensures
            ({
                let p = spec_daa(
                    old(registers).a,
                    old(registers).flag_n,
                    old(registers).flag_h,
                    old(registers).flag_c,
                );
                *final(registers) == (Registers {
                    a: p.0,
                    flag_z: p.0 == 0,
                    flag_h: false,
                    flag_c: p.1,
                    ..*old(registers)
                })
            }),
    {
        let a = registers.a();
        let n = registers.subtraction_flag();
        let h = registers.half_carry_flag();
        let c = registers.carry_flag();
        proof {
            crate::bits::lemma_low_nibble_bound(a);
        }
        let new_a: u8;
        let new_c: bool;
        if !n {
            let lo_adj: u8 = if h || (a & 0xF) > 9 {
                0x06
            } else {
                0
            };
            let hi_adj: bool = c || a > 0x99;
            let adj: u8 = if hi_adj {
                lo_adj + 0x60
            } else {
                lo_adj
            };
            new_a = ((a as u16 + adj as u16) % 256) as u8;
            new_c = hi_adj;
        } else {
            let adj: u16 = (if h {
                6u16
            } else {
                0u16
            }) + (if c {
                0x60u16
            } else {
                0u16
            });
            new_a = ((a as u16 + 256 - adj) % 256) as u8;
            new_c = c;
        }
        registers.set_a(new_a);
        registers.set_zero_flag(new_a == 0);
        registers.set_half_carry_flag(false);
        registers.set_carry_flag(new_c);
    }

    /// BIT b, v: Z is the complement of bit b, N=0, H=1, C untouched.
    pub fn bit(registers: &mut Registers, value: u8, bit_position: u8)
        requires
            bit_position < 8,
        ensures
            *final(registers) == (Registers {
                flag_z: value & (1u8 << bit_position) == 0,
                flag_n: false,
                flag_h: true,
                ..*old(registers)
            }),
    {
        let bit_check = value & (1u8 << bit_position);
        registers.set_zero_flag(bit_check == 0);
        registers.set_subtraction_flag(false);
        registers.set_half_carry_flag(true);
    }

    /// RES b: clear bit b. No flags.
    pub fn res(value: &mut u8, bit_position: u8)
        requires
            bit_position < 8,
        ensures
            *final(value) == *old(value) & !(1u8 << bit_position),
    {
        *value = *value & !(1u8 << bit_position);
    }

    /// SET b: set bit b. No flags.
    pub fn set(value: &mut u8, bit_position: u8)
        requires
            bit_position < 8,
        ensures
            *final(value) == *old(value) | (1u8 << bit_position),
    {
        *value = *value | (1u8 << bit_position);
    }

    /// RLC: rotate left; the pair is (result, shifted-out bit 7).
    pub fn rlc(value: u8) -> (r: (u8, bool))
        ensures
            r.0 == spec_rlc(value),
            r.1 == (value & 0x80 != 0),
    {
        ((value << 1) | (value >> 7), value & 0x80 != 0)
    }

    /// RRC: rotate right; the pair is (result, shifted-out bit 0).
    pub fn rrc(value: u8) -> (r: (u8, bool))
        ensures
            r.0 == spec_rrc(value),
            r.1 == (value & 1 != 0),
    {
        ((value >> 1) | (value << 7), value & 1 != 0)
    }

    /// RL: rotate left through carry.
    pub fn rl(value: u8, carry: bool) -> (r: (u8, bool))
        ensures
            r.0 == spec_rl(value, carry),
            r.1 == (value & 0x80 != 0),
    {
        let low: u8 = if carry {
            1
        } else {
            0
        };
        ((value << 1) | low, value & 0x80 != 0)
    }

    /// RR: rotate right through carry.
    pub fn rr(value: u8, carry: bool) -> (r: (u8, bool))
        ensures
            r.0 == spec_rr(value, carry),
            r.1 == (value & 1 != 0),
    {
        let high: u8 = if carry {
            0x80
        } else {
            0
        };
        ((value >> 1) | high, value & 1 != 0)
    }

    /// SLA: shift left into the carry.
    pub fn sla(value: u8) -> (r: (u8, bool))
        ensures
            r.0 == spec_sla(value),
            r.1 == (value & 0x80 != 0),
    {
        (value << 1, value & 0x80 != 0)
    }

    /// SRA: shift right keeping bit 7.
    pub fn sra(value: u8) -> (r: (u8, bool))
        ensures
            r.0 == spec_sra(value),
            r.1 == (value & 1 != 0),
    {
        ((value >> 1) | (value & 0x80), value & 1 != 0)
    }

    /// SWAP: exchange the nibbles; the carry out is always clear.
    pub fn swap(value: u8) -> (r: (u8, bool))
        ensures
            r.0 == spec_swap(value),
            r.1 == false,
    {
        ((value << 4) | (value >> 4), false)
    }

    /// SRL: shift right; bit 0 goes to the carry.
    pub fn srl(value: u8) -> (r: (u8, bool))
        ensures
            r.0 == spec_srl(value),
            r.1 == (value & 1 != 0),
    {
        (value >> 1, value & 1 != 0)
    }
}

} // verus!
