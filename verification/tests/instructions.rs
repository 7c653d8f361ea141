//! Differential checks of the instruction dispatcher: small programs are
//! written into WRAM and executed one opcode at a time, and the register,
//! flag and memory outcomes are compared against independent reference
//! computations done right here in plain Rust.

use rainier::registers::Register;
use rainier::system::Rainier;

fn booted() -> Rainier {
    let mut machine = Rainier::new();
    machine.boot(vec![0u8; 0x8000]).unwrap();
    machine
}

/// Places a program at 0xC000 and points PC at it.
fn load_program(machine: &mut Rainier, program: &[u8]) {
    for (i, b) in program.iter().enumerate() {
        machine.mmu.write_byte(0xC000 + i, *b).unwrap();
    }
    machine.cpu.registers.set_pc(0xC000);
}

const R8: [Register; 7] = [
    Register::B,
    Register::C,
    Register::D,
    Register::E,
    Register::H,
    Register::L,
    Register::A,
];

fn slot_register(slot: usize) -> Option<Register> {
    match slot {
        0 => Some(Register::B),
        1 => Some(Register::C),
        2 => Some(Register::D),
        3 => Some(Register::E),
        4 => Some(Register::H),
        5 => Some(Register::L),
        7 => Some(Register::A),
        _ => None,
    }
}

#[test]
fn ld_register_to_register_all_pairs() {
    let mut machine = booted();
    for d in 0..8usize {
        for s in 0..8usize {
            let (dst, src) = match (slot_register(d), slot_register(s)) {
                (Some(dst), Some(src)) => (dst, src),
                _ => continue,
            };
            let opcode = 0x40 + 8 * d as u8 + s as u8;
            load_program(&mut machine, &[opcode]);
            for r in R8 {
                machine.cpu.registers.set_8bit_register(r, 0x11);
            }
            machine.cpu.registers.set_8bit_register(src, 0x77);
            let cycles = machine.step().unwrap();
            assert_eq!(cycles, 4, "opcode {opcode:#04X}");
            assert_eq!(
                machine.cpu.registers.get_8bit_register(dst),
                0x77,
                "opcode {opcode:#04X}"
            );
        }
    }
}

#[test]
fn ld_between_registers_and_hl_cell() {
    let mut machine = booted();
    for s in 0..8usize {
        // LD (HL), r
        let src = match slot_register(s) {
            Some(r) => r,
            None => continue,
        };
        load_program(&mut machine, &[0x70 + s as u8]);
        machine.cpu.registers.set_hl(0xD100);
        machine.cpu.registers.set_8bit_register(src, 0x5C);
        let cycles = machine.step().unwrap();
        assert_eq!(cycles, 8);
        let expected = machine.cpu.registers.get_8bit_register(src);
        assert_eq!(machine.mmu.read_byte(0xD100).unwrap(), expected);
    }
    for d in 0..8usize {
        // LD r, (HL)
        let dst = match slot_register(d) {
            Some(r) => r,
            None => continue,
        };
        load_program(&mut machine, &[0x46 + 8 * d as u8]);
        machine.cpu.registers.set_hl(0xD200);
        machine.mmu.write_byte(0xD200, 0x9D).unwrap();
        let cycles = machine.step().unwrap();
        assert_eq!(cycles, 8);
        if dst == Register::H {
            assert_eq!(machine.cpu.registers.h(), 0x9D);
        } else if dst == Register::L {
            assert_eq!(machine.cpu.registers.l(), 0x9D);
        } else {
            assert_eq!(machine.cpu.registers.get_8bit_register(dst), 0x9D);
        }
    }
}

/// Reference flags: (z, n, h, c) packed by the reference model below.
fn reference_alu(op: usize, a: u8, x: u8, carry_in: bool) -> (u8, bool, bool, bool, bool) {
    let cin = carry_in as u16;
    match op {
        0 => {
            // ADD
            let wide = a as u16 + x as u16;
            let r = (wide & 0xFF) as u8;
            (r, r == 0, false, (a & 0xF) + (x & 0xF) > 0xF, wide > 0xFF)
        }
        1 => {
            // ADC
            let wide = a as u16 + x as u16 + cin;
            let r = (wide & 0xFF) as u8;
            (r, r == 0, false, (a & 0xF) as u16 + (x & 0xF) as u16 + cin > 0xF, wide > 0xFF)
        }
        2 => {
            // SUB
            let r = a.wrapping_sub(x);
            (r, r == 0, true, (a & 0xF) < (x & 0xF), x > a)
        }
        3 => {
            // SBC
            let r = a.wrapping_sub(x).wrapping_sub(cin as u8);
            (
                r,
                r == 0,
                true,
                ((a & 0xF) as u16) < (x & 0xF) as u16 + cin,
                (x as u16 + cin) > a as u16,
            )
        }
        4 => (a & x, a & x == 0, false, true, false),
        5 => (a ^ x, a ^ x == 0, false, false, false),
        6 => (a | x, a | x == 0, false, false, false),
        _ => {
            // CP leaves A alone
            (a, a.wrapping_sub(x) == 0, true, (a & 0xF) < (x & 0xF), x > a)
        }
    }
}

#[test]
fn alu_block_matches_reference() {
    let mut machine = booted();
    let samples: [(u8, u8, bool); 6] = [
        (0x3A, 0xC6, true),
        (0x00, 0x00, false),
        (0xFF, 0x01, true),
        (0x0F, 0x01, false),
        (0x10, 0x20, true),
        (0x7E, 0x7E, false),
    ];
    for op in 0..8usize {
        let opcode = 0x80 + 8 * op as u8; // source B
        for (a, x, cin) in samples {
            load_program(&mut machine, &[opcode]);
            machine.cpu.registers.set_a(a);
            machine.cpu.registers.set_b(x);
            machine.cpu.registers.set_f(if cin { 0x10 } else { 0x00 });
            machine.step().unwrap();
            let (er, ez, en, eh, ec) = reference_alu(op, a, x, cin);
            let r = &machine.cpu.registers;
            assert_eq!(r.a(), er, "op {op} a={a:#04X} x={x:#04X} cin={cin}");
            assert_eq!(r.zero_flag(), ez, "Z of op {op} a={a:#04X} x={x:#04X} cin={cin}");
            assert_eq!(r.subtraction_flag(), en, "N of op {op}");
            assert_eq!(r.half_carry_flag(), eh, "H of op {op} a={a:#04X} x={x:#04X} cin={cin}");
            assert_eq!(r.carry_flag(), ec, "C of op {op} a={a:#04X} x={x:#04X} cin={cin}");
        }
    }
}

#[test]
fn alu_immediate_forms_match_reference() {
    let mut machine = booted();
    for op in 0..8usize {
        let opcode = 0xC6 + 8 * op as u8;
        let (a, x, cin) = (0x5D, 0x2F, true);
        load_program(&mut machine, &[opcode, x]);
        machine.cpu.registers.set_a(a);
        machine.cpu.registers.set_f(if cin { 0x10 } else { 0x00 });
        let cycles = machine.step().unwrap();
        assert_eq!(cycles, 8);
        let (er, ez, en, eh, ec) = reference_alu(op, a, x, cin);
        let r = &machine.cpu.registers;
        assert_eq!(r.a(), er, "op {op}");
        assert_eq!(
            (r.zero_flag(), r.subtraction_flag(), r.half_carry_flag(), r.carry_flag()),
            (ez, en, eh, ec),
            "flags of op {op}"
        );
    }
}

fn reference_cb(op: u8, v: u8, cin: bool) -> (u8, Option<(bool, bool, bool, bool)>) {
    let index = (op >> 3) & 7;
    match op >> 6 {
        0 => {
            let (r, c) = match index {
                0 => (v.rotate_left(1), v & 0x80 != 0),
                1 => (v.rotate_right(1), v & 1 != 0),
                2 => ((v << 1) | cin as u8, v & 0x80 != 0),
                3 => ((v >> 1) | ((cin as u8) << 7), v & 1 != 0),
                4 => (v << 1, v & 0x80 != 0),
                5 => ((v >> 1) | (v & 0x80), v & 1 != 0),
                6 => ((v << 4) | (v >> 4), false),
                _ => (v >> 1, v & 1 != 0),
            };
            (r, Some((r == 0, false, false, c)))
        }
        1 => (v, Some((v & (1 << index) == 0, false, true, cin))),
        2 => (v & !(1 << index), None),
        _ => (v | (1 << index), None),
    }
}

#[test]
fn cb_block_matches_reference_on_registers() {
    let mut machine = booted();
    let values: [u8; 4] = [0x00, 0x81, 0x5A, 0xFF];
    for op in 0..=255u8 {
        let target = (op & 7) as usize;
        let reg = match slot_register(target) {
            Some(r) => r,
            None => continue, // the (HL) column is covered separately
        };
        for v in values {
            for cin in [false, true] {
                load_program(&mut machine, &[0xCB, op]);
                machine.cpu.registers.set_8bit_register(reg, v);
                machine.cpu.registers.set_f(if cin { 0x10 } else { 0x00 });
                let cycles = machine.step().unwrap();
                assert_eq!(cycles, 8, "cb {op:#04X}");
                let (er, eflags) = reference_cb(op, v, cin);
                assert_eq!(
                    machine.cpu.registers.get_8bit_register(reg),
                    er,
                    "cb {op:#04X} v={v:#04X} cin={cin}"
                );
                if let Some((ez, en, eh, ec)) = eflags {
                    let r = &machine.cpu.registers;
                    assert_eq!(
                        (r.zero_flag(), r.subtraction_flag(), r.half_carry_flag(), r.carry_flag()),
                        (ez, en, eh, ec),
                        "cb {op:#04X} v={v:#04X} cin={cin}"
                    );
                }
            }
        }
    }
}

#[test]
fn inc_dec_registers_match_reference() {
    let mut machine = booted();
    for d in 0..8usize {
        let reg = match slot_register(d) {
            Some(r) => r,
            None => continue,
        };
        for v in [0x00u8, 0x0F, 0xFF, 0x42] {
            // INC r
            load_program(&mut machine, &[0x04 + 8 * d as u8]);
            machine.cpu.registers.set_8bit_register(reg, v);
            machine.cpu.registers.set_carry_flag(true);
            machine.step().unwrap();
            let r = &machine.cpu.registers;
            assert_eq!(r.get_8bit_register(reg), v.wrapping_add(1));
            assert_eq!(r.zero_flag(), v == 0xFF);
            assert!(!r.subtraction_flag());
            assert_eq!(r.half_carry_flag(), v & 0xF == 0xF);
            assert!(r.carry_flag()); // C untouched
            // DEC r
            load_program(&mut machine, &[0x05 + 8 * d as u8]);
            machine.cpu.registers.set_8bit_register(reg, v);
            machine.step().unwrap();
            let r = &machine.cpu.registers;
            assert_eq!(r.get_8bit_register(reg), v.wrapping_sub(1));
            assert_eq!(r.zero_flag(), v == 1);
            assert!(r.subtraction_flag());
            assert_eq!(r.half_carry_flag(), v & 0xF == 0);
        }
    }
}

#[test]
fn inc_dec_on_hl_cell() {
    let mut machine = booted();
    load_program(&mut machine, &[0x34]); // INC (HL)
    machine.cpu.registers.set_hl(0xD300);
    machine.mmu.write_byte(0xD300, 0xFF).unwrap();
    let cycles = machine.step().unwrap();
    assert_eq!(cycles, 12);
    assert_eq!(machine.mmu.read_byte(0xD300).unwrap(), 0x00);
    assert!(machine.cpu.registers.zero_flag());
    load_program(&mut machine, &[0x35]); // DEC (HL)
    machine.step().unwrap();
    assert_eq!(machine.mmu.read_byte(0xD300).unwrap(), 0xFF);
    assert!(machine.cpu.registers.subtraction_flag());
}

#[test]
fn sixteen_bit_inc_dec_and_loads() {
    let mut machine = booted();
    load_program(&mut machine, &[0x01, 0x34, 0x12]); // LD BC, 0x1234
    machine.step().unwrap();
    assert_eq!(machine.cpu.registers.bc(), 0x1234);
    load_program(&mut machine, &[0x03]); // INC BC
    machine.step().unwrap();
    assert_eq!(machine.cpu.registers.bc(), 0x1235);
    load_program(&mut machine, &[0x0B]); // DEC BC
    machine.step().unwrap();
    assert_eq!(machine.cpu.registers.bc(), 0x1234);
    load_program(&mut machine, &[0x31, 0xFF, 0xFF, 0x33]); // LD SP,0xFFFF ; INC SP
    machine.step().unwrap();
    machine.step().unwrap();
    assert_eq!(machine.cpu.registers.sp(), 0x0000); // wraps
    load_program(&mut machine, &[0x3B]); // DEC SP
    machine.step().unwrap();
    assert_eq!(machine.cpu.registers.sp(), 0xFFFF);
}

#[test]
fn add_hl_pairs_sets_16bit_carries() {
    let mut machine = booted();
    load_program(&mut machine, &[0x09]); // ADD HL, BC
    machine.cpu.registers.set_hl(0x0FFF);
    machine.cpu.registers.set_bc(0x0001);
    machine.cpu.registers.set_zero_flag(true);
    machine.step().unwrap();
    let r = &machine.cpu.registers;
    assert_eq!(r.hl(), 0x1000);
    assert!(r.half_carry_flag()); // bit-11 carry
    assert!(!r.carry_flag());
    assert!(r.zero_flag()); // Z untouched
    load_program(&mut machine, &[0x39]); // ADD HL, SP
    machine.cpu.registers.set_hl(0xFFFF);
    machine.cpu.registers.set_sp(0x0001);
    machine.step().unwrap();
    assert_eq!(machine.cpu.registers.hl(), 0x0000);
    assert!(machine.cpu.registers.carry_flag()); // bit-15 carry
}

#[test]
fn add_sp_signed_and_ld_hl_sp_offset() {
    let mut machine = booted();
    load_program(&mut machine, &[0xE8, 0xFE]); // ADD SP, -2
    machine.cpu.registers.set_sp(0xD000);
    let cycles = machine.step().unwrap();
    assert_eq!(cycles, 16);
    assert_eq!(machine.cpu.registers.sp(), 0xCFFE);
    assert!(!machine.cpu.registers.zero_flag());
    load_program(&mut machine, &[0xF8, 0x05]); // LD HL, SP+5
    machine.cpu.registers.set_sp(0xCFFE);
    let cycles = machine.step().unwrap();
    assert_eq!(cycles, 12);
    assert_eq!(machine.cpu.registers.hl(), 0xD003);
    assert_eq!(machine.cpu.registers.sp(), 0xCFFE);
    // flags come from the unsigned byte: SP_low 0xFE + 0x05 carries
    assert!(machine.cpu.registers.carry_flag());
    assert!(machine.cpu.registers.half_carry_flag());
}

#[test]
fn accumulator_rotates_clear_zero_flag() {
    let mut machine = booted();
    load_program(&mut machine, &[0x07]); // RLCA
    machine.cpu.registers.set_a(0x80);
    machine.cpu.registers.set_zero_flag(true);
    machine.step().unwrap();
    assert_eq!(machine.cpu.registers.a(), 0x01);
    assert!(machine.cpu.registers.carry_flag());
    assert!(!machine.cpu.registers.zero_flag()); // Z always 0 here
    load_program(&mut machine, &[0x1F]); // RRA
    machine.cpu.registers.set_a(0x01);
    machine.cpu.registers.set_carry_flag(false);
    machine.step().unwrap();
    assert_eq!(machine.cpu.registers.a(), 0x00);
    assert!(machine.cpu.registers.carry_flag());
    assert!(!machine.cpu.registers.zero_flag());
}

#[test]
fn autoincrement_loads() {
    let mut machine = booted();
    load_program(&mut machine, &[0x22, 0x32, 0x2A, 0x3A]);
    machine.cpu.registers.set_a(0x66);
    machine.cpu.registers.set_hl(0xD400);
    machine.step().unwrap(); // LD (HL+), A
    assert_eq!(machine.mmu.read_byte(0xD400).unwrap(), 0x66);
    assert_eq!(machine.cpu.registers.hl(), 0xD401);
    machine.step().unwrap(); // LD (HL-), A
    assert_eq!(machine.mmu.read_byte(0xD401).unwrap(), 0x66);
    assert_eq!(machine.cpu.registers.hl(), 0xD400);
    machine.mmu.write_byte(0xD400, 0x11).unwrap();
    machine.step().unwrap(); // LD A, (HL+)
    assert_eq!(machine.cpu.registers.a(), 0x11);
    assert_eq!(machine.cpu.registers.hl(), 0xD401);
    machine.mmu.write_byte(0xD401, 0x22).unwrap();
    machine.step().unwrap(); // LD A, (HL-)
    assert_eq!(machine.cpu.registers.a(), 0x22);
    assert_eq!(machine.cpu.registers.hl(), 0xD400);
}

#[test]
fn absolute_and_high_loads() {
    let mut machine = booted();
    load_program(&mut machine, &[0xEA, 0x00, 0xD5]); // LD (0xD500), A
    machine.cpu.registers.set_a(0x3C);
    machine.step().unwrap();
    assert_eq!(machine.mmu.read_byte(0xD500).unwrap(), 0x3C);
    load_program(&mut machine, &[0xFA, 0x00, 0xD5]); // LD A, (0xD500)
    machine.cpu.registers.set_a(0x00);
    machine.step().unwrap();
    assert_eq!(machine.cpu.registers.a(), 0x3C);
    load_program(&mut machine, &[0xE0, 0x80]); // LDH (0x80), A -> 0xFF80
    machine.cpu.registers.set_a(0x44);
    machine.step().unwrap();
    assert_eq!(machine.mmu.read_byte(0xFF80).unwrap(), 0x44);
    load_program(&mut machine, &[0xF0, 0x80]); // LDH A, (0x80)
    machine.cpu.registers.set_a(0x00);
    machine.step().unwrap();
    assert_eq!(machine.cpu.registers.a(), 0x44);
    load_program(&mut machine, &[0xE2]); // LD (C), A
    machine.cpu.registers.set_c(0x81);
    machine.cpu.registers.set_a(0x55);
    machine.step().unwrap();
    assert_eq!(machine.mmu.read_byte(0xFF81).unwrap(), 0x55);
    load_program(&mut machine, &[0xF2]); // LD A, (C)
    machine.cpu.registers.set_a(0x00);
    machine.step().unwrap();
    assert_eq!(machine.cpu.registers.a(), 0x55);
    load_program(&mut machine, &[0x08, 0x00, 0xD6]); // LD (0xD600), SP
    machine.cpu.registers.set_sp(0xBEEF);
    let cycles = machine.step().unwrap();
    assert_eq!(cycles, 20);
    assert_eq!(machine.mmu.read_byte(0xD600).unwrap(), 0xEF);
    assert_eq!(machine.mmu.read_byte(0xD601).unwrap(), 0xBE);
}

#[test]
fn call_ret_and_rst_round_trip() {
    let mut machine = booted();
    // CALL 0xD800 from 0xC000; the callee returns at once.
    load_program(&mut machine, &[0xCD, 0x00, 0xD8]);
    machine.mmu.write_byte(0xD800, 0xC9).unwrap(); // RET
    machine.cpu.registers.set_sp(0xD700);
    let cycles = machine.step().unwrap();
    assert_eq!(cycles, 24);
    assert_eq!(machine.cpu.registers.pc(), 0xD800);
    assert_eq!(machine.cpu.registers.sp(), 0xD6FE);
    // the return address 0xC003 sits low-byte-first
    assert_eq!(machine.mmu.read_byte(0xD6FE).unwrap(), 0x03);
    assert_eq!(machine.mmu.read_byte(0xD6FF).unwrap(), 0xC0);
    let cycles = machine.step().unwrap();
    assert_eq!(cycles, 16);
    assert_eq!(machine.cpu.registers.pc(), 0xC003);
    assert_eq!(machine.cpu.registers.sp(), 0xD700);
    // RST 0x18 pushes and jumps to the fixed vector
    load_program(&mut machine, &[0xDF]);
    machine.cpu.registers.set_sp(0xD700);
    let cycles = machine.step().unwrap();
    assert_eq!(cycles, 16);
    assert_eq!(machine.cpu.registers.pc(), 0x0018);
    assert_eq!(machine.mmu.read_byte(0xD6FE).unwrap(), 0x01);
    assert_eq!(machine.mmu.read_byte(0xD6FF).unwrap(), 0xC0);
}

#[test]
fn conditional_families_taken_and_not() {
    let mut machine = booted();
    // RET NC with carry set: not taken, 8 cycles
    load_program(&mut machine, &[0xD0]);
    machine.cpu.registers.set_carry_flag(true);
    let cycles = machine.step().unwrap();
    assert_eq!(cycles, 8);
    assert_eq!(machine.cpu.registers.pc(), 0xC001);
    // JP C taken: 16 cycles
    load_program(&mut machine, &[0xDA, 0x00, 0xD9]);
    machine.cpu.registers.set_carry_flag(true);
    let cycles = machine.step().unwrap();
    assert_eq!(cycles, 16);
    assert_eq!(machine.cpu.registers.pc(), 0xD900);
    // CALL NZ not taken: 12 cycles, falls through
    load_program(&mut machine, &[0xC4, 0x00, 0xDA]);
    machine.cpu.registers.set_zero_flag(true);
    let sp = machine.cpu.registers.sp();
    let cycles = machine.step().unwrap();
    assert_eq!(cycles, 12);
    assert_eq!(machine.cpu.registers.pc(), 0xC003);
    assert_eq!(machine.cpu.registers.sp(), sp);
}

#[test]
fn jp_hl_and_ld_sp_hl() {
    let mut machine = booted();
    load_program(&mut machine, &[0xE9]); // JP HL
    machine.cpu.registers.set_hl(0xD123);
    let cycles = machine.step().unwrap();
    assert_eq!(cycles, 4);
    assert_eq!(machine.cpu.registers.pc(), 0xD123);
    load_program(&mut machine, &[0xF9]); // LD SP, HL
    machine.cpu.registers.set_hl(0xCFF0);
    let cycles = machine.step().unwrap();
    assert_eq!(cycles, 8);
    assert_eq!(machine.cpu.registers.sp(), 0xCFF0);
}

#[test]
fn misc_cpl_scf_ccf() {
    let mut machine = booted();
    load_program(&mut machine, &[0x2F]); // CPL
    machine.cpu.registers.set_a(0xA5);
    machine.step().unwrap();
    assert_eq!(machine.cpu.registers.a(), 0x5A);
    assert!(machine.cpu.registers.subtraction_flag());
    assert!(machine.cpu.registers.half_carry_flag());
    load_program(&mut machine, &[0x37]); // SCF
    machine.cpu.registers.set_carry_flag(false);
    machine.step().unwrap();
    assert!(machine.cpu.registers.carry_flag());
    load_program(&mut machine, &[0x3F]); // CCF
    machine.step().unwrap();
    assert!(!machine.cpu.registers.carry_flag());
}

#[test]
fn daa_turns_binary_sums_into_bcd() {
    // Over every pair of two-digit BCD values, ADD then DAA produces the
    // BCD sum modulo 100 with the carry flag as the hundreds digit.
    let mut machine = booted();
    for dec_a in (0..100u16).step_by(7) {
        for dec_b in (0..100u16).step_by(11) {
            let a = (((dec_a / 10) << 4) | (dec_a % 10)) as u8;
            let b = (((dec_b / 10) << 4) | (dec_b % 10)) as u8;
            load_program(&mut machine, &[0x80, 0x27]); // ADD A, B ; DAA
            machine.cpu.registers.set_a(a);
            machine.cpu.registers.set_b(b);
            machine.step().unwrap();
            machine.step().unwrap();
            let sum = dec_a + dec_b;
            let expected = ((((sum / 10) % 10) << 4) | (sum % 10)) as u8;
            assert_eq!(
                machine.cpu.registers.a(),
                expected,
                "DAA after {dec_a} + {dec_b}"
            );
            assert_eq!(machine.cpu.registers.carry_flag(), sum >= 100);
        }
    }
}

#[test]
fn stop_and_halt_fall_through() {
    let mut machine = booted();
    load_program(&mut machine, &[0x10, 0x00, 0x76, 0x00]); // STOP ; HALT ; NOP
    let cycles = machine.step().unwrap();
    assert_eq!(cycles, 4);
    assert_eq!(machine.cpu.registers.pc(), 0xC002); // STOP consumes two bytes
    machine.step().unwrap();
    assert_eq!(machine.cpu.registers.pc(), 0xC003);
}

#[test]
fn cb_rotate_on_hl_cell() {
    let mut machine = booted();
    load_program(&mut machine, &[0xCB, 0x06]); // RLC (HL)
    machine.cpu.registers.set_hl(0xD010);
    machine.mmu.write_byte(0xD010, 0x81).unwrap();
    let cycles = machine.step().unwrap();
    assert_eq!(cycles, 16);
    assert_eq!(machine.mmu.read_byte(0xD010).unwrap(), 0x03);
    assert!(machine.cpu.registers.carry_flag());
    assert!(!machine.cpu.registers.zero_flag());
}

#[test]
fn cb_bit_on_hl_cell_costs_twelve() {
    let mut machine = booted();
    load_program(&mut machine, &[0xCB, 0x7E]); // BIT 7, (HL)
    machine.cpu.registers.set_hl(0xD011);
    machine.mmu.write_byte(0xD011, 0x7F).unwrap();
    let cycles = machine.step().unwrap();
    assert_eq!(cycles, 12);
    assert!(machine.cpu.registers.zero_flag()); // bit 7 clear
    assert_eq!(machine.mmu.read_byte(0xD011).unwrap(), 0x7F); // no writeback
}

#[test]
fn daa_after_bcd_subtraction() {
    // 0x42 - 0x17 = 0x2B binary; DAA corrects to the BCD difference 0x25.
    let mut machine = booted();
    load_program(&mut machine, &[0x90, 0x27]); // SUB B ; DAA
    machine.cpu.registers.set_a(0x42);
    machine.cpu.registers.set_b(0x17);
    machine.step().unwrap();
    machine.step().unwrap();
    assert_eq!(machine.cpu.registers.a(), 0x25);
    assert!(machine.cpu.registers.subtraction_flag()); // N survives DAA
}

#[test]
fn timer_many_ticks_in_one_call() {
    // With the 16-cycle divider, a 160-cycle advance steps TIMA ten times.
    let mut machine = booted();
    machine.mmu.set_tac(0x05);
    machine.mmu.set_tima(0x00);
    machine.clock.update_clock_cycles(&mut machine.mmu, 160);
    assert_eq!(machine.mmu.tima(), 10);
}

#[test]
fn disassembly_walk_covers_memory() {
    let mut rom = vec![0u8; 0x8000];
    rom[0x0000] = 0x00; // NOP
    rom[0x0001] = 0x3E; // LD A, d8
    rom[0x0002] = 0x42;
    let mut machine = booted();
    machine.boot(rom).unwrap();
    let listing = machine.cpu.dump_instructions(&machine.mmu, 0);
    assert!(listing.len() > 2);
    assert_eq!(listing[0].address, 0);
    assert_eq!(listing[0].name, "NOP");
    assert_eq!(listing[1].address, 1);
    assert_eq!(listing[1].name, "LD A, d8");
    assert_eq!(listing[1].first_operand, Some(0x42));
    // the cartridge header range is skipped
    assert!(listing.iter().all(|i| i.address < 0x104 || i.address >= 0x150));
}
