//! End-to-end scenarios: the machine is booted into the post-boot state,
//! a small program is placed in the cartridge image, and the observable
//! registers, flags, cycles and bus bytes are checked against the
//! documented values.

use rainier::errors::EmuError;
use rainier::system::Rainier;

fn make_rom() -> Vec<u8> {
    vec![0u8; 0x8000]
}

#[test]
fn post_boot_fetch() {
    let mut rom = make_rom();
    rom[0x0100] = 0x00; // NOP
    rom[0x0101] = 0xC3; // JP 0x0150
    rom[0x0102] = 0x50;
    rom[0x0103] = 0x01;
    let mut machine = Rainier::new();
    machine.boot(rom).unwrap();
    assert_eq!(machine.cpu.registers.pc(), 0x0100);
    let c1 = machine.step().unwrap();
    assert_eq!(c1, 4);
    assert_eq!(machine.cpu.registers.pc(), 0x0101);
    let c2 = machine.step().unwrap();
    assert_eq!(c2, 16);
    assert_eq!(machine.cpu.registers.pc(), 0x0150);
    assert_eq!(c1 + c2, 20);
}

#[test]
fn post_boot_register_snapshot() {
    let mut machine = Rainier::new();
    machine.boot(make_rom()).unwrap();
    let r = &machine.cpu.registers;
    assert_eq!(r.a(), 0x01);
    assert_eq!(r.f(), 0xB0);
    assert_eq!(r.b(), 0x00);
    assert_eq!(r.c(), 0x13);
    assert_eq!(r.d(), 0x00);
    assert_eq!(r.e(), 0xD8);
    assert_eq!(r.h(), 0x01);
    assert_eq!(r.l(), 0x4D);
    assert_eq!(r.sp(), 0xFFFE);
    assert_eq!(r.pc(), 0x0100);
    assert_eq!(r.af(), 0x01B0);
    assert_eq!(machine.mmu.p1(), 0xCF);
    assert_eq!(machine.mmu.sc(), 0x7E);
    assert_eq!(machine.mmu.div(), 0xAB);
    assert_eq!(machine.mmu.tac(), 0xF8);
    assert_eq!(machine.mmu.iflag(), 0xE1);
    assert_eq!(machine.mmu.lcdc(), 0x91);
    assert_eq!(machine.mmu.stat(), 0x85);
    assert_eq!(machine.mmu.bgp(), 0xFC);
    assert_eq!(machine.mmu.dma(), 0xFF);
    assert_eq!(machine.mmu.ie(), 0x00);
}

#[test]
fn flag_algebra_adc() {
    let mut rom = make_rom();
    rom[0x0100] = 0x88; // ADC A, B
    let mut machine = Rainier::new();
    machine.boot(rom).unwrap();
    machine.cpu.registers.set_a(0x3A);
    machine.cpu.registers.set_b(0xC6);
    machine.cpu.registers.set_f(0x10); // only C set
    machine.step().unwrap();
    let r = &machine.cpu.registers;
    assert_eq!(r.a(), 0x01);
    assert!(!r.zero_flag());
    assert!(!r.subtraction_flag());
    assert!(r.half_carry_flag());
    assert!(r.carry_flag());
}

#[test]
fn half_borrow_sub() {
    let mut rom = make_rom();
    rom[0x0100] = 0xD6; // SUB 0x0F
    rom[0x0101] = 0x0F;
    let mut machine = Rainier::new();
    machine.boot(rom).unwrap();
    machine.cpu.registers.set_a(0x3E);
    machine.step().unwrap();
    let r = &machine.cpu.registers;
    assert_eq!(r.a(), 0x2F);
    assert!(!r.zero_flag());
    assert!(r.subtraction_flag());
    assert!(r.half_carry_flag());
    assert!(!r.carry_flag());
}

#[test]
fn conditional_branch_not_taken() {
    let mut rom = make_rom();
    rom[0x0200] = 0x28; // JR Z, +5
    rom[0x0201] = 0x05;
    let mut machine = Rainier::new();
    machine.boot(rom).unwrap();
    machine.cpu.registers.set_zero_flag(false);
    machine.cpu.registers.set_pc(0x0200);
    let cycles = machine.step().unwrap();
    assert_eq!(cycles, 8);
    assert_eq!(machine.cpu.registers.pc(), 0x0202);
}

#[test]
fn conditional_branch_taken() {
    let mut rom = make_rom();
    rom[0x0200] = 0x28; // JR Z, +5
    rom[0x0201] = 0x05;
    let mut machine = Rainier::new();
    machine.boot(rom).unwrap();
    machine.cpu.registers.set_zero_flag(true);
    machine.cpu.registers.set_pc(0x0200);
    let cycles = machine.step().unwrap();
    assert_eq!(cycles, 12);
    assert_eq!(machine.cpu.registers.pc(), 0x0207);
}

#[test]
fn timer_overflow_to_interrupt() {
    let mut machine = Rainier::new();
    machine.boot(make_rom()).unwrap();
    machine.mmu.set_tac(0x05); // enable, divide by 16
    machine.mmu.set_tima(0xFF);
    machine.mmu.set_tma(0x37);
    machine.mmu.set_iflag(0x00);
    machine.mmu.set_ie(0x04);
    machine.cpu.interrupts.set_ime(true);
    machine.cpu.registers.set_pc(0x1234);
    machine.cpu.registers.set_sp(0xFFF0);
    machine
        .clock
        .update_clock_cycles(&mut machine.mmu, 16);
    assert_eq!(machine.mmu.tima(), 0x37);
    assert_eq!(machine.mmu.iflag() & 0x04, 0x04);
    let cycles = machine.cpu.emulation_loop(&mut machine.mmu).unwrap();
    assert_eq!(cycles, 20);
    assert_eq!(machine.cpu.registers.pc(), 0x0050);
    assert!(!machine.cpu.interrupts.ime());
    assert_eq!(machine.mmu.iflag() & 0x04, 0x00);
    assert_eq!(machine.cpu.registers.sp(), 0xFFEE);
    assert_eq!(machine.mmu.read_byte(0xFFEE).unwrap(), 0x34);
    assert_eq!(machine.mmu.read_byte(0xFFEF).unwrap(), 0x12);
}

#[test]
fn serial_tap() {
    let mut machine = Rainier::new();
    machine.boot(make_rom()).unwrap();
    machine.mmu.set_sb(0xAB);
    machine.mmu.set_sc(0x81);
    machine.step().unwrap(); // executes a NOP; the poll commits the byte
    assert_eq!(machine.cpu.serial_log, vec![0xAB]);
    assert_eq!(machine.mmu.sc(), 0x00);
}

#[test]
fn serial_tap_direct_poll() {
    let mut machine = Rainier::new();
    machine.mmu.set_sb(0x41);
    machine.mmu.set_sc(0x81);
    machine.cpu.poll_serial(&mut machine.mmu);
    assert_eq!(machine.cpu.serial_log, vec![0x41]);
    assert_eq!(machine.mmu.sc(), 0x00);
    // a second poll with SC cleared adds nothing
    machine.cpu.poll_serial(&mut machine.mmu);
    assert_eq!(machine.cpu.serial_log, vec![0x41]);
}

#[test]
fn undefined_opcode_is_fatal() {
    let mut rom = make_rom();
    rom[0x0100] = 0xD3;
    let mut machine = Rainier::new();
    machine.boot(rom).unwrap();
    let err = machine.step().unwrap_err();
    assert_eq!(err, EmuError::UndefinedOpcode { pc: 0x0100, opcode: 0xD3, cb: false });
}

#[test]
fn cartridge_too_small_is_rejected() {
    let mut machine = Rainier::new();
    let err = machine.boot(vec![0u8; 16]).unwrap_err();
    assert_eq!(err, EmuError::CartridgeLoadError { size: 16 });
}

#[test]
fn push_pop_round_trip_program() {
    // PUSH BC ; POP DE leaves DE == BC, bit for bit.
    let mut rom = make_rom();
    rom[0x0100] = 0xC5; // PUSH BC
    rom[0x0101] = 0xD1; // POP DE
    let mut machine = Rainier::new();
    machine.boot(rom).unwrap();
    machine.cpu.registers.set_bc(0xBEEF);
    machine.cpu.registers.set_sp(0xD000);
    machine.step().unwrap();
    machine.step().unwrap();
    assert_eq!(machine.cpu.registers.de(), 0xBEEF);
    assert_eq!(machine.cpu.registers.sp(), 0xD000);
}

#[test]
fn push_pop_af_masks_low_nibble() {
    // PUSH AF ; POP AF: A exact, F keeps only its upper nibble.
    let mut rom = make_rom();
    rom[0x0100] = 0xF5; // PUSH AF
    rom[0x0101] = 0xF1; // POP AF
    let mut machine = Rainier::new();
    machine.boot(rom).unwrap();
    machine.cpu.registers.set_a(0x7C);
    machine.cpu.registers.set_f(0xFF); // stores 0xF0
    machine.cpu.registers.set_sp(0xD000);
    machine.step().unwrap();
    machine.step().unwrap();
    assert_eq!(machine.cpu.registers.a(), 0x7C);
    assert_eq!(machine.cpu.registers.f(), 0xF0);
}

#[test]
fn di_twice_leaves_ime_false() {
    let mut rom = make_rom();
    rom[0x0100] = 0xF3;
    rom[0x0101] = 0xF3;
    let mut machine = Rainier::new();
    machine.boot(rom).unwrap();
    machine.cpu.interrupts.set_ime(true);
    machine.step().unwrap();
    assert!(!machine.cpu.interrupts.ime());
    machine.step().unwrap();
    assert!(!machine.cpu.interrupts.ime());
}

#[test]
fn ei_twice_arms_once_after_one_instruction() {
    let mut rom = make_rom();
    rom[0x0100] = 0xFB;
    rom[0x0101] = 0xFB;
    rom[0x0102] = 0x00;
    let mut machine = Rainier::new();
    machine.boot(rom).unwrap();
    machine.step().unwrap();
    assert!(!machine.cpu.interrupts.ime()); // not armed by the EI itself
    machine.step().unwrap();
    assert!(machine.cpu.interrupts.ime()); // armed after one instruction
    machine.step().unwrap();
    assert!(machine.cpu.interrupts.ime());
}

#[test]
fn ei_then_di_cancels_arming() {
    let mut rom = make_rom();
    rom[0x0100] = 0xFB; // EI
    rom[0x0101] = 0xF3; // DI
    rom[0x0102] = 0x00; // NOP
    let mut machine = Rainier::new();
    machine.boot(rom).unwrap();
    machine.step().unwrap();
    machine.step().unwrap();
    machine.step().unwrap();
    assert!(!machine.cpu.interrupts.ime());
}

#[test]
fn interrupt_dispatch_ret_restores_pc() {
    // Dispatch pushes the interrupted PC; RET at the vector recovers it.
    let mut rom = make_rom();
    rom[0x0040] = 0xC9; // RET at the VBlank vector
    let mut machine = Rainier::new();
    machine.boot(rom).unwrap();
    machine.cpu.registers.set_pc(0x0123);
    machine.cpu.registers.set_sp(0xD000);
    machine.mmu.set_iflag(0x01);
    machine.mmu.set_ie(0x01);
    machine.cpu.interrupts.set_ime(true);
    let cycles = machine.step().unwrap();
    assert_eq!(cycles, 20);
    assert_eq!(machine.cpu.registers.pc(), 0x0040);
    let ret_cycles = machine.step().unwrap();
    assert_eq!(ret_cycles, 16);
    assert_eq!(machine.cpu.registers.pc(), 0x0123);
    assert_eq!(machine.cpu.registers.sp(), 0xD000);
}

#[test]
fn pending_interrupt_without_ime_is_latched() {
    let mut machine = Rainier::new();
    machine.boot(make_rom()).unwrap();
    machine.mmu.set_iflag(0x01);
    machine.mmu.set_ie(0x01);
    machine.cpu.interrupts.set_ime(false);
    let pc_before = machine.cpu.registers.pc();
    let (pending, cycles) = machine
        .cpu
        .interrupts
        .handle_interrupts(&mut machine.cpu.registers, &mut machine.mmu);
    assert!(pending);
    assert_eq!(cycles, 0);
    assert_eq!(machine.cpu.registers.pc(), pc_before);
    assert_eq!(machine.mmu.iflag(), 0x01); // still latched
}

#[test]
fn interrupt_priority_lowest_bit_wins() {
    let mut machine = Rainier::new();
    machine.boot(make_rom()).unwrap();
    machine.mmu.set_iflag(0x1F);
    machine.mmu.set_ie(0x1F);
    machine.cpu.interrupts.set_ime(true);
    machine.cpu.registers.set_sp(0xD000);
    machine.step().unwrap();
    assert_eq!(machine.cpu.registers.pc(), 0x0040); // VBlank first
    assert_eq!(machine.mmu.iflag(), 0x1E); // only bit 0 cleared
}
