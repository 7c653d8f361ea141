//! Component-level checks: the bus's region policies, the register file
//! and its flag masking, the bit helpers, the timer formulas, the
//! instruction tables and the PPU state machine.

use rainier::bits::{carry_check_add_8bit, carry_check_sub_8bit, concatenate_bytes, split_2bytes};
use rainier::errors::EmuError;
use rainier::instructions::{InstructionSet, Operation};
use rainier::mmu::{MemoryRegion, Mmu};
use rainier::ppu::{DrawStep, OAMEntry, PPUMode, Ppu};
use rainier::registers::{Flag, Register, Registers};
use rainier::interrupts::Interrupt;
use rainier::timer::Clock;

#[test]
fn bit_helpers() {
    assert_eq!(concatenate_bytes(0x34, 0x12), 0x1234);
    assert_eq!(split_2bytes(0x1234), (0x34, 0x12));
    assert!(carry_check_add_8bit(0x0F, 0x01));
    assert!(!carry_check_add_8bit(0x0E, 0x01));
    assert!(carry_check_sub_8bit(0x10, 0x01));
    assert!(!carry_check_sub_8bit(0x11, 0x01));
}

#[test]
fn mmu_regions() {
    assert!(matches!(MemoryRegion::from_address(0x0000), Ok(MemoryRegion::RomBankZero)));
    assert!(matches!(MemoryRegion::from_address(0x4000), Ok(MemoryRegion::RomBankSwap)));
    assert!(matches!(MemoryRegion::from_address(0x9FFF), Ok(MemoryRegion::VideoRam)));
    assert!(matches!(MemoryRegion::from_address(0xBFFF), Ok(MemoryRegion::ExternalRam)));
    assert!(matches!(MemoryRegion::from_address(0xC000), Ok(MemoryRegion::WorkRam)));
    assert!(matches!(MemoryRegion::from_address(0xE000), Ok(MemoryRegion::EchoRam)));
    assert!(matches!(MemoryRegion::from_address(0xFE00), Ok(MemoryRegion::SpriteAttributionTable)));
    assert!(matches!(MemoryRegion::from_address(0xFEA0), Ok(MemoryRegion::Unusable)));
    assert!(matches!(MemoryRegion::from_address(0xFF00), Ok(MemoryRegion::IO)));
    assert!(matches!(MemoryRegion::from_address(0xFF80), Ok(MemoryRegion::HighRam)));
    assert!(matches!(
        MemoryRegion::from_address(0xFFFF),
        Ok(MemoryRegion::InterruptEnableRegister)
    ));
    assert_eq!(
        MemoryRegion::from_address(0x10000),
        Err(EmuError::InvalidAddress { address: 0x10000 })
    );
    assert_eq!(MemoryRegion::RomBankZero.as_str(), "ROM0");
    assert_eq!(MemoryRegion::EchoRam.as_str(), "ECHO");
}

#[test]
fn mmu_reset_state() {
    let mmu = Mmu::new();
    assert_eq!(mmu.read_byte(0x0000).unwrap(), 0x00);
    assert_eq!(mmu.read_byte(0x8000).unwrap(), 0x00);
    assert_eq!(mmu.read_byte(0xA000).unwrap(), 0xFF); // external RAM starts 0xFF
    assert_eq!(mmu.read_byte(0xBFFF).unwrap(), 0xFF);
    assert_eq!(mmu.read_byte(0xFFFF).unwrap(), 0x00);
}

#[test]
fn mmu_write_policies() {
    let mut mmu = Mmu::new();
    assert_eq!(mmu.write_byte(0x1000, 0x55), Err(EmuError::WriteToReadOnly { address: 0x1000 }));
    assert_eq!(mmu.read_byte(0x1000).unwrap(), 0x00);
    assert_eq!(mmu.write_byte(0xE000, 0x55), Err(EmuError::WriteToReadOnly { address: 0xE000 }));
    mmu.write_byte(0x8123, 0x77).unwrap();
    assert_eq!(mmu.read_byte(0x8123).unwrap(), 0x77);
    mmu.write_byte(0xFEA5, 0x21).unwrap(); // unusable region stores
    assert_eq!(mmu.read_byte(0xFEA5).unwrap(), 0x21);
    assert_eq!(mmu.read_byte(0x10000), Err(EmuError::InvalidAddress { address: 0x10000 }));
    assert_eq!(mmu.write_byte(0x10000, 1), Err(EmuError::InvalidAddress { address: 0x10000 }));
}

#[test]
fn echo_ram_mirrors_wram() {
    let mut mmu = Mmu::new();
    mmu.write_byte(0xC123, 0x5A).unwrap();
    assert_eq!(mmu.read_byte(0xE123).unwrap(), 0x5A);
    assert_eq!(mmu.read_byte(0xC123).unwrap(), mmu.read_byte(0xE123).unwrap());
    // the whole echo range mirrors its alias
    mmu.write_byte(0xDDFF, 0x99).unwrap();
    assert_eq!(mmu.read_byte(0xFDFF).unwrap(), 0x99);
}

#[test]
fn div_write_resets_through_bus() {
    let mut mmu = Mmu::new();
    mmu.set_div(0xAB); // the timer's raw store
    assert_eq!(mmu.div(), 0xAB);
    mmu.write_byte(0xFF04, 0x55).unwrap(); // a CPU write resets
    assert_eq!(mmu.div(), 0x00);
}

#[test]
fn ly_reads_stub() {
    let mut mmu = Mmu::new();
    assert_eq!(mmu.read_byte(0xFF44).unwrap(), 0x90);
    mmu.set_ly(5);
    assert_eq!(mmu.ly(), 0x90); // the stub wins over the stored byte
}

#[test]
fn wram_is_randomized_to_full_size() {
    let mmu = Mmu::new();
    let wram = mmu.dump_memory_region(MemoryRegion::WorkRam);
    assert_eq!(wram.len(), 0x2000);
    let echo = mmu.dump_memory_region(MemoryRegion::EchoRam);
    assert_eq!(echo.len(), 0x1E00);
    for i in 0..0x1E00 {
        assert_eq!(echo[i], wram[i]);
    }
}

#[test]
fn full_snapshot_has_one_byte_per_address() {
    let mut mmu = Mmu::new();
    mmu.write_byte(0x8000, 0x42).unwrap();
    let all = mmu.to_vec();
    assert_eq!(all.len(), 0x10000);
    assert_eq!(all[0x8000], 0x42);
}

#[test]
fn register_pairs_and_flag_mask() {
    let mut r = Registers::new();
    r.set_af(0x12FF);
    assert_eq!(r.a(), 0x12);
    assert_eq!(r.f(), 0xF0); // low nibble discarded
    assert_eq!(r.af(), 0x12F0);
    r.set_bc(0xABCD);
    assert_eq!((r.b(), r.c()), (0xAB, 0xCD));
    assert_eq!(r.bc(), 0xABCD);
    r.set_de(0x1357);
    assert_eq!(r.de(), 0x1357);
    r.set_hl(0x2468);
    assert_eq!(r.hl(), 0x2468);
    r.set_f(0x0F);
    assert_eq!(r.f(), 0x00);
    r.set_f(0xB0);
    assert!(r.zero_flag());
    assert!(!r.subtraction_flag());
    assert!(r.half_carry_flag());
    assert!(r.carry_flag());
    assert_eq!(r.f() & 0x0F, 0);
}

#[test]
fn flag_operations() {
    let mut r = Registers::new();
    r.set_flag(Flag::Zero, true);
    assert!(r.get_flag(Flag::Zero));
    r.flip_flag(Flag::Zero);
    assert!(!r.get_flag(Flag::Zero));
    r.set_flag(Flag::Carry, true);
    r.clear_flag(Flag::Carry);
    assert!(!r.carry_flag());
    r.set_flag(Flag::Subtraction, true);
    r.set_flag(Flag::HalfCarry, true);
    r.clear_all_flags();
    assert_eq!(r.f(), 0);
}

#[test]
fn pc_and_sp_wrap() {
    let mut r = Registers::new();
    r.set_pc(0xFFFF);
    r.increment_pc();
    assert_eq!(r.pc(), 0x0000);
    r.set_sp(0xFFFF);
    r.increment_sp();
    assert_eq!(r.sp(), 0x0000);
    r.decrement_sp();
    assert_eq!(r.sp(), 0xFFFF);
}

#[test]
fn register_file_access_by_name() {
    let mut r = Registers::new();
    r.set_8bit_register(Register::H, 0x42);
    assert_eq!(r.get_8bit_register(Register::H), 0x42);
    r.set_16bit_register(Register::SP, 0x8000);
    assert_eq!(r.get_16bit_register(Register::SP), 0x8000);
    r.set_16bit_register(Register::AF, 0x0A0F);
    assert_eq!(r.get_16bit_register(Register::AF), 0x0A00);
}

#[test]
fn alu_rotates_and_shifts() {
    assert_eq!(InstructionSet::rlc(0x80), (0x01, true));
    assert_eq!(InstructionSet::rlc(0x01), (0x02, false));
    assert_eq!(InstructionSet::rrc(0x01), (0x80, true));
    assert_eq!(InstructionSet::rl(0x80, true), (0x01, true));
    assert_eq!(InstructionSet::rr(0x01, true), (0x80, true));
    assert_eq!(InstructionSet::sla(0xC0), (0x80, true));
    assert_eq!(InstructionSet::sra(0x81), (0xC0, true));
    assert_eq!(InstructionSet::swap(0xAB), (0xBA, false));
    assert_eq!(InstructionSet::srl(0x81), (0x40, true));
}

#[test]
fn alu_logic_flags() {
    let mut r = Registers::new();
    InstructionSet::and(&mut r, 0xF0, 0x0F);
    assert_eq!(r.a(), 0x00);
    assert!(r.zero_flag());
    assert!(r.half_carry_flag());
    assert!(!r.carry_flag());
    InstructionSet::xor(&mut r, 0xFF, 0x0F);
    assert_eq!(r.a(), 0xF0);
    assert!(!r.zero_flag());
    assert!(!r.half_carry_flag());
    InstructionSet::or(&mut r, 0x00, 0x00);
    assert!(r.zero_flag());
}

#[test]
fn alu_daa_after_bcd_add() {
    // 0x45 + 0x38 = 0x7D; DAA turns it into the BCD sum 0x83.
    let mut r = Registers::new();
    InstructionSet::add(&mut r, 0x45, 0x38);
    assert_eq!(r.a(), 0x7D);
    InstructionSet::daa(&mut r);
    assert_eq!(r.a(), 0x83);
    assert!(!r.carry_flag());
    assert!(!r.half_carry_flag());
}

#[test]
fn alu_sbc_includes_carry_in_both_tests() {
    let mut r = Registers::new();
    r.set_carry_flag(true);
    InstructionSet::sbc(&mut r, 0x10, 0x0F);
    assert_eq!(r.a(), 0x00);
    assert!(r.zero_flag());
    assert!(r.carry_flag() == false);
    // 0x10 - 0x10 - 1 borrows
    let mut r2 = Registers::new();
    r2.set_carry_flag(true);
    InstructionSet::sbc(&mut r2, 0x10, 0x10);
    assert_eq!(r2.a(), 0xFF);
    assert!(r2.carry_flag());
}

#[test]
fn instruction_table_metadata() {
    let set = InstructionSet::new();
    let nop = set.fetch_instruction(0x00);
    assert_eq!(nop.name, "NOP");
    assert_eq!(nop.length, 1);
    assert_eq!(nop.cycles, 4);
    let jp = set.fetch_instruction(0xC3);
    assert_eq!(jp.length, 3);
    assert_eq!(jp.cycles, 16);
    let ld = set.fetch_instruction(0x06);
    assert_eq!(ld.length, 2);
    assert_eq!(ld.cycles, 8);
    let call = set.fetch_instruction(0xCD);
    assert_eq!(call.cycles, 24);
    let undef = set.fetch_instruction(0xD3);
    assert!(matches!(undef.operation, Operation::Undefined));
    let prefix = set.fetch_instruction(0xCB);
    assert!(matches!(prefix.operation, Operation::Prefix));
    let bit_hl = set.fetch_instruction_16bit(0x46); // BIT 0, (HL)
    assert_eq!(bit_hl.cycles, 12);
    assert_eq!(bit_hl.name, "BIT 0, (HL)");
    let res_hl = set.fetch_instruction_16bit(0x86); // RES 0, (HL)
    assert_eq!(res_hl.cycles, 16);
    let swap_b = set.fetch_instruction_16bit(0x30);
    assert_eq!(swap_b.cycles, 8);
    assert_eq!(swap_b.name, "SWAP B");
}

#[test]
fn timer_period_selection() {
    // TAC 0x07 selects one TIMA step per 256 T-cycles.
    let mut mmu = Mmu::new();
    let mut clock = Clock::new();
    mmu.set_tac(0x07);
    mmu.set_tima(0x10);
    clock.update_clock_cycles(&mut mmu, 255);
    assert_eq!(mmu.tima(), 0x10);
    clock.update_clock_cycles(&mut mmu, 1);
    assert_eq!(mmu.tima(), 0x11);
}

#[test]
fn timer_disabled_holds_tima() {
    let mut mmu = Mmu::new();
    let mut clock = Clock::new();
    mmu.set_tac(0x01); // divider selected but enable bit clear
    mmu.set_tima(0x10);
    clock.update_clock_cycles(&mut mmu, 255);
    clock.update_clock_cycles(&mut mmu, 255);
    assert_eq!(mmu.tima(), 0x10);
}

#[test]
fn timer_div_advances_every_256_cycles() {
    let mut mmu = Mmu::new();
    let mut clock = Clock::new();
    assert_eq!(mmu.div(), 0);
    clock.update_clock_cycles(&mut mmu, 255);
    assert_eq!(mmu.div(), 0);
    clock.update_clock_cycles(&mut mmu, 1);
    assert_eq!(mmu.div(), 1);
    clock.update_clock_cycles(&mut mmu, 255);
    clock.update_clock_cycles(&mut mmu, 1);
    assert_eq!(mmu.div(), 2);
}

#[test]
fn ppu_oam_scan_collects_candidates() {
    let mut mmu = Mmu::new();
    // sprite 0 at OAM 0xFE00: y=0x10 covers line 0 with 8-tall sprites
    mmu.write_byte(0xFE00, 0x10).unwrap();
    mmu.write_byte(0xFE01, 0x08).unwrap();
    mmu.write_byte(0xFE02, 0x01).unwrap();
    mmu.write_byte(0xFE03, 0x00).unwrap();
    mmu.set_lcdc(0x00); // 8-tall sprites
    let mut ppu = Ppu::new();
    ppu.oam_scan(&mmu, 0);
    assert_eq!(ppu.sprite_buffer.len(), 1);
    assert_eq!(
        ppu.sprite_buffer[0],
        OAMEntry { y_position: 0x10, x_position: 0x08, tile_index: 0x01, attributes: 0x00 }
    );
    // sprite 1 with x == 0 is rejected
    mmu.write_byte(0xFE04, 0x10).unwrap();
    mmu.write_byte(0xFE05, 0x00).unwrap();
    ppu.oam_scan(&mmu, 1);
    assert_eq!(ppu.sprite_buffer.len(), 1);
}

#[test]
fn ppu_mode_progression() {
    let mut mmu = Mmu::new();
    let mut ppu = Ppu::new();
    // forty OAM-scan steps of two cycles reach the draw stage
    for _ in 0..40 {
        ppu.emulation_loop(&mut mmu, 2).unwrap();
    }
    assert!(matches!(ppu.current_mode, PPUMode::Draw(DrawStep::Fetch { .. })));
    assert_eq!(ppu.current_t_cycles_count, 80);
}

#[test]
fn ppu_hblank_advances_line_and_vblank_raises_interrupt() {
    let mut mmu = Mmu::new();
    let mut ppu = Ppu {
        sprite_buffer: Vec::new(),
        current_mode: PPUMode::HBlank,
        current_t_cycles_count: 400,
        current_line: 10,
    };
    ppu.emulation_loop(&mut mmu, 100).unwrap();
    assert_eq!(ppu.current_line, 11);
    assert!(matches!(ppu.current_mode, PPUMode::OAMScan(0)));
    // line 143 ending HBlank enters VBlank and requests the interrupt
    let mut ppu2 = Ppu {
        sprite_buffer: Vec::new(),
        current_mode: PPUMode::HBlank,
        current_t_cycles_count: 400,
        current_line: 143,
    };
    mmu.set_iflag(0x00);
    ppu2.emulation_loop(&mut mmu, 100).unwrap();
    assert_eq!(ppu2.current_line, 144);
    assert!(matches!(ppu2.current_mode, PPUMode::VBlank));
    assert_eq!(mmu.iflag() & 0x01, 0x01);
}

#[test]
fn ppu_vblank_wraps_to_new_frame() {
    let mut mmu = Mmu::new();
    let mut ppu = Ppu {
        sprite_buffer: Vec::new(),
        current_mode: PPUMode::VBlank,
        current_t_cycles_count: 400,
        current_line: 153,
    };
    ppu.emulation_loop(&mut mmu, 100).unwrap();
    assert_eq!(ppu.current_line, 0);
    assert!(matches!(ppu.current_mode, PPUMode::OAMScan(0)));
}

#[test]
fn conditional_cycle_tables() {
    // taken / not-taken mapping: JR cc 12/8, JP cc 16/12, CALL cc 24/12,
    // RET cc 20/8
    assert_eq!(InstructionSet::instruction_cycles(0x20), 12);
    assert_eq!(InstructionSet::instruction_cycles_not_taken(0x20), 8);
    assert_eq!(InstructionSet::instruction_cycles(0xC2), 16);
    assert_eq!(InstructionSet::instruction_cycles_not_taken(0xC2), 12);
    assert_eq!(InstructionSet::instruction_cycles(0xC4), 24);
    assert_eq!(InstructionSet::instruction_cycles_not_taken(0xC4), 12);
    assert_eq!(InstructionSet::instruction_cycles(0xD8), 20);
    assert_eq!(InstructionSet::instruction_cycles_not_taken(0xD8), 8);
    // unconditional entries pay one price
    assert_eq!(InstructionSet::instruction_cycles(0xC3), 16);
    assert_eq!(InstructionSet::instruction_cycles_not_taken(0xC3), 16);
    assert_eq!(InstructionSet::instruction_cycles(0xD9), 16); // RETI
}

#[test]
fn condition_decode() {
    let mut r = Registers::new();
    r.set_zero_flag(true);
    r.set_carry_flag(false);
    assert!(!InstructionSet::condition_holds(0x20, &r)); // NZ
    assert!(InstructionSet::condition_holds(0x28, &r)); // Z
    assert!(InstructionSet::condition_holds(0x30, &r)); // NC
    assert!(!InstructionSet::condition_holds(0x38, &r)); // C
    assert!(!InstructionSet::condition_holds(0xC0, &r)); // RET NZ
    assert!(InstructionSet::condition_holds(0xCA, &r)); // JP Z
}

#[test]
fn straight_line_pc_advances_by_length() {
    let mut rom = vec![0u8; 0x8000];
    rom[0x0100] = 0x06; // LD B, d8
    rom[0x0101] = 0x77;
    rom[0x0102] = 0x21; // LD HL, d16
    rom[0x0103] = 0x34;
    rom[0x0104] = 0x12;
    let mut machine = rainier::system::Rainier::new();
    machine.boot(rom).unwrap();
    machine.step().unwrap();
    assert_eq!(machine.cpu.registers.pc(), 0x0102);
    assert_eq!(machine.cpu.registers.b(), 0x77);
    machine.step().unwrap();
    assert_eq!(machine.cpu.registers.pc(), 0x0105);
    assert_eq!(machine.cpu.registers.hl(), 0x1234);
}

#[test]
fn cb_prefixed_operations() {
    let mut rom = vec![0u8; 0x8000];
    rom[0x0100] = 0xCB; // SWAP B
    rom[0x0101] = 0x30;
    rom[0x0102] = 0xCB; // BIT 7, B
    rom[0x0103] = 0x78;
    rom[0x0104] = 0xCB; // SET 0, B
    rom[0x0105] = 0xC0;
    rom[0x0106] = 0xCB; // RES 0, B
    rom[0x0107] = 0x80;
    let mut machine = rainier::system::Rainier::new();
    machine.boot(rom).unwrap();
    machine.cpu.registers.set_b(0xA5);
    let c = machine.step().unwrap();
    assert_eq!(c, 8);
    assert_eq!(machine.cpu.registers.b(), 0x5A);
    assert_eq!(machine.cpu.registers.pc(), 0x0102);
    machine.step().unwrap(); // BIT 7 of 0x5A is 0 -> Z set
    assert!(machine.cpu.registers.zero_flag());
    assert!(machine.cpu.registers.half_carry_flag());
    machine.step().unwrap();
    assert_eq!(machine.cpu.registers.b(), 0x5B);
    machine.step().unwrap();
    assert_eq!(machine.cpu.registers.b(), 0x5A);
}

#[test]
fn cb_rmw_on_hl_goes_through_the_bus() {
    let mut rom = vec![0u8; 0x8000];
    rom[0x0100] = 0xCB; // SET 0, (HL)
    rom[0x0101] = 0xC6;
    let mut machine = rainier::system::Rainier::new();
    machine.boot(rom).unwrap();
    machine.cpu.registers.set_hl(0xC123);
    machine.mmu.write_byte(0xC123, 0x10).unwrap();
    let c = machine.step().unwrap();
    assert_eq!(c, 16);
    assert_eq!(machine.mmu.read_byte(0xC123).unwrap(), 0x11);
}

#[test]
fn interrupt_bits_and_vectors() {
    assert_eq!(Interrupt::VBlank.bit(), 0);
    assert_eq!(Interrupt::Timer.bit(), 2);
    assert_eq!(Interrupt::Joypad.bit(), 4);
    assert_eq!(Interrupt::VBlank.vector(), 0x40);
    assert_eq!(Interrupt::LCD.vector(), 0x48);
    assert_eq!(Interrupt::Timer.vector(), 0x50);
    assert_eq!(Interrupt::Serial.vector(), 0x58);
    assert_eq!(Interrupt::Joypad.vector(), 0x60);
}
