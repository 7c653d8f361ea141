//! The whole machine: the bus, the CPU, the timer and the PPU, wired in
//! the serial-exclusion order one step takes — CPU first, then the timer
//! and the PPU advance by the reported cycles. `boot` puts the machine
//! into the documented DMG post-boot state and maps a cartridge.

use vstd::prelude::*;

use crate::cpu::{spec_cpu_step_err, spec_cpu_step_ok, Cpu};
use crate::errors::EmuError;
use crate::interrupts::spec_pending;
use crate::mmu::{spec_read_of, Mmu};
use crate::ppu::{spec_ppu_step, Ppu};
use crate::registers::{lemma_f_props, mk_f};
use crate::timer::{spec_timer_step, Clock};

verus! {

/// The emulator: every subsystem owned outright, the bus passed by
/// mutable reference into each in turn.
pub struct Rainier {
    pub mmu: Mmu,
    pub cpu: Cpu,
    pub clock: Clock,
    pub ppu: Ppu,
}

impl Rainier {
    /// Every subsystem within its working bounds.
    pub open spec fn wf(self) -> bool {
        &&& self.mmu.wf()
        &&& self.clock.cycles < 0x10000
        &&& self.clock.div_cycles < 0x10000
        &&& self.ppu.wf()
    }

    /// A machine at power-on, before the boot state is applied.
    pub fn new() -> (r: Rainier)
        ensures
            r.wf(),
            r.cpu.interrupts.ime == false,
            r.cpu.serial_log@ == Seq::<u8>::empty(),
    {
        Rainier { mmu: Mmu::new(), cpu: Cpu::new(), clock: Clock::new(), ppu: Ppu::new() }
    }

    /// Puts the machine into the DMG post-boot state and maps the
    /// cartridge: the register file takes the documented snapshot
    /// (A=0x01, F=0xB0, B=0x00, C=0x13, D=0x00, E=0xD8, H=0x01, L=0x4D,
    /// SP=0xFFFE, PC=0x0100), the I/O bytes take the post-boot table, and
    /// the first 32 KiB of the image land in the two ROM banks. An image
    /// under 32 KiB is rejected.
    pub fn boot(&mut self, rom: Vec<u8>) -> (r: Result<(), EmuError>)
        requires
            old(self).wf(),
        ensures
            final(self).wf(),
            rom@.len() < 0x8000 ==> r == Err::<(), EmuError>(
                EmuError::CartridgeLoadError { size: rom@.len() as usize },
            ),
            rom@.len() >= 0x8000 ==> {
                &&& r == Ok::<(), EmuError>(())
                &&& final(self).cpu.registers.a == 0x01
                &&& final(self).cpu.registers.b == 0x00
                &&& final(self).cpu.registers.c == 0x13
                &&& final(self).cpu.registers.d == 0x00
                &&& final(self).cpu.registers.e == 0xD8
                &&& final(self).cpu.registers.h == 0x01
                &&& final(self).cpu.registers.l == 0x4D
                &&& final(self).cpu.registers.sp == 0xFFFE
                &&& final(self).cpu.registers.pc == 0x0100
                &&& final(self).cpu.registers.flag_z
                &&& !final(self).cpu.registers.flag_n
                &&& final(self).cpu.registers.flag_h
                &&& final(self).cpu.registers.flag_c
                &&& final(self).cpu.registers.spec_f() == 0xB0
                &&& final(self).cpu.registers.spec_af() == 0x01B0
                &&& forall|a: int| 0 <= a < 0x8000 ==> final(self).mmu@[a] == rom@[a]
                &&& final(self).mmu@[0xFF00] == 0xCF
                &&& final(self).mmu@[0xFF01] == 0x00
                &&& final(self).mmu@[0xFF02] == 0x7E
                &&& final(self).mmu@[0xFF04] == 0xAB
                &&& final(self).mmu@[0xFF05] == 0x00
                &&& final(self).mmu@[0xFF06] == 0x00
                &&& final(self).mmu@[0xFF07] == 0xF8
                &&& final(self).mmu@[0xFF0F] == 0xE1
                &&& final(self).mmu@[0xFF40] == 0x91
                &&& final(self).mmu@[0xFF41] == 0x85
                &&& final(self).mmu@[0xFF42] == 0x00
                &&& final(self).mmu@[0xFF43] == 0x00
                &&& final(self).mmu@[0xFF44] == 0x00
                &&& final(self).mmu@[0xFF45] == 0x00
                &&& final(self).mmu@[0xFF46] == 0xFF
                &&& final(self).mmu@[0xFF47] == 0xFC
                &&& final(self).mmu@[0xFF4A] == 0x00
                &&& final(self).mmu@[0xFF4B] == 0x00
                &&& final(self).mmu@[0xFFFF] == 0x00
            },
    {
        let registers = &mut self.cpu.registers;
        registers.set_a(0x01);
        registers.set_b(0x00);
        registers.set_c(0x13);
        registers.set_d(0x00);
        registers.set_e(0xD8);
        registers.set_h(0x01);
        registers.set_l(0x4D);
        registers.set_pc(0x0100);
        registers.set_sp(0xFFFE);
        registers.clear_all_flags();
        registers.set_zero_flag(true);
        registers.set_half_carry_flag(true);
        registers.set_carry_flag(true);
        proof {
            lemma_f_props(true, false, true, true);
            assert(mk_f(true, false, true, true) == 0xB0) by (bit_vector);
        }

        self.mmu.set_p1(0xCF);
        self.mmu.set_sb(0x00);
        self.mmu.set_sc(0x7E);
        self.mmu.set_div(0xAB);
        self.mmu.set_tima(0x00);
        self.mmu.set_tma(0x00);
        self.mmu.set_tac(0xF8);
        self.mmu.set_iflag(0xE1);
        self.mmu.set_nr10(0x80);
        self.mmu.set_nr11(0xBF);
        self.mmu.set_nr12(0xF3);
        self.mmu.set_nr13(0xFF);
        self.mmu.set_nr14(0xBF);
        self.mmu.set_nr21(0x3F);
        self.mmu.set_nr22(0x00);
        self.mmu.set_nr23(0xFF);
        self.mmu.set_nr24(0xBF);
        self.mmu.set_nr30(0x7F);
        self.mmu.set_nr31(0xFF);
        self.mmu.set_nr32(0x9F);
        self.mmu.set_nr33(0xFF);
        self.mmu.set_nr34(0xBF);
        self.mmu.set_nr41(0xFF);
        self.mmu.set_nr42(0x00);
        self.mmu.set_nr43(0x00);
        self.mmu.set_nr44(0xBF);
        self.mmu.set_nr50(0x77);
        self.mmu.set_nr51(0xF3);
        self.mmu.set_nr52(0xF1);
        self.mmu.set_lcdc(0x91);
        self.mmu.set_stat(0x85);
        self.mmu.set_scy(0x00);
        self.mmu.set_scx(0x00);
        self.mmu.set_ly(0x00);
        self.mmu.set_lyc(0x00);
        self.mmu.set_dma(0xFF);
        self.mmu.set_bgp(0xFC);
        self.mmu.set_wy(0x00);
        self.mmu.set_wx(0x00);
        self.mmu.set_ie(0x00);

        self.mmu.load_cartridge(rom)
    }

    /// One machine step, the serial-exclusion pipeline as a contract: the
    /// CPU transition first (interrupt dispatch or one opcode, plus the
    /// serial poll), then the timer transition on the CPU's memory image,
    /// then the PPU transition on the timer's — each by the T-cycles the
    /// CPU reported. An undefined opcode surfaces as the error, leaves
    /// the bus, the log, the timer and the PPU untouched, and halts the
    /// pipeline for this step.
    pub fn step(&mut self) -> (r: Result<u32, EmuError>)
        requires
            old(self).wf(),
        ensures
            final(self).wf(),
            r is Err <==> spec_cpu_step_err(old(self).cpu, old(self).mmu@),
            r is Err ==> {
                &&& final(self).mmu@ == old(self).mmu@
                &&& final(self).cpu.serial_log@ == old(self).cpu.serial_log@
                &&& final(self).cpu.interrupts == old(self).cpu.interrupts
                &&& final(self).clock == old(self).clock
                &&& final(self).ppu.current_mode == old(self).ppu.current_mode
                &&& final(self).ppu.current_t_cycles_count == old(self).ppu.current_t_cycles_count
                &&& final(self).ppu.current_line == old(self).ppu.current_line
                &&& final(self).ppu.sprite_buffer@ == old(self).ppu.sprite_buffer@
            },
            r is Ok ==> {
                let c = spec_cpu_step_ok(old(self).cpu, old(self).mmu@);
                let count = (if c.5 > 255 {
                    255u32
                } else {
                    c.5
                }) as u8;
                let t = spec_timer_step(
                    old(self).clock.cycles,
                    old(self).clock.div_cycles,
                    c.3,
                    count,
                );
                let q = spec_ppu_step(old(self).ppu, t.2, count);
                &&& r == Ok::<u32, EmuError>(c.5)
                &&& final(self).cpu.registers == c.0
                &&& final(self).cpu.interrupts.ime == c.1
                &&& final(self).cpu.interrupts.ei_delay == c.2
                &&& final(self).cpu.serial_log@ == c.4
                &&& final(self).clock.cycles == t.0
                &&& final(self).clock.div_cycles == t.1
                &&& final(self).ppu.current_mode == q.0
                &&& final(self).ppu.current_t_cycles_count == q.1
                &&& final(self).ppu.current_line == q.2
                &&& final(self).ppu.sprite_buffer@ == q.3
                &&& final(self).mmu@ == q.4
            },
            ({
                let p = spec_pending(old(self).mmu@);
                let dispatched = p != 0 && old(self).cpu.interrupts.ime;
                let pc0 = old(self).cpu.registers.pc;
                let op = spec_read_of(old(self).mmu@, pc0);
                &&& (dispatched ==> r == Ok::<u32, EmuError>(20))
                &&& (!dispatched && !crate::instructions::spec_undefined_op(op) && op != 0xCB
                    ==> r == Ok::<u32, EmuError>(
                    crate::instructions::spec_step_cycles(op, old(self).cpu.registers),
                ))
                &&& (!dispatched && op == 0xCB ==> r == Ok::<u32, EmuError>(
                    crate::instructions::spec_cb_cycles(
                        spec_read_of(old(self).mmu@, crate::bits::add16(pc0, 1)),
                    ),
                ))
            }),
    {
        let cycles = match self.cpu.emulation_loop(&mut self.mmu) {
            Ok(c) => c,
            Err(e) => {
                return Err(e);
            },
        };
        let count: u8 = if cycles > 255 {
            255
        } else {
            cycles as u8
        };
        self.clock.update_clock_cycles(&mut self.mmu, count);
        let _ = self.ppu.emulation_loop(&mut self.mmu, count);
        Ok(cycles)
    }
}

} // verus!
