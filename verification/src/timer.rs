//! The timer: DIV at 0xFF04 gains one for every 256 T-cycles, and, while
//! TAC enables it, TIMA at 0xFF05 gains one for every period selected by
//! TAC's low bits. A TIMA step past 0xFF reloads it from TMA and raises
//! the timer bit of IF.

use vstd::prelude::*;

use crate::mmu::Mmu;

verus! {

/// T-cycles per TIMA step for a TAC value: 00 selects 1024, 01 selects
/// 16, 10 selects 64, 11 selects 256.
pub open spec fn spec_timer_period(tac: u8) -> u32 {
    if tac & 3 == 0 {
        1024
    } else if tac & 3 == 1 {
        16
    } else if tac & 3 == 2 {
        64
    } else {
        256
    }
}

/// TIMA and IF after `n` timer steps: each step past 0xFF reloads TIMA
/// from TMA and raises IF bit 2; every other step adds one.
pub open spec fn spec_tima_ticks(tima: u8, tma: u8, iflag: u8, n: nat) -> (u8, u8)
    decreases n,
{
    if n == 0 {
        (tima, iflag)
    } else {
        let prev = spec_tima_ticks(tima, tma, iflag, (n - 1) as nat);
        if prev.0 == 0xFF {
            (tma, prev.1 | 0x04)
        } else {
            (((prev.0 + 1) as u8), prev.1)
        }
    }
}

/// One whole timer advance as a function of the accumulators, the memory
/// image and the cycle count: the new TIMA accumulator, the new DIV
/// accumulator, and the memory image with DIV, TIMA and IF updated.
pub open spec fn spec_timer_step(cycles: usize, div_cycles: usize, m: Seq<u8>, count: u8) -> (
    usize,
    usize,
    Seq<u8>,
) {
    let tac = m[0xFF07];
    let enabled = tac & 0x04 != 0;
    let period = spec_timer_period(tac);
    let dtotal = div_cycles + count;
    let newdiv = (((m[0xFF04] as int) + dtotal / 256) % 256) as u8;
    let m1 = m.update(0xFF04, newdiv);
    if !enabled {
        (cycles, (dtotal % 256) as usize, m1)
    } else {
        let ttotal = cycles + count;
        let n = (ttotal as int / period as int) as nat;
        let pair = spec_tima_ticks(m[0xFF05], m[0xFF06], m1[0xFF0F], n);
        (
            (ttotal as int % period as int) as usize,
            (dtotal % 256) as usize,
            m1.update(0xFF05, pair.0).update(0xFF0F, pair.1),
        )
    }
}

/// The timer's private accumulators: T-cycles not yet turned into a TIMA
/// step, and T-cycles not yet turned into a DIV step.
pub struct Clock {
    pub cycles: usize,
    pub div_cycles: usize,
}

impl Clock {
    /// A timer with both accumulators empty.
    pub fn new() -> (r: Clock)
        ensures
            r.cycles == 0,
            r.div_cycles == 0,
    {
        Clock { cycles: 0, div_cycles: 0 }
    }

    /// Advances the timer by `count` T-cycles.
    ///
    /// DIV gains the carry-out of its accumulator. While TAC's enable bit
    /// is set, TIMA steps once per elapsed period, reloading from TMA and
    /// raising IF bit 2 on each overflow; with the enable bit clear the
    /// TIMA accumulator holds still.
    pub fn update_clock_cycles(&mut self, mmu: &mut Mmu, count: u8)
        requires
            old(mmu).wf(),
            old(self).cycles < 0x10000,
            old(self).div_cycles < 0x10000,
        ensures
            final(mmu).wf(),
            final(mmu).spec_cartridge() == old(mmu).spec_cartridge(),
            final(self).cycles < 0x10000,
            final(self).div_cycles < 0x10000,
            (final(self).cycles, final(self).div_cycles, final(mmu)@) == spec_timer_step(
                old(self).cycles,
                old(self).div_cycles,
                old(mmu)@,
                count,
            ),
            ({
                let tac = old(mmu)@[0xFF07];
                let enabled = tac & 0x04 != 0;
                let period = spec_timer_period(tac);
                let dtotal = old(self).div_cycles + count;
                let newdiv = (((old(mmu)@[0xFF04] as int) + dtotal / 256) % 256) as u8;
                let m1 = old(mmu)@.update(0xFF04, newdiv);
                &&& final(self).div_cycles == dtotal % 256
                &&& (!enabled ==> final(self).cycles == old(self).cycles && final(mmu)@ == m1)
                &&& (enabled ==> {
                    let ttotal = old(self).cycles + count;
                    let n = (ttotal as int / period as int) as nat;
                    let pair = spec_tima_ticks(old(mmu)@[0xFF05], old(mmu)@[0xFF06], m1[0xFF0F], n);
                    &&& final(self).cycles == ttotal as int % period as int
                    &&& final(mmu)@ == m1.update(0xFF05, pair.0).update(0xFF0F, pair.1)
                })
            }),
    {
        let tac = mmu.tac();
        let div0 = mmu.div();

        let dtotal: usize = self.div_cycles + count as usize;
        let newdiv: u8 = (((div0 as usize) + dtotal / 256) % 256) as u8;
        mmu.set_div(newdiv);
        self.div_cycles = dtotal % 256;

        let enabled: bool = tac & 0x04 != 0;
        if !enabled {
            return ;
        }
        let period: u32 = if tac & 3 == 0 {
            1024
        } else if tac & 3 == 1 {
            16
        } else if tac & 3 == 2 {
            64
        } else {
            256
        };
        let ghost m1 = mmu@;
        let ghost tima0 = mmu@[0xFF05];
        let ghost tma0 = mmu@[0xFF06];
        let ghost if0 = mmu@[0xFF0F];

        let tma = mmu.tma();
        let mut tima = mmu.tima();
        let mut iflag = mmu.iflag();
        let mut remaining: usize = self.cycles + count as usize;
        let ghost n0 = (remaining as int / period as int) as nat;
        let ghost applied: nat = 0nat;
        while remaining >= period as usize
            invariant
                mmu.wf(),
                period == spec_timer_period(tac),
                period >= 16,
                remaining <= old(self).cycles + count,
                (tima, iflag) == spec_tima_ticks(tima0, tma0, if0, applied),
                tma == tma0,
                applied + remaining as int / period as int == n0,
                remaining + applied * period == old(self).cycles + count,
                n0 == (old(self).cycles + count) as int / period as int,
            decreases remaining,
        {
            proof {
                assert((remaining - period as usize) as int / period as int == remaining as int
                    / period as int - 1) by (nonlinear_arith)
                    requires
                        period >= 16,
                        remaining >= period,
                ;
            }
            remaining = remaining - period as usize;
            if tima == 0xFF {
                tima = tma;
                iflag = iflag | 0x04;
            } else {
                tima = tima + 1;
            }
            proof {
                applied = applied + 1;
            }
        }
        proof {
            assert(remaining as int / period as int == 0) by (nonlinear_arith)
                requires
                    period >= 16,
                    0 <= remaining < period,
            ;
            assert((remaining + applied * period) as int % period as int
                == remaining as int) by (nonlinear_arith)
                requires
                    period >= 16,
                    0 <= remaining < period,
                    applied >= 0,
            ;
        }
        self.cycles = remaining;
        mmu.set_tima(tima);
        mmu.set_iflag(iflag);
        proof {
            assert(final(mmu)@ =~= m1.update(0xFF05, tima).update(0xFF0F, iflag));
        }
    }
}

} // verus!
