//! Typed accessors for the memory-mapped I/O registers, one pair per
//! register of the DMG map. Getters read through the bus (so LY returns
//! the fixed stub value); setters store the raw byte, which is how the
//! timer advances DIV and TIMA without tripping the bus's DIV-reset rule.

use vstd::prelude::*;

use crate::mmu::Mmu;

verus! {

impl Mmu {
    /// A bus read of a known-good address.
    fn bus_get(&self, address: usize) -> (r: u8)
        requires
            self.wf(),
            address <= 0xFFFF,
        ensures
            r == self.spec_read(address as int),
    {
        match self.read_byte(address) {
            Ok(v) => v,
            Err(_) => 0,
        }
    }

    /// A raw store into the I/O block at 0xFF00 + offset.
    fn io_store(&mut self, offset: usize, val: u8)
        requires
            old(self).wf(),
            offset < 0x80,
        ensures
            final(self).wf(),
            final(self).spec_cartridge() == old(self).spec_cartridge(),
            final(self)@ == old(self)@.update(0xFF00 + offset, val),
    {
        self.set_io_byte(offset, val);
    }

    /// Reads 0xFF00.
    pub fn p1(&self) -> (r: u8)
        requires
            self.wf(),
        ensures
            r == self@[0xFF00],
    {
        self.bus_get(0xFF00)
    }

    /// Reads 0xFF01.
    pub fn sb(&self) -> (r: u8)
        requires
            self.wf(),
        ensures
            r == self@[0xFF01],
    {
        self.bus_get(0xFF01)
    }

    /// Reads 0xFF02.
    pub fn sc(&self) -> (r: u8)
        requires
            self.wf(),
        ensures
            r == self@[0xFF02],
    {
        self.bus_get(0xFF02)
    }

    /// Reads 0xFF04.
    pub fn div(&self) -> (r: u8)
        requires
            self.wf(),
        ensures
            r == self@[0xFF04],
    {
        self.bus_get(0xFF04)
    }

    /// Reads 0xFF05.
    pub fn tima(&self) -> (r: u8)
        requires
            self.wf(),
        ensures
            r == self@[0xFF05],
    {
        self.bus_get(0xFF05)
    }

    /// Reads 0xFF06.
    pub fn tma(&self) -> (r: u8)
        requires
            self.wf(),
        ensures
            r == self@[0xFF06],
    {
        self.bus_get(0xFF06)
    }

    /// Reads 0xFF07.
    pub fn tac(&self) -> (r: u8)
        requires
            self.wf(),
        ensures
            r == self@[0xFF07],
    {
        self.bus_get(0xFF07)
    }

    /// Reads 0xFF0F.
    pub fn iflag(&self) -> (r: u8)
        requires
            self.wf(),
        ensures
            r == self@[0xFF0F],
    {
        self.bus_get(0xFF0F)
    }

    /// Reads 0xFF10.
    pub fn nr10(&self) -> (r: u8)
        requires
            self.wf(),
        ensures
            r == self@[0xFF10],
    {
        self.bus_get(0xFF10)
    }

    /// Reads 0xFF11.
    pub fn nr11(&self) -> (r: u8)
        requires
            self.wf(),
        ensures
            r == self@[0xFF11],
    {
        self.bus_get(0xFF11)
    }

    /// Reads 0xFF12.
    pub fn nr12(&self) -> (r: u8)
        requires
            self.wf(),
        ensures
            r == self@[0xFF12],
    {
        self.bus_get(0xFF12)
    }

    /// Reads 0xFF14.
    pub fn nr14(&self) -> (r: u8)
        requires
            self.wf(),
        ensures
            r == self@[0xFF14],
    {
        self.bus_get(0xFF14)
    }

    /// Reads 0xFF16.
    pub fn nr21(&self) -> (r: u8)
        requires
            self.wf(),
        ensures
            r == self@[0xFF16],
    {
        self.bus_get(0xFF16)
    }

    /// Reads 0xFF17.
    pub fn nr22(&self) -> (r: u8)
        requires
            self.wf(),
        ensures
            r == self@[0xFF17],
    {
        self.bus_get(0xFF17)
    }

    /// Reads 0xFF19.
    pub fn nr24(&self) -> (r: u8)
        requires
            self.wf(),
        ensures
            r == self@[0xFF19],
    {
        self.bus_get(0xFF19)
    }

    /// Reads 0xFF1A.
    pub fn nr30(&self) -> (r: u8)
        requires
            self.wf(),
        ensures
            r == self@[0xFF1A],
    {
        self.bus_get(0xFF1A)
    }

    /// Reads 0xFF1C.
    pub fn nr32(&self) -> (r: u8)
        requires
            self.wf(),
        ensures
            r == self@[0xFF1C],
    {
        self.bus_get(0xFF1C)
    }

    /// Reads 0xFF1E.
    pub fn nr34(&self) -> (r: u8)
        requires
            self.wf(),
        ensures
            r == self@[0xFF1E],
    {
        self.bus_get(0xFF1E)
    }

    /// Reads 0xFF21.
    pub fn nr42(&self) -> (r: u8)
        requires
            self.wf(),
        ensures
            r == self@[0xFF21],
    {
        self.bus_get(0xFF21)
    }

    /// Reads 0xFF22.
    pub fn nr43(&self) -> (r: u8)
        requires
            self.wf(),
        ensures
            r == self@[0xFF22],
    {
        self.bus_get(0xFF22)
    }

    /// Reads 0xFF23.
    pub fn nr44(&self) -> (r: u8)
        requires
            self.wf(),
        ensures
            r == self@[0xFF23],
    {
        self.bus_get(0xFF23)
    }

    /// Reads 0xFF24.
    pub fn nr50(&self) -> (r: u8)
        requires
            self.wf(),
        ensures
            r == self@[0xFF24],
    {
        self.bus_get(0xFF24)
    }

    /// Reads 0xFF25.
    pub fn nr51(&self) -> (r: u8)
        requires
            self.wf(),
        ensures
            r == self@[0xFF25],
    {
        self.bus_get(0xFF25)
    }

    /// Reads 0xFF26.
    pub fn nr52(&self) -> (r: u8)
        requires
            self.wf(),
        ensures
            r == self@[0xFF26],
    {
        self.bus_get(0xFF26)
    }

    /// Reads 0xFF40.
    pub fn lcdc(&self) -> (r: u8)
        requires
            self.wf(),
        ensures
            r == self@[0xFF40],
    {
        self.bus_get(0xFF40)
    }

    /// Reads 0xFF41.
    pub fn stat(&self) -> (r: u8)
        requires
            self.wf(),
        ensures
            r == self@[0xFF41],
    {
        self.bus_get(0xFF41)
    }

    /// Reads 0xFF42.
    pub fn scy(&self) -> (r: u8)
        requires
            self.wf(),
        ensures
            r == self@[0xFF42],
    {
        self.bus_get(0xFF42)
    }

    /// Reads 0xFF43.
    pub fn scx(&self) -> (r: u8)
        requires
            self.wf(),
        ensures
            r == self@[0xFF43],
    {
        self.bus_get(0xFF43)
    }

    /// LY at 0xFF44: this core's stub always reads 0x90.
    pub fn ly(&self) -> (r: u8)
        requires
            self.wf(),
        ensures
            r == 0x90,
    {
        self.bus_get(0xFF44)
    }

    /// Reads 0xFF45.
    pub fn lyc(&self) -> (r: u8)
        requires
            self.wf(),
        ensures
            r == self@[0xFF45],
    {
        self.bus_get(0xFF45)
    }

    /// Reads 0xFF46.
    pub fn dma(&self) -> (r: u8)
        requires
            self.wf(),
        ensures
            r == self@[0xFF46],
    {
        self.bus_get(0xFF46)
    }

    /// Reads 0xFF47.
    pub fn bgp(&self) -> (r: u8)
        requires
            self.wf(),
        ensures
            r == self@[0xFF47],
    {
        self.bus_get(0xFF47)
    }

    /// Reads 0xFF48.
    pub fn obp0(&self) -> (r: u8)
        requires
            self.wf(),
        ensures
            r == self@[0xFF48],
    {
        self.bus_get(0xFF48)
    }

    /// Reads 0xFF49.
    pub fn obp1(&self) -> (r: u8)
        requires
            self.wf(),
        ensures
            r == self@[0xFF49],
    {
        self.bus_get(0xFF49)
    }

    /// Reads 0xFF4A.
    pub fn wy(&self) -> (r: u8)
        requires
            self.wf(),
        ensures
            r == self@[0xFF4A],
    {
        self.bus_get(0xFF4A)
    }

    /// Reads 0xFF4B.
    pub fn wx(&self) -> (r: u8)
        requires
            self.wf(),
        ensures
            r == self@[0xFF4B],
    {
        self.bus_get(0xFF4B)
    }

    /// Reads 0xFF4C.
    pub fn key0(&self) -> (r: u8)
        requires
            self.wf(),
        ensures
            r == self@[0xFF4C],
    {
        self.bus_get(0xFF4C)
    }

    /// Reads 0xFF4D.
    pub fn key1(&self) -> (r: u8)
        requires
            self.wf(),
        ensures
            r == self@[0xFF4D],
    {
        self.bus_get(0xFF4D)
    }

    /// Reads 0xFF4F.
    pub fn vbk(&self) -> (r: u8)
        requires
            self.wf(),
        ensures
            r == self@[0xFF4F],
    {
        self.bus_get(0xFF4F)
    }

    /// Reads 0xFF55.
    pub fn hdma5(&self) -> (r: u8)
        requires
            self.wf(),
        ensures
            r == self@[0xFF55],
    {
        self.bus_get(0xFF55)
    }

    /// Reads 0xFF56.
    pub fn rp(&self) -> (r: u8)
        requires
            self.wf(),
        ensures
            r == self@[0xFF56],
    {
        self.bus_get(0xFF56)
    }

    /// Reads 0xFF68.
    pub fn bcps(&self) -> (r: u8)
        requires
            self.wf(),
        ensures
            r == self@[0xFF68],
    {
        self.bus_get(0xFF68)
    }

    /// Reads 0xFF69.
    pub fn bcpd(&self) -> (r: u8)
        requires
            self.wf(),
        ensures
            r == self@[0xFF69],
    {
        self.bus_get(0xFF69)
    }

    /// Reads 0xFF6A.
    pub fn ocps(&self) -> (r: u8)
        requires
            self.wf(),
        ensures
            r == self@[0xFF6A],
    {
        self.bus_get(0xFF6A)
    }

    /// Reads 0xFF6B.
    pub fn ocpd(&self) -> (r: u8)
        requires
            self.wf(),
        ensures
            r == self@[0xFF6B],
    {
        self.bus_get(0xFF6B)
    }

    /// Reads 0xFF6C.
    pub fn opri(&self) -> (r: u8)
        requires
            self.wf(),
        ensures
            r == self@[0xFF6C],
    {
        self.bus_get(0xFF6C)
    }

    /// Reads 0xFF70.
    pub fn svbk(&self) -> (r: u8)
        requires
            self.wf(),
        ensures
            r == self@[0xFF70],
    {
        self.bus_get(0xFF70)
    }

    /// Reads 0xFF76.
    pub fn pcm12(&self) -> (r: u8)
        requires
            self.wf(),
        ensures
            r == self@[0xFF76],
    {
        self.bus_get(0xFF76)
    }

    /// Reads 0xFF77.
    pub fn pcm34(&self) -> (r: u8)
        requires
            self.wf(),
        ensures
            r == self@[0xFF77],
    {
        self.bus_get(0xFF77)
    }

    /// Stores 0xFF00.
    pub fn set_p1(&mut self, val: u8)
        requires
            old(self).wf(),
        ensures
            final(self).wf(),
            final(self).spec_cartridge() == old(self).spec_cartridge(),
            final(self)@ == old(self)@.update(0xFF00, val),
    {
        self.io_store(0x00, val)
    }

    /// Stores 0xFF01.
    pub fn set_sb(&mut self, val: u8)
        requires
            old(self).wf(),
        ensures
            final(self).wf(),
            final(self).spec_cartridge() == old(self).spec_cartridge(),
            final(self)@ == old(self)@.update(0xFF01, val),
    {
        self.io_store(0x01, val)
    }

    /// Stores 0xFF02.
    pub fn set_sc(&mut self, val: u8)
        requires
            old(self).wf(),
        ensures
            final(self).wf(),
            final(self).spec_cartridge() == old(self).spec_cartridge(),
            final(self)@ == old(self)@.update(0xFF02, val),
    {
        self.io_store(0x02, val)
    }

    /// Stores 0xFF04.
    pub fn set_div(&mut self, val: u8)
        requires
            old(self).wf(),
        ensures
            final(self).wf(),
            final(self).spec_cartridge() == old(self).spec_cartridge(),
            final(self)@ == old(self)@.update(0xFF04, val),
    {
        self.io_store(0x04, val)
    }

    /// Stores 0xFF05.
    pub fn set_tima(&mut self, val: u8)
        requires
            old(self).wf(),
        ensures
            final(self).wf(),
            final(self).spec_cartridge() == old(self).spec_cartridge(),
            final(self)@ == old(self)@.update(0xFF05, val),
    {
        self.io_store(0x05, val)
    }

    /// Stores 0xFF06.
    pub fn set_tma(&mut self, val: u8)
        requires
            old(self).wf(),
        ensures
            final(self).wf(),
            final(self).spec_cartridge() == old(self).spec_cartridge(),
            final(self)@ == old(self)@.update(0xFF06, val),
    {
        self.io_store(0x06, val)
    }

    /// Stores 0xFF07.
    pub fn set_tac(&mut self, val: u8)
        requires
            old(self).wf(),
        ensures
            final(self).wf(),
            final(self).spec_cartridge() == old(self).spec_cartridge(),
            final(self)@ == old(self)@.update(0xFF07, val),
    {
        self.io_store(0x07, val)
    }

    /// Stores 0xFF0F.
    pub fn set_iflag(&mut self, val: u8)
        requires
            old(self).wf(),
        ensures
            final(self).wf(),
            final(self).spec_cartridge() == old(self).spec_cartridge(),
            final(self)@ == old(self)@.update(0xFF0F, val),
    {
        self.io_store(0x0F, val)
    }

    /// Stores 0xFF10.
    pub fn set_nr10(&mut self, val: u8)
        requires
            old(self).wf(),
        ensures
            final(self).wf(),
            final(self).spec_cartridge() == old(self).spec_cartridge(),
            final(self)@ == old(self)@.update(0xFF10, val),
    {
        self.io_store(0x10, val)
    }

    /// Stores 0xFF11.
    pub fn set_nr11(&mut self, val: u8)
        requires
            old(self).wf(),
        ensures
            final(self).wf(),
            final(self).spec_cartridge() == old(self).spec_cartridge(),
            final(self)@ == old(self)@.update(0xFF11, val),
    {
        self.io_store(0x11, val)
    }

    /// Stores 0xFF12.
    pub fn set_nr12(&mut self, val: u8)
        requires
            old(self).wf(),
        ensures
            final(self).wf(),
            final(self).spec_cartridge() == old(self).spec_cartridge(),
            final(self)@ == old(self)@.update(0xFF12, val),
    {
        self.io_store(0x12, val)
    }

    /// Stores 0xFF13.
    pub fn set_nr13(&mut self, val: u8)
        requires
            old(self).wf(),
        ensures
            final(self).wf(),
            final(self).spec_cartridge() == old(self).spec_cartridge(),
            final(self)@ == old(self)@.update(0xFF13, val),
    {
        self.io_store(0x13, val)
    }

    /// Stores 0xFF14.
    pub fn set_nr14(&mut self, val: u8)
        requires
            old(self).wf(),
        ensures
            final(self).wf(),
            final(self).spec_cartridge() == old(self).spec_cartridge(),
            final(self)@ == old(self)@.update(0xFF14, val),
    {
        self.io_store(0x14, val)
    }

    /// Stores 0xFF16.
    pub fn set_nr21(&mut self, val: u8)
        requires
            old(self).wf(),
        ensures
            final(self).wf(),
            final(self).spec_cartridge() == old(self).spec_cartridge(),
            final(self)@ == old(self)@.update(0xFF16, val),
    {
        self.io_store(0x16, val)
    }

    /// Stores 0xFF17.
    pub fn set_nr22(&mut self, val: u8)
        requires
            old(self).wf(),
        ensures
            final(self).wf(),
            final(self).spec_cartridge() == old(self).spec_cartridge(),
            final(self)@ == old(self)@.update(0xFF17, val),
    {
        self.io_store(0x17, val)
    }

    /// Stores 0xFF18.
    pub fn set_nr23(&mut self, val: u8)
        requires
            old(self).wf(),
        ensures
            final(self).wf(),
            final(self).spec_cartridge() == old(self).spec_cartridge(),
            final(self)@ == old(self)@.update(0xFF18, val),
    {
        self.io_store(0x18, val)
    }

    /// Stores 0xFF19.
    pub fn set_nr24(&mut self, val: u8)
        requires
            old(self).wf(),
        ensures
            final(self).wf(),
            final(self).spec_cartridge() == old(self).spec_cartridge(),
            final(self)@ == old(self)@.update(0xFF19, val),
    {
        self.io_store(0x19, val)
    }

    /// Stores 0xFF1A.
    pub fn set_nr30(&mut self, val: u8)
        requires
            old(self).wf(),
        ensures
            final(self).wf(),
            final(self).spec_cartridge() == old(self).spec_cartridge(),
            final(self)@ == old(self)@.update(0xFF1A, val),
    {
        self.io_store(0x1A, val)
    }

    /// Stores 0xFF1B.
    pub fn set_nr31(&mut self, val: u8)
        requires
            old(self).wf(),
        ensures
            final(self).wf(),
            final(self).spec_cartridge() == old(self).spec_cartridge(),
            final(self)@ == old(self)@.update(0xFF1B, val),
    {
        self.io_store(0x1B, val)
    }

    /// Stores 0xFF1C.
    pub fn set_nr32(&mut self, val: u8)
        requires
            old(self).wf(),
        ensures
            final(self).wf(),
            final(self).spec_cartridge() == old(self).spec_cartridge(),
            final(self)@ == old(self)@.update(0xFF1C, val),
    {
        self.io_store(0x1C, val)
    }

    /// Stores 0xFF1D.
    pub fn set_nr33(&mut self, val: u8)
        requires
            old(self).wf(),
        ensures
            final(self).wf(),
            final(self).spec_cartridge() == old(self).spec_cartridge(),
            final(self)@ == old(self)@.update(0xFF1D, val),
    {
        self.io_store(0x1D, val)
    }

    /// Stores 0xFF1E.
    pub fn set_nr34(&mut self, val: u8)
        requires
            old(self).wf(),
        ensures
            final(self).wf(),
            final(self).spec_cartridge() == old(self).spec_cartridge(),
            final(self)@ == old(self)@.update(0xFF1E, val),
    {
        self.io_store(0x1E, val)
    }

    /// Stores 0xFF20.
    pub fn set_nr41(&mut self, val: u8)
        requires
            old(self).wf(),
        ensures
            final(self).wf(),
            final(self).spec_cartridge() == old(self).spec_cartridge(),
            final(self)@ == old(self)@.update(0xFF20, val),
    {
        self.io_store(0x20, val)
    }

    /// Stores 0xFF21.
    pub fn set_nr42(&mut self, val: u8)
        requires
            old(self).wf(),
        ensures
            final(self).wf(),
            final(self).spec_cartridge() == old(self).spec_cartridge(),
            final(self)@ == old(self)@.update(0xFF21, val),
    {
        self.io_store(0x21, val)
    }

    /// Stores 0xFF22.
    pub fn set_nr43(&mut self, val: u8)
        requires
            old(self).wf(),
        ensures
            final(self).wf(),
            final(self).spec_cartridge() == old(self).spec_cartridge(),
            final(self)@ == old(self)@.update(0xFF22, val),
    {
        self.io_store(0x22, val)
    }

    /// Stores 0xFF23.
    pub fn set_nr44(&mut self, val: u8)
        requires
            old(self).wf(),
        ensures
            final(self).wf(),
            final(self).spec_cartridge() == old(self).spec_cartridge(),
            final(self)@ == old(self)@.update(0xFF23, val),
    {
        self.io_store(0x23, val)
    }

    /// Stores 0xFF24.
    pub fn set_nr50(&mut self, val: u8)
        requires
            old(self).wf(),
        ensures
            final(self).wf(),
            final(self).spec_cartridge() == old(self).spec_cartridge(),
            final(self)@ == old(self)@.update(0xFF24, val),
    {
        self.io_store(0x24, val)
    }

    /// Stores 0xFF25.
    pub fn set_nr51(&mut self, val: u8)
        requires
            old(self).wf(),
        ensures
            final(self).wf(),
            final(self).spec_cartridge() == old(self).spec_cartridge(),
            final(self)@ == old(self)@.update(0xFF25, val),
    {
        self.io_store(0x25, val)
    }

    /// Stores 0xFF26.
    pub fn set_nr52(&mut self, val: u8)
        requires
            old(self).wf(),
        ensures
            final(self).wf(),
            final(self).spec_cartridge() == old(self).spec_cartridge(),
            final(self)@ == old(self)@.update(0xFF26, val),
    {
        self.io_store(0x26, val)
    }

    /// Stores 0xFF40.
    pub fn set_lcdc(&mut self, val: u8)
        requires
            old(self).wf(),
        ensures
            final(self).wf(),
            final(self).spec_cartridge() == old(self).spec_cartridge(),
            final(self)@ == old(self)@.update(0xFF40, val),
    {
        self.io_store(0x40, val)
    }

    /// Stores 0xFF41.
    pub fn set_stat(&mut self, val: u8)
        requires
            old(self).wf(),
        ensures
            final(self).wf(),
            final(self).spec_cartridge() == old(self).spec_cartridge(),
            final(self)@ == old(self)@.update(0xFF41, val),
    {
        self.io_store(0x41, val)
    }

    /// Stores 0xFF42.
    pub fn set_scy(&mut self, val: u8)
        requires
            old(self).wf(),
        ensures
            final(self).wf(),
            final(self).spec_cartridge() == old(self).spec_cartridge(),
            final(self)@ == old(self)@.update(0xFF42, val),
    {
        self.io_store(0x42, val)
    }

    /// Stores 0xFF43.
    pub fn set_scx(&mut self, val: u8)
        requires
            old(self).wf(),
        ensures
            final(self).wf(),
            final(self).spec_cartridge() == old(self).spec_cartridge(),
            final(self)@ == old(self)@.update(0xFF43, val),
    {
        self.io_store(0x43, val)
    }

    /// Stores 0xFF44.
    pub fn set_ly(&mut self, val: u8)
        requires
            old(self).wf(),
        ensures
            final(self).wf(),
            final(self).spec_cartridge() == old(self).spec_cartridge(),
            final(self)@ == old(self)@.update(0xFF44, val),
    {
        self.io_store(0x44, val)
    }

    /// Stores 0xFF45.
    pub fn set_lyc(&mut self, val: u8)
        requires
            old(self).wf(),
        ensures
            final(self).wf(),
            final(self).spec_cartridge() == old(self).spec_cartridge(),
            final(self)@ == old(self)@.update(0xFF45, val),
    {
        self.io_store(0x45, val)
    }

    /// Stores 0xFF46. The 160-byte OAM copy a DMA write starts on
    /// hardware is stubbed out; only the byte is stored.
    pub fn set_dma(&mut self, val: u8)
        requires
            old(self).wf(),
        ensures
            final(self).wf(),
            final(self).spec_cartridge() == old(self).spec_cartridge(),
            final(self)@ == old(self)@.update(0xFF46, val),
    {
        self.io_store(0x46, val)
    }

    /// Stores 0xFF47.
    pub fn set_bgp(&mut self, val: u8)
        requires
            old(self).wf(),
        ensures
            final(self).wf(),
            final(self).spec_cartridge() == old(self).spec_cartridge(),
            final(self)@ == old(self)@.update(0xFF47, val),
    {
        self.io_store(0x47, val)
    }

    /// Stores 0xFF48.
    pub fn set_obp0(&mut self, val: u8)
        requires
            old(self).wf(),
        ensures
            final(self).wf(),
            final(self).spec_cartridge() == old(self).spec_cartridge(),
            final(self)@ == old(self)@.update(0xFF48, val),
    {
        self.io_store(0x48, val)
    }

    /// Stores 0xFF49.
    pub fn set_obp1(&mut self, val: u8)
        requires
            old(self).wf(),
        ensures
            final(self).wf(),
            final(self).spec_cartridge() == old(self).spec_cartridge(),
            final(self)@ == old(self)@.update(0xFF49, val),
    {
        self.io_store(0x49, val)
    }

    /// Stores 0xFF4A.
    pub fn set_wy(&mut self, val: u8)
        requires
            old(self).wf(),
        ensures
            final(self).wf(),
            final(self).spec_cartridge() == old(self).spec_cartridge(),
            final(self)@ == old(self)@.update(0xFF4A, val),
    {
        self.io_store(0x4A, val)
    }

    /// Stores 0xFF4B.
    pub fn set_wx(&mut self, val: u8)
        requires
            old(self).wf(),
        ensures
            final(self).wf(),
            final(self).spec_cartridge() == old(self).spec_cartridge(),
            final(self)@ == old(self)@.update(0xFF4B, val),
    {
        self.io_store(0x4B, val)
    }

    /// Stores 0xFF4C.
    pub fn set_key0(&mut self, val: u8)
        requires
            old(self).wf(),
        ensures
            final(self).wf(),
            final(self).spec_cartridge() == old(self).spec_cartridge(),
            final(self)@ == old(self)@.update(0xFF4C, val),
    {
        self.io_store(0x4C, val)
    }

    /// Stores 0xFF4D.
    pub fn set_key1(&mut self, val: u8)
        requires
            old(self).wf(),
        ensures
            final(self).wf(),
            final(self).spec_cartridge() == old(self).spec_cartridge(),
            final(self)@ == old(self)@.update(0xFF4D, val),
    {
        self.io_store(0x4D, val)
    }

    /// Stores 0xFF4F.
    pub fn set_vbk(&mut self, val: u8)
        requires
            old(self).wf(),
        ensures
            final(self).wf(),
            final(self).spec_cartridge() == old(self).spec_cartridge(),
            final(self)@ == old(self)@.update(0xFF4F, val),
    {
        self.io_store(0x4F, val)
    }

    /// Stores 0xFF50.
    pub fn set_bank(&mut self, val: u8)
        requires
            old(self).wf(),
        ensures
            final(self).wf(),
            final(self).spec_cartridge() == old(self).spec_cartridge(),
            final(self)@ == old(self)@.update(0xFF50, val),
    {
        self.io_store(0x50, val)
    }

    /// Stores 0xFF51.
    pub fn set_hdma1(&mut self, val: u8)
        requires
            old(self).wf(),
        ensures
            final(self).wf(),
            final(self).spec_cartridge() == old(self).spec_cartridge(),
            final(self)@ == old(self)@.update(0xFF51, val),
    {
        self.io_store(0x51, val)
    }

    /// Stores 0xFF52.
    pub fn set_hdma2(&mut self, val: u8)
        requires
            old(self).wf(),
        ensures
            final(self).wf(),
            final(self).spec_cartridge() == old(self).spec_cartridge(),
            final(self)@ == old(self)@.update(0xFF52, val),
    {
        self.io_store(0x52, val)
    }

    /// Stores 0xFF53.
    pub fn set_hdma3(&mut self, val: u8)
        requires
            old(self).wf(),
        ensures
            final(self).wf(),
            final(self).spec_cartridge() == old(self).spec_cartridge(),
            final(self)@ == old(self)@.update(0xFF53, val),
    {
        self.io_store(0x53, val)
    }

    /// Stores 0xFF54.
    pub fn set_hdma4(&mut self, val: u8)
        requires
            old(self).wf(),
        ensures
            final(self).wf(),
            final(self).spec_cartridge() == old(self).spec_cartridge(),
            final(self)@ == old(self)@.update(0xFF54, val),
    {
        self.io_store(0x54, val)
    }

    /// Stores 0xFF55.
    pub fn set_hdma5(&mut self, val: u8)
        requires
            old(self).wf(),
        ensures
            final(self).wf(),
            final(self).spec_cartridge() == old(self).spec_cartridge(),
            final(self)@ == old(self)@.update(0xFF55, val),
    {
        self.io_store(0x55, val)
    }

    /// Stores 0xFF56.
    pub fn set_rp(&mut self, val: u8)
        requires
            old(self).wf(),
        ensures
            final(self).wf(),
            final(self).spec_cartridge() == old(self).spec_cartridge(),
            final(self)@ == old(self)@.update(0xFF56, val),
    {
        self.io_store(0x56, val)
    }

    /// Stores 0xFF68.
    pub fn set_bcps(&mut self, val: u8)
        requires
            old(self).wf(),
        ensures
            final(self).wf(),
            final(self).spec_cartridge() == old(self).spec_cartridge(),
            final(self)@ == old(self)@.update(0xFF68, val),
    {
        self.io_store(0x68, val)
    }

    /// Stores 0xFF69.
    pub fn set_bcpd(&mut self, val: u8)
        requires
            old(self).wf(),
        ensures
            final(self).wf(),
            final(self).spec_cartridge() == old(self).spec_cartridge(),
            final(self)@ == old(self)@.update(0xFF69, val),
    {
        self.io_store(0x69, val)
    }

    /// Stores 0xFF6A.
    pub fn set_ocps(&mut self, val: u8)
        requires
            old(self).wf(),
        ensures
            final(self).wf(),
            final(self).spec_cartridge() == old(self).spec_cartridge(),
            final(self)@ == old(self)@.update(0xFF6A, val),
    {
        self.io_store(0x6A, val)
    }

    /// Stores 0xFF6B.
    pub fn set_ocpd(&mut self, val: u8)
        requires
            old(self).wf(),
        ensures
            final(self).wf(),
            final(self).spec_cartridge() == old(self).spec_cartridge(),
            final(self)@ == old(self)@.update(0xFF6B, val),
    {
        self.io_store(0x6B, val)
    }

    /// Stores 0xFF6C.
    pub fn set_opri(&mut self, val: u8)
        requires
            old(self).wf(),
        ensures
            final(self).wf(),
            final(self).spec_cartridge() == old(self).spec_cartridge(),
            final(self)@ == old(self)@.update(0xFF6C, val),
    {
        self.io_store(0x6C, val)
    }

    /// Stores 0xFF70.
    pub fn set_svbk(&mut self, val: u8)
        requires
            old(self).wf(),
        ensures
            final(self).wf(),
            final(self).spec_cartridge() == old(self).spec_cartridge(),
            final(self)@ == old(self)@.update(0xFF70, val),
    {
        self.io_store(0x70, val)
    }

    /// Wave RAM, sixteen bytes at 0xFF30.
    pub fn wave_ram(&self, index: u8) -> (r: u8)
        requires
            self.wf(),
            index < 16,
        ensures
            r == self@[0xFF30 + index],
    {
        self.bus_get(0xFF30 + index as usize)
    }

    /// Stores one wave RAM byte.
    pub fn set_wave_ram(&mut self, index: u8, val: u8)
        requires
            old(self).wf(),
            index < 16,
        ensures
            final(self).wf(),
            final(self).spec_cartridge() == old(self).spec_cartridge(),
            final(self)@ == old(self)@.update(0xFF30 + index, val),
    {
        self.io_store(0x30 + index as usize, val)
    }

    /// The IE byte at 0xFFFF.
    pub fn ie(&self) -> (r: u8)
        requires
            self.wf(),
        ensures
            r == self@[0xFFFF],
    {
        self.bus_get(0xFFFF)
    }

    /// Stores the IE byte.
    pub fn set_ie(&mut self, val: u8)
        requires
            old(self).wf(),
        ensures
            final(self).wf(),
            final(self).spec_cartridge() == old(self).spec_cartridge(),
            final(self)@ == old(self)@.update(0xFFFF, val),
    {
        self.set_ie_byte(val);
    }
}

} // verus!
