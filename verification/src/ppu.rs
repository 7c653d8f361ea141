//! The pixel-processing unit, to the skeleton the CPU needs: the mode
//! state machine driven by the CPU's reported cycles (OAM scan, draw,
//! horizontal and vertical blank), the OAM scan that gathers up to ten
//! candidate sprites per scanline, the background tile-number fetch, and
//! the LCDC bit accessors. The pixel pipeline itself is not modelled; LY
//! reads stay on the bus's stub.

use vstd::prelude::*;

use crate::mmu::Mmu;

verus! {

/// One sprite record of object attribute memory.
#[derive(Debug, Copy, Clone, PartialEq, Eq, Structural)]
pub struct OAMEntry {
    pub y_position: u8,
    pub x_position: u8,
    pub tile_index: u8,
    pub attributes: u8,
}

/// The draw stage's fetcher position.
#[derive(Debug, Copy, Clone, PartialEq, Eq, Structural)]
pub enum DrawStep {
    Fetch { x_pos: u8, window_line_counter: u8, is_window: bool },
}

/// The four PPU modes; OAM scan carries the sprite index it looks at
/// next.
#[derive(Debug, Copy, Clone, PartialEq, Eq, Structural)]
pub enum PPUMode {
    HBlank,
    VBlank,
    OAMScan(u8),
    Draw(DrawStep),
}

/// The LCDC control bits, in the canonical layout: bit 0 background
/// enable up to bit 7 display enable.
#[derive(Debug, Copy, Clone, PartialEq, Eq, Structural)]
pub enum Register {
    BGEnable,
    SpriteEnable,
    SpriteSize,
    BGTileMapSelect,
    TileDataSelect,
    WindowDisplayEnable,
    WindowTileMapSelect,
    DisplayEnable,
}

/// The mask an LCDC bit occupies.
pub open spec fn spec_lcdc_mask(register: Register) -> u8 {
    match register {
        Register::BGEnable => 0x01,
        Register::SpriteEnable => 0x02,
        Register::SpriteSize => 0x04,
        Register::BGTileMapSelect => 0x08,
        Register::TileDataSelect => 0x10,
        Register::WindowDisplayEnable => 0x20,
        Register::WindowTileMapSelect => 0x40,
        Register::DisplayEnable => 0x80,
    }
}

/// Whether a sprite record joins the scanline's buffer: the buffer has
/// room, the sprite is on screen (x > 0), and its vertical range covers
/// line + 16 for the current sprite height.
pub open spec fn spec_oam_entry_check(
    buffer_len: int,
    tall_sprites: bool,
    line: u8,
    entry: OAMEntry,
) -> bool {
    let height: int = if tall_sprites {
        16
    } else {
        8
    };
    &&& buffer_len < 10
    &&& entry.x_position > 0
    &&& line + 16 >= entry.y_position
    &&& line + 16 < entry.y_position + height
}

/// One whole PPU advance as a function of the old PPU state, the memory
/// image and the cycle count: the new mode, in-line cycle count, line,
/// sprite buffer and memory image.
pub open spec fn spec_ppu_step(p: Ppu, m: Seq<u8>, t_cycles: u8) -> (
    PPUMode,
    u32,
    u8,
    Seq<OAMEntry>,
    Seq<u8>,
) {
    let count = p.current_t_cycles_count;
    match p.current_mode {
        PPUMode::OAMScan(i) => {
            let entry = OAMEntry {
                y_position: m[0xFE00 + 4 * i],
                x_position: m[0xFE01 + 4 * i],
                tile_index: m[0xFE02 + 4 * i],
                attributes: m[0xFE03 + 4 * i],
            };
            let buffer = if spec_oam_entry_check(
                p.sprite_buffer@.len() as int,
                m[0xFF40] & 0x04 != 0,
                p.current_line,
                entry,
            ) {
                p.sprite_buffer@.push(entry)
            } else {
                p.sprite_buffer@
            };
            let mode = if count + 2 >= 80 {
                PPUMode::Draw(
                    DrawStep::Fetch { x_pos: 0, window_line_counter: 0, is_window: false },
                )
            } else {
                PPUMode::OAMScan(
                    (if i < 39 {
                        (i + 1) as u8
                    } else {
                        39u8
                    }),
                )
            };
            (mode, (count + 2) as u32, p.current_line, buffer, m)
        },
        PPUMode::Draw(_) => {
            let mode = if count + t_cycles >= 252 {
                PPUMode::HBlank
            } else {
                p.current_mode
            };
            (mode, (count + t_cycles) as u32, p.current_line, p.sprite_buffer@, m)
        },
        PPUMode::HBlank => {
            if count + t_cycles >= 456 {
                if p.current_line + 1 == 144 {
                    (
                        PPUMode::VBlank,
                        0u32,
                        144u8,
                        p.sprite_buffer@,
                        m.update(0xFF44, 144u8).update(0xFF0F, m[0xFF0F] | 0x01),
                    )
                } else {
                    (
                        PPUMode::OAMScan(0u8),
                        0u32,
                        (p.current_line + 1) as u8,
                        Seq::<OAMEntry>::empty(),
                        m.update(0xFF44, (p.current_line + 1) as u8),
                    )
                }
            } else {
                (
                    PPUMode::HBlank,
                    (count + t_cycles) as u32,
                    p.current_line,
                    p.sprite_buffer@,
                    m,
                )
            }
        },
        PPUMode::VBlank => {
            if count + t_cycles >= 456 {
                if p.current_line >= 153 {
                    (
                        PPUMode::OAMScan(0u8),
                        0u32,
                        0u8,
                        Seq::<OAMEntry>::empty(),
                        m.update(0xFF44, 0u8),
                    )
                } else {
                    (
                        PPUMode::VBlank,
                        0u32,
                        (p.current_line + 1) as u8,
                        p.sprite_buffer@,
                        m.update(0xFF44, (p.current_line + 1) as u8),
                    )
                }
            } else {
                (
                    PPUMode::VBlank,
                    (count + t_cycles) as u32,
                    p.current_line,
                    p.sprite_buffer@,
                    m,
                )
            }
        },
    }
}

/// The PPU's own state: the candidate-sprite buffer, the mode machine,
/// the T-cycle count inside the current scanline, and the line counter it
/// mirrors into LY's backing byte.
pub struct Ppu {
    pub sprite_buffer: Vec<OAMEntry>,
    pub current_mode: PPUMode,
    pub current_t_cycles_count: u32,
    pub current_line: u8,
}

impl Ppu {
    /// The buffer holds at most ten sprites, an OAM scan index stays
    /// within the forty slots, the cycle counter stays within each mode's
    /// working range, and the line matches the mode (VBlank owns lines
    /// 144 and up).
    pub open spec fn wf(self) -> bool {
        &&& self.sprite_buffer@.len() <= 10
        &&& (match self.current_mode {
            PPUMode::OAMScan(i) => i < 40 && self.current_t_cycles_count < 80,
            PPUMode::Draw(_) => self.current_t_cycles_count < 600,
            _ => self.current_t_cycles_count < 900,
        })
        &&& self.current_line <= 153
        &&& (!(self.current_mode is VBlank) ==> self.current_line < 144)
        &&& (self.current_mode is VBlank ==> self.current_line >= 144)
    }

    /// A PPU at the start of a frame: empty buffer, OAM scan of sprite
    /// zero, cycle and line counters at zero.
    pub fn new() -> (r: Ppu)
        ensures
            r.wf(),
            r.sprite_buffer@ == Seq::<OAMEntry>::empty(),
            r.current_mode == PPUMode::OAMScan(0u8),
            r.current_t_cycles_count == 0,
            r.current_line == 0,
    {
        Ppu {
            sprite_buffer: Vec::new(),
            current_mode: PPUMode::OAMScan(0),
            current_t_cycles_count: 0,
            current_line: 0,
        }
    }

    /// Whether an LCDC bit is set.
    pub fn check_register(&self, mmu: &Mmu, register: Register) -> (r: bool)
        requires
            mmu.wf(),
        ensures
            r == (mmu@[0xFF40] & spec_lcdc_mask(register) != 0),
    {
        let lcdc = mmu.lcdc();
        let mask: u8 = match register {
            Register::BGEnable => 0x01,
            Register::SpriteEnable => 0x02,
            Register::SpriteSize => 0x04,
            Register::BGTileMapSelect => 0x08,
            Register::TileDataSelect => 0x10,
            Register::WindowDisplayEnable => 0x20,
            Register::WindowTileMapSelect => 0x40,
            Register::DisplayEnable => 0x80,
        };
        lcdc & mask != 0
    }

    /// Sets or clears an LCDC bit.
    pub fn set_register(&mut self, mmu: &mut Mmu, register: Register, value: bool)
        requires
            old(mmu).wf(),
        ensures
            final(mmu).wf(),
            final(mmu).spec_cartridge() == old(mmu).spec_cartridge(),
            *final(self) == *old(self),
            value ==> final(mmu)@ == old(mmu)@.update(
                0xFF40,
                old(mmu)@[0xFF40] | spec_lcdc_mask(register),
            ),
            !value ==> final(mmu)@ == old(mmu)@.update(
                0xFF40,
                old(mmu)@[0xFF40] & !spec_lcdc_mask(register),
            ),
    {
        let lcdc = mmu.lcdc();
        let mask: u8 = match register {
            Register::BGEnable => 0x01,
            Register::SpriteEnable => 0x02,
            Register::SpriteSize => 0x04,
            Register::BGTileMapSelect => 0x08,
            Register::TileDataSelect => 0x10,
            Register::WindowDisplayEnable => 0x20,
            Register::WindowTileMapSelect => 0x40,
            Register::DisplayEnable => 0x80,
        };
        if value {
            mmu.set_lcdc(lcdc | mask);
        } else {
            mmu.set_lcdc(lcdc & !mask);
        }
    }

    /// Reads one sprite record out of OAM (four bytes per slot).
    pub fn fetch_oam_entry(&self, mmu: &Mmu, id: u8) -> (r: OAMEntry)
        requires
            mmu.wf(),
            id < 40,
        ensures
            r.y_position == mmu@[0xFE00 + 4 * id],
            r.x_position == mmu@[0xFE01 + 4 * id],
            r.tile_index == mmu@[0xFE02 + 4 * id],
            r.attributes == mmu@[0xFE03 + 4 * id],
    {
        let address: usize = 0xFE00 + 4 * id as usize;
        let y_position = match mmu.read_byte(address) {
            Ok(v) => v,
            Err(_) => 0,
        };
        let x_position = match mmu.read_byte(address + 1) {
            Ok(v) => v,
            Err(_) => 0,
        };
        let tile_index = match mmu.read_byte(address + 2) {
            Ok(v) => v,
            Err(_) => 0,
        };
        let attributes = match mmu.read_byte(address + 3) {
            Ok(v) => v,
            Err(_) => 0,
        };
        OAMEntry { y_position, x_position, tile_index, attributes }
    }

    /// Whether a sprite record would join the buffer on the current line.
    pub fn oam_entry_check(&self, mmu: &Mmu, entry: &OAMEntry) -> (r: bool)
        requires
            mmu.wf(),
        ensures
            r == spec_oam_entry_check(
                self.sprite_buffer@.len() as int,
                mmu@[0xFF40] & 0x04 != 0,
                self.current_line,
                *entry,
            ),
    {
        let tall = self.check_register(mmu, Register::SpriteSize);
        let height: u16 = if tall {
            16
        } else {
            8
        };
        let line16: u16 = self.current_line as u16 + 16;
        self.sprite_buffer.len() < 10 && entry.x_position > 0 && line16 >= entry.y_position as u16
            && line16 < entry.y_position as u16 + height
    }

    /// Scans one OAM slot, keeping the sprite when it qualifies.
    pub fn oam_scan(&mut self, mmu: &Mmu, sprite_id: u8)
        requires
            old(self).wf(),
            mmu.wf(),
            sprite_id < 40,
        ensures
            final(self).wf(),
            final(self).current_mode == old(self).current_mode,
            final(self).current_t_cycles_count == old(self).current_t_cycles_count,
            final(self).current_line == old(self).current_line,
            ({
                let entry = OAMEntry {
                    y_position: mmu@[0xFE00 + 4 * sprite_id],
                    x_position: mmu@[0xFE01 + 4 * sprite_id],
                    tile_index: mmu@[0xFE02 + 4 * sprite_id],
                    attributes: mmu@[0xFE03 + 4 * sprite_id],
                };
                if spec_oam_entry_check(
                    old(self).sprite_buffer@.len() as int,
                    mmu@[0xFF40] & 0x04 != 0,
                    old(self).current_line,
                    entry,
                ) {
                    final(self).sprite_buffer@ == old(self).sprite_buffer@.push(entry)
                } else {
                    final(self).sprite_buffer@ == old(self).sprite_buffer@
                }
            }),
    {
        let sprite = self.fetch_oam_entry(mmu, sprite_id);
        if self.oam_entry_check(mmu, &sprite) {
            self.sprite_buffer.push(sprite);
        }
    }

    /// The background or window tile-map offset the fetcher reads next.
    pub fn fetch_tile_number(&self, mmu: &Mmu, x_pos: u8, window_line_counter: u8, is_window: bool)
        -> (r: usize)
        requires
            mmu.wf(),
        ensures
            ({
                let scx = mmu@[0xFF43];
                let scy = mmu@[0xFF42];
                let base: int = if !is_window {
                    (x_pos + scx / 8) % 256
                } else {
                    x_pos as int
                };
                let column: int = base % 32;
                let row: int = if !is_window {
                    32 * (((self.current_line + scy) % 256) / 8)
                } else {
                    32 * (window_line_counter as int / 8)
                };
                r == (column + row) % 0x400
            }),
    {
        let mut offset: usize = x_pos as usize;
        if !is_window {
            let scx = mmu.scx();
            offset = ((x_pos as usize + (scx / 8) as usize) % 256) % 32;
        } else {
            offset = offset % 32;
        }
        if !is_window {
            let scy = mmu.scy();
            let line: usize = ((self.current_line as usize + scy as usize) % 256) / 8;
            offset = offset + 32 * line;
        } else {
            offset = offset + 32 * (window_line_counter as usize / 8);
        }
        offset % 0x400
    }

    /// Advances the mode machine by the CPU's reported cycles.
    ///
    /// OAM scan looks at one sprite per call (two T-cycles each) and
    /// hands over to the draw stage after 80 cycles. The draw stage
    /// yields to HBlank after 172 further cycles. A full 456-cycle line
    /// ends HBlank: LY's backing byte advances, line 144 enters VBlank
    /// and raises the VBlank interrupt request, and line 154 wraps to a
    /// fresh OAM scan. Each VBlank line also lasts 456 cycles.
    pub fn emulation_loop(&mut self, mmu: &mut Mmu, t_cycles: u8) -> (r: Result<
        (),
        crate::errors::EmuError,
    >)
        requires
            old(self).wf(),
            old(mmu).wf(),
        ensures
            final(self).wf(),
            final(mmu).wf(),
            final(mmu).spec_cartridge() == old(mmu).spec_cartridge(),
            r is Ok,
            (
                final(self).current_mode,
                final(self).current_t_cycles_count,
                final(self).current_line,
                final(self).sprite_buffer@,
                final(mmu)@,
            ) == spec_ppu_step(*old(self), old(mmu)@, t_cycles),
            ({
                let count = old(self).current_t_cycles_count;
                match old(self).current_mode {
                    PPUMode::OAMScan(i) => {
                        &&& final(self).current_t_cycles_count == count + 2
                        &&& final(self).current_mode == (if count + 2 >= 80 {
                            PPUMode::Draw(
                                DrawStep::Fetch { x_pos: 0, window_line_counter: 0, is_window: false },
                            )
                        } else {
                            PPUMode::OAMScan((if i < 39 {
                                (i + 1) as u8
                            } else {
                                39u8
                            }))
                        })
                        &&& final(self).current_line == old(self).current_line
                        &&& final(mmu)@ == old(mmu)@
                    },
                    PPUMode::Draw(_) => {
                        &&& final(self).current_t_cycles_count == count + t_cycles
                        &&& final(self).current_mode == (if count + t_cycles >= 252 {
                            PPUMode::HBlank
                        } else {
                            old(self).current_mode
                        })
                        &&& final(self).current_line == old(self).current_line
                        &&& final(mmu)@ == old(mmu)@
                    },
                    PPUMode::HBlank => {
                        if count + t_cycles >= 456 {
                            if old(self).current_line + 1 == 144 {
                                &&& final(self).current_mode == PPUMode::VBlank
                                &&& final(self).current_line == 144
                                &&& final(self).current_t_cycles_count == 0
                                &&& final(mmu)@ == old(mmu)@.update(0xFF44, 144u8).update(
                                    0xFF0F,
                                    old(mmu)@[0xFF0F] | 0x01,
                                )
                            } else {
                                &&& final(self).current_mode == PPUMode::OAMScan(0u8)
                                &&& final(self).current_line == old(self).current_line + 1
                                &&& final(self).current_t_cycles_count == 0
                                &&& final(self).sprite_buffer@ == Seq::<OAMEntry>::empty()
                                &&& final(mmu)@ == old(mmu)@.update(
                                    0xFF44,
                                    (old(self).current_line + 1) as u8,
                                )
                            }
                        } else {
                            &&& final(self).current_t_cycles_count == count + t_cycles
                            &&& final(self).current_mode == PPUMode::HBlank
                            &&& final(self).current_line == old(self).current_line
                            &&& final(mmu)@ == old(mmu)@
                        }
                    },
                    PPUMode::VBlank => {
                        if count + t_cycles >= 456 {
                            if old(self).current_line >= 153 {
                                &&& final(self).current_mode == PPUMode::OAMScan(0u8)
                                &&& final(self).current_line == 0
                                &&& final(self).current_t_cycles_count == 0
                                &&& final(self).sprite_buffer@ == Seq::<OAMEntry>::empty()
                                &&& final(mmu)@ == old(mmu)@.update(0xFF44, 0u8)
                            } else {
                                &&& final(self).current_mode == PPUMode::VBlank
                                &&& final(self).current_line == old(self).current_line + 1
                                &&& final(self).current_t_cycles_count == 0
                                &&& final(mmu)@ == old(mmu)@.update(
                                    0xFF44,
                                    (old(self).current_line + 1) as u8,
                                )
                            }
                        } else {
                            &&& final(self).current_t_cycles_count == count + t_cycles
                            &&& final(self).current_mode == PPUMode::VBlank
                            &&& final(self).current_line == old(self).current_line
                            &&& final(mmu)@ == old(mmu)@
                        }
                    },
                }
            }),
    {
        match self.current_mode {
            PPUMode::OAMScan(sprite_id) => {
                self.oam_scan(mmu, sprite_id);
                self.current_t_cycles_count = self.current_t_cycles_count + 2;
                if self.current_t_cycles_count >= 80 {
                    self.current_mode = PPUMode::Draw(
                        DrawStep::Fetch { x_pos: 0, window_line_counter: 0, is_window: false },
                    );
                } else {
                    self.current_mode = PPUMode::OAMScan(
                        if sprite_id < 39 {
                            sprite_id + 1
                        } else {
                            39
                        },
                    );
                }
                Ok(())
            },
            PPUMode::Draw(_) => {
                self.current_t_cycles_count = self.current_t_cycles_count + t_cycles as u32;
                if self.current_t_cycles_count >= 252 {
                    self.current_mode = PPUMode::HBlank;
                }
                Ok(())
            },
            PPUMode::HBlank => {
                self.current_t_cycles_count = self.current_t_cycles_count + t_cycles as u32;
                if self.current_t_cycles_count >= 456 {
                    self.current_t_cycles_count = 0;
                    let next_line = self.current_line + 1;
                    self.current_line = next_line;
                    mmu.set_ly(next_line);
                    if next_line == 144 {
                        self.current_mode = PPUMode::VBlank;
                        let flags = mmu.iflag();
                        mmu.set_iflag(flags | 0x01);
                    } else {
                        self.current_mode = PPUMode::OAMScan(0);
                        self.sprite_buffer = Vec::new();
                    }
                }
                Ok(())
            },
            PPUMode::VBlank => {
                self.current_t_cycles_count = self.current_t_cycles_count + t_cycles as u32;
                if self.current_t_cycles_count >= 456 {
                    self.current_t_cycles_count = 0;
                    if self.current_line >= 153 {
                        self.current_line = 0;
                        mmu.set_ly(0);
                        self.current_mode = PPUMode::OAMScan(0);
                        self.sprite_buffer = Vec::new();
                    } else {
                        let next_line = self.current_line + 1;
                        self.current_line = next_line;
                        mmu.set_ly(next_line);
                    }
                }
                Ok(())
            },
        }
    }

    /// The LY byte as the CPU sees it: this core's bus stub.
    pub fn read_ly(&self, mmu: &Mmu) -> (r: u8)
        requires
            mmu.wf(),
        ensures
            r == 0x90,
    {
        mmu.ly()
    }
}

} // verus!
