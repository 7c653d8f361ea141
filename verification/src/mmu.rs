//! The memory bus: a 16-bit address space split into regions with their own
//! read and write policies. ROM and the echo region reject writes; echo
//! reads mirror WRAM; reads of 0xFF44 (LY) return the fixed stub value;
//! bus writes to 0xFF04 (DIV) reset the byte to zero. The whole space is
//! modelled as a 65536-byte sequence (`view`), and every access is specified
//! against it.
//!
//! Two hardware behaviours are stubbed, as the contracts record: LY reads
//! return the constant 0x90 instead of a PPU-driven line counter, and a
//! write to DMA (0xFF46) stores the byte without performing the 160-byte
//! OAM copy the register triggers on hardware. Both stubs are what the
//! Blargg CPU test ROMs need and no more; a complete PPU would replace
//! them.

use vstd::prelude::*;

use crate::errors::EmuError;

verus! {

/// The regions of the address map, in address order.
#[derive(Debug, Copy, Clone, PartialEq, Eq, Structural)]
pub enum MemoryRegion {
    RomBankZero,
    RomBankSwap,
    VideoRam,
    ExternalRam,
    WorkRam,
    EchoRam,
    SpriteAttributionTable,
    Unusable,
    IO,
    HighRam,
    InterruptEnableRegister,
}

/// First address of a region.
pub open spec fn spec_region_base(region: MemoryRegion) -> u16 {
    match region {
        MemoryRegion::RomBankZero => 0x0000,
        MemoryRegion::RomBankSwap => 0x4000,
        MemoryRegion::VideoRam => 0x8000,
        MemoryRegion::ExternalRam => 0xA000,
        MemoryRegion::WorkRam => 0xC000,
        MemoryRegion::EchoRam => 0xE000,
        MemoryRegion::SpriteAttributionTable => 0xFE00,
        MemoryRegion::Unusable => 0xFEA0,
        MemoryRegion::IO => 0xFF00,
        MemoryRegion::HighRam => 0xFF80,
        MemoryRegion::InterruptEnableRegister => 0xFFFF,
    }
}

/// Number of addresses a region covers.
pub open spec fn spec_region_size(region: MemoryRegion) -> usize {
    match region {
        MemoryRegion::RomBankZero => 0x4000,
        MemoryRegion::RomBankSwap => 0x4000,
        MemoryRegion::VideoRam => 0x2000,
        MemoryRegion::ExternalRam => 0x2000,
        MemoryRegion::WorkRam => 0x2000,
        MemoryRegion::EchoRam => 0x1E00,
        MemoryRegion::SpriteAttributionTable => 0xA0,
        MemoryRegion::Unusable => 0x60,
        MemoryRegion::IO => 0x80,
        MemoryRegion::HighRam => 0x7F,
        MemoryRegion::InterruptEnableRegister => 1,
    }
}

/// The region that owns an address in 0..0x10000.
pub open spec fn spec_region_of(addr: int) -> MemoryRegion {
    if addr < 0x4000 {
        MemoryRegion::RomBankZero
    } else if addr < 0x8000 {
        MemoryRegion::RomBankSwap
    } else if addr < 0xA000 {
        MemoryRegion::VideoRam
    } else if addr < 0xC000 {
        MemoryRegion::ExternalRam
    } else if addr < 0xE000 {
        MemoryRegion::WorkRam
    } else if addr < 0xFE00 {
        MemoryRegion::EchoRam
    } else if addr < 0xFEA0 {
        MemoryRegion::SpriteAttributionTable
    } else if addr < 0xFF00 {
        MemoryRegion::Unusable
    } else if addr < 0xFF80 {
        MemoryRegion::IO
    } else if addr < 0xFFFF {
        MemoryRegion::HighRam
    } else {
        MemoryRegion::InterruptEnableRegister
    }
}

/// Echo addresses alias WRAM 0x2000 below; every other address is its own
/// backing cell.
pub open spec fn spec_norm_addr(addr: int) -> int {
    if 0xE000 <= addr < 0xFE00 {
        addr - 0x2000
    } else {
        addr
    }
}

/// Addresses that accept a bus write: everything except ROM and echo.
pub open spec fn spec_writable(addr: int) -> bool {
    (0x8000 <= addr < 0xE000) || (0xFE00 <= addr < 0x10000)
}

/// What a bus read of `addr` returns against a memory image: the stored
/// byte, except that LY (0xFF44) reads as the fixed stub value 0x90.
pub open spec fn spec_read_of(m: Seq<u8>, addr: u16) -> u8 {
    if addr == 0xFF44 {
        0x90
    } else {
        m[addr as int]
    }
}

/// The byte a bus write actually stores: a write to DIV (0xFF04) stores 0.
pub open spec fn spec_bus_value(addr: int, val: u8) -> u8 {
    if addr == 0xFF04 {
        0
    } else {
        val
    }
}

/// One bus write applied to a memory image: rejected addresses leave the
/// image unchanged; a WRAM write is mirrored into the echo range.
pub open spec fn spec_mem_store(m: Seq<u8>, addr: int, val: u8) -> Seq<u8> {
    if !spec_writable(addr) {
        m
    } else {
        let v = spec_bus_value(addr, val);
        let m1 = m.update(addr, v);
        if 0xC000 <= addr < 0xDE00 {
            m1.update(addr + 0x2000, v)
        } else {
            m1
        }
    }
}

impl MemoryRegion {
    /// The region that owns `address`, or `InvalidAddress` above 0xFFFF.
    pub fn from_address(address: usize) -> (r: Result<MemoryRegion, EmuError>)
        ensures
            address <= 0xFFFF ==> r == Ok::<MemoryRegion, EmuError>(spec_region_of(address as int)),
            address > 0xFFFF ==> r == Err::<MemoryRegion, EmuError>(
                EmuError::InvalidAddress { address },
            ),
    {
        if address < 0x4000 {
            Ok(MemoryRegion::RomBankZero)
        } else if address < 0x8000 {
            Ok(MemoryRegion::RomBankSwap)
        } else if address < 0xA000 {
            Ok(MemoryRegion::VideoRam)
        } else if address < 0xC000 {
            Ok(MemoryRegion::ExternalRam)
        } else if address < 0xE000 {
            Ok(MemoryRegion::WorkRam)
        } else if address < 0xFE00 {
            Ok(MemoryRegion::EchoRam)
        } else if address < 0xFEA0 {
            Ok(MemoryRegion::SpriteAttributionTable)
        } else if address < 0xFF00 {
            Ok(MemoryRegion::Unusable)
        } else if address < 0xFF80 {
            Ok(MemoryRegion::IO)
        } else if address < 0xFFFF {
            Ok(MemoryRegion::HighRam)
        } else if address == 0xFFFF {
            Ok(MemoryRegion::InterruptEnableRegister)
        } else {
            Err(EmuError::InvalidAddress { address })
        }
    }

    /// First address of this region.
    pub fn base(self) -> (r: u16)
        ensures
            r == spec_region_base(self),
    {
        match self {
            MemoryRegion::RomBankZero => 0x0000,
            MemoryRegion::RomBankSwap => 0x4000,
            MemoryRegion::VideoRam => 0x8000,
            MemoryRegion::ExternalRam => 0xA000,
            MemoryRegion::WorkRam => 0xC000,
            MemoryRegion::EchoRam => 0xE000,
            MemoryRegion::SpriteAttributionTable => 0xFE00,
            MemoryRegion::Unusable => 0xFEA0,
            MemoryRegion::IO => 0xFF00,
            MemoryRegion::HighRam => 0xFF80,
            MemoryRegion::InterruptEnableRegister => 0xFFFF,
        }
    }

    /// Number of addresses in this region.
    pub fn size(self) -> (r: usize)
        ensures
            r == spec_region_size(self),
    {
        match self {
            MemoryRegion::RomBankZero => 0x4000,
            MemoryRegion::RomBankSwap => 0x4000,
            MemoryRegion::VideoRam => 0x2000,
            MemoryRegion::ExternalRam => 0x2000,
            MemoryRegion::WorkRam => 0x2000,
            MemoryRegion::EchoRam => 0x1E00,
            MemoryRegion::SpriteAttributionTable => 0xA0,
            MemoryRegion::Unusable => 0x60,
            MemoryRegion::IO => 0x80,
            MemoryRegion::HighRam => 0x7F,
            MemoryRegion::InterruptEnableRegister => 1,
        }
    }

    /// Four-character tag used by memory dumps.
    pub fn as_str(&self) -> (r: String)
        ensures
            r@.len() == 4,
    {
        let s = match self {
            MemoryRegion::RomBankZero => "ROM0",
            MemoryRegion::RomBankSwap => "ROM1",
            MemoryRegion::VideoRam => "VRA0",
            MemoryRegion::ExternalRam => "SRA0",
            MemoryRegion::WorkRam => "WRA0",
            MemoryRegion::EchoRam => "ECHO",
            MemoryRegion::SpriteAttributionTable => "OAM ",
            MemoryRegion::Unusable => "----",
            MemoryRegion::IO => "I/O ",
            MemoryRegion::HighRam => "HRAM",
            MemoryRegion::InterruptEnableRegister => "IER ",
        };
        proof {
            reveal_strlit("ROM0");
            reveal_strlit("ROM1");
            reveal_strlit("VRA0");
            reveal_strlit("SRA0");
            reveal_strlit("WRA0");
            reveal_strlit("ECHO");
            reveal_strlit("OAM ");
            reveal_strlit("----");
            reveal_strlit("I/O ");
            reveal_strlit("HRAM");
            reveal_strlit("IER ");
        }
        String::from_str(s)
    }
}

/// The bus. Each region is backed by its own byte vector; the echo range
/// has no backing of its own and reads through to WRAM.
pub struct Mmu {
    rom_bank_zero: Vec<u8>,
    rom_bank_swap: Vec<u8>,
    video_ram: Vec<u8>,
    external_ram: Vec<u8>,
    work_ram: Vec<u8>,
    sprite_attribution_table: Vec<u8>,
    unusable: Vec<u8>,
    io: Vec<u8>,
    high_ram: Vec<u8>,
    interrupt_enable_register: u8,
    cartridge_data: Vec<u8>,
}

impl Mmu {
    /// The backing vectors have exactly their region's size.
    pub closed spec fn wf(self) -> bool {
        &&& self.rom_bank_zero@.len() == 0x4000
        &&& self.rom_bank_swap@.len() == 0x4000
        &&& self.video_ram@.len() == 0x2000
        &&& self.external_ram@.len() == 0x2000
        &&& self.work_ram@.len() == 0x2000
        &&& self.sprite_attribution_table@.len() == 0xA0
        &&& self.unusable@.len() == 0x60
        &&& self.io@.len() == 0x80
        &&& self.high_ram@.len() == 0x7F
    }

    /// The stored byte behind an address (echo normalised to WRAM).
    pub closed spec fn spec_at(self, addr: int) -> u8 {
        let a = spec_norm_addr(addr);
        if a < 0x4000 {
            self.rom_bank_zero@[a]
        } else if a < 0x8000 {
            self.rom_bank_swap@[a - 0x4000]
        } else if a < 0xA000 {
            self.video_ram@[a - 0x8000]
        } else if a < 0xC000 {
            self.external_ram@[a - 0xA000]
        } else if a < 0xE000 {
            self.work_ram@[a - 0xC000]
        } else if a < 0xFEA0 {
            self.sprite_attribution_table@[a - 0xFE00]
        } else if a < 0xFF00 {
            self.unusable@[a - 0xFEA0]
        } else if a < 0xFF80 {
            self.io@[a - 0xFF00]
        } else if a < 0xFFFF {
            self.high_ram@[a - 0xFF80]
        } else {
            self.interrupt_enable_register
        }
    }

    /// The cartridge bytes the bus owns after `load_cartridge`.
    pub closed spec fn spec_cartridge(self) -> Seq<u8> {
        self.cartridge_data@
    }

    /// What a bus read returns: the stored byte, except that LY (0xFF44)
    /// reads as the fixed stub value 0x90.
    pub open spec fn spec_read(self, addr: int) -> u8 {
        if addr == 0xFF44 {
            0x90
        } else {
            self.spec_at(addr)
        }
    }
}

impl View for Mmu {
    type V = Seq<u8>;

    /// The 65536 stored bytes, echo range mirrored from WRAM.
    open spec fn view(&self) -> Seq<u8> {
        Seq::new(0x10000, |i: int| self.spec_at(i))
    }
}

/// Every echo-range address reads the same byte as its WRAM alias
/// 0x2000 below (writes to the alias itself are rejected, so this holds
/// in every reachable state).
pub proof fn lemma_echo_mirror(mmu: Mmu, a: u16)
    requires
        mmu.wf(),
        0xE000 <= a <= 0xFDFF,
    ensures
        mmu.spec_read(a as int) == mmu.spec_read(a - 0x2000),
{
}

/// Relies on rand::random: one byte drawn from the thread-local generator.
/// Nothing is promised of the value.
#[verifier::external_body]
fn random_byte() -> u8 {
    rand::random::<u8>()
}

/// A vector of `len` bytes all equal to `val`.
fn filled(len: usize, val: u8) -> (r: Vec<u8>)
    ensures
        r@.len() == len,
        forall|i: int| 0 <= i < len ==> r@[i] == val,
{
    let mut v: Vec<u8> = Vec::new();
    let mut k: usize = 0;
    while k < len
        invariant
            k <= len,
            v@.len() == k,
            forall|i: int| 0 <= i < k ==> v@[i] == val,
        decreases len - k,
    {
        v.push(val);
        k = k + 1;
    }
    v
}

/// A vector of `len` bytes, each drawn from the random generator.
fn random_filled(len: usize) -> (r: Vec<u8>)
    ensures
        r@.len() == len,
{
    let mut v: Vec<u8> = Vec::new();
    let mut k: usize = 0;
    while k < len
        invariant
            k <= len,
            v@.len() == k,
        decreases len - k,
    {
        v.push(random_byte());
        k = k + 1;
    }
    v
}

impl Mmu {
    /// A bus at reset: ROM, VRAM, OAM, the unusable range, I/O, HRAM and IE
    /// all zero; external RAM filled with 0xFF; WRAM left undefined (it is
    /// randomised, as real hardware leaves it unspecified).
    pub fn new() -> (r: Mmu)
        ensures
            r.wf(),
            forall|a: int|
                0 <= a < 0x10000 && spec_region_of(a) != MemoryRegion::ExternalRam
                    && spec_region_of(a) != MemoryRegion::WorkRam && spec_region_of(a)
                    != MemoryRegion::EchoRam ==> r.spec_at(a) == 0,
            forall|a: int|
                0 <= a < 0x10000 && spec_region_of(a) == MemoryRegion::ExternalRam ==> r.spec_at(a)
                    == 0xFF,
            r.spec_cartridge() == Seq::<u8>::empty(),
    {
        Mmu {
            rom_bank_zero: filled(0x4000, 0),
            rom_bank_swap: filled(0x4000, 0),
            video_ram: filled(0x2000, 0),
            external_ram: filled(0x2000, 0xFF),
            work_ram: random_filled(0x2000),
            sprite_attribution_table: filled(0xA0, 0),
            unusable: filled(0x60, 0),
            io: filled(0x80, 0),
            high_ram: filled(0x7F, 0),
            interrupt_enable_register: 0,
            cartridge_data: Vec::new(),
        }
    }

    /// Maps the first 32 KiB of a cartridge image into the two fixed ROM
    /// banks and takes ownership of the image. An image smaller than
    /// 32 KiB is rejected and the bus is left unchanged.
    pub fn load_cartridge(&mut self, data: Vec<u8>) -> (r: Result<(), EmuError>)
        requires
            old(self).wf(),
        ensures
            final(self).wf(),
            data@.len() >= 0x8000 ==> {
                &&& r == Ok::<(), EmuError>(())
                &&& forall|a: int| 0 <= a < 0x8000 ==> final(self)@[a] == data@[a]
                &&& forall|a: int| 0x8000 <= a < 0x10000 ==> final(self)@[a] == old(self)@[a]
                &&& final(self).spec_cartridge() == data@
            },
            data@.len() < 0x8000 ==> {
                &&& r == Err::<(), EmuError>(
                    EmuError::CartridgeLoadError { size: data@.len() as usize },
                )
                &&& *final(self) == *old(self)
            },
    {
        if data.len() < 0x8000 {
            let size = data.len();
            return Err(EmuError::CartridgeLoadError { size });
        }
        let mut k: usize = 0;
        while k < 0x4000
            invariant
                old(self).wf(),
                self.wf(),
                k <= 0x4000,
                data@.len() >= 0x8000,
                forall|i: int| 0 <= i < k ==> self.rom_bank_zero@[i] == data@[i],
                forall|i: int| 0 <= i < k ==> self.rom_bank_swap@[i] == data@[0x4000 + i],
                self.video_ram == old(self).video_ram,
                self.external_ram == old(self).external_ram,
                self.work_ram == old(self).work_ram,
                self.sprite_attribution_table == old(self).sprite_attribution_table,
                self.unusable == old(self).unusable,
                self.io == old(self).io,
                self.high_ram == old(self).high_ram,
                self.interrupt_enable_register == old(self).interrupt_enable_register,
                self.cartridge_data == old(self).cartridge_data,
            decreases 0x4000 - k,
        {
            self.rom_bank_zero[k] = data[k];
            self.rom_bank_swap[k] = data[0x4000 + k];
            k = k + 1;
        }
        self.cartridge_data = data;
        proof {
            assert forall|a: int| 0 <= a < 0x8000 implies self@[a] == self.spec_at(a) by {}
            assert forall|a: int| 0x8000 <= a < 0x10000 implies self@[a] == self.spec_at(a)
                && old(self)@[a] == old(self).spec_at(a) by {}
        }
        Ok(())
    }

    /// The stored byte at `addr`: what the bus holds, before the LY stub.
    fn stored_byte(&self, addr: u16) -> (r: u8)
        requires
            self.wf(),
        ensures
            r == self.spec_at(addr as int),
    {
        if addr < 0x4000 {
            self.rom_bank_zero[addr as usize]
        } else if addr < 0x8000 {
            self.rom_bank_swap[(addr - 0x4000) as usize]
        } else if addr < 0xA000 {
            self.video_ram[(addr - 0x8000) as usize]
        } else if addr < 0xC000 {
            self.external_ram[(addr - 0xA000) as usize]
        } else if addr < 0xE000 {
            self.work_ram[(addr - 0xC000) as usize]
        } else if addr < 0xFE00 {
            self.work_ram[(addr - 0xE000) as usize]
        } else if addr < 0xFEA0 {
            self.sprite_attribution_table[(addr - 0xFE00) as usize]
        } else if addr < 0xFF00 {
            self.unusable[(addr - 0xFEA0) as usize]
        } else if addr < 0xFF80 {
            self.io[(addr - 0xFF00) as usize]
        } else if addr < 0xFFFF {
            self.high_ram[(addr - 0xFF80) as usize]
        } else {
            self.interrupt_enable_register
        }
    }

    /// Reads one byte. Every address up to 0xFFFF succeeds; echo addresses
    /// return the mirrored WRAM byte, and 0xFF44 returns the LY stub.
    /// Addresses above 0xFFFF are rejected.
    pub fn read_byte(&self, address: usize) -> (r: Result<u8, EmuError>)
        requires
            self.wf(),
        ensures
            address <= 0xFFFF ==> r == Ok::<u8, EmuError>(self.spec_read(address as int)),
            address > 0xFFFF ==> r == Err::<u8, EmuError>(EmuError::InvalidAddress { address }),
    {
        if address > 0xFFFF {
            return Err(EmuError::InvalidAddress { address });
        }
        if address == 0xFF44 {
            return Ok(0x90);
        }
        Ok(self.stored_byte(address as u16))
    }

    /// Writes one byte through the bus policy: ROM and echo reject the
    /// write, DIV resets to zero, WRAM writes are mirrored into echo, and
    /// every other address stores the byte. A write to DMA (0xFF46) only
    /// stores the byte: the OAM copy it starts on hardware is stubbed out,
    /// like the LY read.
    pub fn write_byte(&mut self, address: usize, value: u8) -> (r: Result<(), EmuError>)
        requires
            old(self).wf(),
        ensures
            final(self).wf(),
            final(self).spec_cartridge() == old(self).spec_cartridge(),
            address > 0xFFFF ==> r == Err::<(), EmuError>(EmuError::InvalidAddress { address })
                && *final(self) == *old(self),
            address <= 0xFFFF && !spec_writable(address as int) ==> r == Err::<(), EmuError>(
                EmuError::WriteToReadOnly { address },
            ) && *final(self) == *old(self),
            address <= 0xFFFF && spec_writable(address as int) ==> r == Ok::<(), EmuError>(())
                && final(self)@ == spec_mem_store(old(self)@, address as int, value),
    {
        if address > 0xFFFF {
            return Err(EmuError::InvalidAddress { address });
        }
        if address < 0x8000 || (0xE000 <= address && address < 0xFE00) {
            return Err(EmuError::WriteToReadOnly { address });
        }
        let value: u8 = if address == 0xFF04 {
            0
        } else {
            value
        };
        if address < 0xA000 {
            self.video_ram[address - 0x8000] = value;
        } else if address < 0xC000 {
            self.external_ram[address - 0xA000] = value;
        } else if address < 0xE000 {
            self.work_ram[address - 0xC000] = value;
        } else if address < 0xFEA0 {
            self.sprite_attribution_table[address - 0xFE00] = value;
        } else if address < 0xFF00 {
            self.unusable[address - 0xFEA0] = value;
        } else if address < 0xFF80 {
            self.io[address - 0xFF00] = value;
        } else if address < 0xFFFF {
            self.high_ram[address - 0xFF80] = value;
        } else {
            self.interrupt_enable_register = value;
        }
        proof {
            assert(final(self)@ =~= spec_mem_store(old(self)@, address as int, value));
        }
        Ok(())
    }

    /// Stores one byte of the I/O block directly, without the bus's write
    /// policy (the timer uses this to advance DIV past the reset rule).
    pub(crate) fn set_io_byte(&mut self, offset: usize, val: u8)
        requires
            old(self).wf(),
            offset < 0x80,
        ensures
            final(self).wf(),
            final(self).spec_cartridge() == old(self).spec_cartridge(),
            final(self)@ == old(self)@.update(0xFF00 + offset, val),
    {
        self.io[offset] = val;
        proof {
            assert(final(self)@ =~= old(self)@.update(0xFF00 + offset, val));
        }
    }

    /// Stores the IE byte directly.
    pub(crate) fn set_ie_byte(&mut self, val: u8)
        requires
            old(self).wf(),
        ensures
            final(self).wf(),
            final(self).spec_cartridge() == old(self).spec_cartridge(),
            final(self)@ == old(self)@.update(0xFFFF, val),
    {
        self.interrupt_enable_register = val;
        proof {
            assert(final(self)@ =~= old(self)@.update(0xFFFF, val));
        }
    }

    /// A copy of `len` consecutive stored bytes starting at `base`.
    fn copy_range(&self, base: usize, len: usize) -> (r: Vec<u8>)
        requires
            self.wf(),
            base + len <= 0x10000,
        ensures
            r@.len() == len,
            forall|i: int| 0 <= i < len ==> r@[i] == self.spec_at(base + i),
    {
        let mut v: Vec<u8> = Vec::new();
        let mut k: usize = 0;
        while k < len
            invariant
                self.wf(),
                base + len <= 0x10000,
                k <= len,
                v@.len() == k,
                forall|i: int| 0 <= i < k ==> v@[i] == self.spec_at(base + i),
            decreases len - k,
        {
            v.push(self.stored_byte((base + k) as u16));
            k = k + 1;
        }
        v
    }

    /// A copy of one region's stored bytes (the echo region dumps the
    /// mirrored WRAM bytes).
    pub fn dump_memory_region(&self, region: MemoryRegion) -> (r: Vec<u8>)
        requires
            self.wf(),
        ensures
            r@.len() == spec_region_size(region),
            forall|i: int|
                0 <= i < spec_region_size(region) ==> r@[i] == self.spec_at(
                    spec_region_base(region) + i,
                ),
    {
        self.copy_range(region.base() as usize, region.size())
    }

    /// A snapshot of all 65536 stored bytes, echo range mirrored.
    pub fn to_vec(&self) -> (r: Vec<u8>)
        requires
            self.wf(),
        ensures
            r@.len() == 0x10000,
            forall|i: int| 0 <= i < 0x10000 ==> r@[i] == self.spec_at(i),
    {
        self.copy_range(0, 0x10000)
    }
}

} // verus!
