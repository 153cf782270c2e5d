//! The memory router: the 16-bit address space partitioned into fixed
//! regions, with the cartridge windows delegated to the bank controller and
//! echo RAM aliasing WRAM.
use vstd::prelude::*;

use crate::mbc::MBC0;
use crate::mbc::MemoryBankController;
use crate::mbc::zero_bytes;

verus! {

// Header offset consumed at load time.
pub const CARTRIDGE_TYPE: usize = 0x0147;

/// Why a ROM image was rejected at load time.
#[derive(Clone, Copy, Debug, PartialEq, Eq)]
pub enum LoadError {
    /// Shorter than the cartridge header, so the type bytes are missing.
    TruncatedHeader,
    /// The cartridge-type byte names a bank controller this core lacks.
    UnsupportedCartridgeType,
}

/// Mathematical model of the routed address space: every region as a byte
/// sequence, plus the active bank selectors and the IE byte.
pub struct MemoryView {
    pub rom0: Seq<u8>,
    pub mbc_rom: Seq<u8>,
    pub mbc_ram: Seq<u8>,
    pub vram: Seq<u8>,
    pub vram_bank: u8,
    pub wram0: Seq<u8>,
    pub wramx: Seq<u8>,
    pub wram_bank: u8,
    pub oam: Seq<u8>,
    pub io_reg: Seq<u8>,
    pub hram: Seq<u8>,
    pub ie_reg: u8,
}

/// Region sizes and bank bounds.
pub open spec fn mem_wf(m: MemoryView) -> bool {
    &&& m.rom0.len() == 0x4000
    &&& m.mbc_rom.len() == 0x4000
    &&& m.mbc_ram.len() == 0x2000
    &&& m.vram.len() == 0x4000
    &&& m.vram_bank < 2
    &&& m.wram0.len() == 0x1000
    &&& m.wramx.len() == 0x7000
    &&& m.wram_bank < 7
    &&& m.oam.len() == 0xA0
    &&& m.io_reg.len() == 0x80
    &&& m.hram.len() == 0x7F
}

/// What a read of `addr` returns: pure routing by address range. Echo RAM
/// (0xE000-0xFDFF) reads the same WRAM cell as `addr - 0x2000`; the unmapped
/// gap 0xFEA0-0xFEFF reads a constant 0xFF.
pub open spec fn mem_read(m: MemoryView, addr: u16) -> u8 {
    if addr <= 0x3FFF {
        m.rom0[addr as int]
    } else if addr <= 0x7FFF {
        m.mbc_rom[addr - 0x4000]
    } else if addr <= 0x9FFF {
        m.vram[m.vram_bank as int * 0x2000 + (addr - 0x8000)]
    } else if addr <= 0xBFFF {
        m.mbc_ram[addr - 0xA000]
    } else if addr <= 0xCFFF {
        m.wram0[addr - 0xC000]
    } else if addr <= 0xDFFF {
        m.wramx[m.wram_bank as int * 0x1000 + (addr - 0xD000)]
    } else if addr <= 0xEFFF {
        m.wram0[addr - 0xE000]
    } else if addr <= 0xFDFF {
        m.wramx[m.wram_bank as int * 0x1000 + (addr - 0xF000)]
    } else if addr <= 0xFE9F {
        m.oam[addr - 0xFE00]
    } else if addr <= 0xFEFF {
        0xFF
    } else if addr <= 0xFF7F {
        m.io_reg[addr - 0xFF00]
    } else if addr <= 0xFFFE {
        m.hram[addr - 0xFF80]
    } else {
        m.ie_reg
    }
}

/// The state after writing `data` at `addr`: the one routed cell changes,
/// everything else stays. Echo RAM writes land in the aliased WRAM cell;
/// writes to the unmapped gap are dropped.
pub open spec fn mem_write(m: MemoryView, addr: u16, data: u8) -> MemoryView {
    if addr <= 0x3FFF {
        MemoryView { rom0: m.rom0.update(addr as int, data), ..m }
    } else if addr <= 0x7FFF {
        MemoryView { mbc_rom: m.mbc_rom.update(addr - 0x4000, data), ..m }
    } else if addr <= 0x9FFF {
        MemoryView { vram: m.vram.update(m.vram_bank as int * 0x2000 + (addr - 0x8000), data), ..m }
    } else if addr <= 0xBFFF {
        MemoryView { mbc_ram: m.mbc_ram.update(addr - 0xA000, data), ..m }
    } else if addr <= 0xCFFF {
        MemoryView { wram0: m.wram0.update(addr - 0xC000, data), ..m }
    } else if addr <= 0xDFFF {
        MemoryView { wramx: m.wramx.update(m.wram_bank as int * 0x1000 + (addr - 0xD000), data), ..m }
    } else if addr <= 0xEFFF {
        MemoryView { wram0: m.wram0.update(addr - 0xE000, data), ..m }
    } else if addr <= 0xFDFF {
        MemoryView { wramx: m.wramx.update(m.wram_bank as int * 0x1000 + (addr - 0xF000), data), ..m }
    } else if addr <= 0xFE9F {
        MemoryView { oam: m.oam.update(addr - 0xFE00, data), ..m }
    } else if addr <= 0xFEFF {
        m
    } else if addr <= 0xFF7F {
        MemoryView { io_reg: m.io_reg.update(addr - 0xFF00, data), ..m }
    } else if addr <= 0xFFFE {
        MemoryView { hram: m.hram.update(addr - 0xFF80, data), ..m }
    } else {
        MemoryView { ie_reg: data, ..m }
    }
}

/// The byte that loading places at ROM offset `i`: the image byte if the
/// image reaches that far, zero otherwise.
pub open spec fn load_byte(rom: Seq<u8>, i: int) -> u8 {
    if 0 <= i < rom.len() {
        rom[i]
    } else {
        0
    }
}

/// The memory router: fixed regions held directly, the two cartridge
/// windows delegated to the bank controller selected at load time.
pub struct Memory {
    pub rom0: Vec<u8>,
    pub mbc: MBC0,
    pub vram: Vec<u8>,
    pub vram_bank: u8,
    pub wram0: Vec<u8>,
    pub wramx: Vec<u8>,
    pub wram_bank: u8,
    pub oam: Vec<u8>,
    pub io_reg: Vec<u8>,
    pub hram: Vec<u8>,
    pub ie_reg: u8,
}

impl View for Memory {
    type V = MemoryView;

    open spec fn view(&self) -> MemoryView {
        MemoryView {
            rom0: self.rom0@,
            mbc_rom: self.mbc.rom@,
            mbc_ram: self.mbc.ram@,
            vram: self.vram@,
            vram_bank: self.vram_bank,
            wram0: self.wram0@,
            wramx: self.wramx@,
            wram_bank: self.wram_bank,
            oam: self.oam@,
            io_reg: self.io_reg@,
            hram: self.hram@,
            ie_reg: self.ie_reg,
        }
    }
}

impl Memory {
    pub open spec fn wf(self) -> bool {
        mem_wf(self@)
    }

    /// Builds the address space from a ROM image: bank 0 and the switchable
    /// bank come from the image (zero-padded past its end), every RAM region
    /// starts zeroed. Fails exactly on a truncated header or a cartridge
    /// type other than the plain no-banking one.
    pub fn new(rom_data: &Vec<u8>) -> (r: Result<Memory, LoadError>)
        ensures
            rom_data@.len() < 0x150 ==> r == Result::<Memory, LoadError>::Err(
                LoadError::TruncatedHeader,
            ),
            rom_data@.len() >= 0x150 && rom_data@[0x147] != 0 ==> r == Result::<
                Memory,
                LoadError,
            >::Err(LoadError::UnsupportedCartridgeType),
            rom_data@.len() >= 0x150 && rom_data@[0x147] == 0 ==> r is Ok,
            r is Ok ==> {
                let m = r->Ok_0;
                &&& m.wf()
                &&& forall|i: int| 0 <= i < 0x4000 ==> m@.rom0[i] == load_byte(rom_data@, i)
                &&& forall|i: int|
                    0 <= i < 0x4000 ==> m@.mbc_rom[i] == load_byte(rom_data@, 0x4000 + i)
                &&& forall|i: int| 0 <= i < 0x2000 ==> m@.mbc_ram[i] == 0
                &&& forall|i: int| 0 <= i < 0x4000 ==> m@.vram[i] == 0
                &&& forall|i: int| 0 <= i < 0x1000 ==> m@.wram0[i] == 0
                &&& forall|i: int| 0 <= i < 0x7000 ==> m@.wramx[i] == 0
                &&& forall|i: int| 0 <= i < 0xA0 ==> m@.oam[i] == 0
                &&& forall|i: int| 0 <= i < 0x80 ==> m@.io_reg[i] == 0
                &&& forall|i: int| 0 <= i < 0x7F ==> m@.hram[i] == 0
                &&& m@.ie_reg == 0
                &&& m@.vram_bank == 0
                &&& m@.wram_bank == 0
            },
    {
        if rom_data.len() < 0x150 {
            return Err(LoadError::TruncatedHeader);
        }
        if rom_data[CARTRIDGE_TYPE] != 0 {
            return Err(LoadError::UnsupportedCartridgeType);
        }
        let mut rom0: Vec<u8> = Vec::new();
        let mut i: usize = 0;
        while i < 0x4000
            invariant
                i <= 0x4000,
            rom0@.len() == i,
                forall|j: int| 0 <= j < i ==> rom0@[j] == load_byte(rom_data@, j),
            decreases 0x4000 - i,
        {
            if i < rom_data.len() {
                rom0.push(rom_data[i]);
            } else {
                rom0.push(0);
            }
            i = i + 1;
        }
        let mut bank_rom: Vec<u8> = Vec::new();
        let mut k: usize = 0;
        while k < 0x4000
            invariant
                k <= 0x4000,
                bank_rom@.len() == k,
                forall|j: int| 0 <= j < k ==> bank_rom@[j] == load_byte(rom_data@, 0x4000 + j),
            decreases 0x4000 - k,
        {
            if 0x4000 + k < rom_data.len() {
                bank_rom.push(rom_data[0x4000 + k]);
            } else {
                bank_rom.push(0);
            }
            k = k + 1;
        }
        let mem = Memory {
            rom0,
            mbc: MBC0 { rom: bank_rom, ram: zero_bytes(0x2000) },
            vram: zero_bytes(0x4000),
            vram_bank: 0,
            wram0: zero_bytes(0x1000),
            wramx: zero_bytes(0x7000),
            wram_bank: 0,
            oam: zero_bytes(0xA0),
            io_reg: zero_bytes(0x80),
            hram: zero_bytes(0x7F),
            ie_reg: 0,
        };
        Ok(mem)
    }

    /// Routed read of one byte.
    pub fn read(&self, addr: u16) -> (data: u8)
        requires
            self.wf(),
        ensures
            data == mem_read(self@, addr),
    {
        if addr <= 0x3FFF {
            self.rom0[addr as usize]
        } else if addr <= 0x7FFF {
            self.mbc.read(addr)
        } else if addr <= 0x9FFF {
            assert(self.vram_bank == 0 || self.vram_bank == 1);
            self.vram[self.vram_bank as usize * 0x2000 + (addr as usize - 0x8000)]
        } else if addr <= 0xBFFF {
            self.mbc.read(addr)
        } else if addr <= 0xCFFF {
            self.wram0[addr as usize - 0xC000]
        } else if addr <= 0xDFFF {
            self.wramx[self.wram_bank as usize * 0x1000 + (addr as usize - 0xD000)]
        } else if addr <= 0xEFFF {
            self.wram0[addr as usize - 0xE000]
        } else if addr <= 0xFDFF {
            self.wramx[self.wram_bank as usize * 0x1000 + (addr as usize - 0xF000)]
        } else if addr <= 0xFE9F {
            self.oam[addr as usize - 0xFE00]
        } else if addr <= 0xFEFF {
            0xFF
        } else if addr <= 0xFF7F {
            self.io_reg[addr as usize - 0xFF00]
        } else if addr <= 0xFFFE {
            self.hram[addr as usize - 0xFF80]
        } else {
            self.ie_reg
        }
    }

    /// Routed write of one byte.
    pub fn write(&mut self, addr: u16, data: u8)
        requires
            old(self).wf(),
        ensures
            final(self).wf(),
            final(self)@ == mem_write(old(self)@, addr, data),
    {
        if addr <= 0x3FFF {
            self.rom0.set(addr as usize, data);
        } else if addr <= 0x7FFF {
            self.mbc.write(addr, data);
            proof {
                assert(self@ =~= mem_write(old(self)@, addr, data));
            }
        } else if addr <= 0x9FFF {
            assert(self.vram_bank == 0 || self.vram_bank == 1);
            self.vram.set(self.vram_bank as usize * 0x2000 + (addr as usize - 0x8000), data);
        } else if addr <= 0xBFFF {
            self.mbc.write(addr, data);
            proof {
                assert(self@ =~= mem_write(old(self)@, addr, data));
            }
        } else if addr <= 0xCFFF {
            self.wram0.set(addr as usize - 0xC000, data);
        } else if addr <= 0xDFFF {
            self.wramx.set(self.wram_bank as usize * 0x1000 + (addr as usize - 0xD000), data);
        } else if addr <= 0xEFFF {
            self.wram0.set(addr as usize - 0xE000, data);
        } else if addr <= 0xFDFF {
            self.wramx.set(self.wram_bank as usize * 0x1000 + (addr as usize - 0xF000), data);
        } else if addr <= 0xFE9F {
            self.oam.set(addr as usize - 0xFE00, data);
        } else if addr <= 0xFEFF {
            // unmapped gap: writes are dropped
        } else if addr <= 0xFF7F {
            self.io_reg.set(addr as usize - 0xFF00, data);
        } else if addr <= 0xFFFE {
            self.hram.set(addr as usize - 0xFF80, data);
        } else {
            self.ie_reg = data;
        }
    }
}

} // verus!
