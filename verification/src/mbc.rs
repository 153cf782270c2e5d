//! Cartridge bank controllers: the interface contract over the two
//! cartridge windows, and the no-banking controller that implements it.
use vstd::prelude::*;

verus! {

/// The cartridge window that shows the switchable ROM bank.
pub open spec fn rom_window(addr: u16) -> bool {
    0x4000 <= addr && addr <= 0x7FFF
}

/// The cartridge window that shows external RAM.
pub open spec fn ram_window(addr: u16) -> bool {
    0xA000 <= addr && addr <= 0xBFFF
}

/// Builds a zero-filled byte vector of the requested length.
pub fn zero_bytes(n: usize) -> (v: Vec<u8>)
    ensures
        v@.len() == n,
        forall|i: int| 0 <= i < n ==> v@[i] == 0,
{
    let mut v: Vec<u8> = Vec::new();
    let mut k: usize = 0;
    while k < n
        invariant
            k <= n,
            v@.len() == k,
            forall|i: int| 0 <= i < k ==> v@[i] == 0,
        decreases n - k,
    {
        v.push(0);
        k = k + 1;
    }
    v
}

/// The contract every cartridge bank controller must satisfy: it owns the
/// bytes visible through the switchable-ROM and external-RAM windows, and
/// `read`/`write` address exactly those bytes. Richer banking schemes may
/// remap which bytes are visible, but must keep this interface.
pub trait MemoryBankController: Sized {
    /// Internal consistency of the controller's storage.
    spec fn inv(&self) -> bool;

    /// Bytes currently visible through the ROM window, in window order.
    spec fn rom_bytes(&self) -> Seq<u8>;

    /// Bytes currently visible through the RAM window, in window order.
    spec fn ram_bytes(&self) -> Seq<u8>;

    fn read(&self, addr: u16) -> (r: u8)
        requires
            self.inv(),
            rom_window(addr) || ram_window(addr),
        ensures
            rom_window(addr) ==> r == self.rom_bytes()[addr - 0x4000],
            ram_window(addr) ==> r == self.ram_bytes()[addr - 0xA000],
    ;

    /// Little-endian 16-bit read: the byte at `addr` is the low byte.
    fn read_double(&self, addr: u16) -> (r: u16)
        requires
            self.inv(),
            (rom_window(addr) && addr < 0x7FFF) || (ram_window(addr) && addr < 0xBFFF),
        ensures
            rom_window(addr) ==> r == self.rom_bytes()[addr - 0x4000] + 256 * self.rom_bytes().index(
                addr + 1 - 0x4000,
            ),
            ram_window(addr) ==> r == self.ram_bytes()[addr - 0xA000] + 256 * self.ram_bytes().index(
                addr + 1 - 0xA000,
            ),
    ;

    fn write(&mut self, addr: u16, data: u8)
        requires
            old(self).inv(),
            rom_window(addr) || ram_window(addr),
        ensures
            final(self).inv(),
            rom_window(addr) ==> final(self).rom_bytes() == old(self).rom_bytes().update(
                addr - 0x4000,
                data,
            ) && final(self).ram_bytes() == old(self).ram_bytes(),
            ram_window(addr) ==> final(self).ram_bytes() == old(self).ram_bytes().update(
                addr - 0xA000,
                data,
            ) && final(self).rom_bytes() == old(self).rom_bytes(),
    ;

    /// Little-endian 16-bit write: the low byte of `data` goes to `addr`.
    fn write_double(&mut self, addr: u16, data: u16)
        requires
            old(self).inv(),
            (rom_window(addr) && addr < 0x7FFF) || (ram_window(addr) && addr < 0xBFFF),
        ensures
            final(self).inv(),
            rom_window(addr) ==> final(self).rom_bytes() == old(self).rom_bytes().update(
                addr - 0x4000,
                (data as int % 256) as u8,
            ).update(addr + 1 - 0x4000, (data as int / 256) as u8) && final(self).ram_bytes()
                == old(self).ram_bytes(),
            ram_window(addr) ==> final(self).ram_bytes() == old(self).ram_bytes().update(
                addr - 0xA000,
                (data as int % 256) as u8,
            ).update(addr + 1 - 0xA000, (data as int / 256) as u8) && final(self).rom_bytes()
                == old(self).rom_bytes(),
    ;
}

/// The no-banking cartridge (type byte 0x00): one fixed 16 KiB ROM bank in
/// the window and 8 KiB of external RAM, no switching at all.
pub struct MBC0 {
    pub rom: Vec<u8>,
    pub ram: Vec<u8>,
}

impl MBC0 {
    pub fn new() -> (m: MBC0)
        ensures
            m.inv(),
            m.rom_bytes() == Seq::new(0x4000, |i: int| 0u8),
            m.ram_bytes() == Seq::new(0x2000, |i: int| 0u8),
    {
        let m = MBC0 { rom: zero_bytes(0x4000), ram: zero_bytes(0x2000) };
        proof {
            assert(m.rom@ =~= Seq::new(0x4000, |i: int| 0u8));
            assert(m.ram@ =~= Seq::new(0x2000, |i: int| 0u8));
        }
        m
    }
}

impl MemoryBankController for MBC0 {
    open spec fn inv(&self) -> bool {
        self.rom@.len() == 0x4000 && self.ram@.len() == 0x2000
    }

    open spec fn rom_bytes(&self) -> Seq<u8> {
        self.rom@
    }

    open spec fn ram_bytes(&self) -> Seq<u8> {
        self.ram@
    }

    fn read(&self, addr: u16) -> (r: u8) {
        if addr < 0x8000 {
            self.rom[(addr - 0x4000) as usize]
        } else {
            self.ram[(addr - 0xA000) as usize]
        }
    }

    fn read_double(&self, addr: u16) -> (r: u16) {
        let lo: u16;
        let hi: u16;
        if addr < 0x8000 {
            lo = self.rom[(addr - 0x4000) as usize] as u16;
            hi = self.rom[(addr + 1 - 0x4000) as usize] as u16;
        } else {
            lo = self.ram[(addr - 0xA000) as usize] as u16;
            hi = self.ram[(addr + 1 - 0xA000) as usize] as u16;
        }
        lo + 256 * hi
    }

    fn write(&mut self, addr: u16, data: u8) {
        if addr < 0x8000 {
            self.rom.set((addr - 0x4000) as usize, data);
        } else {
            self.ram.set((addr - 0xA000) as usize, data);
        }
    }

    fn write_double(&mut self, addr: u16, data: u16) {
        let lo = (data % 256) as u8;
        let hi = (data / 256) as u8;
        if addr < 0x8000 {
            self.rom.set((addr - 0x4000) as usize, lo);
            self.rom.set((addr + 1 - 0x4000) as usize, hi);
        } else {
            self.ram.set((addr - 0xA000) as usize, lo);
            self.ram.set((addr + 1 - 0xA000) as usize, hi);
        }
    }
}

} // verus!
