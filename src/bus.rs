//! The CPU's view of the address space.
//!
//! | range             | behaviour                                      |
//! |-------------------|------------------------------------------------|
//! | `0x0000..=0x1FFF` | 2 KiB of RAM, mirrored every `0x0800`          |
//! | `0x2000..=0x3FFF` | eight PPU registers, mirrored every 8 bytes    |
//! | `0x4000..=0x401F` | APU and I/O: reads give `0xFF`, writes ignored |
//! | `0x4020..=0x7FFF` | expansion and save RAM: `0xFF`, writes ignored |
//! | `0x8000..=0xFFFF` | PRG-ROM; a 16 KiB image is mirrored            |
use vstd::prelude::*;

use crate::ppu::{PPU, PpuState, add16, wrap_add16};

verus! {

pub const RAM_SIZE: usize = 0x800;

pub const RAM_MIRRORS_END: u16 = 0x1FFF;

pub const PPU_REGISTERS: u16 = 0x2000;

pub const PPU_REGISTERS_MIRRORS_END: u16 = 0x3FFF;

pub const IO_END: u16 = 0x401F;

pub const PRG_START: u16 = 0x8000;

/// Size of one PRG-ROM bank.
pub const PRG_BANK: usize = 0x4000;

/// The 16-bit little-endian word made of `lo` and `hi`.
pub open spec fn word(lo: u8, hi: u8) -> u16 {
    (lo + hi * 256) as u16
}

/// Index into PRG-ROM of CPU address `addr` (at least `0x8000`).
pub open spec fn prg_index(addr: u16, len: nat) -> int {
    if len == PRG_BANK {
        (addr - 0x8000) % (PRG_BANK as int)
    } else {
        addr - 0x8000
    }
}

/// The PPU register that a CPU address in `0x2000..=0x3FFF` selects.
pub open spec fn ppu_register(addr: u16) -> u16 {
    (0x2000 + addr % 8) as u16
}

/// The abstract state of the bus: RAM, cartridge PRG-ROM and the PPU.
pub struct BusState {
    pub ram: Seq<u8>,
    pub prg: Seq<u8>,
    pub ppu: PpuState,
}

impl BusState {
    pub open spec fn wf(self) -> bool {
        &&& self.ram.len() == RAM_SIZE
        &&& (self.prg.len() == PRG_BANK || self.prg.len() == 2 * PRG_BANK)
        &&& self.ppu.wf()
    }

    /// The byte that a read of `addr` returns.
    #[verifier::opaque]
    pub open spec fn read_spec(self, addr: u16) -> u8 {
        if addr <= RAM_MIRRORS_END {
            self.ram[(addr as int) % (RAM_SIZE as int)]
        } else if addr <= PPU_REGISTERS_MIRRORS_END {
            self.ppu.read_spec(ppu_register(addr))
        } else if addr <= IO_END {
            0xFF
        } else if addr >= PRG_START {
            self.prg[prg_index(addr, self.prg.len())]
        } else {
            0xFF
        }
    }

    /// The 16-bit little-endian word at `addr`.
    pub open spec fn read16_spec(self, addr: u16) -> u16 {
        word(self.read_spec(addr), self.read_spec(add16(addr, 1)))
    }

    /// The state after a write of `data` to `addr`.
    #[verifier::opaque]
    pub open spec fn write_spec(self, addr: u16, data: u8) -> BusState {
        if addr <= RAM_MIRRORS_END {
            BusState { ram: self.ram.update((addr as int) % (RAM_SIZE as int), data), ..self }
        } else if addr <= PPU_REGISTERS_MIRRORS_END {
            BusState { ppu: self.ppu.write_spec(ppu_register(addr), data), ..self }
        } else {
            self
        }
    }

    /// The state after a little-endian write of `data` to `addr`.
    pub open spec fn write16_spec(self, addr: u16, data: u16) -> BusState {
        self.write_spec(addr, (data % 256) as u8).write_spec(add16(addr, 1), (data / 256) as u8)
    }
}

/// Byte-addressed memory.
pub trait Mem: Sized {
    spec fn mem_ok(&self) -> bool;

    /// What a read of `addr` returns.
    spec fn peek(&self, addr: u16) -> u8;

    /// Whether `after` is `self` once `data` was written to `addr`.
    spec fn wrote(&self, after: &Self, addr: u16, data: u8) -> bool;

    /// Whether `after` is `self` once the word `data` was written to `addr`,
    /// low byte first.
    spec fn wrote16(&self, after: &Self, addr: u16, data: u16) -> bool;

    /// Reads the byte at `addr`.
    fn mem_read(&self, addr: u16) -> (r: u8)
        requires
            self.mem_ok(),
        ensures
            r == self.peek(addr),
    ;

    /// Writes `data` at `addr`.
    fn mem_write(&mut self, addr: u16, data: u8)
        requires
            old(self).mem_ok(),
        ensures
            final(self).mem_ok(),
            old(self).wrote(final(self), addr, data),
    ;

    /// Reads the little-endian word at `addr`; the high byte comes from the
    /// next address, wrapping at the top of memory.
    fn mem_read_16(&self, addr: u16) -> (r: u16)
        requires
            self.mem_ok(),
        ensures
            r == word(self.peek(addr), self.peek(add16(addr, 1))),
    ;

    /// Writes `data` little-endian at `addr`, low byte first.
    fn mem_write_16(&mut self, addr: u16, data: u16)
        requires
            old(self).mem_ok(),
        ensures
            final(self).mem_ok(),
            old(self).wrote16(final(self), addr, data),
    ;
}

/// RAM, the cartridge's PRG-ROM and the PPU, wired to CPU addresses.
pub struct Bus {
    pub cpu_vram: Vec<u8>,
    pub prg_rom: Vec<u8>,
    pub ppu: PPU,
}

impl View for Bus {
    type V = BusState;

    open spec fn view(&self) -> BusState {
        BusState { ram: self.cpu_vram@, prg: self.prg_rom@, ppu: self.ppu@ }
    }
}

impl Bus {
    pub open spec fn wf(&self) -> bool {
        self@.wf()
    }

    /// A bus with cleared RAM over the given PPU and PRG-ROM image.
    pub fn new(ppu: PPU, prg_rom: Vec<u8>) -> (r: Self)
        requires
            ppu.wf(),
            prg_rom.len() == PRG_BANK || prg_rom.len() == 2 * PRG_BANK,
        ensures
            r.wf(),
            r@.ram == Seq::new(RAM_SIZE as nat, |i: int| 0u8),
            r@.prg == prg_rom@,
            r@.ppu == ppu@,
    {
        let mut cpu_vram: Vec<u8> = Vec::new();
        let mut i: usize = 0;
        while i < RAM_SIZE
            invariant
                i <= RAM_SIZE,
                cpu_vram@ == Seq::new(i as nat, |k: int| 0u8),
            decreases RAM_SIZE - i,
        {
            cpu_vram.push(0);
            i = i + 1;
            assert(cpu_vram@ =~= Seq::new(i as nat, |k: int| 0u8));
        }
        Bus { cpu_vram, prg_rom, ppu }
    }

    fn read_prom(&self, addr: u16) -> (r: u8)
        requires
            self.wf(),
            addr >= PRG_START,
        ensures
            r == self@.prg[prg_index(addr, self@.prg.len())],
    {
        let mut offset = addr - PRG_START;
        if self.prg_rom.len() == PRG_BANK && offset >= 0x4000 {
            offset = offset % 0x4000;
        }
        self.prg_rom[offset as usize]
    }
}

impl Mem for Bus {
    open spec fn mem_ok(&self) -> bool {
        self.wf()
    }

    open spec fn peek(&self, addr: u16) -> u8 {
        self@.read_spec(addr)
    }

    open spec fn wrote(&self, after: &Self, addr: u16, data: u8) -> bool {
        after@ == self@.write_spec(addr, data)
    }

    open spec fn wrote16(&self, after: &Self, addr: u16, data: u16) -> bool {
        after@ == self@.write16_spec(addr, data)
    }

    fn mem_read(&self, addr: u16) -> (r: u8) {
        reveal(BusState::read_spec);
        if addr <= RAM_MIRRORS_END {
            self.cpu_vram[(addr as usize) % RAM_SIZE]
        } else if addr <= PPU_REGISTERS_MIRRORS_END {
            self.ppu.read_register(PPU_REGISTERS + addr % 8)
        } else if addr <= IO_END {
            0xFF
        } else if addr >= PRG_START {
            self.read_prom(addr)
        } else {
            0xFF
        }
    }

    fn mem_write(&mut self, addr: u16, data: u8) {
        reveal(BusState::write_spec);
        if addr <= RAM_MIRRORS_END {
            self.cpu_vram.set((addr as usize) % RAM_SIZE, data);
        } else if addr <= PPU_REGISTERS_MIRRORS_END {
            self.ppu.write_register(PPU_REGISTERS + addr % 8, data);
        }
    }

    fn mem_read_16(&self, addr: u16) -> (r: u16) {
        let lo = self.mem_read(addr);
        let hi = self.mem_read(wrap_add16(addr, 1));
        (lo as u16) + (hi as u16) * 256
    }

    fn mem_write_16(&mut self, addr: u16, data: u16) {
        let lo = (data % 256) as u8;
        let hi = (data / 256) as u8;
        self.mem_write(addr, lo);
        self.mem_write(wrap_add16(addr, 1), hi);
    }
}

} // verus!
