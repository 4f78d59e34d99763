use vstd::prelude::*;
use crate::cartridge::{
    Cartridge, CartridgeView, Mirroring, cartridge_wf, has_chr_ram, zeroed, PRG_BANK_SIZE,
};

verus! {

/// The fixed-mapping board: one or two program banks and at most one
/// graphics bank, none of them switchable, plus 8 KiB of work RAM.
pub struct Nrom {
    /// Offset in program ROM of the bank seen at 0x8000-0xBFFF.
    pub prg_1: usize,
    /// Offset in program ROM of the bank seen at 0xC000-0xFFFF.
    pub prg_2: usize,
    /// Offset in graphics memory of the bank the picture processor sees.
    pub chr: usize,
    /// Work RAM at 0x6000-0x7FFF.
    pub ram: Vec<u8>,
    /// Nametable RAM.
    pub nt_ram: Vec<u8>,
    pub cartridge: Cartridge,
}

/// The board as values.
pub ghost struct NromView {
    pub prg_1: usize,
    pub prg_2: usize,
    pub chr: usize,
    pub ram: Seq<u8>,
    pub nt_ram: Seq<u8>,
    pub cartridge: CartridgeView,
}

impl View for Nrom {
    type V = NromView;

    open spec fn view(&self) -> NromView {
        NromView {
            prg_1: self.prg_1,
            prg_2: self.prg_2,
            chr: self.chr,
            ram: self.ram@,
            nt_ram: self.nt_ram@,
            cartridge: self.cartridge@,
        }
    }
}

/// The bank counts this board accepts.
pub open spec fn nrom_banks_ok(c: CartridgeView) -> bool {
    &&& (c.header.prg_rom_size == 1 || c.header.prg_rom_size == 2)
    &&& (c.header.chr_rom_size == 0 || c.header.chr_rom_size == 1)
}

/// The bank offsets that the board fixes from the cartridge's bank counts:
/// with one program bank both windows show it, with two the upper window
/// shows the second.
pub open spec fn nrom_wf(m: NromView) -> bool {
    &&& cartridge_wf(m.cartridge)
    &&& nrom_banks_ok(m.cartridge)
    &&& m.prg_1 == 0
    &&& m.prg_2 == PRG_BANK_SIZE * (m.cartridge.header.prg_rom_size - 1) as usize
    &&& m.chr == 0
    &&& m.ram.len() == 0x2000
    &&& m.nt_ram.len() == 0x1000
}

/// What the CPU sees at `addr`, without side effects; 0 outside the board's
/// windows.
pub open spec fn nrom_peek(m: NromView, addr: usize) -> u8 {
    if 0x6000 <= addr <= 0x7FFF {
        m.ram[addr - 0x6000]
    } else if 0x8000 <= addr <= 0xBFFF {
        m.cartridge.prg_rom[m.prg_1 + (addr - 0x8000)]
    } else if 0xC000 <= addr <= 0xFFFF {
        m.cartridge.prg_rom[m.prg_2 + (addr - 0xC000)]
    } else {
        0
    }
}

/// What a CPU read at `addr` gets from the board: nothing below 0x6000.
pub open spec fn nrom_read(m: NromView, addr: usize) -> Option<u8> {
    if 0x6000 <= addr <= 0xFFFF {
        Some(nrom_peek(m, addr))
    } else {
        None
    }
}

/// The board at power-on for a cartridge.
pub open spec fn nrom_init(c: CartridgeView) -> NromView {
    NromView {
        prg_1: 0,
        prg_2: (PRG_BANK_SIZE * (c.header.prg_rom_size - 1)) as usize,
        chr: 0,
        ram: Seq::new(0x2000, |i: int| 0u8),
        nt_ram: Seq::new(0x1000, |i: int| 0u8),
        cartridge: c,
    }
}

/// The board after a CPU write: only work RAM changes.
pub open spec fn nrom_written(m: NromView, addr: usize, val: u8) -> NromView {
    if 0x6000 <= addr <= 0x7FFF {
        NromView { ram: m.ram.update(addr - 0x6000, val), ..m }
    } else {
        m
    }
}

/// The byte of graphics memory the picture processor reads at `addr`.
pub open spec fn nrom_chr(m: NromView, addr: usize) -> u8 {
    m.cartridge.chr[m.chr + addr]
}

/// The board after a graphics write: graphics RAM takes it, ROM does not.
pub open spec fn nrom_chr_written(m: NromView, addr: usize, val: u8) -> NromView {
    if has_chr_ram(m.cartridge.header) {
        NromView {
            cartridge: CartridgeView { chr: m.cartridge.chr.update(m.chr + addr, val), ..m.cartridge },
            ..m
        }
    } else {
        m
    }
}

/// With a single program bank, both CPU windows show that bank.
pub proof fn lemma_single_bank_mirrored(m: NromView, offset: usize)
    requires
        nrom_wf(m),
        m.cartridge.header.prg_rom_size == 1,
        offset < 0x4000,
    ensures
        nrom_peek(m, (0x8000 + offset) as usize) == nrom_peek(m, (0xC000 + offset) as usize),
        nrom_read(m, (0x8000 + offset) as usize) == nrom_read(m, (0xC000 + offset) as usize),
{
}

impl Nrom {
    /// Builds the board for a cartridge with one or two program banks and
    /// at most one graphics bank; work RAM and nametables start zeroed.
    pub fn new(cartridge: Cartridge) -> (r: Nrom)
        requires
            cartridge_wf(cartridge@),
            nrom_banks_ok(cartridge@),
        ensures
            nrom_wf(r@),
            r@ == nrom_init(cartridge@),
    {
        let mut mapper = Nrom {
            prg_1: 0,
            prg_2: 0,
            chr: 0,
            ram: zeroed(0x2000),
            nt_ram: zeroed(0x1000),
            cartridge,
        };
        mapper.initialize_banks();
        mapper
    }

    /// Sets the bank offsets from the cartridge's bank counts.
    fn initialize_banks(&mut self)
        requires
            cartridge_wf(old(self).cartridge@),
            nrom_banks_ok(old(self).cartridge@),
        ensures
            final(self).prg_1 == 0,
            final(self).prg_2 == PRG_BANK_SIZE * (old(self).cartridge.header.prg_rom_size
                - 1) as usize,
            final(self).chr == 0,
            final(self).ram == old(self).ram,
            final(self).nt_ram == old(self).nt_ram,
            final(self).cartridge == old(self).cartridge,
    {
        let prg_count = self.cartridge.header.prg_rom_size;
        if prg_count == 1 {
            self.prg_1 = 0;
            self.prg_2 = 0;
        } else {
            self.prg_1 = 0;
            self.prg_2 = PRG_BANK_SIZE;
        }
        // The one graphics bank, or the graphics RAM, starts at offset 0.
        self.chr = 0;
    }

    /// A CPU read without side effects.
    pub fn cpu_read_direct(&self, addr: usize) -> (r: u8)
        requires
            nrom_wf(self@),
        ensures
            r == nrom_peek(self@, addr),
    {
        if 0x6000 <= addr && addr <= 0x7FFF {
            self.ram[addr - 0x6000]
        } else if 0x8000 <= addr && addr <= 0xBFFF {
            self.cartridge.prg_rom[self.prg_1 + (addr - 0x8000)]
        } else if 0xC000 <= addr && addr <= 0xFFFF {
            self.cartridge.prg_rom[self.prg_2 + (addr - 0xC000)]
        } else {
            0
        }
    }

    /// A CPU read; `None` where the address is not the board's.
    pub fn cpu_read(&mut self, addr: usize) -> (r: Option<u8>)
        requires
            nrom_wf(old(self)@),
        ensures
            r == nrom_read(old(self)@, addr),
            final(self)@ == old(self)@,
    {
        if 0x6000 <= addr && addr <= 0xFFFF {
            Some(self.cpu_read_direct(addr))
        } else {
            None
        }
    }

    /// A CPU write: only work RAM takes it; program ROM ignores writes.
    pub fn cpu_write(&mut self, addr: usize, val: u8)
        requires
            nrom_wf(old(self)@),
        ensures
            nrom_wf(final(self)@),
            final(self)@ == nrom_written(old(self)@, addr, val),
    {
        if 0x6000 <= addr && addr <= 0x7FFF {
            self.ram.set(addr - 0x6000, val);
        }
    }

    /// A read of graphics memory by the picture processor.
    pub fn read_chr(&self, addr: usize) -> (r: u8)
        requires
            nrom_wf(self@),
            addr < 0x2000,
        ensures
            r == nrom_chr(self@, addr),
    {
        self.cartridge.chr[self.chr + addr]
    }

    /// A write of graphics memory: taken by graphics RAM, ignored by ROM.
    pub fn write_chr(&mut self, addr: usize, val: u8)
        requires
            nrom_wf(old(self)@),
            addr < 0x2000,
        ensures
            nrom_wf(final(self)@),
            final(self)@ == nrom_chr_written(old(self)@, addr, val),
    {
        if self.cartridge.header.chr_rom_size == 0 {
            let i = self.chr + addr;
            self.cartridge.chr.set(i, val);
        }
    }

    /// A read of nametable RAM.
    pub fn read_nametable(&self, addr: usize) -> (r: u8)
        requires
            nrom_wf(self@),
            addr < 0x1000,
        ensures
            r == self@.nt_ram[addr as int],
    {
        self.nt_ram[addr]
    }

    /// A write of nametable RAM.
    pub fn write_nametable(&mut self, addr: usize, val: u8)
        requires
            nrom_wf(old(self)@),
            addr < 0x1000,
        ensures
            nrom_wf(final(self)@),
            final(self)@ == (NromView { nt_ram: old(self)@.nt_ram.update(addr as int, val), ..old(self)@ }),
    {
        self.nt_ram.set(addr, val);
    }

    /// The nametable layout the cartridge declares.
    pub fn mirroring(&self) -> (r: Mirroring)
        ensures
            r == self.cartridge.header.mirroring,
    {
        self.cartridge.header.mirroring
    }
}

} // verus!
