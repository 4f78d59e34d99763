use vstd::prelude::*;
use crate::cartridge::{
    Cartridge, CartridgeView, Mirroring, cartridge_wf, has_chr_ram, zeroed, PRG_BANK_SIZE,
};

verus! {

/// The single-register bank-switching board: the upper program window is
/// fixed to the last bank, the lower one shows the bank that the last write
/// to 0x8000-0xFFFF selected.
pub struct Uxrom {
    /// Offset in program ROM of the bank seen at 0x8000-0xBFFF.
    pub prg_1: usize,
    /// Offset in program ROM of the last bank, seen at 0xC000-0xFFFF.
    pub prg_2: usize,
    /// Nametable RAM.
    pub nt_ram: Vec<u8>,
    pub mirroring: Mirroring,
    pub cartridge: Cartridge,
}

/// The board as values.
pub ghost struct UxromView {
    pub prg_1: usize,
    pub prg_2: usize,
    pub nt_ram: Seq<u8>,
    pub mirroring: Mirroring,
    pub cartridge: CartridgeView,
}

impl View for Uxrom {
    type V = UxromView;

    open spec fn view(&self) -> UxromView {
        UxromView {
            prg_1: self.prg_1,
            prg_2: self.prg_2,
            nt_ram: self.nt_ram@,
            mirroring: self.mirroring,
            cartridge: self.cartridge@,
        }
    }
}

/// Offset of the last program bank of a cartridge.
pub open spec fn last_bank_offset(c: CartridgeView) -> usize {
    (PRG_BANK_SIZE * (c.header.prg_rom_size - 1)) as usize
}

/// The lower window shows a whole bank of the ROM, the upper one the last.
pub open spec fn uxrom_wf(m: UxromView) -> bool {
    &&& cartridge_wf(m.cartridge)
    &&& m.prg_1 % PRG_BANK_SIZE == 0
    &&& m.prg_1 + PRG_BANK_SIZE <= m.cartridge.prg_rom.len()
    &&& m.prg_2 == last_bank_offset(m.cartridge)
    &&& m.nt_ram.len() == 0x1000
    &&& m.mirroring == m.cartridge.header.mirroring
}

/// What the CPU sees at `addr`, without side effects; 0 outside the board's
/// windows.
pub open spec fn uxrom_peek(m: UxromView, addr: usize) -> u8 {
    if 0x8000 <= addr <= 0xBFFF {
        m.cartridge.prg_rom[m.prg_1 + (addr - 0x8000)]
    } else if 0xC000 <= addr <= 0xFFFF {
        m.cartridge.prg_rom[m.prg_2 + (addr - 0xC000)]
    } else {
        0
    }
}

/// What a CPU read at `addr` gets from the board: nothing below 0x8000.
pub open spec fn uxrom_read(m: UxromView, addr: usize) -> Option<u8> {
    if 0x8000 <= addr <= 0xFFFF {
        Some(uxrom_peek(m, addr))
    } else {
        None
    }
}

/// The board after a CPU write: a write to 0x8000-0xFFFF selects bank
/// `val` modulo the number of banks for the lower window.
pub open spec fn uxrom_written(m: UxromView, addr: usize, val: u8) -> UxromView {
    if 0x8000 <= addr <= 0xFFFF {
        UxromView {
            prg_1: (PRG_BANK_SIZE * (val % m.cartridge.header.prg_rom_size)) as usize,
            ..m
        }
    } else {
        m
    }
}

/// The board at power-on for a cartridge: the lower window on bank 0.
pub open spec fn uxrom_init(c: CartridgeView) -> UxromView {
    UxromView {
        prg_1: 0,
        prg_2: last_bank_offset(c),
        nt_ram: Seq::new(0x1000, |i: int| 0u8),
        mirroring: c.header.mirroring,
        cartridge: c,
    }
}

/// The board after a graphics write: graphics RAM takes it, ROM does not.
pub open spec fn uxrom_chr_written(m: UxromView, addr: usize, val: u8) -> UxromView {
    if has_chr_ram(m.cartridge.header) {
        UxromView {
            cartridge: CartridgeView { chr: m.cartridge.chr.update(addr as int, val), ..m.cartridge },
            ..m
        }
    } else {
        m
    }
}

proof fn lemma_bank_in_rom(bank: nat, count: nat)
    requires
        bank < count,
    ensures
        0x4000 * bank + 0x4000 <= 0x4000 * count,
        (0x4000 * bank) % 0x4000 == 0,
{
    assert(0x4000 * bank + 0x4000 <= 0x4000 * count) by (nonlinear_arith)
        requires
            bank < count,
    ;
    assert((0x4000 * bank) % 0x4000 == 0) by (nonlinear_arith);
}

/// After a write of `val` to any address of 0x8000-0xFFFF, the lower window
/// shows bank `val` (modulo the bank count) and the upper window still shows
/// the last bank.
pub proof fn lemma_bank_switch(m: UxromView, at: usize, val: u8, addr: usize)
    requires
        uxrom_wf(m),
        0x8000 <= at <= 0xFFFF,
        0x8000 <= addr <= 0xFFFF,
    ensures
        addr <= 0xBFFF ==> uxrom_peek(uxrom_written(m, at, val), addr) == m.cartridge.prg_rom[
            0x4000 * (val % m.cartridge.header.prg_rom_size) + (addr - 0x8000)
        ],
        addr >= 0xC000 ==> uxrom_peek(uxrom_written(m, at, val), addr) == m.cartridge.prg_rom[
            0x4000 * (m.cartridge.header.prg_rom_size - 1) + (addr - 0xC000)
        ],
        addr >= 0xC000 ==> uxrom_peek(uxrom_written(m, at, val), addr) == uxrom_peek(m, addr),
        (val == 2 && m.cartridge.header.prg_rom_size > 2 && addr <= 0xBFFF) ==> (uxrom_peek(
            uxrom_written(m, at, val),
            addr,
        ) == m.cartridge.prg_rom[2 * (PRG_BANK_SIZE as int) + (addr - 0x8000)]),
        uxrom_read(uxrom_written(m, at, val), addr) == Some(uxrom_peek(uxrom_written(m, at, val), addr)),
{
    if val == 2 && m.cartridge.header.prg_rom_size > 2 {
        let n = m.cartridge.header.prg_rom_size;
        assert(2u8 % n == 2) by (nonlinear_arith)
            requires
                n > 2,
        ;
    }
}

impl Uxrom {
    /// Builds the board: the lower window starts on bank 0, the upper one is
    /// fixed to the last bank, nametable RAM starts zeroed.
    pub fn new(cartridge: Cartridge) -> (r: Uxrom)
        requires
            cartridge_wf(cartridge@),
        ensures
            uxrom_wf(r@),
            r@ == uxrom_init(cartridge@),
    {
        let prg_count = cartridge.header.prg_rom_size as usize;
        proof {
            lemma_bank_in_rom((prg_count - 1) as nat, prg_count as nat);
        }
        let prg_2 = PRG_BANK_SIZE * (prg_count - 1);
        let mirroring = cartridge.header.mirroring;
        Uxrom { prg_1: 0, prg_2, nt_ram: zeroed(0x1000), mirroring, cartridge }
    }

    /// A CPU read without side effects.
    pub fn cpu_peek(&self, addr: usize) -> (r: u8)
        requires
            uxrom_wf(self@),
        ensures
            r == uxrom_peek(self@, addr),
    {
        proof {
            lemma_bank_in_rom(
                (self.cartridge.header.prg_rom_size - 1) as nat,
                self.cartridge.header.prg_rom_size as nat,
            );
        }
        if 0x8000 <= addr && addr <= 0xBFFF {
            self.cartridge.prg_rom[self.prg_1 + (addr - 0x8000)]
        } else if 0xC000 <= addr && addr <= 0xFFFF {
            self.cartridge.prg_rom[self.prg_2 + (addr - 0xC000)]
        } else {
            0
        }
    }

    /// A CPU read; `None` where the address is not the board's.
    pub fn cpu_read(&mut self, addr: usize) -> (r: Option<u8>)
        requires
            uxrom_wf(old(self)@),
        ensures
            r == uxrom_read(old(self)@, addr),
            final(self)@ == old(self)@,
    {
        if 0x8000 <= addr && addr <= 0xFFFF {
            Some(self.cpu_peek(addr))
        } else {
            None
        }
    }

    /// A CPU write: one to 0x8000-0xFFFF switches the lower program window.
    pub fn cpu_write(&mut self, addr: usize, val: u8)
        requires
            uxrom_wf(old(self)@),
        ensures
            uxrom_wf(final(self)@),
            final(self)@ == uxrom_written(old(self)@, addr, val),
    {
        if 0x8000 <= addr && addr <= 0xFFFF {
            let bank = val % self.cartridge.header.prg_rom_size;
            proof {
                lemma_bank_in_rom(bank as nat, self.cartridge.header.prg_rom_size as nat);
            }
            self.prg_1 = PRG_BANK_SIZE * bank as usize;
        }
    }

    /// A read of graphics memory by the picture processor.
    pub fn read_chr(&self, addr: usize) -> (r: u8)
        requires
            uxrom_wf(self@),
            addr < 0x2000,
        ensures
            r == self@.cartridge.chr[addr as int],
    {
        self.cartridge.chr[addr]
    }

    /// A write of graphics memory: taken by graphics RAM, ignored by ROM.
    pub fn write_chr(&mut self, addr: usize, val: u8)
        requires
            uxrom_wf(old(self)@),
            addr < 0x2000,
        ensures
            uxrom_wf(final(self)@),
            final(self)@ == uxrom_chr_written(old(self)@, addr, val),
    {
        if self.cartridge.header.chr_rom_size == 0 {
            self.cartridge.chr.set(addr, val);
        }
    }

    /// A read of nametable RAM.
    pub fn read_nametable(&self, addr: usize) -> (r: u8)
        requires
            uxrom_wf(self@),
            addr < 0x1000,
        ensures
            r == self@.nt_ram[addr as int],
    {
        self.nt_ram[addr]
    }

    /// A write of nametable RAM.
    pub fn write_nametable(&mut self, addr: usize, val: u8)
        requires
            uxrom_wf(old(self)@),
            addr < 0x1000,
        ensures
            uxrom_wf(final(self)@),
            final(self)@ == (UxromView { nt_ram: old(self)@.nt_ram.update(addr as int, val), ..old(self)@ }),
    {
        self.nt_ram.set(addr, val);
    }
}

} // verus!
