use vstd::prelude::*;
use crate::cartridge::{Cartridge, CartridgeView, LoadError, Mirroring, cartridge_wf, has_chr_ram};
use crate::nrom::{
    Nrom, NromView, nrom_banks_ok, nrom_chr, nrom_chr_written, nrom_init, nrom_peek, nrom_read,
    nrom_wf, nrom_written,
};
use crate::uxrom::{
    Uxrom, UxromView, uxrom_chr_written, uxrom_init, uxrom_peek, uxrom_read, uxrom_wf,
    uxrom_written,
};

verus! {

/// The cartridge board of a loaded image, chosen once by the header's mapper
/// number; every board answers the same set of accesses.
pub enum Mapper {
    Nrom(Nrom),
    Uxrom(Uxrom),
}

/// The board as values.
pub ghost enum MapperView {
    Nrom(NromView),
    Uxrom(UxromView),
}

impl View for Mapper {
    type V = MapperView;

    open spec fn view(&self) -> MapperView {
        match self {
            Mapper::Nrom(m) => MapperView::Nrom(m@),
            Mapper::Uxrom(m) => MapperView::Uxrom(m@),
        }
    }
}

/// Mapper number of the fixed-mapping board.
pub const NROM_ID: u8 = 0;

/// Mapper number of the single-register bank-switching board.
pub const UXROM_ID: u8 = 2;

pub open spec fn mapper_wf(m: MapperView) -> bool {
    match m {
        MapperView::Nrom(n) => nrom_wf(n) && n.cartridge.header.mapper == NROM_ID,
        MapperView::Uxrom(u) => uxrom_wf(u) && u.cartridge.header.mapper == UXROM_ID,
    }
}

/// The cartridge a board holds.
pub open spec fn mapper_cartridge(m: MapperView) -> CartridgeView {
    match m {
        MapperView::Nrom(n) => n.cartridge,
        MapperView::Uxrom(u) => u.cartridge,
    }
}

/// What the CPU sees at `addr` without side effects.
pub open spec fn mapper_peek(m: MapperView, addr: usize) -> u8 {
    match m {
        MapperView::Nrom(n) => nrom_peek(n, addr),
        MapperView::Uxrom(u) => uxrom_peek(u, addr),
    }
}

/// What a CPU read at `addr` gets; `None` where the board does not answer.
pub open spec fn mapper_read(m: MapperView, addr: usize) -> Option<u8> {
    match m {
        MapperView::Nrom(n) => nrom_read(n, addr),
        MapperView::Uxrom(u) => uxrom_read(u, addr),
    }
}

/// The board after a CPU write.
pub open spec fn mapper_written(m: MapperView, addr: usize, val: u8) -> MapperView {
    match m {
        MapperView::Nrom(n) => MapperView::Nrom(nrom_written(n, addr, val)),
        MapperView::Uxrom(u) => MapperView::Uxrom(uxrom_written(u, addr, val)),
    }
}

/// The graphics byte the picture processor reads at `addr`.
pub open spec fn mapper_chr(m: MapperView, addr: usize) -> u8 {
    match m {
        MapperView::Nrom(n) => nrom_chr(n, addr),
        MapperView::Uxrom(u) => u.cartridge.chr[addr as int],
    }
}

/// The board after a graphics write.
pub open spec fn mapper_chr_written(m: MapperView, addr: usize, val: u8) -> MapperView {
    match m {
        MapperView::Nrom(n) => MapperView::Nrom(nrom_chr_written(n, addr, val)),
        MapperView::Uxrom(u) => MapperView::Uxrom(uxrom_chr_written(u, addr, val)),
    }
}

/// The nametable byte at `addr`.
pub open spec fn mapper_nametable(m: MapperView, addr: usize) -> u8 {
    match m {
        MapperView::Nrom(n) => n.nt_ram[addr as int],
        MapperView::Uxrom(u) => u.nt_ram[addr as int],
    }
}

/// The board after a nametable write.
pub open spec fn mapper_nametable_written(m: MapperView, addr: usize, val: u8) -> MapperView {
    match m {
        MapperView::Nrom(n) => MapperView::Nrom(NromView { nt_ram: n.nt_ram.update(addr as int, val), ..n }),
        MapperView::Uxrom(u) => MapperView::Uxrom(UxromView { nt_ram: u.nt_ram.update(addr as int, val), ..u }),
    }
}

/// Wherever a CPU read gets a byte from the board, a read without side
/// effects gets the same byte.
pub proof fn lemma_peek_matches_read(m: MapperView, addr: usize)
    requires
        mapper_wf(m),
    ensures
        mapper_read(m, addr) matches Some(v) ==> v == mapper_peek(m, addr),
{
}

/// A graphics write is read back where the board has graphics RAM; where it
/// has ROM the write changes nothing and the ROM byte is read back.
pub proof fn lemma_chr_write_read(m: MapperView, addr: usize, val: u8)
    requires
        mapper_wf(m),
        addr < 0x2000,
    ensures
        mapper_wf(mapper_chr_written(m, addr, val)),
        mapper_chr(mapper_chr_written(m, addr, val), addr) == if has_chr_ram(
            mapper_cartridge(m).header,
        ) {
            val
        } else {
            mapper_chr(m, addr)
        },
        !has_chr_ram(mapper_cartridge(m).header) ==> mapper_chr_written(m, addr, val) == m,
{
}

impl Mapper {
    /// Chooses the board by the header's mapper number and builds it.
    pub fn load(cartridge: Cartridge) -> (r: Result<Mapper, LoadError>)
        requires
            cartridge_wf(cartridge@),
        ensures
            cartridge.header.mapper == NROM_ID && nrom_banks_ok(cartridge@) ==> (r matches Ok(m)
                && m@ == MapperView::Nrom(nrom_init(cartridge@))),
            cartridge.header.mapper == NROM_ID && !nrom_banks_ok(cartridge@) ==> r == Err::<
                Mapper,
                LoadError,
            >(LoadError::BankCount),
            cartridge.header.mapper == UXROM_ID ==> (r matches Ok(m) && m@ == MapperView::Uxrom(
                uxrom_init(cartridge@),
            )),
            cartridge.header.mapper != NROM_ID && cartridge.header.mapper != UXROM_ID ==> r
                == Err::<Mapper, LoadError>(LoadError::UnsupportedMapper),
            r matches Ok(m) ==> mapper_wf(m@),
    {
        let id = cartridge.header.mapper;
        if id == NROM_ID {
            let prg = cartridge.header.prg_rom_size;
            let chr = cartridge.header.chr_rom_size;
            if (prg == 1 || prg == 2) && (chr == 0 || chr == 1) {
                Ok(Mapper::Nrom(Nrom::new(cartridge)))
            } else {
                Err(LoadError::BankCount)
            }
        } else if id == UXROM_ID {
            Ok(Mapper::Uxrom(Uxrom::new(cartridge)))
        } else {
            Err(LoadError::UnsupportedMapper)
        }
    }

    /// A CPU read without side effects.
    pub fn cpu_read_direct(&self, addr: usize) -> (r: u8)
        requires
            mapper_wf(self@),
        ensures
            r == mapper_peek(self@, addr),
    {
        match self {
            Mapper::Nrom(m) => m.cpu_read_direct(addr),
            Mapper::Uxrom(m) => m.cpu_peek(addr),
        }
    }

    /// Whether the board answers CPU reads at `addr`.
    pub fn answers(&self, addr: usize) -> (r: bool)
        requires
            mapper_wf(self@),
        ensures
            r == mapper_read(self@, addr) is Some,
    {
        match self {
            Mapper::Nrom(_) => 0x6000 <= addr && addr <= 0xFFFF,
            Mapper::Uxrom(_) => 0x8000 <= addr && addr <= 0xFFFF,
        }
    }

    /// A CPU read; `None` tells the bus that the board does not answer there.
    pub fn cpu_read(&mut self, addr: usize) -> (r: Option<u8>)
        requires
            mapper_wf(old(self)@),
        ensures
            r == mapper_read(old(self)@, addr),
            final(self)@ == old(self)@,
    {
        match self {
            Mapper::Nrom(m) => m.cpu_read(addr),
            Mapper::Uxrom(m) => m.cpu_read(addr),
        }
    }

    /// A CPU write.
    pub fn cpu_write(&mut self, addr: usize, val: u8)
        requires
            mapper_wf(old(self)@),
        ensures
            mapper_wf(final(self)@),
            final(self)@ == mapper_written(old(self)@, addr, val),
    {
        match self {
            Mapper::Nrom(m) => m.cpu_write(addr, val),
            Mapper::Uxrom(m) => m.cpu_write(addr, val),
        }
    }

    /// A read of graphics memory by the picture processor.
    pub fn read_chr(&self, addr: usize) -> (r: u8)
        requires
            mapper_wf(self@),
            addr < 0x2000,
        ensures
            r == mapper_chr(self@, addr),
    {
        match self {
            Mapper::Nrom(m) => m.read_chr(addr),
            Mapper::Uxrom(m) => m.read_chr(addr),
        }
    }

    /// A write of graphics memory by the picture processor.
    pub fn write_chr(&mut self, addr: usize, val: u8)
        requires
            mapper_wf(old(self)@),
            addr < 0x2000,
        ensures
            mapper_wf(final(self)@),
            final(self)@ == mapper_chr_written(old(self)@, addr, val),
    {
        match self {
            Mapper::Nrom(m) => m.write_chr(addr, val),
            Mapper::Uxrom(m) => m.write_chr(addr, val),
        }
    }

    /// A read of nametable memory.
    pub fn read_nametable(&self, addr: usize) -> (r: u8)
        requires
            mapper_wf(self@),
            addr < 0x1000,
        ensures
            r == mapper_nametable(self@, addr),
    {
        match self {
            Mapper::Nrom(m) => m.read_nametable(addr),
            Mapper::Uxrom(m) => m.read_nametable(addr),
        }
    }

    /// A write of nametable memory.
    pub fn write_nametable(&mut self, addr: usize, val: u8)
        requires
            mapper_wf(old(self)@),
            addr < 0x1000,
        ensures
            mapper_wf(final(self)@),
            final(self)@ == mapper_nametable_written(old(self)@, addr, val),
    {
        match self {
            Mapper::Nrom(m) => m.write_nametable(addr, val),
            Mapper::Uxrom(m) => m.write_nametable(addr, val),
        }
    }

    /// The nametable layout the cartridge declares.
    pub fn mirroring(&self) -> (r: Mirroring)
        requires
            mapper_wf(self@),
        ensures
            r == mapper_cartridge(self@).header.mirroring,
    {
        match self {
            Mapper::Nrom(m) => m.mirroring(),
            Mapper::Uxrom(m) => m.mirroring,
        }
    }
}

} // verus!
