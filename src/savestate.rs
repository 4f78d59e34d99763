use vstd::prelude::*;
use crate::bus::{Bus, BusView, bus_wf};
use crate::cartridge::{
    Cartridge, CartridgeView, Header, Mirroring, chr_len, CHR_BANK_SIZE, PRG_BANK_SIZE,
};
use crate::controller::Controller;
use crate::mapper::{Mapper, MapperView, NROM_ID, UXROM_ID};
use crate::nrom::{Nrom, NromView};
use crate::uxrom::{Uxrom, UxromView, last_bank_offset};

verus! {

// Layout of a snapshot: the pad (strobe, shift register, buttons), work RAM,
// the cartridge (mapper number, bank counts, mirroring, program ROM,
// graphics memory), then the board's own state: work RAM and nametables for
// the fixed board; the selected bank and nametables for the switching one.

/// Offset of the cartridge's header bytes in a snapshot.
pub const CART_AT: usize = 0x803;

/// Offset of the program ROM in a snapshot.
pub const PRG_AT: usize = 0x807;

/// Size of the fixed board's work RAM.
pub const NROM_RAM_SIZE: usize = 0x2000;

/// Size of a board's nametable RAM.
pub const NT_RAM_SIZE: usize = 0x1000;

/// Why a snapshot cannot be restored.
#[derive(Clone, Copy, Debug, PartialEq, Eq, Structural)]
pub enum SnapshotError {
    /// The blob is shorter or longer than its own header implies.
    Length,
    /// A byte holds a value its field cannot take.
    BadValue,
    /// The mapper number is not one of this library's boards.
    UnknownMapper,
    /// The bank counts do not suit the board.
    BankCount,
}

pub open spec fn mirroring_code(m: Mirroring) -> u8 {
    match m {
        Mirroring::Horizontal => 0,
        Mirroring::Vertical => 1,
        Mirroring::FourScreen => 2,
    }
}

pub open spec fn mirroring_of(c: u8) -> Mirroring {
    if c == 0 {
        Mirroring::Horizontal
    } else if c == 1 {
        Mirroring::Vertical
    } else {
        Mirroring::FourScreen
    }
}

pub open spec fn cartridge_bytes(c: CartridgeView) -> Seq<u8> {
    seq![
        c.header.mapper,
        c.header.prg_rom_size,
        c.header.chr_rom_size,
        mirroring_code(c.header.mirroring),
    ] + c.prg_rom + c.chr
}

pub open spec fn mapper_bytes(m: MapperView) -> Seq<u8> {
    match m {
        MapperView::Nrom(n) => cartridge_bytes(n.cartridge) + n.ram + n.nt_ram,
        MapperView::Uxrom(u) => cartridge_bytes(u.cartridge) + seq![
            (u.prg_1 / PRG_BANK_SIZE) as u8,
        ] + u.nt_ram,
    }
}

/// The snapshot of a machine.
pub open spec fn encoding(b: BusView) -> Seq<u8> {
    seq![
        if b.controller.strobe {
            1u8
        } else {
            0u8
        },
        b.controller.shifter,
        b.controller.state,
    ] + b.ram + mapper_bytes(b.mapper)
}

/// Where the graphics memory starts in a snapshot whose header is `h`.
pub open spec fn chr_at(h: Header) -> int {
    PRG_AT + PRG_BANK_SIZE * h.prg_rom_size
}

/// Where the board's own state starts in a snapshot whose header is `h`.
pub open spec fn board_at(h: Header) -> int {
    chr_at(h) + chr_len(h)
}

/// The header that a snapshot's bytes give.
pub open spec fn header_in(s: Seq<u8>) -> Header {
    Header {
        mapper: s[CART_AT as int],
        prg_rom_size: s[CART_AT + 1],
        chr_rom_size: s[CART_AT + 2],
        mirroring: mirroring_of(s[CART_AT + 3]),
    }
}

/// The machine a snapshot describes, or why it describes none.
pub open spec fn decoding(s: Seq<u8>) -> Result<BusView, SnapshotError> {
    if s.len() < PRG_AT {
        Err(SnapshotError::Length)
    } else if s[0] > 1 || s[CART_AT + 3] > 2 {
        Err(SnapshotError::BadValue)
    } else {
        let h = header_in(s);
        let e = board_at(h);
        let controller = Controller { strobe: s[0] == 1, shifter: s[1], state: s[2] };
        let ram = s.subrange(3, CART_AT as int);
        let cartridge = CartridgeView {
            header: h,
            prg_rom: s.subrange(PRG_AT as int, chr_at(h)),
            chr: s.subrange(chr_at(h), e),
        };
        if h.mapper != NROM_ID && h.mapper != UXROM_ID {
            Err(SnapshotError::UnknownMapper)
        } else if h.prg_rom_size == 0 || (h.mapper == NROM_ID && (h.prg_rom_size > 2
            || h.chr_rom_size > 1)) {
            Err(SnapshotError::BankCount)
        } else if h.mapper == NROM_ID {
            if s.len() != e + NROM_RAM_SIZE + NT_RAM_SIZE {
                Err(SnapshotError::Length)
            } else {
                Ok(
                    BusView {
                        ram,
                        controller,
                        mapper: MapperView::Nrom(
                            NromView {
                                prg_1: 0,
                                prg_2: (PRG_BANK_SIZE * (h.prg_rom_size - 1)) as usize,
                                chr: 0,
                                ram: s.subrange(e, e + NROM_RAM_SIZE),
                                nt_ram: s.subrange(e + NROM_RAM_SIZE, s.len() as int),
                                cartridge,
                            },
                        ),
                    },
                )
            }
        } else {
            if s.len() != e + 1 + NT_RAM_SIZE {
                Err(SnapshotError::Length)
            } else if s[e] >= h.prg_rom_size {
                Err(SnapshotError::BadValue)
            } else {
                Ok(
                    BusView {
                        ram,
                        controller,
                        mapper: MapperView::Uxrom(
                            UxromView {
                                prg_1: (PRG_BANK_SIZE * s[e]) as usize,
                                prg_2: last_bank_offset(cartridge),
                                nt_ram: s.subrange(e + 1, s.len() as int),
                                mirroring: h.mirroring,
                                cartridge,
                            },
                        ),
                    },
                )
            }
        }
    }
}

proof fn lemma_bank_byte(offset: usize, count: nat)
    requires
        offset % 0x4000 == 0,
        offset + 0x4000 <= 0x4000 * count,
    ensures
        offset / 0x4000 < count,
        0x4000 * (offset / 0x4000) == offset,
{
    assert(offset / 0x4000 < count) by (nonlinear_arith)
        requires
            offset % 0x4000 == 0,
            offset + 0x4000 <= 0x4000 * count,
    ;
    assert(0x4000 * (offset / 0x4000) == offset) by (nonlinear_arith)
        requires
            offset % 0x4000 == 0,
    ;
}

/// Restoring the snapshot of any well-formed machine gives back that machine.
pub proof fn lemma_round_trip(b: BusView)
    requires
        bus_wf(b),
    ensures
        decoding(encoding(b)) == Ok::<BusView, SnapshotError>(b),
{
    let s = encoding(b);
    let c = match b.mapper {
        MapperView::Nrom(n) => n.cartridge,
        MapperView::Uxrom(u) => u.cartridge,
    };
    let h = c.header;
    let strobe_byte: u8 = if b.controller.strobe { 1 } else { 0 };
    let pre = seq![strobe_byte, b.controller.shifter, b.controller.state] + b.ram;
    let cb = cartridge_bytes(c);
    assert(pre.len() == CART_AT);
    assert(cb.len() == 4 + c.prg_rom.len() + c.chr.len());
    let e = board_at(h);
    assert(s[0] == strobe_byte);
    assert(s[1] == b.controller.shifter);
    assert(s[2] == b.controller.state);
    assert(s.subrange(3, CART_AT as int) =~= b.ram);
    match b.mapper {
        MapperView::Nrom(n) => {
            assert(s =~= pre + cb + n.ram + n.nt_ram);
            assert(s[CART_AT as int] == h.mapper);
            assert(s[CART_AT + 1] == h.prg_rom_size);
            assert(s[CART_AT + 2] == h.chr_rom_size);
            assert(s[CART_AT + 3] == mirroring_code(h.mirroring));
            assert(header_in(s) == h);
            assert(s.subrange(PRG_AT as int, chr_at(h)) =~= c.prg_rom);
            assert(s.subrange(chr_at(h), e) =~= c.chr);
            assert(s.subrange(e, e + NROM_RAM_SIZE) =~= n.ram);
            assert(s.subrange(e + NROM_RAM_SIZE, s.len() as int) =~= n.nt_ram);
        },
        MapperView::Uxrom(u) => {
            let bank = (u.prg_1 / PRG_BANK_SIZE) as u8;
            lemma_bank_byte(u.prg_1, h.prg_rom_size as nat);
            assert(s =~= pre + cb + seq![bank] + u.nt_ram);
            assert(s[CART_AT as int] == h.mapper);
            assert(s[CART_AT + 1] == h.prg_rom_size);
            assert(s[CART_AT + 2] == h.chr_rom_size);
            assert(s[CART_AT + 3] == mirroring_code(h.mirroring));
            assert(header_in(s) == h);
            assert(s.subrange(PRG_AT as int, chr_at(h)) =~= c.prg_rom);
            assert(s.subrange(chr_at(h), e) =~= c.chr);
            assert(s[e] == bank);
            assert(s.subrange(e + 1, s.len() as int) =~= u.nt_ram);
        },
    }
}

/// Appends the bytes of `src` to `out`.
fn append_bytes(out: &mut Vec<u8>, src: &Vec<u8>)
    ensures
        final(out)@ == old(out)@ + src@,
{
    let mut i: usize = 0;
    while i < src.len()
        invariant
            i <= src@.len(),
            out@ == old(out)@ + src@.subrange(0, i as int),
        decreases src@.len() - i,
    {
        out.push(src[i]);
        i = i + 1;
        assert(out@ =~= old(out)@ + src@.subrange(0, i as int));
    }
    assert(src@.subrange(0, i as int) =~= src@);
}

/// The bytes of `b` from `start` up to `end`.
fn copy_range(b: &[u8], start: usize, end: usize) -> (r: Vec<u8>)
    requires
        start <= end <= b@.len(),
    ensures
        r@ == b@.subrange(start as int, end as int),
{
    let mut r: Vec<u8> = Vec::new();
    let mut i: usize = start;
    while i < end
        invariant
            start <= i <= end,
            end <= b@.len(),
            r@ == b@.subrange(start as int, i as int),
        decreases end - i,
    {
        r.push(b[i]);
        i = i + 1;
        assert(r@ =~= b@.subrange(start as int, i as int));
    }
    r
}

fn mirroring_byte(m: Mirroring) -> (r: u8)
    ensures
        r == mirroring_code(m),
{
    match m {
        Mirroring::Horizontal => 0,
        Mirroring::Vertical => 1,
        Mirroring::FourScreen => 2,
    }
}

fn mirroring_from(c: u8) -> (r: Mirroring)
    ensures
        r == mirroring_of(c),
{
    if c == 0 {
        Mirroring::Horizontal
    } else if c == 1 {
        Mirroring::Vertical
    } else {
        Mirroring::FourScreen
    }
}

fn push_cartridge(out: &mut Vec<u8>, c: &Cartridge)
    ensures
        final(out)@ == old(out)@ + cartridge_bytes(c@),
{
    out.push(c.header.mapper);
    out.push(c.header.prg_rom_size);
    out.push(c.header.chr_rom_size);
    out.push(mirroring_byte(c.header.mirroring));
    append_bytes(out, &c.prg_rom);
    append_bytes(out, &c.chr);
    assert(final(out)@ =~= old(out)@ + cartridge_bytes(c@));
}

impl Bus {
    /// The machine's snapshot.
    pub fn encode(&self) -> (r: Vec<u8>)
        requires
            bus_wf(self@),
        ensures
            r@ == encoding(self@),
    {
        let mut out: Vec<u8> = Vec::new();
        out.push(if self.controller.strobe { 1 } else { 0 });
        out.push(self.controller.shifter);
        out.push(self.controller.state);
        append_bytes(&mut out, &self.ram);
        match &self.mapper {
            Mapper::Nrom(n) => {
                push_cartridge(&mut out, &n.cartridge);
                append_bytes(&mut out, &n.ram);
                append_bytes(&mut out, &n.nt_ram);
            },
            Mapper::Uxrom(u) => {
                push_cartridge(&mut out, &u.cartridge);
                out.push((u.prg_1 / PRG_BANK_SIZE) as u8);
                append_bytes(&mut out, &u.nt_ram);
            },
        }
        assert(out@ =~= encoding(self@));
        out
    }

    /// The machine a snapshot describes; an error, and no machine, for a blob
    /// that is truncated, padded, or holds values no machine can have.
    pub fn decode(bytes: &[u8]) -> (r: Result<Bus, SnapshotError>)
        ensures
            r matches Ok(b) ==> decoding(bytes@) == Ok::<BusView, SnapshotError>(b@) && bus_wf(b@),
            r matches Err(e) ==> decoding(bytes@) == Err::<BusView, SnapshotError>(e),
    {
        if bytes.len() < PRG_AT {
            return Err(SnapshotError::Length);
        }
        if bytes[0] > 1 || bytes[CART_AT + 3] > 2 {
            return Err(SnapshotError::BadValue);
        }
        let header = Header {
            mapper: bytes[CART_AT],
            prg_rom_size: bytes[CART_AT + 1],
            chr_rom_size: bytes[CART_AT + 2],
            mirroring: mirroring_from(bytes[CART_AT + 3]),
        };
        assert(header == header_in(bytes@));
        let id = header.mapper;
        let prg = header.prg_rom_size;
        let chr = header.chr_rom_size;
        if id != NROM_ID && id != UXROM_ID {
            return Err(SnapshotError::UnknownMapper);
        }
        if prg == 0 || (id == NROM_ID && (prg > 2 || chr > 1)) {
            return Err(SnapshotError::BankCount);
        }
        let c_at = PRG_AT + PRG_BANK_SIZE * prg as usize;
        let chr_size = if chr == 0 { CHR_BANK_SIZE } else { CHR_BANK_SIZE * chr as usize };
        let e = c_at + chr_size;
        let board_len = if id == NROM_ID { NROM_RAM_SIZE + NT_RAM_SIZE } else { 1 + NT_RAM_SIZE };
        if bytes.len() != e + board_len {
            return Err(SnapshotError::Length);
        }
        if id == UXROM_ID && bytes[e] >= prg {
            return Err(SnapshotError::BadValue);
        }
        let controller = Controller { strobe: bytes[0] == 1, shifter: bytes[1], state: bytes[2] };
        let ram = copy_range(bytes, 3, CART_AT);
        let cartridge = Cartridge {
            header,
            prg_rom: copy_range(bytes, PRG_AT, c_at),
            chr: copy_range(bytes, c_at, e),
        };
        let mapper = if id == NROM_ID {
            Mapper::Nrom(
                Nrom {
                    prg_1: 0,
                    prg_2: PRG_BANK_SIZE * (prg as usize - 1),
                    chr: 0,
                    ram: copy_range(bytes, e, e + NROM_RAM_SIZE),
                    nt_ram: copy_range(bytes, e + NROM_RAM_SIZE, bytes.len()),
                    cartridge,
                },
            )
        } else {
            let bank = bytes[e];
            proof {
                assert(0x4000 * bank + 0x4000 <= 0x4000 * prg) by (nonlinear_arith)
                    requires
                        bank < prg,
                ;
            }
            Mapper::Uxrom(
                Uxrom {
                    prg_1: PRG_BANK_SIZE * bank as usize,
                    prg_2: PRG_BANK_SIZE * (prg as usize - 1),
                    nt_ram: copy_range(bytes, e + 1, bytes.len()),
                    mirroring: header.mirroring,
                    cartridge,
                },
            )
        };
        let b = Bus { ram, controller, mapper };
        assert(b@ == decoding(bytes@)->Ok_0);
        Ok(b)
    }

    /// Restores the machine from a snapshot. On failure the machine is left
    /// exactly as it was.
    pub fn load_state(&mut self, bytes: &[u8]) -> (r: Result<(), SnapshotError>)
        ensures
            r matches Ok(_) ==> decoding(bytes@) == Ok::<BusView, SnapshotError>(final(self)@)
                && bus_wf(final(self)@),
            r matches Err(e) ==> decoding(bytes@) == Err::<BusView, SnapshotError>(e)
                && *final(self) == *old(self),
    {
        match Bus::decode(bytes) {
            Ok(b) => {
                *self = b;
                Ok(())
            },
            Err(e) => Err(e),
        }
    }
}

/// A blob with no bytes restores nothing.
pub proof fn lemma_empty_blob_fails()
    ensures
        decoding(Seq::<u8>::empty()) == Err::<BusView, SnapshotError>(SnapshotError::Length),
{
}

} // verus!
