use vstd::prelude::*;

verus! {

/// Size of one bank of program ROM in bytes.
pub const PRG_BANK_SIZE: usize = 0x4000;

/// Size of one bank of tile-graphics memory in bytes.
pub const CHR_BANK_SIZE: usize = 0x2000;

/// How the picture processor's nametables alias one another.
#[derive(Clone, Copy, Debug, PartialEq, Eq, Structural)]
pub enum Mirroring {
    Horizontal,
    Vertical,
    FourScreen,
}

/// What the image's header says of the cartridge.
#[derive(Clone, Copy, Debug, PartialEq, Eq, Structural)]
pub struct Header {
    /// Number of 16 KiB program banks.
    pub prg_rom_size: u8,
    /// Number of 8 KiB graphics banks; 0 means the board carries graphics RAM.
    pub chr_rom_size: u8,
    pub mirroring: Mirroring,
    /// Which mapper chip the board uses.
    pub mapper: u8,
}

/// Why a cartridge image cannot be loaded.
#[derive(Clone, Copy, Debug, PartialEq, Eq, Structural)]
pub enum LoadError {
    /// The header declares no program bank.
    NoPrgBanks,
    /// The program bytes do not fill the declared banks exactly.
    PrgSizeMismatch,
    /// The graphics bytes do not fill the declared banks exactly.
    ChrSizeMismatch,
    /// The bank counts do not suit the selected mapper.
    BankCount,
    /// No mapper of this library has the header's mapper number.
    UnsupportedMapper,
}

/// A loaded cartridge: its header, program ROM, and graphics memory (the
/// graphics ROM, or one bank of zeroed graphics RAM where the image has none).
pub struct Cartridge {
    pub header: Header,
    pub prg_rom: Vec<u8>,
    pub chr: Vec<u8>,
}

/// Number of graphics bytes the board holds for a header.
pub open spec fn chr_len(h: Header) -> nat {
    if h.chr_rom_size == 0 {
        CHR_BANK_SIZE as nat
    } else {
        CHR_BANK_SIZE as nat * h.chr_rom_size as nat
    }
}

/// Whether the board has graphics RAM rather than ROM.
pub open spec fn has_chr_ram(h: Header) -> bool {
    h.chr_rom_size == 0
}

/// The cartridge as values.
pub ghost struct CartridgeView {
    pub header: Header,
    pub prg_rom: Seq<u8>,
    pub chr: Seq<u8>,
}

impl View for Cartridge {
    type V = CartridgeView;

    open spec fn view(&self) -> CartridgeView {
        CartridgeView { header: self.header, prg_rom: self.prg_rom@, chr: self.chr@ }
    }
}

/// The buffers match the bank counts of the header.
pub open spec fn cartridge_wf(c: CartridgeView) -> bool {
    &&& c.header.prg_rom_size >= 1
    &&& c.prg_rom.len() == PRG_BANK_SIZE as nat * c.header.prg_rom_size as nat
    &&& c.chr.len() == chr_len(c.header)
}

/// A vector of `n` zero bytes.
pub fn zeroed(n: usize) -> (r: Vec<u8>)
    ensures
        r@ == Seq::new(n as nat, |i: int| 0u8),
{
    let mut r: Vec<u8> = Vec::new();
    let mut i: usize = 0;
    while i < n
        invariant
            i <= n,
            r@ == Seq::new(i as nat, |k: int| 0u8),
        decreases n - i,
    {
        r.push(0);
        i = i + 1;
        assert(r@ =~= Seq::new(i as nat, |k: int| 0u8));
    }
    r
}

impl Cartridge {
    /// Builds a cartridge from a parsed image, checking that the byte buffers
    /// fill exactly the banks that the header declares. A header without
    /// graphics banks gets one bank of zeroed graphics RAM.
    pub fn new(header: Header, prg_rom: Vec<u8>, chr_rom: Vec<u8>) -> (r: Result<
        Cartridge,
        LoadError,
    >)
        ensures
            header.prg_rom_size == 0 ==> r == Err::<Cartridge, LoadError>(LoadError::NoPrgBanks),
            header.prg_rom_size != 0 && prg_rom@.len() != PRG_BANK_SIZE as nat
                * header.prg_rom_size as nat ==> r == Err::<Cartridge, LoadError>(
                LoadError::PrgSizeMismatch,
            ),
            header.prg_rom_size != 0 && prg_rom@.len() == PRG_BANK_SIZE as nat
                * header.prg_rom_size as nat && chr_rom@.len() != CHR_BANK_SIZE as nat
                * header.chr_rom_size as nat ==> r == Err::<Cartridge, LoadError>(
                LoadError::ChrSizeMismatch,
            ),
            r is Ok <==> (header.prg_rom_size != 0 && prg_rom@.len() == PRG_BANK_SIZE as nat
                * header.prg_rom_size as nat && chr_rom@.len() == CHR_BANK_SIZE as nat
                * header.chr_rom_size as nat),
            r matches Ok(c) ==> {
                &&& cartridge_wf(c@)
                &&& c.header == header
                &&& c.prg_rom@ == prg_rom@
                &&& c.chr@ == if header.chr_rom_size == 0 {
                    Seq::new(CHR_BANK_SIZE as nat, |i: int| 0u8)
                } else {
                    chr_rom@
                }
            },
    {
        if header.prg_rom_size == 0 {
            return Err(LoadError::NoPrgBanks);
        }
        if prg_rom.len() != PRG_BANK_SIZE * header.prg_rom_size as usize {
            return Err(LoadError::PrgSizeMismatch);
        }
        if chr_rom.len() != CHR_BANK_SIZE * header.chr_rom_size as usize {
            return Err(LoadError::ChrSizeMismatch);
        }
        let chr = if header.chr_rom_size == 0 {
            zeroed(CHR_BANK_SIZE)
        } else {
            chr_rom
        };
        Ok(Cartridge { header, prg_rom, chr })
    }
}

} // verus!
