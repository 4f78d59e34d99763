use nes::cartridge::{Cartridge, Header, LoadError, Mirroring};
use nes::mapper::Mapper;
use nes::nrom::Nrom;
use nes::uxrom::Uxrom;

fn header(mapper: u8, prg: u8, chr: u8) -> Header {
    Header { prg_rom_size: prg, chr_rom_size: chr, mirroring: Mirroring::Vertical, mapper }
}

/// Program ROM whose byte at offset `i` is `(i / 0x4000) * 16 + i % 7`,
/// so each bank can be told apart.
fn prg(banks: usize) -> Vec<u8> {
    (0..banks * 0x4000).map(|i| ((i / 0x4000) * 16 + i % 7) as u8).collect()
}

fn chr(banks: usize) -> Vec<u8> {
    (0..banks * 0x2000).map(|i| (i % 251) as u8).collect()
}

fn cart(mapper: u8, p: u8, c: u8) -> Cartridge {
    Cartridge::new(header(mapper, p, c), prg(p as usize), chr(c as usize)).unwrap()
}

#[test]
fn cartridge_rejects_bad_images() {
    assert!(matches!(
        Cartridge::new(header(0, 0, 0), vec![], vec![]),
        Err(LoadError::NoPrgBanks)
    ));
    assert!(matches!(
        Cartridge::new(header(0, 1, 0), prg(2), vec![]),
        Err(LoadError::PrgSizeMismatch)
    ));
    assert!(matches!(
        Cartridge::new(header(0, 1, 1), prg(1), chr(2)),
        Err(LoadError::ChrSizeMismatch)
    ));
    let c = cart(0, 1, 0);
    assert_eq!(c.chr.len(), 0x2000);
    assert!(c.chr.iter().all(|b| *b == 0));
}

#[test]
fn load_picks_board_by_mapper_number() {
    assert!(matches!(Mapper::load(cart(0, 2, 1)), Ok(Mapper::Nrom(_))));
    assert!(matches!(Mapper::load(cart(2, 4, 0)), Ok(Mapper::Uxrom(_))));
    assert!(matches!(Mapper::load(cart(0, 3, 0)), Err(LoadError::BankCount)));
    assert!(matches!(Mapper::load(cart(0, 1, 2)), Err(LoadError::BankCount)));
    assert!(matches!(Mapper::load(cart(1, 1, 0)), Err(LoadError::UnsupportedMapper)));
}

#[test]
fn nrom_single_bank_is_mirrored() {
    let mut m = Nrom::new(cart(0, 1, 1));
    assert_eq!(m.prg_1, 0);
    assert_eq!(m.prg_2, 0);
    for off in [0usize, 1, 5, 0x1234, 0x3FFF] {
        assert_eq!(m.cpu_read_direct(0x8000 + off), m.cpu_read_direct(0xC000 + off));
        assert_eq!(m.cpu_read(0x8000 + off), m.cpu_read(0xC000 + off));
    }
    assert_eq!(m.cpu_read_direct(0x8003), 3);
}

#[test]
fn nrom_two_banks() {
    let mut m = Nrom::new(cart(0, 2, 0));
    assert_eq!(m.prg_2, 0x4000);
    assert_eq!(m.cpu_read(0x8000), Some(0));
    assert_eq!(m.cpu_read(0xC000), Some((16 + 0x4000usize % 7) as u8));
    assert_eq!(m.cpu_read(0x5000), None);
    assert_eq!(m.cpu_read_direct(0x5000), 0);
    assert_eq!(m.mirroring(), Mirroring::Vertical);
}

#[test]
fn nrom_writes_reach_work_ram_only() {
    let mut m = Nrom::new(cart(0, 1, 1));
    m.cpu_write(0x6010, 0xAB);
    assert_eq!(m.cpu_read(0x6010), Some(0xAB));
    assert_eq!(m.cpu_read_direct(0x6010), 0xAB);
    let before = m.cpu_read_direct(0x8000);
    m.cpu_write(0x8000, 0x55);
    assert_eq!(m.cpu_read_direct(0x8000), before);
}

#[test]
fn nrom_chr_ram_and_rom() {
    let mut ram = Nrom::new(cart(0, 1, 0));
    ram.write_chr(0x123, 0x77);
    assert_eq!(ram.read_chr(0x123), 0x77);
    let mut rom = Nrom::new(cart(0, 1, 1));
    let orig = rom.read_chr(0x123);
    rom.write_chr(0x123, orig.wrapping_add(1));
    assert_eq!(rom.read_chr(0x123), orig);
    assert_eq!(orig, (0x123 % 251) as u8);
}

#[test]
fn nrom_nametables() {
    let mut m = Nrom::new(cart(0, 1, 0));
    assert_eq!(m.read_nametable(0xFFF), 0);
    m.write_nametable(0xFFF, 9);
    assert_eq!(m.read_nametable(0xFFF), 9);
}

#[test]
fn uxrom_bank_switch() {
    let mut m = Uxrom::new(cart(2, 4, 0));
    assert_eq!(m.prg_2, 3 * 0x4000);
    assert_eq!(m.cpu_read(0xC000), Some((3 * 16 + (3 * 0x4000usize) % 7) as u8));
    let high_before: Vec<u8> = (0xC000..0xC010).map(|a| m.cpu_peek(a)).collect();
    m.cpu_write(0x9123, 2);
    assert_eq!(m.prg_1, 2 * 0x4000);
    for a in [0x8000usize, 0x8001, 0xA000, 0xBFFF] {
        let off = 2 * 0x4000 + (a - 0x8000);
        assert_eq!(m.cpu_read(a), Some((2 * 16 + off % 7) as u8));
    }
    let high_after: Vec<u8> = (0xC000..0xC010).map(|a| m.cpu_peek(a)).collect();
    assert_eq!(high_before, high_after);
    m.cpu_write(0xFFFF, 2);
    assert_eq!(m.prg_1, 2 * 0x4000);
}

#[test]
fn uxrom_bank_number_wraps_at_bank_count() {
    let mut m = Uxrom::new(cart(2, 4, 0));
    m.cpu_write(0x8000, 6);
    assert_eq!(m.prg_1, 2 * 0x4000);
    m.cpu_write(0x7FFF, 1);
    assert_eq!(m.prg_1, 2 * 0x4000);
    assert_eq!(m.cpu_read(0x7FFF), None);
}

#[test]
fn uxrom_chr_and_nametables() {
    let mut m = Uxrom::new(cart(2, 2, 0));
    m.write_chr(0x1FFF, 4);
    assert_eq!(m.read_chr(0x1FFF), 4);
    m.write_nametable(3, 8);
    assert_eq!(m.read_nametable(3), 8);
    let mut r = Uxrom::new(cart(2, 2, 1));
    r.write_chr(0x10, 0xEE);
    assert_eq!(r.read_chr(0x10), 0x10);
}

#[test]
fn mapper_peek_matches_read() {
    for mut m in [Mapper::load(cart(0, 2, 0)).unwrap(), Mapper::load(cart(2, 3, 1)).unwrap()] {
        m.cpu_write(0x6001, 0x42);
        m.cpu_write(0x8000, 1);
        for a in [0x0usize, 0x4020, 0x6001, 0x7FFF, 0x8000, 0xBFFF, 0xC000, 0xFFFF] {
            if let Some(v) = m.cpu_read(a) {
                assert_eq!(v, m.cpu_read_direct(a));
            }
            assert_eq!(m.answers(a), m.cpu_read(a).is_some());
        }
        m.write_nametable(1, 2);
        assert_eq!(m.read_nametable(1), 2);
        assert_eq!(m.mirroring(), Mirroring::Vertical);
    }
}

#[test]
fn mapper_chr_write_read() {
    let mut ram = Mapper::load(cart(2, 2, 0)).unwrap();
    ram.write_chr(0x40, 0x99);
    assert_eq!(ram.read_chr(0x40), 0x99);
    let mut rom = Mapper::load(cart(0, 1, 1)).unwrap();
    rom.write_chr(0x40, 0x99);
    assert_eq!(rom.read_chr(0x40), 0x40);
}
