use nes::bus::Bus;
use nes::cartridge::{Cartridge, Header, Mirroring};
use nes::controller::Button;
use nes::mapper::Mapper;
use nes::savestate::SnapshotError;

fn machine(mapper: u8, p: u8, c: u8) -> Bus {
    let header = Header { prg_rom_size: p, chr_rom_size: c, mirroring: Mirroring::Horizontal, mapper };
    let prg: Vec<u8> = (0..p as usize * 0x4000).map(|i| (i % 253) as u8).collect();
    let chr: Vec<u8> = (0..c as usize * 0x2000).map(|i| (i % 13) as u8).collect();
    let cart = Cartridge::new(header, prg, chr).unwrap();
    Bus::new(Mapper::load(cart).unwrap())
}

#[test]
fn ram_is_mirrored() {
    let mut b = machine(0, 1, 0);
    b.write(0x0001, 7);
    assert_eq!(b.read(0x0801), 7);
    assert_eq!(b.read(0x1801), 7);
    assert_eq!(b.peek(0x1001), 7);
}

#[test]
fn unclaimed_addresses_read_zero_and_ignore_writes() {
    let mut b = machine(2, 2, 0);
    b.write(0x2000, 5);
    assert_eq!(b.read(0x2000), 0);
    assert_eq!(b.read(0x4020), 0);
    assert_eq!(b.read(0x6000), 0);
    let before = b.encode();
    b.write(0x4000, 1);
    b.write(0x5000, 1);
    assert_eq!(b.encode(), before);
}

#[test]
fn pad_through_bus() {
    let mut b = machine(0, 1, 0);
    b.controller.set_button(Button::B, true);
    b.write(0x4016, 1);
    b.write(0x4016, 0);
    assert_eq!(b.peek(0x4016), 0);
    assert_eq!(b.read(0x4016), 0);
    assert_eq!(b.peek(0x4016), 1);
    assert_eq!(b.read(0x4016), 1);
}

#[test]
fn peek_matches_read_on_cartridge() {
    let mut b = machine(2, 4, 0);
    b.write(0x8000, 3);
    for a in [0x8000usize, 0x9000, 0xBFFF, 0xC000, 0xFFFF] {
        let p = b.peek(a);
        assert_eq!(b.read(a), p);
    }
    assert_eq!(b.read(0x8005), ((3 * 0x4000 + 5) % 253) as u8);
}

#[test]
fn snapshot_round_trip_mid_game() {
    let mut b = machine(2, 4, 0);
    b.write(0xC000, 2);
    b.write(0x0123, 0x5A);
    b.controller.set_button(Button::Left, true);
    b.write(0x4016, 1);
    b.mapper.write_chr(0x10, 0x33);
    b.mapper.write_nametable(0x20, 0x44);
    let blob = b.encode();
    let mut r = Bus::decode(&blob).unwrap();
    assert_eq!(r.encode(), blob);
    assert_eq!(r.read(0x0123), 0x5A);
    assert_eq!(r.read(0x8000), b.peek(0x8000));
    assert!(r.controller.strobe);
    assert_eq!(r.mapper.read_chr(0x10), 0x33);
    assert_eq!(r.mapper.read_nametable(0x20), 0x44);
    assert!(matches!(r.mapper, Mapper::Uxrom(ref u) if u.prg_1 == 2 * 0x4000));
}

#[test]
fn snapshot_round_trip_fixed_board() {
    let mut b = machine(0, 2, 1);
    b.write(0x6000, 0x11);
    b.write(0x4016, 1);
    b.write(0x4016, 0);
    b.read(0x4016);
    let blob = b.encode();
    let r = Bus::decode(&blob).unwrap();
    assert_eq!(r.encode(), blob);
    assert_eq!(r.peek(0x6000), 0x11);
    assert_eq!(r.controller.shifter, b.controller.shifter);
}

#[test]
fn empty_blob_fails_and_keeps_machine() {
    let mut b = machine(2, 2, 0);
    b.write(0x8000, 1);
    b.write(0x0042, 9);
    let before = b.encode();
    assert_eq!(b.load_state(&[]), Err(SnapshotError::Length));
    assert_eq!(b.encode(), before);
}

#[test]
fn corrupted_blobs_fail() {
    let b = machine(2, 2, 0);
    let blob = b.encode();
    let mut short = blob.clone();
    short.pop();
    assert_eq!(Bus::decode(&short).err(), Some(SnapshotError::Length));
    let mut long = blob.clone();
    long.push(0);
    assert_eq!(Bus::decode(&long).err(), Some(SnapshotError::Length));
    let mut strobe = blob.clone();
    strobe[0] = 2;
    assert_eq!(Bus::decode(&strobe).err(), Some(SnapshotError::BadValue));
    let mut id = blob.clone();
    id[0x803] = 1;
    assert_eq!(Bus::decode(&id).err(), Some(SnapshotError::UnknownMapper));
    let mut other = blob.clone();
    other[0x803] = 0;
    other[0x804] = 3;
    assert_eq!(Bus::decode(&other).err(), Some(SnapshotError::BankCount));
    let mut bank = blob.clone();
    let e = 0x807 + 2 * 0x4000 + 0x2000;
    bank[e] = 2;
    assert_eq!(Bus::decode(&bank).err(), Some(SnapshotError::BadValue));
}

#[test]
fn load_state_restores() {
    let mut a = machine(2, 2, 0);
    a.write(0x8000, 1);
    let blob = a.encode();
    let mut b = machine(0, 1, 0);
    assert_eq!(b.load_state(&blob), Ok(()));
    assert_eq!(b.encode(), blob);
}
