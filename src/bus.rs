use vstd::prelude::*;
use crate::controller::{Controller, after_read, read_bit, strobe_written};
use crate::mapper::{
    Mapper, MapperView, mapper_peek, mapper_read, mapper_wf, mapper_written,
};
use crate::cartridge::zeroed;

verus! {

/// Size of the CPU's work RAM; 0x0000-0x1FFF mirrors it four times.
pub const RAM_SIZE: usize = 0x800;

/// The pad's serial port.
pub const PAD_PORT: usize = 0x4016;

/// First address the cartridge answers.
pub const CARTRIDGE_START: usize = 0x4020;

/// The CPU's bus: work RAM, the pad and the cartridge board. Registers of the
/// picture and audio units are theirs to answer; this bus reads 0 there and
/// ignores writes, as it does for any address nobody claims.
pub struct Bus {
    pub ram: Vec<u8>,
    pub controller: Controller,
    pub mapper: Mapper,
}

/// The bus as values.
pub ghost struct BusView {
    pub ram: Seq<u8>,
    pub controller: Controller,
    pub mapper: MapperView,
}

impl View for Bus {
    type V = BusView;

    open spec fn view(&self) -> BusView {
        BusView { ram: self.ram@, controller: self.controller, mapper: self.mapper@ }
    }
}

pub open spec fn bus_wf(b: BusView) -> bool {
    &&& b.ram.len() == RAM_SIZE
    &&& mapper_wf(b.mapper)
}

/// What the CPU sees at `addr` without disturbing anything.
pub open spec fn bus_peek(b: BusView, addr: usize) -> u8 {
    if addr < 0x2000 {
        b.ram[(addr % RAM_SIZE) as int]
    } else if addr == PAD_PORT {
        read_bit(b.controller)
    } else if addr >= CARTRIDGE_START {
        match mapper_read(b.mapper, addr) {
            Some(v) => v,
            None => 0,
        }
    } else {
        0
    }
}

/// The bus after a CPU read at `addr`: only a read of the pad shifts it.
pub open spec fn bus_after_read(b: BusView, addr: usize) -> BusView {
    if addr == PAD_PORT {
        BusView { controller: after_read(b.controller), ..b }
    } else {
        b
    }
}

/// The bus after a CPU write of `val` at `addr`.
pub open spec fn bus_written(b: BusView, addr: usize, val: u8) -> BusView {
    if addr < 0x2000 {
        BusView { ram: b.ram.update((addr % RAM_SIZE) as int, val), ..b }
    } else if addr == PAD_PORT {
        BusView { controller: strobe_written(b.controller, val), ..b }
    } else if addr >= CARTRIDGE_START {
        BusView { mapper: mapper_written(b.mapper, addr, val), ..b }
    } else {
        b
    }
}

/// A read without side effects returns what a read returns at every address.
pub proof fn lemma_bus_peek_matches_read(b: BusView, addr: usize)
    requires
        bus_wf(b),
    ensures
        addr != PAD_PORT ==> bus_after_read(b, addr) == b,
        addr >= CARTRIDGE_START ==> (mapper_read(b.mapper, addr) matches Some(v) ==> bus_peek(
            b,
            addr,
        ) == v && v == mapper_peek(b.mapper, addr)),
{
}

impl Bus {
    /// A bus at power-on around a loaded board: work RAM zeroed, a fresh pad.
    pub fn new(mapper: Mapper) -> (r: Bus)
        requires
            mapper_wf(mapper@),
        ensures
            bus_wf(r@),
            r@ == (BusView {
                ram: Seq::new(RAM_SIZE as nat, |i: int| 0u8),
                controller: Controller { strobe: false, shifter: 0, state: 0 },
                mapper: mapper@,
            }),
    {
        Bus { ram: zeroed(RAM_SIZE), controller: Controller::new(), mapper }
    }

    /// A CPU read without side effects, for inspection tools.
    pub fn peek(&self, addr: usize) -> (r: u8)
        requires
            bus_wf(self@),
        ensures
            r == bus_peek(self@, addr),
    {
        if addr < 0x2000 {
            self.ram[addr % RAM_SIZE]
        } else if addr == PAD_PORT {
            if self.controller.strobe {
                self.controller.state & 1
            } else {
                self.controller.shifter & 1
            }
        } else if addr >= CARTRIDGE_START && self.mapper.answers(addr) {
            self.mapper.cpu_read_direct(addr)
        } else {
            0
        }
    }

    /// A CPU read: a read of the pad's port shifts the pad.
    pub fn read(&mut self, addr: usize) -> (r: u8)
        requires
            bus_wf(old(self)@),
        ensures
            r == bus_peek(old(self)@, addr),
            final(self)@ == bus_after_read(old(self)@, addr),
            bus_wf(final(self)@),
    {
        if addr < 0x2000 {
            self.ram[addr % RAM_SIZE]
        } else if addr == PAD_PORT {
            self.controller.read_reg()
        } else if addr >= CARTRIDGE_START {
            match self.mapper.cpu_read(addr) {
                Some(v) => v,
                None => 0,
            }
        } else {
            0
        }
    }

    /// A CPU write; one nobody claims is ignored.
    pub fn write(&mut self, addr: usize, val: u8)
        requires
            bus_wf(old(self)@),
        ensures
            final(self)@ == bus_written(old(self)@, addr, val),
            bus_wf(final(self)@),
    {
        if addr < 0x2000 {
            self.ram.set(addr % RAM_SIZE, val);
        } else if addr == PAD_PORT {
            self.controller.write_reg(val);
        } else if addr >= CARTRIDGE_START {
            self.mapper.cpu_write(addr, val);
        }
    }
}

} // verus!
