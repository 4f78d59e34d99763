//! Core of an 8-bit console emulator: the controller's serial protocol,
//! cartridge mappers, the CPU bus and machine snapshots.

pub mod controller;
pub mod cartridge;
pub mod nrom;
pub mod uxrom;
pub mod mapper;
pub mod bus;
pub mod savestate;
