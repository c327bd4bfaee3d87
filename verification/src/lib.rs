//! Core of a NES emulator: an interpreter for the 2A03, the bus that it sits
//! on, the table that decodes its instructions, and the clock that drives it
//! together with the PPU.
//!
//! [`nes`] holds the machine, [`opcodes`] its instructions and [`jumptable`]
//! the dispatch table; [`laws`] states what holds of them in every state.
//! [`peripherals`] holds the observers of a run, among them the tracer.
//! [`codegen`] and [`reference`] turn the references of the instruction set
//! into the entries of the table.

pub mod bus;
pub mod cartridge;
pub mod codegen;
pub mod common;
pub mod cpu;
pub mod emulator_state;
pub mod jumptable;
pub mod laws;
pub mod mapper;
pub mod nes;
pub mod opcode_debug;
pub mod opcodes;
pub mod peripherals;
pub mod ppu;
pub mod prelude;
pub mod reference;
pub mod text;

pub use crate::bus::Bus;
pub use crate::bus::BusRegion;
pub use crate::bus::Nes2a03Audio;
pub use crate::bus::NesGamepad;
pub use crate::bus::NesRam;
pub use crate::cartridge::NesCart;
pub use crate::cpu::Nes2a03;
pub use crate::cpu::NesRegisters;
pub use crate::jumptable::Opcode;
pub use crate::nes::Nes;
pub use crate::peripherals::NesPeripheral;
pub use crate::ppu::Nes2c02;
