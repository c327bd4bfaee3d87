//! What a program that drives a machine needs most often.

pub use crate::bus::Bus;
pub use crate::bus::BusRegion;
pub use crate::bus::Nes2a03Audio;
pub use crate::bus::NesGamepad;
pub use crate::bus::NesRam;
pub use crate::cartridge::NesCart;
pub use crate::cpu::NesRegisters;
pub use crate::cpu::RegisterAccess;
pub use crate::jumptable::opcode_entry;
pub use crate::jumptable::Opcode;
pub use crate::nes::Nes;
pub use crate::opcode_debug::opcode_name;
pub use crate::peripherals::NesPeripheral;
pub use crate::ppu::Nes2c02;
