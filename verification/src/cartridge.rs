//! Cartridges: the iNES 1.0 container and what a cartridge answers on the bus.

use vstd::prelude::*;
use vstd::slice::slice_subrange;
use vstd::slice::slice_to_vec;
use crate::bus::Bus;
use crate::mapper::Mapper;

verus! {

/// First address that the cartridge decodes.
pub const CART_ORIGIN: u16 = 0x4020;

/// First address of the optional RAM of a cartridge.
pub const OPTION_RAM_ORIGIN: u16 = 0x6000;

/// First address of the program ROM.
pub const ROM_ORIGIN: u16 = 0x8000;

/// Size of one bank of program ROM.
pub const PRG_BANK: usize = 0x4000;

/// Size of one bank of character ROM.
pub const CHR_BANK: usize = 0x2000;

/// Size of the RAM that a cartridge with a battery carries.
pub const OPTION_RAM_SIZE: usize = 0x2000;

/// Size of the header of an iNES file.
pub const HEADER_SIZE: usize = 16;

/// Size of the trainer that may follow the header.
pub const TRAINER_SIZE: usize = 512;

/// What the header of an iNES file says of the cartridge.
#[derive(Clone, Copy, PartialEq, Eq, Structural, Debug)]
pub struct NesCartHeader {
    pub mapper_id: u8,
    /// 1 for vertical mirroring, 0 for horizontal
    pub mirroring: u8,
    pub four_screen: bool,
    pub battery: bool,
}

/// The parts of the cartridge address space.
#[derive(Clone, Copy, PartialEq, Eq, Structural, Debug)]
pub enum CartridgeRegion {
    /// `$4020` to `$5FFF`: nothing is mapped here
    Expansion,
    /// `$6000` to `$7FFF`: RAM that a cartridge may carry
    OptionRam,
    /// `$8000` to `$FFFF`: program ROM
    ProgramRom,
}

/// The region in which a translated cartridge address lies.
pub open spec fn region_of(translated: u16) -> CartridgeRegion {
    if translated < OPTION_RAM_ORIGIN {
        CartridgeRegion::Expansion
    } else if translated < ROM_ORIGIN {
        CartridgeRegion::OptionRam
    } else {
        CartridgeRegion::ProgramRom
    }
}

/// The byte of a program ROM that is seen at the translated address
/// `translated`. An address above the ROM's length stands for the one `$4000`
/// below it, so that one bank of 16 KiB is seen twice; where that leaves the
/// ROM too, and below the ROM, the byte is 0.
pub open spec fn rom_byte(rom: Seq<u8>, translated: u16) -> u8 {
    let offset = translated - ROM_ORIGIN;
    if translated < ROM_ORIGIN {
        0
    } else if offset < rom.len() {
        rom[offset]
    } else if offset >= PRG_BANK && offset - PRG_BANK < rom.len() {
        rom[offset - PRG_BANK]
    } else {
        0
    }
}

/// Whether the file starts with a header that can be decoded: 16 bytes, the
/// four bytes `NES<EOF>` first, and no bit set in the low half of byte 7.
pub open spec fn header_decodable(file: Seq<u8>) -> bool {
    &&& file.len() >= HEADER_SIZE
    &&& file[0] == 0x4e
    &&& file[1] == 0x45
    &&& file[2] == 0x53
    &&& file[3] == 0x1a
    &&& file[7] & 0x0f == 0
}

/// What the header of a file says.
pub open spec fn header_of(file: Seq<u8>) -> NesCartHeader {
    NesCartHeader {
        mapper_id: (file[7] & 0xf0) | ((file[6] & 0xf0) >> 4),
        mirroring: file[6] & 0x01,
        four_screen: file[6] & 0x08 != 0,
        battery: file[6] & 0x02 != 0,
    }
}

/// Length of the trainer in the file: 512 bytes when bit 2 of byte 6 is set.
pub open spec fn trainer_length(file: Seq<u8>) -> int {
    if file[6] & 0x04 != 0 {
        TRAINER_SIZE as int
    } else {
        0
    }
}

/// Length of the program ROM in the file: byte 4 counts banks of 16 KiB.
pub open spec fn prg_length(file: Seq<u8>) -> int {
    file[4] * PRG_BANK
}

/// Length of the character ROM in the file: byte 5 counts banks of 8 KiB.
pub open spec fn chr_length(file: Seq<u8>) -> int {
    file[5] * CHR_BANK
}

/// Where the program ROM starts in the file.
pub open spec fn prg_start(file: Seq<u8>) -> int {
    HEADER_SIZE + trainer_length(file)
}

/// Where the character ROM starts in the file.
pub open spec fn chr_start(file: Seq<u8>) -> int {
    prg_start(file) + prg_length(file)
}

/// Whether the file holds a cartridge: a header that can be decoded, and after
/// it all of the trainer, the program ROM and the character ROM that the
/// header announces.
pub open spec fn file_decodable(file: Seq<u8>) -> bool {
    header_decodable(file) && file.len() >= chr_start(file) + chr_length(file)
}

/// Whether the file has a whole header in which bytes 9 to 15, which are
/// reserved, are all zero.
pub open spec fn padding_clear(file: Seq<u8>) -> bool {
    file.len() >= HEADER_SIZE && forall|i: int| 9 <= i < HEADER_SIZE ==> file[i] == 0
}

/// A cartridge as an iNES 1.0 file describes it.
pub struct NesCart {
    pub header: NesCartHeader,
    pub trainer: Option<Vec<u8>>,
    /// program memory
    pub prg_rom: Vec<u8>,
    /// character memory, the patterns
    pub chr_rom: Vec<u8>,
    /// the RAM at `$6000`, which a cartridge with a battery carries
    pub prg_ram: Option<Box<[u8; 0x2000]>>,
    /// the last write that went to the program ROM and was refused
    pub refused_write: Option<(u16, u8)>,
    pub mapper: Box<dyn Mapper>,
}

impl NesCart {
    /// Whether this cartridge holds what `file` describes, behind a mapper that
    /// leaves every address as it is.
    pub open spec fn holds(&self, file: Seq<u8>) -> bool {
        &&& self.header == header_of(file)
        &&& match self.trainer {
            Some(trainer) => trainer_length(file) != 0 && trainer@ == file.subrange(
                HEADER_SIZE as int,
                prg_start(file),
            ),
            None => trainer_length(file) == 0,
        }
        &&& self.prg_rom@ == file.subrange(prg_start(file), chr_start(file))
        &&& self.chr_rom@ == file.subrange(chr_start(file), chr_start(file) + chr_length(file))
        &&& match self.prg_ram {
            Some(ram) => self.header.battery && ram@ == Seq::new(
                OPTION_RAM_SIZE as nat,
                |i: int| 0u8,
            ),
            None => !self.header.battery,
        }
        &&& self.refused_write is None
        &&& forall|address: u16| self.mapper.translated(address) == address
    }

    /// The byte that the cartridge shows at `address`: a byte of its RAM where
    /// the address selects RAM and the cartridge carries some, and else what
    /// its program ROM shows.
    pub open spec fn shown(&self, address: u16) -> u8 {
        let translated = self.mapper.translated(address);
        if region_of(translated) == CartridgeRegion::OptionRam && self.prg_ram is Some {
            self.prg_ram->0@[translated - OPTION_RAM_ORIGIN]
        } else {
            rom_byte(self.prg_rom@, translated)
        }
    }

    /// The region of the cartridge that `address` selects.
    pub open spec fn region_at(&self, address: u16) -> CartridgeRegion {
        region_of(self.mapper.translated(address))
    }

    /// Whether the cartridge has nothing to answer an access at `address`
    /// with: the address selects RAM, and this cartridge carries none.
    pub open spec fn unsupported(&self, address: u16) -> bool {
        self.region_at(address) == CartridgeRegion::OptionRam && self.prg_ram is None
    }

    /// Reads a cartridge from the bytes of an iNES 1.0 file. The result is
    /// `None` where the bytes do not hold one.
    pub fn from_slice(bytes: &[u8]) -> (cart: Option<NesCart>)
        ensures
            cart is Some <==> file_decodable(bytes@),
            cart matches Some(c) ==> c.holds(bytes@),
    {
        if bytes.len() < HEADER_SIZE {
            return None;
        }
        if bytes[0] != 0x4e || bytes[1] != 0x45 || bytes[2] != 0x53 || bytes[3] != 0x1a {
            return None;
        }
        let rom_count = bytes[4];
        let vrom_count = bytes[5];
        let control_low = bytes[6];
        let control_high = bytes[7];
        if control_high & 0x0f != 0 {
            return None;
        }
        let header = NesCartHeader {
            mapper_id: (control_high & 0xf0) | ((control_low & 0xf0) >> 4),
            mirroring: control_low & 0x01,
            four_screen: control_low & 0x08 != 0,
            battery: control_low & 0x02 != 0,
        };
        let has_trainer = control_low & 0x04 != 0;
        let prg_start: usize = if has_trainer {
            HEADER_SIZE + TRAINER_SIZE
        } else {
            HEADER_SIZE
        };
        let prg_size: usize = rom_count as usize * PRG_BANK;
        let chr_size: usize = vrom_count as usize * CHR_BANK;
        let chr_start: usize = prg_start + prg_size;
        if bytes.len() < chr_start + chr_size {
            return None;
        }
        let trainer = if has_trainer {
            Some(slice_to_vec(slice_subrange(bytes, HEADER_SIZE, prg_start)))
        } else {
            None
        };
        let prg_rom = slice_to_vec(slice_subrange(bytes, prg_start, chr_start));
        let chr_rom = slice_to_vec(slice_subrange(bytes, chr_start, chr_start + chr_size));
        let prg_ram: Option<Box<[u8; 0x2000]>> = if header.battery {
            let ram = Box::new([0u8;0x2000]);
            assert(ram@ =~= Seq::new(OPTION_RAM_SIZE as nat, |i: int| 0u8));
            Some(ram)
        } else {
            None
        };
        Some(
            NesCart {
                header,
                trainer,
                prg_rom,
                chr_rom,
                prg_ram,
                refused_write: None,
                mapper: Box::new(()),
            },
        )
    }

    /// Whether the reserved bytes 9 to 15 of the header are all zero. A file
    /// in which they are not is still read.
    pub fn padding_is_clear(bytes: &[u8]) -> (clear: bool)
        ensures
            clear == padding_clear(bytes@),
    {
        bytes.len() >= HEADER_SIZE && bytes[9] == 0 && bytes[10] == 0 && bytes[11] == 0
            && bytes[12] == 0 && bytes[13] == 0 && bytes[14] == 0 && bytes[15] == 0
    }

    /// The byte that the cartridge shows at `address`.
    pub fn peek(&self, address: u16) -> (value: u8)
        ensures
            value == self.shown(address),
    {
        let translated = self.mapper.translate(address);
        if translated < OPTION_RAM_ORIGIN {
            return 0;
        }
        if translated < ROM_ORIGIN {
            return match &self.prg_ram {
                Some(ram) => ram[(translated - OPTION_RAM_ORIGIN) as usize],
                None => 0,
            };
        }
        let offset = (translated - ROM_ORIGIN) as usize;
        if offset < self.prg_rom.len() {
            self.prg_rom[offset]
        } else if offset >= PRG_BANK && offset - PRG_BANK < self.prg_rom.len() {
            self.prg_rom[offset - PRG_BANK]
        } else {
            0
        }
    }

    /// Tells whether the cartridge has nothing to answer an access at
    /// `address` with.
    pub fn is_unsupported(&self, address: u16) -> (unsupported: bool)
        ensures
            unsupported == self.unsupported(address),
    {
        let translated = self.mapper.translate(address);
        OPTION_RAM_ORIGIN <= translated && translated < ROM_ORIGIN && self.prg_ram.is_none()
    }

    /// The region of the cartridge that `address` selects.
    pub fn region(&self, address: u16) -> (region: CartridgeRegion)
        ensures
            region == self.region_at(address),
    {
        let translated = self.mapper.translate(address);
        if translated < OPTION_RAM_ORIGIN {
            CartridgeRegion::Expansion
        } else if translated < ROM_ORIGIN {
            CartridgeRegion::OptionRam
        } else {
            CartridgeRegion::ProgramRom
        }
    }
}

impl Bus for NesCart {
    open spec fn range(&self) -> (u16, u16) {
        (CART_ORIGIN, 0xffff)
    }

    open spec fn load(self, address: u16) -> (u8, Self) {
        (self.shown(address), self)
    }

    /// A write to the RAM of a cartridge that carries RAM arrives. A write to
    /// the program ROM changes nothing in the ROM; the cartridge remembers the
    /// last such write.
    open spec fn store(self, address: u16, value: u8) -> Self {
        let translated = self.mapper.translated(address);
        match region_of(translated) {
            CartridgeRegion::Expansion => self,
            CartridgeRegion::OptionRam => match self.prg_ram {
                Some(ram) => NesCart {
                    prg_ram: Some(
                        Box::new(
                            vstd::array::spec_array_update(
                                *ram,
                                translated - OPTION_RAM_ORIGIN,
                                value,
                            ),
                        ),
                    ),
                    ..self
                },
                None => self,
            },
            CartridgeRegion::ProgramRom => NesCart {
                refused_write: Some((address, value)),
                ..self
            },
        }
    }

    fn bounds(&self) -> (bounds: (u16, u16)) {
        (CART_ORIGIN, 0xffff)
    }

    fn set(&mut self, address: u16, value: u8) {
        let translated = self.mapper.translate(address);
        if translated < OPTION_RAM_ORIGIN {
        } else if translated < ROM_ORIGIN {
            match &mut self.prg_ram {
                Some(ram) => {
                    let ghost before = **ram;
                    ram[(translated - OPTION_RAM_ORIGIN) as usize] = value;
                    assert(**ram =~= vstd::array::spec_array_update(
                        before,
                        translated - OPTION_RAM_ORIGIN,
                        value,
                    ));
                },
                None => {},
            }
        } else {
            self.refused_write = Some((address, value));
        }
    }

    fn get(&mut self, address: u16) -> (value: u8) {
        self.peek(address)
    }
}

} // verus!
