//! The picture processing unit, as far as the CPU sees it: a clocked component
//! behind a window of eight registers.

use vstd::prelude::*;
use crate::bus::Bus;
use crate::cartridge::NesCart;

verus! {

/// First address of the PPU register window.
pub const PPU_ORIGIN: u16 = 0x2000;

/// First address past the PPU register window.
pub const PPU_END: u16 = 0x4000;

pub const PPU_CONTROLLER: u16 = 0x000;

pub const PPU_MASK: u16 = 0x001;

pub const PPU_STATUS: u16 = 0x002;

pub const PPU_OAM_ADDRESS: u16 = 0x003;

pub const PPU_OAM_DATA: u16 = 0x004;

pub const PPU_SCROLL: u16 = 0x005;

pub const PPU_ADDRESS: u16 = 0x006;

pub const PPU_DATA: u16 = 0x007;

pub const PPU_OAM_DMA: u16 = 0x4014;

/// Ticks that the PPU stays cold after power-up.
pub const WARM_UP_TICKS: u32 = 30_000;

/// Decay steps for which a value written to the register bus stays stable.
pub const LATCH_HOLD: u8 = 3;

/// The PPU ignores writes to its control register until it has warmed up.
#[derive(Clone, Copy)]
pub enum Temperature {
    Cold(u32),
    Warm,
}

impl Temperature {
    /// The temperature one tick later.
    pub open spec fn ticked(self) -> Temperature {
        match self {
            Temperature::Cold(count) => if count > WARM_UP_TICKS {
                Temperature::Warm
            } else {
                Temperature::Cold((count + 1) as u32)
            },
            Temperature::Warm => Temperature::Warm,
        }
    }

    pub open spec fn warm(self) -> bool {
        self is Warm
    }

    pub fn tick(&mut self)
        ensures
            *final(self) == old(self).ticked(),
    {
        match *self {
            Temperature::Cold(count) => {
                if count > WARM_UP_TICKS {
                    *self = Temperature::Warm;
                } else {
                    *self = Temperature::Cold(count + 1);
                }
            },
            Temperature::Warm => {},
        }
    }

    pub fn is_warm(&self) -> (warm: bool)
        ensures
            warm == self.warm(),
    {
        match self {
            Temperature::Cold(_) => false,
            Temperature::Warm => true,
        }
    }
}

/// The value last seen on the register bus. It is stable for a few ticks after
/// a write and decays afterwards.
#[derive(Clone, Copy)]
pub enum DecayingLatch {
    Decaying(u8),
    Stable(u8, u8),
}

impl DecayingLatch {
    /// The value that the latch holds.
    pub open spec fn value(self) -> u8 {
        match self {
            DecayingLatch::Decaying(held) => held,
            DecayingLatch::Stable(held, _) => held,
        }
    }

    /// The latch right after `value` was written to it.
    pub open spec fn written(value: u8) -> DecayingLatch {
        DecayingLatch::Stable(value, LATCH_HOLD)
    }

    /// The latch one tick later.
    pub open spec fn decayed(self) -> DecayingLatch {
        match self {
            DecayingLatch::Decaying(held) => DecayingLatch::Decaying(held),
            DecayingLatch::Stable(held, counter) => if counter > 0 {
                DecayingLatch::Stable(held, (counter - 1) as u8)
            } else {
                DecayingLatch::Decaying(held)
            },
        }
    }

    pub fn read(&self) -> (value: u8)
        ensures
            value == self.value(),
    {
        match self {
            DecayingLatch::Decaying(held) => *held,
            DecayingLatch::Stable(held, _) => *held,
        }
    }

    pub fn write(&mut self, value: u8)
        ensures
            *final(self) == DecayingLatch::written(value),
    {
        *self = DecayingLatch::Stable(value, LATCH_HOLD);
    }

    pub fn decay(&mut self)
        ensures
            *final(self) == old(self).decayed(),
    {
        match *self {
            DecayingLatch::Decaying(_) => {},
            DecayingLatch::Stable(held, counter) => {
                if counter > 0 {
                    *self = DecayingLatch::Stable(held, counter - 1);
                } else {
                    *self = DecayingLatch::Decaying(held);
                }
            },
        }
    }
}

/// The two writes that make up a VRAM address.
#[derive(Clone, Copy)]
pub enum AddressRegisterLatch {
    Unset,
    First(u8),
    Second(u8, u8),
}

impl AddressRegisterLatch {
    /// The latch after `value` was written to the address register.
    pub open spec fn written(self, value: u8) -> AddressRegisterLatch {
        match self {
            AddressRegisterLatch::Unset => AddressRegisterLatch::First(value),
            AddressRegisterLatch::First(high) => AddressRegisterLatch::Second(high, value),
            AddressRegisterLatch::Second(_, _) => AddressRegisterLatch::First(value),
        }
    }

    pub fn write(&mut self, value: u8)
        ensures
            *final(self) == old(self).written(value),
    {
        match *self {
            AddressRegisterLatch::Unset => {
                *self = AddressRegisterLatch::First(value);
            },
            AddressRegisterLatch::First(high) => {
                *self = AddressRegisterLatch::Second(high, value);
            },
            AddressRegisterLatch::Second(_, _) => {
                *self = AddressRegisterLatch::First(value);
            },
        }
    }
}

#[derive(Clone, Copy)]
pub struct StatusRegister(pub u8);

#[derive(Clone, Copy)]
pub struct MaskRegister(pub u8);

impl MaskRegister {
    /// draw the screen in greyscale
    pub fn greyscale(self) -> (on: bool)
        ensures
            on == (self.0 & 0x01 != 0),
    {
        self.0 & 0x01 != 0
    }

    /// show the background in the leftmost 8 pixels
    pub fn margin_bg(self) -> (on: bool)
        ensures
            on == (self.0 & 0x02 != 0),
    {
        self.0 & 0x02 != 0
    }

    /// show sprites in the leftmost 8 pixels
    pub fn margin_fg(self) -> (on: bool)
        ensures
            on == (self.0 & 0x04 != 0),
    {
        self.0 & 0x04 != 0
    }

    /// show the background
    pub fn display_bg(self) -> (on: bool)
        ensures
            on == (self.0 & 0x08 != 0),
    {
        self.0 & 0x08 != 0
    }

    /// show sprites
    pub fn display_fg(self) -> (on: bool)
        ensures
            on == (self.0 & 0x10 != 0),
    {
        self.0 & 0x10 != 0
    }

    /// emphasize the red channel (green on PAL)
    pub fn emphasize_r(self) -> (on: bool)
        ensures
            on == (self.0 & 0x20 != 0),
    {
        self.0 & 0x20 != 0
    }

    /// emphasize the green channel (red on PAL)
    pub fn emphasize_g(self) -> (on: bool)
        ensures
            on == (self.0 & 0x40 != 0),
    {
        self.0 & 0x40 != 0
    }

    /// emphasize the blue channel
    pub fn emphasize_b(self) -> (on: bool)
        ensures
            on == (self.0 & 0x80 != 0),
    {
        self.0 & 0x80 != 0
    }
}

#[derive(Clone, Copy, PartialEq, Eq, Structural, Debug)]
pub enum SpriteSize {
    EightByEight,
    EightBySixteen,
}

#[derive(Clone, Copy, PartialEq, Eq, Structural, Debug)]
pub enum ReadWriteMode {
    Read,
    Write,
}

#[derive(Clone, Copy)]
pub struct ControlRegister(pub u8);

impl ControlRegister {
    /// The number of the base nametable, 0 to 3: the low two bits.
    pub open spec fn nametable(self) -> int {
        (self.0 % 4) as int
    }

    /// Address of the base nametable: `$2000` and `$400` for each nametable
    /// before it.
    pub fn base_nametable_address(self) -> (address: u16)
        ensures
            address == 0x2000 + 0x400 * self.nametable(),
    {
        let raw = self.0;
        let select = raw & 0x03;
        assert(select == raw % 4) by (bit_vector)
            requires
                select == raw & 0x03,
        ;
        0x2000 + 0x400 * (select as u16)
    }

    /// Step of the VRAM address after an access: 32 when bit 2 is set, else 1.
    pub fn vram_address_increment(self) -> (step: u16)
        ensures
            step == if self.0 & 0x04 != 0 { 32int } else { 1int },
    {
        if self.0 & 0x04 != 0 {
            32
        } else {
            1
        }
    }

    /// Bit 3 of the register, in place; it selects the pattern table of 8x8
    /// sprites.
    pub fn sprite_pattern_table_address(self) -> (address: u16)
        ensures
            address == if self.0 & 0x08 != 0 { 8int } else { 0int },
    {
        if self.0 & 0x08 != 0 {
            8
        } else {
            0
        }
    }

    /// 8 when bit 4 selects the second pattern table for the background, else 0.
    pub fn background_pattern_table_address(self) -> (address: u16)
        ensures
            address == if self.0 & 0x10 != 0 { 8int } else { 0int },
    {
        if self.0 & 0x10 != 0 {
            8
        } else {
            0
        }
    }

    pub fn sprite_size(self) -> (size: SpriteSize)
        ensures
            size == if self.0 & 0x20 != 0 {
                SpriteSize::EightBySixteen
            } else {
                SpriteSize::EightByEight
            },
    {
        if self.0 & 0x20 != 0 {
            SpriteSize::EightBySixteen
        } else {
            SpriteSize::EightByEight
        }
    }

    /// whether the PPU reads the background from the EXT pins or drives them
    pub fn mode(self) -> (mode: ReadWriteMode)
        ensures
            mode == if self.0 & 0x40 != 0 { ReadWriteMode::Write } else { ReadWriteMode::Read },
    {
        if self.0 & 0x40 != 0 {
            ReadWriteMode::Write
        } else {
            ReadWriteMode::Read
        }
    }

    /// whether the PPU raises an NMI at vertical blanking
    pub fn interrupt(self) -> (on: bool)
        ensures
            on == (self.0 & 0x80 != 0),
    {
        self.0 & 0x80 != 0
    }
}

/// The PPU.
pub struct Nes2c02 {
    /// the value last seen on the register bus
    pub latch: DecayingLatch,
    pub control: ControlRegister,
    pub temp: Temperature,
    /// whether the PPU is in vertical blanking
    pub v_blank: bool,
    pub mask: MaskRegister,
    pub status: StatusRegister,
    pub oam_address: u8,
    pub oam_data: u8,
    pub scroll: u8,
    pub address: AddressRegisterLatch,
    pub data: u8,
    pub oam_dma: u8,
    /// 0 to 3: how the CPU and PPU clocks are aligned
    pub timing: u8,
    /// divider of the master clock
    pub clock_counter: u8,
    /// CPU cycles counted in the current frame
    pub frame_clock: u16,
    pub pallete_table: [u8; 32],
    pub vram: [u8; 2048],
    pub oam: [u8; 256],
}

/// The PPU together with the cartridge that holds its patterns: what the PPU
/// sees on its own bus.
pub struct PpuBus<'a, 'b> {
    pub ppu: &'a mut Nes2c02,
    pub cart: &'b mut NesCart,
}

/// The register of the window that `address` selects: the window repeats every
/// 8 bytes.
pub open spec fn ppu_register(address: u16) -> u16 {
    address & 0x0007
}

/// Whether `address` lies in the PPU register window.
pub open spec fn ppu_window(address: u16) -> bool {
    PPU_ORIGIN <= address && address < PPU_END
}

impl Nes2c02 {
    /// Whether this is a PPU that was just powered on: cold, with nothing on
    /// its register bus, and with every register and every memory cleared.
    pub open spec fn powered_on(self) -> bool {
        &&& self.latch == DecayingLatch::Decaying(0)
        &&& self.temp == Temperature::Cold(0)
        &&& self.address is Unset
        &&& self.control.0 == 0 && self.mask.0 == 0 && self.status.0 == 0
        &&& !self.v_blank
        &&& self.oam_address == 0 && self.oam_data == 0 && self.scroll == 0 && self.data == 0
        &&& self.oam_dma == 0 && self.timing == 0 && self.clock_counter == 0 && self.frame_clock
            == 0
        &&& self.pallete_table@ == Seq::new(32, |i: int| 0u8)
        &&& self.vram@ == Seq::new(2048, |i: int| 0u8)
        &&& self.oam@ == Seq::new(256, |i: int| 0u8)
    }

    /// The PPU one tick of its clock later.
    pub open spec fn ticked(self) -> Nes2c02 {
        Nes2c02 { temp: self.temp.ticked(), latch: self.latch.decayed(), ..self }
    }

    /// What a read of the status register gives: the three status bits, and the
    /// low five bits of whatever was last on the register bus.
    pub open spec fn status_read(self) -> u8 {
        (self.status.0 & 0xe0) | (self.latch.value() & 0x1f)
    }

    /// The PPU with `value` on its register bus.
    pub open spec fn latched(self, value: u8) -> Nes2c02 {
        Nes2c02 { latch: DecayingLatch::written(value), ..self }
    }

    /// The byte that a read at `address` gives.
    pub fn peek(&self, address: u16) -> (value: u8)
        ensures
            value == self.load(address).0,
    {
        if address < PPU_ORIGIN || address >= PPU_END {
            return 0;
        }
        let register = address & 0x0007;
        if register == PPU_CONTROLLER || register == PPU_MASK || register == PPU_OAM_ADDRESS {
            self.latch.read()
        } else if register == PPU_STATUS {
            (self.status.0 & 0xe0) | (self.latch.read() & 0x1f)
        } else {
            0
        }
    }

    /// Puts the PPU and a cartridge together for an access to the PPU's bus.
    pub fn ppu_bus<'a, 'b>(&'a mut self, cart: &'b mut NesCart) -> (bus: PpuBus<'a, 'b>)
        ensures
            *bus.ppu == *old(self),
            *bus.cart == *old(cart),
            *final(self) == *final(bus.ppu),
            *final(cart) == *final(bus.cart),
    {
        PpuBus { ppu: self, cart }
    }

    /// Advances the PPU by one tick of its clock.
    pub fn tick(&mut self, _cart: &mut Option<NesCart>)
        ensures
            *final(self) == old(self).ticked(),
            *final(_cart) == *old(_cart),
    {
        self.temp.tick();
        self.latch.decay();
    }
}

impl Default for Nes2c02 {
    fn default() -> (ppu: Nes2c02)
        ensures
            ppu.powered_on(),
    {
        let ppu = Nes2c02 {
            latch: DecayingLatch::Decaying(0),
            control: ControlRegister(0),
            temp: Temperature::Cold(0),
            v_blank: false,
            mask: MaskRegister(0),
            status: StatusRegister(0),
            oam_address: 0u8,
            oam_data: 0u8,
            scroll: 0u8,
            address: AddressRegisterLatch::Unset,
            data: 0,
            oam_dma: 0u8,
            timing: 0u8,
            clock_counter: 0u8,
            frame_clock: 0u16,
            pallete_table: [0u8;32],
            vram: [0u8;2048],
            oam: [0u8;256],
        };
        assert(ppu.pallete_table@ =~= Seq::new(32, |i: int| 0u8));
        assert(ppu.vram@ =~= Seq::new(2048, |i: int| 0u8));
        assert(ppu.oam@ =~= Seq::new(256, |i: int| 0u8));
        ppu
    }
}

impl Bus for Nes2c02 {
    open spec fn range(&self) -> (u16, u16) {
        (PPU_ORIGIN, PPU_END)
    }

    /// Reads of the write-only registers give what is on the register bus; a
    /// read of the status puts its result there; the other registers read 0.
    open spec fn load(self, address: u16) -> (u8, Self) {
        let register = ppu_register(address);
        if !ppu_window(address) {
            (0, self)
        } else if register == PPU_CONTROLLER || register == PPU_MASK || register
            == PPU_OAM_ADDRESS {
            (self.latch.value(), self)
        } else if register == PPU_STATUS {
            (self.status_read(), self.latched(self.status_read()))
        } else {
            (0, self)
        }
    }

    /// Every write puts its value on the register bus; the control register
    /// takes it only once the PPU is warm, the status and data registers never.
    open spec fn store(self, address: u16, value: u8) -> Self {
        let register = ppu_register(address);
        let latched = self.latched(value);
        if !ppu_window(address) {
            self
        } else if register == PPU_CONTROLLER {
            if self.temp.warm() {
                Nes2c02 { control: ControlRegister(value), ..latched }
            } else {
                latched
            }
        } else if register == PPU_MASK {
            Nes2c02 { mask: MaskRegister(value), ..latched }
        } else if register == PPU_OAM_ADDRESS {
            Nes2c02 { oam_address: value, ..latched }
        } else if register == PPU_OAM_DATA {
            Nes2c02 { oam_data: value, ..latched }
        } else if register == PPU_SCROLL {
            Nes2c02 { scroll: value, ..latched }
        } else if register == PPU_ADDRESS {
            Nes2c02 { address: self.address.written(value), ..latched }
        } else {
            latched
        }
    }

    fn bounds(&self) -> (bounds: (u16, u16)) {
        (PPU_ORIGIN, PPU_END)
    }

    fn set(&mut self, address: u16, value: u8) {
        if address < PPU_ORIGIN || address >= PPU_END {
            return ;
        }
        let register = address & 0x0007;
        self.latch.write(value);
        if register == PPU_CONTROLLER {
            if self.temp.is_warm() {
                self.control = ControlRegister(value);
            }
        } else if register == PPU_MASK {
            self.mask = MaskRegister(value);
        } else if register == PPU_OAM_ADDRESS {
            self.oam_address = value;
        } else if register == PPU_OAM_DATA {
            self.oam_data = value;
        } else if register == PPU_SCROLL {
            self.scroll = value;
        } else if register == PPU_ADDRESS {
            self.address.write(value);
        }
    }

    fn get(&mut self, address: u16) -> (value: u8) {
        if address < PPU_ORIGIN || address >= PPU_END {
            return 0;
        }
        let register = address & 0x0007;
        if register == PPU_CONTROLLER || register == PPU_MASK || register == PPU_OAM_ADDRESS {
            self.latch.read()
        } else if register == PPU_STATUS {
            let value = (self.status.0 & 0xe0) | (self.latch.read() & 0x1f);
            self.latch.write(value);
            value
        } else {
            0
        }
    }
}

} // verus!
