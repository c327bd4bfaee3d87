//! The bus capability, and the two devices that sit on it inside the console:
//! the internal RAM and the APU register window.

use vstd::prelude::*;

verus! {

/// The low byte of a 16-bit word.
pub open spec fn low_byte(word: u16) -> u8 {
    (word % 256) as u8
}

/// The high byte of a 16-bit word.
pub open spec fn high_byte(word: u16) -> u8 {
    (word / 256) as u8
}

/// The 16-bit word with the given low and high bytes.
pub open spec fn word_of(low: u8, high: u8) -> u16 {
    (high * 256 + low) as u16
}

/// A word splits into its two bytes and is put together again from them.
pub proof fn lemma_word_round_trip(word: u16)
    ensures
        word_of(low_byte(word), high_byte(word)) == word,
{
}

/// The low byte of a word.
pub fn split_low(word: u16) -> (low: u8)
    ensures
        low == low_byte(word),
{
    (word % 256) as u8
}

/// The high byte of a word.
pub fn split_high(word: u16) -> (high: u8)
    ensures
        high == high_byte(word),
{
    (word / 256) as u8
}

/// The word with the given low and high bytes.
pub fn join_word(low: u8, high: u8) -> (word: u16)
    ensures
        word == word_of(low, high),
{
    (high as u16) * 256 + (low as u16)
}

/// A device that answers 8-bit loads and stores on a 16-bit address space.
///
/// `load` and `store` are the model of the device; the executable methods are
/// specified against them. A load may change the device, so `load` gives the
/// byte together with the device afterwards.
pub trait Bus: Sized {
    /// The half-open range of addresses that the device decodes.
    spec fn range(&self) -> (u16, u16);

    /// The byte read at `address` and the device after the read.
    spec fn load(self, address: u16) -> (u8, Self);

    /// The device after `value` was written at `address`.
    spec fn store(self, address: u16, value: u8) -> Self;

    fn bounds(&self) -> (bounds: (u16, u16))
        ensures
            bounds == self.range(),
    ;

    fn bounds_check(&self, address: u16) -> (inside: bool)
        ensures
            inside == (self.range().0 <= address && address < self.range().1),
    {
        let bounds = self.bounds();
        address >= bounds.0 && address < bounds.1
    }

    fn set(&mut self, address: u16, value: u8)
        ensures
            *final(self) == old(self).store(address, value),
    ;

    fn get(&mut self, address: u16) -> (value: u8)
        ensures
            value == old(self).load(address).0,
            *final(self) == old(self).load(address).1,
    ;
}

/// The device after the bytes of `bytes` were stored one by one from `address`
/// upwards; addresses wrap at the end of the 16-bit space.
pub open spec fn store_region<B: Bus>(bus: B, address: u16, bytes: Seq<u8>) -> B
    decreases bytes.len(),
{
    if bytes.len() == 0 {
        bus
    } else {
        store_region(bus.store(address, bytes[0]), address.wrapping_add(1), bytes.skip(1))
    }
}

/// The `count` bytes loaded one by one from `address` upwards, and the device
/// after these loads; addresses wrap at the end of the 16-bit space.
pub open spec fn load_region<B: Bus>(bus: B, address: u16, count: nat) -> (Seq<u8>, B)
    decreases count,
{
    if count == 0 {
        (Seq::empty(), bus)
    } else {
        let (first, after) = bus.load(address);
        let (rest, last) = load_region(after, address.wrapping_add(1), (count - 1) as nat);
        (seq![first] + rest, last)
    }
}

/// The little-endian word loaded from `address` and the byte after it, and the
/// device after the two loads. The second address is not kept in the page of
/// the first.
pub open spec fn load_short<B: Bus>(bus: B, address: u16) -> (u16, B) {
    let (low, after_low) = bus.load(address);
    let (high, after_high) = after_low.load(address.wrapping_add(1));
    (word_of(low, high), after_high)
}

/// The device after `value` was stored little-endian at `address` and the byte
/// after it.
pub open spec fn store_short<B: Bus>(bus: B, address: u16, value: u16) -> B {
    bus.store(address, low_byte(value)).store(address.wrapping_add(1), high_byte(value))
}

/// Block and 16-bit access, which every bus has from its 8-bit loads and stores.
pub trait BusRegion: Bus {
    fn set_region(&mut self, address: u16, bytes: &[u8])
        ensures
            *final(self) == store_region(*old(self), address, bytes@),
    {
        let mut cursor: u16 = address;
        let mut i: usize = 0;
        assert(bytes@.skip(0) =~= bytes@);
        while i < bytes.len()
            invariant
                i <= bytes.len(),
                store_region(*self, cursor, bytes@.skip(i as int)) == store_region(
                    *old(self),
                    address,
                    bytes@,
                ),
            decreases bytes.len() - i,
        {
            assert(bytes@.skip(i as int).skip(1) =~= bytes@.skip(i + 1));
            self.set(cursor, bytes[i]);
            cursor = cursor.wrapping_add(1);
            i += 1;
        }
    }

    fn get_region(&mut self, address: u16, size: u16) -> (bytes: Vec<u8>)
        ensures
            bytes@ == load_region(*old(self), address, size as nat).0,
            *final(self) == load_region(*old(self), address, size as nat).1,
    {
        let mut bytes: Vec<u8> = Vec::with_capacity(size as usize);
        let mut cursor: u16 = address;
        let mut i: u16 = 0;
        assert(bytes@ + load_region(*self, cursor, size as nat).0 =~= load_region(
            *self,
            cursor,
            size as nat,
        ).0);
        while i < size
            invariant
                i <= size,
                load_region(*old(self), address, size as nat).0 == bytes@ + load_region(
                    *self,
                    cursor,
                    (size - i) as nat,
                ).0,
                load_region(*old(self), address, size as nat).1 == load_region(
                    *self,
                    cursor,
                    (size - i) as nat,
                ).1,
            decreases size - i,
        {
            let ghost taken = bytes@;
            let value = self.get(cursor);
            bytes.push(value);
            proof {
                let rest = load_region(*self, cursor.wrapping_add(1), (size - i - 1) as nat).0;
                assert(taken + (seq![value] + rest) =~= bytes@ + rest);
            }
            cursor = cursor.wrapping_add(1);
            i += 1;
        }
        assert(bytes@ + Seq::<u8>::empty() =~= bytes@);
        bytes
    }

    fn get_short(&mut self, address: u16) -> (value: u16)
        ensures
            value == load_short(*old(self), address).0,
            *final(self) == load_short(*old(self), address).1,
    {
        let low = self.get(address);
        let high = self.get(address.wrapping_add(1));
        join_word(low, high)
    }

    fn set_short(&mut self, address: u16, value: u16)
        ensures
            *final(self) == store_short(*old(self), address, value),
    {
        let low = split_low(value);
        let high = split_high(value);
        self.set(address, low);
        self.set(address.wrapping_add(1), high);
    }
}

impl<B: Bus> BusRegion for B {

}

/// Number of bytes of internal RAM.
pub const RAM_SIZE: usize = 2048;

/// First address past the window through which the RAM is seen.
pub const RAM_END: u16 = 0x2000;

/// The cell of the RAM that `address` selects: the RAM repeats every 2 KiB.
pub open spec fn ram_cell(address: u16) -> int {
    (address & 0x07ff) as int
}

/// The RAM cell of an address is a valid index, and it is the address modulo
/// the size of the RAM.
pub proof fn lemma_ram_cell(address: u16)
    ensures
        0 <= ram_cell(address) < 2048,
        ram_cell(address) == address % 2048,
{
    assert(address & 0x07ff < 2048 && address & 0x07ff == address % 2048) by (bit_vector);
}

/// The internal RAM: 2 KiB, seen four times over in `$0000` to `$1FFF`.
pub struct NesRam {
    pub inner: [u8; 2048],
}

impl View for NesRam {
    type V = Seq<u8>;

    open spec fn view(&self) -> Seq<u8> {
        self.inner@
    }
}

impl Default for NesRam {
    fn default() -> (ram: NesRam)
        ensures
            ram@ == Seq::new(2048, |i: int| 0u8),
    {
        let ram = NesRam { inner: [0u8;2048] };
        assert(ram@ =~= Seq::new(2048, |i: int| 0u8));
        ram
    }
}

impl NesRam {
    /// The byte that a read at `address` gives.
    pub fn peek(&self, address: u16) -> (value: u8)
        ensures
            value == self.load(address).0,
    {
        if address < RAM_END {
            let mirror = address & 0x07ff;
            proof {
                lemma_ram_cell(address);
            }
            self.inner[mirror as usize]
        } else {
            0
        }
    }
}

impl Bus for NesRam {
    open spec fn range(&self) -> (u16, u16) {
        (0, RAM_END)
    }

    open spec fn load(self, address: u16) -> (u8, Self) {
        if address < RAM_END {
            (self@[ram_cell(address)], self)
        } else {
            (0, self)
        }
    }

    open spec fn store(self, address: u16, value: u8) -> Self {
        if address < RAM_END {
            NesRam { inner: vstd::array::spec_array_update(self.inner, ram_cell(address), value) }
        } else {
            self
        }
    }

    fn bounds(&self) -> (bounds: (u16, u16)) {
        (0, RAM_END)
    }

    fn set(&mut self, address: u16, value: u8) {
        if self.bounds_check(address) {
            let mirror = address & 0x07ff;
            proof {
                lemma_ram_cell(address);
            }
            self.inner[mirror as usize] = value;
            assert(self.inner =~= vstd::array::spec_array_update(
                old(self).inner,
                ram_cell(address),
                value,
            ));
        }
    }

    fn get(&mut self, address: u16) -> (value: u8) {
        self.peek(address)
    }
}

/// First address of the APU and I/O register window.
pub const APU_ORIGIN: u16 = 0x4000;

/// Number of registers in the APU and I/O window.
pub const APU_REGISTERS: u16 = 0x18;

/// First address past the range that the APU decodes; the addresses between
/// the last register and this one are inert.
pub const APU_END: u16 = 0x4020;

/// Whether `address` selects one of the APU and I/O registers.
pub open spec fn apu_register(address: u16) -> bool {
    APU_ORIGIN <= address && address < APU_ORIGIN + APU_REGISTERS
}

/// The APU and I/O registers: a window of 24 bytes at `$4000`.
pub struct Nes2a03Audio {
    pub registers: [u8; 24],
}

impl View for Nes2a03Audio {
    type V = Seq<u8>;

    open spec fn view(&self) -> Seq<u8> {
        self.registers@
    }
}

impl Default for Nes2a03Audio {
    fn default() -> (apu: Nes2a03Audio)
        ensures
            apu@ == Seq::new(24, |i: int| 0u8),
    {
        let apu = Nes2a03Audio { registers: [0u8;24] };
        assert(apu@ =~= Seq::new(24, |i: int| 0u8));
        apu
    }
}

impl Nes2a03Audio {
    /// The byte that a read at `address` gives.
    pub fn peek(&self, address: u16) -> (value: u8)
        ensures
            value == self.load(address).0,
    {
        if address >= APU_ORIGIN && address - APU_ORIGIN < APU_REGISTERS {
            self.registers[(address - APU_ORIGIN) as usize]
        } else {
            0
        }
    }
}

impl Bus for Nes2a03Audio {
    open spec fn range(&self) -> (u16, u16) {
        (APU_ORIGIN, APU_END)
    }

    open spec fn load(self, address: u16) -> (u8, Self) {
        if apu_register(address) {
            (self@[address - APU_ORIGIN], self)
        } else {
            (0, self)
        }
    }

    open spec fn store(self, address: u16, value: u8) -> Self {
        if apu_register(address) {
            Nes2a03Audio {
                registers: vstd::array::spec_array_update(
                    self.registers,
                    address - APU_ORIGIN,
                    value,
                ),
            }
        } else {
            self
        }
    }

    fn bounds(&self) -> (bounds: (u16, u16)) {
        (APU_ORIGIN, APU_END)
    }

    fn set(&mut self, address: u16, value: u8) {
        if address >= APU_ORIGIN && address - APU_ORIGIN < APU_REGISTERS {
            let offset = address - APU_ORIGIN;
            self.registers[offset as usize] = value;
            assert(self.registers =~= vstd::array::spec_array_update(
                old(self).registers,
                address - APU_ORIGIN,
                value,
            ));
        }
    }

    fn get(&mut self, address: u16) -> (value: u8) {
        self.peek(address)
    }
}

/// A game controller port; the core keeps the slot and nothing else.
#[derive(Clone, Copy, Default)]
pub struct NesGamepad;

} // verus!
