//! The machine: CPU, PPU, RAM, APU and cartridge behind one bus, the
//! addressing modes, the stack, and the clock that drives them.

use vstd::prelude::*;
use vstd::string::StringExecFns;
use vstd::string::StringSliceAdditionalSpecFns;
use crate::bus::APU_END;
use crate::bus::Bus;
use crate::bus::BusRegion;
use crate::bus::high_byte;
use crate::bus::join_word;
use crate::bus::load_region;
use crate::bus::load_short;
use crate::bus::low_byte;
use crate::bus::Nes2a03Audio;
use crate::bus::NesGamepad;
use crate::bus::NesRam;
use crate::bus::RAM_END;
use crate::bus::split_high;
use crate::bus::split_low;
use crate::bus::store_region;
use crate::bus::word_of;
use crate::cartridge::CartridgeRegion;
use crate::cartridge::NesCart;
use crate::cpu::Nes2a03;
use crate::cpu::NesRegisters;
use crate::jumptable::Opcode;
use crate::jumptable::opcode_entry;
use crate::peripherals::NesPeripheral;
use crate::ppu::Nes2c02;
use crate::ppu::PPU_END;
use crate::text::decimal;
use crate::text::hex_short;
use crate::text::operation_bytes;
use crate::text::parse_operation;
use crate::text::push_decimal;
use crate::text::push_hex_short;

verus! {

/// Where the program counter is loaded from on reset.
pub const INITIAL_PC_LOCATION: u16 = 0xfffc;

/// Start of the page that holds the stack.
pub const STACK_OFFSET: u16 = 0x0100;

/// Cycles that the CPU has spent when it leaves reset.
pub const STARTUP_CYCLES: u64 = 7;

/// Ticks of the master clock for one cycle of the CPU.
pub const CPU_DIVIDER: u8 = 12;

/// Ticks of the master clock for one tick of the PPU.
pub const PPU_DIVIDER: u8 = 4;

/// Cycles of the CPU in one frame.
pub const FRAME_CYCLES: u16 = 29780;

/// Ticks of the master clock after which a run ends if nothing stopped the
/// machine before.
pub const MASTER_TICK_BUDGET: u64 = 0xffff_ffff_ffff_ffff;

pub const IMPLICIT: u8 = 0;

pub const ACCUMULATOR: u8 = 1;

pub const IMMEDIATE: u8 = 2;

pub const ZERO_PAGE: u8 = 3;

pub const ZERO_PAGE_X: u8 = 4;

pub const ZERO_PAGE_Y: u8 = 5;

pub const RELATIVE: u8 = 6;

pub const ABSOLUTE: u8 = 7;

pub const ABSOLUTE_X: u8 = 8;

pub const ABSOLUTE_Y: u8 = 9;

pub const INDIRECT: u8 = 10;

pub const INDEXED_INDIRECT: u8 = 11;

pub const INDIRECT_INDEXED: u8 = 12;

/// Whether `mode` is the code of an addressing mode that has an operand in
/// memory, and so an effective address.
pub open spec fn addressable(mode: u8) -> bool {
    IMMEDIATE <= mode && mode <= INDIRECT_INDEXED
}

/// Whether `mode` is the code of an addressing mode that adds an index
/// register to a 16-bit base, so that the effective address may lie in another
/// page than the base.
pub open spec fn page_sensitive(mode: u8) -> bool {
    mode == ABSOLUTE_X || mode == ABSOLUTE_Y || mode == INDIRECT_INDEXED
}

/// The address that follows `pointer` within the page of `pointer`: after the
/// last byte of a page comes the first byte of the same page.
pub open spec fn next_in_page(pointer: u16) -> u16 {
    word_of(low_byte(pointer).wrapping_add(1), high_byte(pointer))
}

/// Whether two addresses lie in different pages of 256 bytes.
pub open spec fn pages_differ(from: u16, to: u16) -> bool {
    high_byte(from) != high_byte(to)
}

/// An access that no device could serve. It stops the machine.
#[derive(Clone, Copy, PartialEq, Eq, Structural, Debug)]
pub struct BusFault {
    pub region: CartridgeRegion,
    pub address: u16,
    /// whether the access was a write
    pub write: bool,
}

/// What an addressing mode resolves to.
pub struct Target<P> {
    /// the effective address
    pub address: u16,
    /// whether adding the index register led into another page
    pub crossed: bool,
    /// the machine after the operand bytes were read
    pub machine: Nes<P>,
}

/// The operand of an instruction.
pub struct Operand<P> {
    /// the byte at the effective address
    pub value: u8,
    /// the effective address
    pub address: u16,
    /// whether adding the index register led into another page
    pub crossed: bool,
    /// the machine after the operand was read
    pub machine: Nes<P>,
}

/// A machine.
pub struct Nes<P> {
    pub cpu: Nes2a03,
    pub ppu: Nes2c02,
    pub ram: NesRam,
    pub apu: Nes2a03Audio,
    pub cartridge: Option<NesCart>,
    pub gamepads: [Option<NesGamepad>; 8],
    /// the first access that no device could serve, if there was one
    pub fault: Option<BusFault>,
    /// the observers, in the order of their registration
    pub peripherals: Option<Vec<P>>,
}

impl<P> Default for Nes<P> {
    fn default() -> (nes: Nes<P>)
        ensures
            nes.created(),
    {
        Nes {
            cpu: Nes2a03::default(),
            ppu: Nes2c02::default(),
            ram: NesRam::default(),
            apu: Nes2a03Audio::default(),
            cartridge: None,
            gamepads: [None;8],
            fault: None,
            peripherals: None,
        }
    }
}

impl<P> Nes<P> {
    /// Whether this is a machine as it is created: idle, with every register
    /// and all memory cleared, without a cartridge, without controllers and
    /// without observers.
    pub open spec fn created(self) -> bool {
        &&& self.cpu == Nes2a03::idle()
        &&& self.ppu.powered_on()
        &&& self.ram@ == Seq::new(2048, |i: int| 0u8)
        &&& self.apu@ == Seq::new(24, |i: int| 0u8)
        &&& self.cartridge is None
        &&& forall|port: int| 0 <= port < 8 ==> self.gamepads[port] is None
        &&& self.fault is None
        &&& self.peripherals is None
    }

    /// The registers of the CPU.
    pub open spec fn regs(self) -> NesRegisters {
        self.cpu.registers
    }

    /// This machine with the registers of the CPU replaced.
    pub open spec fn with_regs(self, registers: NesRegisters) -> Self {
        Nes { cpu: Nes2a03 { registers, ..self.cpu }, ..self }
    }

    /// This machine with the program counter at `pc`.
    pub open spec fn at(self, pc: u16) -> Self {
        self.with_regs(NesRegisters { pc, ..self.regs() })
    }

    /// This machine, stopped.
    pub open spec fn stopped(self) -> Self {
        Nes { cpu: Nes2a03 { running: false, ..self.cpu }, ..self }
    }

    /// This machine after an access that no device could serve: it is stopped,
    /// and it remembers the access unless it remembers an earlier one.
    pub open spec fn faulted(self, fault: BusFault) -> Self {
        Nes {
            fault: if self.fault is Some {
                self.fault
            } else {
                Some(fault)
            },
            ..self.stopped()
        }
    }

    /// Whether an access to `address` is one that no device can serve: the
    /// address selects RAM of the cartridge, and the cartridge serves none.
    pub open spec fn unserved(self, address: u16) -> bool {
        address >= APU_END && self.cartridge is Some && self.cartridge->0.unsupported(address)
    }

    fn fail(&mut self, address: u16, write: bool)
        ensures
            *final(self) == old(self).faulted(
                BusFault { region: CartridgeRegion::OptionRam, address, write },
            ),
    {
        self.cpu.running = false;
        if self.fault.is_none() {
            self.fault = Some(BusFault { region: CartridgeRegion::OptionRam, address, write });
        }
    }
}

impl<P> Bus for Nes<P> {
    open spec fn range(&self) -> (u16, u16) {
        (0, 0xffff)
    }

    /// The devices are asked in this order: RAM, PPU, APU, cartridge. Where no
    /// cartridge is inserted its space reads 0.
    open spec fn load(self, address: u16) -> (u8, Self) {
        if address < RAM_END {
            (self.ram.load(address).0, self)
        } else if address < PPU_END {
            (self.ppu.load(address).0, Nes { ppu: self.ppu.load(address).1, ..self })
        } else if address < APU_END {
            (self.apu.load(address).0, self)
        } else if self.unserved(address) {
            (
                0,
                self.faulted(
                    BusFault { region: CartridgeRegion::OptionRam, address, write: false },
                ),
            )
        } else if self.cartridge is Some {
            (self.cartridge->0.shown(address), self)
        } else {
            (0, self)
        }
    }

    open spec fn store(self, address: u16, value: u8) -> Self {
        if address < RAM_END {
            Nes { ram: self.ram.store(address, value), ..self }
        } else if address < PPU_END {
            Nes { ppu: self.ppu.store(address, value), ..self }
        } else if address < APU_END {
            Nes { apu: self.apu.store(address, value), ..self }
        } else if self.unserved(address) {
            self.faulted(BusFault { region: CartridgeRegion::OptionRam, address, write: true })
        } else if self.cartridge is Some {
            Nes { cartridge: Some(self.cartridge->0.store(address, value)), ..self }
        } else {
            self
        }
    }

    fn bounds(&self) -> (bounds: (u16, u16)) {
        (0, 0xffff)
    }

    fn set(&mut self, address: u16, value: u8)
        ensures
            same_fittings(*old(self), *final(self)),
    {
        if address < RAM_END {
            self.ram.set(address, value);
        } else if address < PPU_END {
            self.ppu.set(address, value);
        } else if address < APU_END {
            self.apu.set(address, value);
        } else {
            let mut served = true;
            match &mut self.cartridge {
                Some(cart) => {
                    if cart.is_unsupported(address) {
                        served = false;
                    } else {
                        cart.set(address, value);
                    }
                },
                None => {},
            }
            if !served {
                self.fail(address, true);
            }
        }
    }

    fn get(&mut self, address: u16) -> (value: u8)
        ensures
            same_fittings(*old(self), *final(self)),
    {
        if address < RAM_END {
            self.ram.get(address)
        } else if address < PPU_END {
            self.ppu.get(address)
        } else if address < APU_END {
            self.apu.get(address)
        } else {
            let mut served = true;
            let mut value: u8 = 0;
            match &mut self.cartridge {
                Some(cart) => {
                    if cart.is_unsupported(address) {
                        served = false;
                    } else {
                        value = cart.get(address);
                    }
                },
                None => {},
            }
            if !served {
                self.fail(address, false);
            }
            value
        }
    }
}

impl<P> Nes<P> {
    /// What the addressing mode `mode` resolves to: the effective address, and
    /// the machine with the program counter past the operand bytes.
    ///
    /// An immediate operand is its own address. The zero-page modes add their
    /// index within the zero page. The indirect mode reads the high byte of its
    /// target from the page of the low byte, also where the pointer is the last
    /// byte of a page. The two indexed indirect modes read their pointer within
    /// the zero page.
    #[verifier::opaque]
    pub open spec fn resolved(self, mode: u8) -> Target<P> {
        let pc = self.regs().pc;
        let x = self.regs().x;
        let y = self.regs().y;
        if mode == IMMEDIATE {
            Target { address: pc, crossed: false, machine: self.at(pc.wrapping_add(1)) }
        } else if mode == ZERO_PAGE || mode == ZERO_PAGE_X || mode == ZERO_PAGE_Y || mode
            == RELATIVE {
            let (operand, read) = self.load(pc);
            let address = if mode == ZERO_PAGE_X {
                operand.wrapping_add(x)
            } else if mode == ZERO_PAGE_Y {
                operand.wrapping_add(y)
            } else {
                operand
            };
            Target { address: address as u16, crossed: false, machine: read.at(pc.wrapping_add(1)) }
        } else if mode == ABSOLUTE || mode == ABSOLUTE_X || mode == ABSOLUTE_Y {
            let (base, read) = load_short(self, pc);
            let address = if mode == ABSOLUTE_X {
                base.wrapping_add(x as u16)
            } else if mode == ABSOLUTE_Y {
                base.wrapping_add(y as u16)
            } else {
                base
            };
            Target {
                address,
                crossed: pages_differ(base, address),
                machine: read.at(pc.wrapping_add(2)),
            }
        } else if mode == INDIRECT {
            let (pointer, read) = load_short(self, pc);
            let (low, read_low) = read.load(pointer);
            let (high, read_high) = read_low.load(next_in_page(pointer));
            Target {
                address: word_of(low, high),
                crossed: false,
                machine: read_high.at(pc.wrapping_add(2)),
            }
        } else {
            let (operand, read) = self.load(pc);
            let pointer = if mode == INDEXED_INDIRECT {
                operand.wrapping_add(x)
            } else {
                operand
            };
            let (low, read_low) = read.load(pointer as u16);
            let (high, read_high) = read_low.load(pointer.wrapping_add(1) as u16);
            let base = word_of(low, high);
            let address = if mode == INDEXED_INDIRECT {
                base
            } else {
                base.wrapping_add(y as u16)
            };
            Target {
                address,
                crossed: pages_differ(base, address),
                machine: read_high.at(pc.wrapping_add(1)),
            }
        }
    }

    /// Resolves an addressing mode: gives the effective address, tells whether
    /// indexing crossed a page, and moves the program counter past the operand.
    pub fn resolve(&mut self, mode: u8) -> (target: (u16, bool))
        requires
            addressable(mode),
        ensures
            target.0 == old(self).resolved(mode).address,
            target.1 == old(self).resolved(mode).crossed,
            *final(self) == old(self).resolved(mode).machine,
            same_fittings(*old(self), *final(self)),
            target.1 ==> page_sensitive(mode),
    {
        reveal(Nes::resolved);
        let pc = self.cpu.registers.pc;
        proof {
            lemma_load_short_frame(*self, pc);
        }
        if mode == IMMEDIATE {
            self.cpu.registers.pc = pc.wrapping_add(1);
            (pc, false)
        } else if mode <= RELATIVE {
            let operand = self.get(pc);
            self.cpu.registers.pc = pc.wrapping_add(1);
            let address = if mode == ZERO_PAGE_X {
                operand.wrapping_add(self.cpu.registers.x)
            } else if mode == ZERO_PAGE_Y {
                operand.wrapping_add(self.cpu.registers.y)
            } else {
                operand
            };
            (address as u16, false)
        } else if mode <= ABSOLUTE_Y {
            let base = self.get_short(pc);
            self.cpu.registers.pc = pc.wrapping_add(2);
            let address = if mode == ABSOLUTE_X {
                base.wrapping_add(self.cpu.registers.x as u16)
            } else if mode == ABSOLUTE_Y {
                base.wrapping_add(self.cpu.registers.y as u16)
            } else {
                base
            };
            (address, split_high(base) != split_high(address))
        } else if mode == INDIRECT {
            let pointer = self.get_short(pc);
            let low = self.get(pointer);
            let next = join_word(split_low(pointer).wrapping_add(1), split_high(pointer));
            let high = self.get(next);
            self.cpu.registers.pc = pc.wrapping_add(2);
            (join_word(low, high), false)
        } else {
            let operand = self.get(pc);
            let pointer = if mode == INDEXED_INDIRECT {
                operand.wrapping_add(self.cpu.registers.x)
            } else {
                operand
            };
            let low = self.get(pointer as u16);
            let high = self.get(pointer.wrapping_add(1) as u16);
            self.cpu.registers.pc = pc.wrapping_add(1);
            let base = join_word(low, high);
            let address = if mode == INDEXED_INDIRECT {
                base
            } else {
                base.wrapping_add(self.cpu.registers.y as u16)
            };
            (address, split_high(base) != split_high(address))
        }
    }

    /// The effective address of an addressing mode; the program counter moves
    /// past the operand.
    pub fn get_address_from_mode(&mut self, mode: u8) -> (address: u16)
        requires
            addressable(mode),
        ensures
            address == old(self).resolved(mode).address,
            *final(self) == old(self).resolved(mode).machine,
            same_fittings(*old(self), *final(self)),
    {
        self.resolve(mode).0
    }

    /// The address of the stack cell that the stack pointer `sp` selects.
    pub open spec fn stack_cell(sp: u8) -> u16 {
        (STACK_OFFSET + sp) as u16
    }

    /// This machine with the stack pointer at `sp`.
    pub open spec fn with_sp(self, sp: u8) -> Self {
        self.with_regs(NesRegisters { sp, ..self.regs() })
    }

    /// The machine after `value` was pushed: it is written where the stack
    /// pointer points, and the stack pointer moves down by one, from `$00` to
    /// `$FF`.
    pub open spec fn pushed(self, value: u8) -> Self {
        let sp = self.regs().sp;
        self.store(Self::stack_cell(sp), value).with_sp(sp.wrapping_sub(1))
    }

    /// The byte pulled from the stack and the machine afterwards: the stack
    /// pointer moves up by one, from `$FF` to `$00`, and the byte is read where
    /// it then points.
    pub open spec fn pulled(self) -> (u8, Self) {
        let sp = self.regs().sp.wrapping_add(1);
        let (value, read) = self.load(Self::stack_cell(sp));
        (value, read.with_sp(sp))
    }

    /// The machine after a word was pushed, high byte first.
    pub open spec fn pushed_short(self, value: u16) -> Self {
        self.pushed(high_byte(value)).pushed(low_byte(value))
    }

    /// The word pulled from the stack, low byte first, and the machine
    /// afterwards.
    pub open spec fn pulled_short(self) -> (u16, Self) {
        let (low, first) = self.pulled();
        let (high, second) = first.pulled();
        (word_of(low, high), second)
    }

    pub fn stack_push(&mut self, value: u8)
        ensures
            *final(self) == old(self).pushed(value),
            same_fittings(*old(self), *final(self)),
    {
        let sp = self.cpu.registers.sp;
        self.set(sp as u16 + STACK_OFFSET, value);
        self.cpu.registers.sp = sp.wrapping_sub(1);
    }

    pub fn stack_pop(&mut self) -> (value: u8)
        ensures
            value == old(self).pulled().0,
            *final(self) == old(self).pulled().1,
            same_fittings(*old(self), *final(self)),
    {
        let sp = self.cpu.registers.sp.wrapping_add(1);
        let value = self.get(sp as u16 + STACK_OFFSET);
        self.cpu.registers.sp = sp;
        value
    }

    pub fn stack_push_short(&mut self, value: u16)
        ensures
            *final(self) == old(self).pushed_short(value),
            same_fittings(*old(self), *final(self)),
    {
        let low = split_low(value);
        let high = split_high(value);
        self.stack_push(high);
        self.stack_push(low);
    }

    pub fn stack_pop_short(&mut self) -> (value: u16)
        ensures
            value == old(self).pulled_short().0,
            *final(self) == old(self).pulled_short().1,
            same_fittings(*old(self), *final(self)),
    {
        let low = self.stack_pop();
        let high = self.stack_pop();
        join_word(low, high)
    }

    /// The byte that a read at `address` gives.
    #[verifier::opaque]
    pub open spec fn read(self, address: u16) -> u8 {
        self.load(address).0
    }

    /// The byte that a read at `address` gives; the machine is not touched.
    pub fn peek(&self, address: u16) -> (value: u8)
        ensures
            value == self.read(address),
    {
        reveal(Nes::read);
        if address < RAM_END {
            self.ram.peek(address)
        } else if address < PPU_END {
            self.ppu.peek(address)
        } else if address < APU_END {
            self.apu.peek(address)
        } else {
            match &self.cartridge {
                Some(cart) => {
                    if cart.is_unsupported(address) {
                        0
                    } else {
                        cart.peek(address)
                    }
                },
                None => 0,
            }
        }
    }

    /// The little-endian word that reads at `address` and the byte after it
    /// give.
    pub open spec fn word_at(self, address: u16) -> u16 {
        word_of(self.read(address), self.read(address.wrapping_add(1)))
    }

    /// The little-endian word at `address`; the machine is not touched.
    pub fn peek_short(&self, address: u16) -> (value: u16)
        ensures
            value == self.word_at(address),
    {
        join_word(self.peek(address), self.peek(address.wrapping_add(1)))
    }

    /// The byte at `address`.
    pub fn extract_memory(&mut self, address: u16) -> (value: u8)
        ensures
            value == old(self).load(address).0,
            *final(self) == old(self).load(address).1,
    {
        self.get(address)
    }

    /// The `size` bytes from `address` upwards.
    pub fn extract_memory_region(&mut self, address: u16, size: u16) -> (bytes: Vec<u8>)
        ensures
            bytes@ == load_region(*old(self), address, size as nat).0,
            *final(self) == load_region(*old(self), address, size as nat).1,
    {
        self.get_region(address, size)
    }

    /// This machine with `memory` written from `address` upwards.
    pub fn with_initial_memory(self, address: u16, memory: &[u8]) -> (nes: Nes<P>)
        ensures
            nes == store_region(self, address, memory@),
    {
        let mut nes = self;
        nes.set_region(address, memory);
        nes
    }

    pub fn set_pc(&mut self, value: u16)
        ensures
            *final(self) == old(self).at(value),
    {
        self.cpu.registers.pc = value;
    }

    /// Writes the bytes that `op` gives as hexadecimal numbers with spaces
    /// between them into memory, from the program counter upwards.
    pub fn inject_operation(&mut self, op: &str)
        ensures
            *final(self) == store_region(
                *old(self),
                old(self).regs().pc,
                operation_bytes(op.spec_bytes()),
            ),
    {
        let bytes = parse_operation(op.as_bytes());
        let pc = self.cpu.registers.pc;
        self.set_region(pc, bytes.as_slice());
    }

    pub fn dump_registers(&self) -> (registers: NesRegisters)
        ensures
            registers == self.regs(),
    {
        self.cpu.registers
    }

    pub fn inject_memory_value(&mut self, address: u16, value: u8)
        ensures
            *final(self) == old(self).store(address, value),
    {
        self.set(address, value);
    }

    pub fn inject_registers(&mut self, regs: NesRegisters)
        ensures
            *final(self) == old(self).with_regs(regs),
    {
        self.cpu.registers = regs;
    }

    /// The number of words on the stack, counted from the top of the stack
    /// page: half of what lies above the stack pointer.
    pub open spec fn stack_depth(self) -> nat {
        ((255 - self.regs().sp) / 2) as nat
    }

    /// The `depth` bytes above the stack pointer as text, the one furthest
    /// from the stack pointer first: each in hexadecimal, followed by a slash
    /// between two spaces.
    pub open spec fn stack_text(self, depth: nat) -> Seq<char>
        decreases depth,
    {
        if depth == 0 {
            Seq::empty()
        } else {
            hex_short(self.read((STACK_OFFSET + self.regs().sp + depth) as u16)) + " / "@
                + self.stack_text((depth - 1) as nat)
        }
    }

    /// The text that shows the stack: the depth of the stack, a colon, and as
    /// many bytes above the stack pointer as the stack is deep.
    pub open spec fn stack_dump(self) -> Seq<char> {
        decimal(self.stack_depth()) + ": "@ + self.stack_text(self.stack_depth())
    }

    /// Shows the stack as text.
    pub fn dump_stack(&mut self) -> (stack: String)
        ensures
            stack@ == old(self).stack_dump(),
            *final(self) == *old(self),
    {
        let sp = self.cpu.registers.sp as u16 + STACK_OFFSET;
        let mut depth: u16 = ((255 - self.cpu.registers.sp) / 2) as u16;
        let mut stack = String::new();
        push_decimal(&mut stack, depth as u64);
        stack.append(": ");
        assert(stack@ =~= decimal(self.stack_depth()) + ": "@);
        assert(stack@ + self.stack_text(depth as nat) =~= self.stack_dump());
        while depth > 0
            invariant
                *self == *old(self),
                sp == self.regs().sp + STACK_OFFSET,
                depth <= 127,
                stack@ + self.stack_text(depth as nat) == self.stack_dump(),
            decreases depth,
        {
            let ghost before = stack@;
            let value = self.peek(sp + depth);
            push_hex_short(&mut stack, value);
            stack.append(" / ");
            assert(stack@ + self.stack_text((depth - 1) as nat) =~= before + self.stack_text(
                depth as nat,
            ));
            depth -= 1;
        }
        assert(stack@ + self.stack_text(0) =~= stack@);
        stack
    }

    /// The registers as text: the name of each with its value in decimal.
    pub open spec fn registers_text(self) -> Seq<char> {
        let r = self.regs();
        "NesRegisters { pc: "@ + decimal(r.pc as nat) + ", sp: "@ + decimal(r.sp as nat) + ", a: "@
            + decimal(r.a as nat) + ", x: "@ + decimal(r.x as nat) + ", y: "@ + decimal(
            r.y as nat,
        ) + ", p: "@ + decimal(r.p as nat) + " }"@
    }

    /// Shows the registers as text.
    pub fn display_registers(&self) -> (text: String)
        ensures
            text@ == self.registers_text(),
    {
        let r = self.cpu.registers;
        let mut text = String::new();
        text.append("NesRegisters { pc: ");
        push_decimal(&mut text, r.pc as u64);
        text.append(", sp: ");
        push_decimal(&mut text, r.sp as u64);
        text.append(", a: ");
        push_decimal(&mut text, r.a as u64);
        text.append(", x: ");
        push_decimal(&mut text, r.x as u64);
        text.append(", y: ");
        push_decimal(&mut text, r.y as u64);
        text.append(", p: ");
        push_decimal(&mut text, r.p as u64);
        text.append(" }");
        assert(text@ =~= self.registers_text());
        text
    }

    /// The byte at the program counter.
    pub fn peek_pc(&mut self) -> (value: u8)
        ensures
            value == old(self).load(old(self).regs().pc).0,
            *final(self) == old(self).load(old(self).regs().pc).1,
            same_fittings(*old(self), *final(self)),
    {
        self.get(self.cpu.registers.pc)
    }

    /// Puts `cart` into the slot. A cartridge is exchanged only between runs.
    pub fn insert_cartridge(&mut self, cart: NesCart)
        requires
            old(self).cartridge is None || !old(self).cpu.running,
        ensures
            *final(self) == (Nes { cartridge: Some(cart), ..*old(self) }),
    {
        self.cartridge = Some(cart);
    }

    /// The operand of an instruction in the addressing mode `mode`: the byte at
    /// the effective address, and the machine after it was read.
    pub open spec fn operand(self, mode: u8) -> Operand<P> {
        let target = self.resolved(mode);
        let (value, machine) = target.machine.load(target.address);
        Operand { value, address: target.address, crossed: target.crossed, machine }
    }

    /// Reads the operand of an instruction: gives its value, its address, and
    /// whether indexing crossed a page.
    pub fn fetch(&mut self, mode: u8) -> (operand: (u8, u16, bool))
        requires
            addressable(mode),
        ensures
            operand.0 == old(self).operand(mode).value,
            operand.1 == old(self).operand(mode).address,
            operand.2 == old(self).operand(mode).crossed,
            *final(self) == old(self).operand(mode).machine,
            same_fittings(*old(self), *final(self)),
            operand.2 ==> page_sensitive(mode),
    {
        let (address, crossed) = self.resolve(mode);
        let value = self.get(address);
        (value, address, crossed)
    }
}

impl<P> Nes<P> {
    /// The observers of the machine, in the order of their registration.
    pub open spec fn observers(self) -> Seq<P> {
        match self.peripherals {
            Some(list) => list@,
            None => Seq::empty(),
        }
    }

    /// Whether nothing observes the machine.
    pub open spec fn unobserved(self) -> bool {
        self.observers().len() == 0
    }

    /// Whether two machines differ at most in their observers.
    pub open spec fn same_machine(self, other: Self) -> bool {
        &&& self.cpu == other.cpu
        &&& self.ppu == other.ppu
        &&& self.ram == other.ram
        &&& self.apu == other.apu
        &&& self.cartridge == other.cartridge
        &&& self.gamepads == other.gamepads
        &&& self.fault == other.fault
    }

    /// The machine after reset: the registers hold their start-up values, the
    /// CPU has spent its start-up cycles, and the program counter holds the
    /// word at `$FFFC`.
    pub open spec fn after_reset(self) -> Self {
        let cleared = Nes {
            cpu: Nes2a03 {
                registers: self.regs().after_reset(),
                cycles: STARTUP_CYCLES,
                ..self.cpu
            },
            ..self
        };
        let (start, read) = load_short(cleared, INITIAL_PC_LOCATION);
        read.at(start)
    }

    /// Whether the CPU has caught up with the cycles of its last instruction,
    /// so that its next step fetches an instruction.
    pub open spec fn due(self) -> bool {
        self.cpu.next_tick <= self.cpu.cycles
    }

    /// The machine after one instruction: the opcode is read at the program
    /// counter, the program counter moves past it, the instruction that the
    /// table gives for the opcode runs, and the next instruction is due when
    /// the cycles that it took have passed.
    #[verifier::opaque]
    pub open spec fn executed(self) -> Self {
        let pc = self.regs().pc;
        let (opcode, fetched) = self.load(pc);
        let (done, spent) = Opcode::of(opcode).ran(fetched.at(pc.wrapping_add(1)));
        Nes {
            cpu: Nes2a03 { next_tick: done.cpu.cycles.wrapping_add(spent as u64), ..done.cpu },
            ..done
        }
    }

    /// The machine after a cycle in which the CPU only waits.
    pub open spec fn idled(self) -> Self {
        Nes { cpu: Nes2a03 { cycles: self.cpu.cycles.wrapping_add(1), ..self.cpu }, ..self }
    }

    /// The machine after one step of the CPU, where nothing observes it: an
    /// instruction where one is due, a cycle of waiting otherwise.
    pub open spec fn stepped(self) -> Self {
        if self.due() {
            self.executed()
        } else {
            self.idled()
        }
    }

    /// The machine after the PPU's share of a tick of the master clock: the
    /// PPU ticks on every fourth.
    pub open spec fn ppu_clocked(self) -> Self {
        let counter = self.ppu.clock_counter.wrapping_add(1);
        if counter >= PPU_DIVIDER {
            Nes {
                ppu: Nes2c02 {
                    clock_counter: counter.wrapping_sub(PPU_DIVIDER),
                    ..self.ppu.ticked()
                },
                ..self
            }
        } else {
            Nes { ppu: Nes2c02 { clock_counter: counter, ..self.ppu }, ..self }
        }
    }

    /// The machine with the divider of the CPU at `counter`.
    pub open spec fn with_divider(self, counter: u8) -> Self {
        Nes { cpu: Nes2a03 { clock_counter: counter, ..self.cpu }, ..self }
    }

    /// The machine with the cycle count of the frame at `clock`.
    pub open spec fn with_frame_clock(self, clock: u16) -> Self {
        Nes { ppu: Nes2c02 { frame_clock: clock, ..self.ppu }, ..self }
    }

    /// The machine after a step of the CPU was counted: the divider starts
    /// over, and so does the cycle count of the frame when the frame is full.
    pub open spec fn counted(self) -> Self {
        let divided = self.with_divider(self.cpu.clock_counter.wrapping_sub(CPU_DIVIDER));
        let clock = self.ppu.frame_clock.wrapping_add(1);
        if clock >= FRAME_CYCLES {
            divided.with_frame_clock(clock.wrapping_sub(FRAME_CYCLES))
        } else {
            divided.with_frame_clock(clock)
        }
    }

    /// Whether the step of the CPU that is counted now ends a frame.
    pub open spec fn frame_ends(self) -> bool {
        self.ppu.frame_clock.wrapping_add(1) >= FRAME_CYCLES
    }

    /// Whether the three counters of the clock stand below their limits: the
    /// divider of the PPU below 4, the divider of the CPU below 12, and the
    /// cycle count of the frame below the cycles of a frame.
    pub open spec fn in_step(self) -> bool {
        &&& self.ppu.clock_counter < PPU_DIVIDER
        &&& self.cpu.clock_counter < CPU_DIVIDER
        &&& self.ppu.frame_clock < FRAME_CYCLES
    }

    /// Whether the next tick of the master clock calls no observer, whoever
    /// observes the machine: the CPU does not step on it, or the CPU only
    /// waits and the step does not end a frame.
    pub open spec fn quiet_tick(self) -> bool {
        let clocked = self.ppu_clocked();
        let counter = clocked.cpu.clock_counter.wrapping_add(1);
        counter < CPU_DIVIDER || (!clocked.due() && !clocked.frame_ends())
    }

    /// The machine after one tick of the master clock, where nothing observes
    /// it: the PPU ticks on every fourth tick, and the CPU steps on every
    /// twelfth.
    pub open spec fn master_ticked(self) -> Self {
        let clocked = self.ppu_clocked();
        let counter = clocked.cpu.clock_counter.wrapping_add(1);
        if counter >= CPU_DIVIDER {
            clocked.with_divider(counter).stepped().counted()
        } else {
            clocked.with_divider(counter)
        }
    }

    /// The machine after `count` ticks of the master clock, where nothing
    /// observes it.
    pub open spec fn ticked_times(self, count: nat) -> Self
        decreases count,
    {
        if count == 0 {
            self
        } else {
            self.master_ticked().ticked_times((count - 1) as nat)
        }
    }

    /// The machine after it was driven by the master clock until it stopped,
    /// for `ticks` ticks at most, where nothing observes it.
    pub open spec fn driven(self, ticks: nat) -> Self
        decreases ticks,
    {
        if !self.cpu.running || ticks == 0 {
            self
        } else {
            self.master_ticked().driven((ticks - 1) as nat)
        }
    }

    /// The machine after the CPU stepped until the machine stopped, for
    /// `steps` steps at most, where nothing observes it. The PPU stands still.
    pub open spec fn run(self, steps: nat) -> Self
        decreases steps,
    {
        if !self.cpu.running || steps == 0 {
            self
        } else {
            self.stepped().run((steps - 1) as nat)
        }
    }

    /// Whether `after` may be the machine one tick of the master clock after
    /// this one, whatever the observers do: it has as many observers, and
    /// where the tick calls no observer it is the machine that the tick makes.
    #[verifier::opaque]
    pub open spec fn ticked_to(self, after: Self) -> bool {
        &&& self.unobserved() || self.quiet_tick() ==> after == self.master_ticked()
        &&& after.peripherals is Some == self.peripherals is Some
        &&& after.observers().len() == self.observers().len()
    }

    /// Whether `chain` is a run of the master clock from this machine to
    /// `last`: it starts with this machine and ends with `last`, each machine
    /// in it but the last is running and is followed by a machine that a tick
    /// may make of it, and there are no more ticks than the budget allows.
    pub open spec fn drive(self, chain: Seq<Self>, last: Self) -> bool {
        &&& chain.len() >= 1 && chain[0] == self && chain.last() == last
        &&& chain.len() - 1 <= MASTER_TICK_BUDGET
        &&& forall|i: int|
            0 <= i < chain.len() - 1 ==> (#[trigger] chain[i]).cpu.running && chain[i].ticked_to(
                chain[i + 1],
            )
    }

    /// Whether `after` may be the machine one step of the CPU after this one,
    /// whatever the observers do: it has as many observers; where the CPU only
    /// waits, or nothing observes the machine, it is the machine that the step
    /// makes; and where an instruction is due it is the machine that the
    /// instruction makes of some machine.
    #[verifier::opaque]
    pub open spec fn stepped_to(self, after: Self) -> bool {
        &&& !self.due() || self.unobserved() ==> after == self.stepped()
        &&& self.due() ==> exists|seen: Self| after == #[trigger] seen.executed()
        &&& after.peripherals is Some == self.peripherals is Some
        &&& after.observers().len() == self.observers().len()
    }

    /// Whether `chain` is a run of the CPU from this machine to `last`: it
    /// starts with this machine and ends with `last`, each machine in it but
    /// the last is running and is followed by a machine that a step may make
    /// of it, and there are no more steps than the budget allows.
    pub open spec fn walk(self, chain: Seq<Self>, last: Self) -> bool {
        &&& chain.len() >= 1 && chain[0] == self && chain.last() == last
        &&& chain.len() - 1 <= MASTER_TICK_BUDGET
        &&& forall|i: int|
            0 <= i < chain.len() - 1 ==> (#[trigger] chain[i]).cpu.running && chain[i].stepped_to(
                chain[i + 1],
            )
    }

    /// The machine, running.
    pub open spec fn started(self) -> Self {
        Nes { cpu: Nes2a03 { running: true, ..self.cpu }, ..self }
    }

    /// Resets the CPU and loads the program counter from the reset vector.
    pub fn reset(&mut self)
        ensures
            *final(self) == old(self).after_reset(),
    {
        self.cpu.registers.reset();
        self.cpu.cycles = STARTUP_CYCLES;
        let initial_pc = self.get_short(INITIAL_PC_LOCATION);
        self.set_pc(initial_pc);
    }

    /// Tells whether the next step of the CPU fetches an instruction.
    pub fn is_due(&self) -> (due: bool)
        ensures
            due == self.due(),
    {
        self.cpu.next_tick <= self.cpu.cycles
    }

    /// Fetches the instruction at the program counter and runs it.
    pub fn execute(&mut self)
        ensures
            *final(self) == old(self).executed(),
            same_fittings(*old(self), *final(self)),
    {
        reveal(Nes::executed);
        let opcode = self.peek_pc();
        self.cpu.registers.pc = self.cpu.registers.pc.wrapping_add(1);
        let instruction = opcode_entry(opcode);
        let cycles_spent = instruction.run(self);
        self.cpu.next_tick = self.cpu.cycles.wrapping_add(cycles_spent as u64);
    }

    /// The PPU's share of a tick of the master clock.
    fn clock_ppu(&mut self)
        ensures
            *final(self) == old(self).ppu_clocked(),
    {
        self.ppu.clock_counter = self.ppu.clock_counter.wrapping_add(1);
        if self.ppu.clock_counter >= PPU_DIVIDER {
            self.ppu.tick(&mut self.cartridge);
            self.ppu.clock_counter = self.ppu.clock_counter.wrapping_sub(PPU_DIVIDER);
        }
    }

    /// Counts a step of the CPU and tells whether it ended a frame.
    fn count_step(&mut self) -> (frame_ended: bool)
        ensures
            *final(self) == old(self).counted(),
            frame_ended == old(self).frame_ends(),
    {
        self.cpu.clock_counter = self.cpu.clock_counter.wrapping_sub(CPU_DIVIDER);
        self.ppu.frame_clock = self.ppu.frame_clock.wrapping_add(1);
        if self.ppu.frame_clock >= FRAME_CYCLES {
            self.ppu.frame_clock = self.ppu.frame_clock.wrapping_sub(FRAME_CYCLES);
            true
        } else {
            false
        }
    }

    /// Registers an observer after those that are registered already.
    pub fn add_peripheral(&mut self, p: P)
        ensures
            final(self).peripherals is Some,
            final(self).observers() == old(self).observers().push(p),
            final(self).same_machine(*old(self)),
    {
        match self.peripherals.take() {
            Some(mut list) => {
                list.push(p);
                self.peripherals = Some(list);
            },
            None => {
                let mut list = Vec::new();
                list.push(p);
                self.peripherals = Some(list);
            },
        }
    }

    /// This machine with one more observer.
    pub fn with_peripheral(self, p: P) -> (nes: Nes<P>)
        ensures
            nes.peripherals is Some,
            nes.observers() == self.observers().push(p),
            nes.same_machine(self),
    {
        let mut nes = self;
        nes.add_peripheral(p);
        nes
    }
}

/// Whether `after` has the observers, the controller ports and the three
/// counters of the clock of `before`, and a cartridge in its slot exactly when
/// `before` has one: every access to the bus and every instruction leaves
/// these as they are.
pub open spec fn same_fittings<P>(before: Nes<P>, after: Nes<P>) -> bool {
    &&& after.peripherals == before.peripherals
    &&& after.gamepads == before.gamepads
    &&& after.cartridge is Some == before.cartridge is Some
    &&& after.cpu.clock_counter == before.cpu.clock_counter
    &&& after.ppu.clock_counter == before.ppu.clock_counter
    &&& after.ppu.frame_clock == before.ppu.frame_clock
}

/// Reading a byte changes nothing around the machine and no register.
pub proof fn lemma_load_frame<P>(m: Nes<P>, address: u16)
    ensures
        same_fittings(m, m.load(address).1),
        m.load(address).1.regs() == m.regs(),
{
}

/// Reading a word changes nothing around the machine and no register.
pub proof fn lemma_load_short_frame<P>(m: Nes<P>, address: u16)
    ensures
        same_fittings(m, load_short(m, address).1),
        load_short(m, address).1.regs() == m.regs(),
{
    lemma_load_frame(m, address);
    lemma_load_frame(m.load(address).1, address.wrapping_add(1));
}

/// Resolving an addressing mode changes nothing around the machine, and of
/// the registers only the program counter.
pub proof fn lemma_resolved_frame<P>(m: Nes<P>, mode: u8)
    ensures
        same_fittings(m, m.resolved(mode).machine),
        m.resolved(mode).machine.regs() == (NesRegisters {
            pc: m.resolved(mode).machine.regs().pc,
            ..m.regs()
        }),
{
    reveal(Nes::resolved);
    let pc = m.regs().pc;
    if mode == IMMEDIATE {
    } else if mode == ZERO_PAGE || mode == ZERO_PAGE_X || mode == ZERO_PAGE_Y || mode == RELATIVE {
        lemma_load_frame(m, pc);
    } else if mode == ABSOLUTE || mode == ABSOLUTE_X || mode == ABSOLUTE_Y {
        lemma_load_short_frame(m, pc);
    } else if mode == INDIRECT {
        let (pointer, read) = load_short(m, pc);
        lemma_load_short_frame(m, pc);
        lemma_load_frame(read, pointer);
        lemma_load_frame(read.load(pointer).1, next_in_page(pointer));
    } else {
        let (operand, read) = m.load(pc);
        let pointer = if mode == INDEXED_INDIRECT {
            operand.wrapping_add(m.regs().x)
        } else {
            operand
        };
        lemma_load_frame(m, pc);
        lemma_load_frame(read, pointer as u16);
        lemma_load_frame(read.load(pointer as u16).1, pointer.wrapping_add(1) as u16);
    }
}

/// Reading an operand changes nothing around the machine, and of the
/// registers only the program counter.
pub proof fn lemma_operand_frame<P>(m: Nes<P>, mode: u8)
    ensures
        same_fittings(m, m.operand(mode).machine),
        m.operand(mode).machine.regs() == (NesRegisters {
            pc: m.operand(mode).machine.regs().pc,
            ..m.regs()
        }),
{
    lemma_resolved_frame(m, mode);
    lemma_load_frame(m.resolved(mode).machine, m.resolved(mode).address);
}

impl<P: NesPeripheral> Nes<P> {
    /// Tells every observer that a frame has ended. Nothing is known of what
    /// the observers do to the machine; without observers it stays as it is.
    pub fn on_frame(&mut self)
        ensures
            old(self).unobserved() ==> *final(self) == *old(self),
            final(self).peripherals is Some == old(self).peripherals is Some,
            final(self).observers().len() == old(self).observers().len(),
    {
        if let Some(mut list) = self.peripherals.take() {
            let ghost emptied = *self;
            let ghost registered = list;
            let mut i: usize = 0;
            while i < list.len()
                invariant
                    list@.len() == registered@.len(),
                    list@.len() == 0 ==> *self == emptied && list == registered,
                decreases list.len() - i,
            {
                list[i].on_vblank(self);
                i += 1;
            }
            self.peripherals = Some(list);
        }
    }

    /// Tells every observer that the next instruction is about to be fetched.
    fn notify_tick(&mut self)
        ensures
            old(self).unobserved() ==> *final(self) == *old(self),
            final(self).peripherals is Some == old(self).peripherals is Some,
            final(self).observers().len() == old(self).observers().len(),
    {
        if let Some(mut list) = self.peripherals.take() {
            let ghost emptied = *self;
            let ghost registered = list;
            let mut i: usize = 0;
            while i < list.len()
                invariant
                    list@.len() == registered@.len(),
                    list@.len() == 0 ==> *self == emptied && list == registered,
                decreases list.len() - i,
            {
                list[i].tick(self);
                i += 1;
            }
            self.peripherals = Some(list);
        }
    }

    /// Resets the machine and then tells every observer. Without observers the
    /// machine is left as the reset left it.
    pub fn init(&mut self)
        ensures
            old(self).unobserved() ==> *final(self) == old(self).after_reset(),
            final(self).peripherals is Some == old(self).peripherals is Some,
            final(self).observers().len() == old(self).observers().len(),
    {
        self.reset();
        if let Some(mut list) = self.peripherals.take() {
            let ghost emptied = *self;
            let ghost registered = list;
            let mut i: usize = 0;
            while i < list.len()
                invariant
                    list@.len() == registered@.len(),
                    list@.len() == 0 ==> *self == emptied && list == registered,
                decreases list.len() - i,
            {
                list[i].init(self);
                i += 1;
            }
            self.peripherals = Some(list);
        }
    }

    /// Tells every observer that the machine is shut down. Without observers
    /// the machine stays as it is.
    pub fn cleanup(&mut self)
        ensures
            old(self).unobserved() ==> *final(self) == *old(self),
            final(self).peripherals is Some == old(self).peripherals is Some,
            final(self).observers().len() == old(self).observers().len(),
    {
        if let Some(mut list) = self.peripherals.take() {
            let ghost emptied = *self;
            let ghost registered = list;
            let mut i: usize = 0;
            while i < list.len()
                invariant
                    list@.len() == registered@.len(),
                    list@.len() == 0 ==> *self == emptied && list == registered,
                decreases list.len() - i,
            {
                list[i].cleanup(self);
                i += 1;
            }
            self.peripherals = Some(list);
        }
    }

    /// One step of the CPU. While the cycles of the last instruction have not
    /// passed, the CPU waits for one cycle. Otherwise the observers are told,
    /// and then one instruction is fetched and run on the machine as they left
    /// it.
    pub fn step(&mut self)
        ensures
            !old(self).due() ==> *final(self) == old(self).idled(),
            old(self).due() && old(self).unobserved() ==> *final(self) == old(self).executed(),
            old(self).due() ==> exists|seen: Nes<P>| *final(self) == #[trigger] seen.executed(),
            old(self).unobserved() ==> *final(self) == old(self).stepped(),
            !old(self).due() || old(self).unobserved() ==> same_fittings(*old(self), *final(self)),
            final(self).peripherals is Some == old(self).peripherals is Some,
            final(self).observers().len() == old(self).observers().len(),
            old(self).stepped_to(*final(self)),
    {
        reveal(Nes::stepped_to);
        if self.cpu.next_tick <= self.cpu.cycles {
            self.notify_tick();
            let ghost seen = *self;
            self.execute();
            assert(*self == seen.executed());
        } else {
            self.cpu.cycles = self.cpu.cycles.wrapping_add(1);
        }
    }

    /// One tick of the master clock. The PPU ticks on every fourth tick. The
    /// CPU steps on every twelfth; that step is counted, and when it fills a
    /// frame the observers are told that the frame has ended.
    ///
    /// A tick on which no observer is called has the same result whether the
    /// machine is observed or not. Such a tick, and every tick of a machine
    /// without observers, leaves the counters of the clock below their limits
    /// where it found them there.
    pub fn master_tick(&mut self)
        ensures
            old(self).unobserved() || old(self).quiet_tick() ==> ({
                &&& *final(self) == old(self).master_ticked()
                &&& final(self).peripherals == old(self).peripherals
                &&& old(self).in_step() ==> final(self).in_step()
            }),
            final(self).peripherals is Some == old(self).peripherals is Some,
            final(self).observers().len() == old(self).observers().len(),
            old(self).ticked_to(*final(self)),
    {
        reveal(Nes::ticked_to);
        self.clock_ppu();
        self.cpu.clock_counter = self.cpu.clock_counter.wrapping_add(1);
        if self.cpu.clock_counter >= CPU_DIVIDER {
            self.step();
            let frame_ended = self.count_step();
            if frame_ended {
                self.on_frame();
            }
        }
    }

    /// Starts the machine and steps the CPU until something stops the
    /// machine: a halting instruction, an access that no device serves, or an
    /// observer. The PPU is not clocked. The run also ends when the budget of
    /// steps is used up.
    ///
    /// Whatever the observers do, the run is a chain of steps from the started
    /// machine, and it ends only on a machine that has stopped or when the
    /// budget is used up.
    pub fn run_until_halt(&mut self)
        ensures
            old(self).unobserved() ==> *final(self) == old(self).started().run(
                MASTER_TICK_BUDGET as nat,
            ),
            exists|chain: Seq<Self>|
                #[trigger] old(self).started().walk(chain, *final(self)) && (chain.len() - 1
                    == MASTER_TICK_BUDGET || !final(self).cpu.running),
            final(self).peripherals is Some == old(self).peripherals is Some,
            final(self).observers().len() == old(self).observers().len(),
    {
        self.cpu.running = true;
        let ghost start = *self;
        let ghost mut chain: Seq<Self> = seq![start];
        let mut budget: u64 = MASTER_TICK_BUDGET;
        while self.cpu.running && budget > 0
            invariant
                start == old(self).started(),
                old(self).unobserved() ==> self.unobserved() && self.run(budget as nat)
                    == start.run(MASTER_TICK_BUDGET as nat),
                chain.len() - 1 + budget == MASTER_TICK_BUDGET,
                start.walk(chain, *self),
                self.peripherals is Some == old(self).peripherals is Some,
                self.observers().len() == old(self).observers().len(),
            decreases budget,
        {
            let ghost before = *self;
            let ghost walked = chain;
            self.step();
            budget -= 1;
            proof {
                chain = walked.push(*self);
                assert forall|i: int| 0 <= i < chain.len() - 1 implies (#[trigger] chain[i]).cpu.running
                    && chain[i].stepped_to(chain[i + 1]) by {
                    if i < walked.len() - 1 {
                        assert(walked[i].cpu.running && walked[i].stepped_to(walked[i + 1]));
                    } else {
                        assert(chain[i] == before);
                    }
                }
            }
        }
    }

    /// Starts the machine and drives it by the master clock until something
    /// stops it: a halting instruction, an access that no device serves, or
    /// an observer. The run also ends when the budget of master ticks is used
    /// up.
    ///
    /// Whatever the observers do, the run is a chain of ticks from the started
    /// machine, and it ends only on a machine that has stopped or when the
    /// budget is used up.
    pub fn master_clock_drive(&mut self)
        ensures
            old(self).unobserved() ==> *final(self) == old(self).started().driven(
                MASTER_TICK_BUDGET as nat,
            ),
            exists|chain: Seq<Self>|
                #[trigger] old(self).started().drive(chain, *final(self)) && (chain.len() - 1
                    == MASTER_TICK_BUDGET || !final(self).cpu.running),
            final(self).peripherals is Some == old(self).peripherals is Some,
            final(self).observers().len() == old(self).observers().len(),
    {
        self.cpu.running = true;
        let ghost start = *self;
        let ghost mut chain: Seq<Self> = seq![start];
        let mut budget: u64 = MASTER_TICK_BUDGET;
        while self.cpu.running && budget > 0
            invariant
                start == old(self).started(),
                old(self).unobserved() ==> self.unobserved() && self.driven(budget as nat)
                    == start.driven(MASTER_TICK_BUDGET as nat),
                chain.len() - 1 + budget == MASTER_TICK_BUDGET,
                start.drive(chain, *self),
                self.peripherals is Some == old(self).peripherals is Some,
                self.observers().len() == old(self).observers().len(),
            decreases budget,
        {
            let ghost before = *self;
            let ghost driven = chain;
            self.master_tick();
            budget -= 1;
            proof {
                chain = driven.push(*self);
                assert forall|i: int| 0 <= i < chain.len() - 1 implies (#[trigger] chain[i]).cpu.running
                    && chain[i].ticked_to(chain[i + 1]) by {
                    if i < driven.len() - 1 {
                        assert(driven[i].cpu.running && driven[i].ticked_to(driven[i + 1]));
                    } else {
                        assert(chain[i] == before);
                    }
                }
            }
        }
    }
}

} // verus!
