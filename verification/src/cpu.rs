//! The 2A03 register file: six registers and the status flags.

use vstd::prelude::*;

verus! {

/// Value of the stack pointer after reset.
pub const STACK_INITIAL: u8 = 0xFD;

/// Value of the status register after reset.
pub const STATUS_INITIAL: u8 = 0x24;

pub const FLAG_CARRY: u8 = 0x01;

pub const FLAG_ZERO: u8 = 0x02;

pub const FLAG_INTERRUPT: u8 = 0x04;

pub const FLAG_DECIMAL: u8 = 0x08;

/// Low bit of the B flag; it exists only in copies of the status on the stack.
pub const FLAG_BL: u8 = 0x10;

/// High bit of the B flag; it exists only in copies of the status on the stack.
pub const FLAG_BH: u8 = 0x20;

pub const FLAG_OVERFLOW: u8 = 0x40;

pub const FLAG_NEGATIVE: u8 = 0x80;

/// Whether every bit of `flag` is set in the status `p`.
pub open spec fn flag_set(p: u8, flag: u8) -> bool {
    p & flag == flag
}

/// The status `p` with the bits of `flag` set when `on`, cleared otherwise.
pub open spec fn with_flag(p: u8, flag: u8, on: bool) -> u8 {
    if on {
        p | flag
    } else {
        p & !flag
    }
}

/// The status `p` with Z and N taken from `value`: Z when it is zero, N when its
/// bit 7 is set, that is when it is `$80` or more.
pub open spec fn zn_flags(p: u8, value: u8) -> u8 {
    with_flag(with_flag(p, FLAG_ZERO, value == 0), FLAG_NEGATIVE, value >= 0x80)
}

/// The copy of the status `p` that a software push writes: both B bits set.
pub open spec fn stack_status(p: u8) -> u8 {
    p | FLAG_BL | FLAG_BH
}

/// The status after pulling `pulled` from the stack: every bit comes from `pulled`
/// but the two B bits, which stay as they are in `p`.
pub open spec fn restored_status(p: u8, pulled: u8) -> u8 {
    (pulled & !(FLAG_BH | FLAG_BL)) | (p & (FLAG_BH | FLAG_BL))
}

/// The registers of the CPU.
#[derive(Clone, Copy, PartialEq, Eq, Structural, Debug)]
pub struct NesRegisters {
    /// program counter
    pub pc: u16,
    /// stack pointer, an offset into page `$0100`
    pub sp: u8,
    /// accumulator
    pub a: u8,
    /// index x
    pub x: u8,
    /// index y
    pub y: u8,
    /// processor status
    pub p: u8,
}

impl Default for NesRegisters {
    fn default() -> (r: NesRegisters)
        ensures
            r == NesRegisters::zeroed(),
    {
        NesRegisters { pc: 0, sp: 0, a: 0, x: 0, y: 0, p: 0 }
    }
}

impl NesRegisters {
    /// The registers of a machine that was created and not yet reset.
    pub open spec fn zeroed() -> NesRegisters {
        NesRegisters { pc: 0, sp: 0, a: 0, x: 0, y: 0, p: 0 }
    }

    /// These registers with the status replaced.
    pub open spec fn status(self, p: u8) -> NesRegisters {
        NesRegisters { p, ..self }
    }

    /// These registers after a reset; the program counter is loaded separately.
    pub open spec fn after_reset(self) -> NesRegisters {
        NesRegisters { pc: self.pc, sp: STACK_INITIAL, a: 0, x: 0, y: 0, p: STATUS_INITIAL }
    }

    pub open spec fn zero(self) -> bool {
        flag_set(self.p, FLAG_ZERO)
    }

    pub open spec fn negative(self) -> bool {
        flag_set(self.p, FLAG_NEGATIVE)
    }

    pub open spec fn carry(self) -> bool {
        flag_set(self.p, FLAG_CARRY)
    }

    pub open spec fn overflow(self) -> bool {
        flag_set(self.p, FLAG_OVERFLOW)
    }

    /// The carry as a number: 1 when C is set, 0 otherwise.
    pub open spec fn carry_in(self) -> int {
        if self.carry() {
            1
        } else {
            0
        }
    }

    /// The registers after `value` was loaded into A: Z and N follow it.
    pub open spec fn load_a(self, value: u8) -> NesRegisters {
        NesRegisters { a: value, p: zn_flags(self.p, value), ..self }
    }

    /// The registers after `value` was loaded into X: Z and N follow it.
    pub open spec fn load_x(self, value: u8) -> NesRegisters {
        NesRegisters { x: value, p: zn_flags(self.p, value), ..self }
    }

    /// The registers after `value` was loaded into Y: Z and N follow it.
    pub open spec fn load_y(self, value: u8) -> NesRegisters {
        NesRegisters { y: value, p: zn_flags(self.p, value), ..self }
    }

    /// The registers with Z and N taken from `value`.
    pub open spec fn flagged(self, value: u8) -> NesRegisters {
        self.status(zn_flags(self.p, value))
    }

    /// The registers with C set when `on` and cleared otherwise.
    pub open spec fn carrying(self, on: bool) -> NesRegisters {
        self.status(with_flag(self.p, FLAG_CARRY, on))
    }

    /// The registers after `input` and the carry were added to A. A takes the
    /// low byte of the sum; Z and N follow it, C is set when the sum does not
    /// fit in a byte, and V when the sign of the result differs from the sign
    /// of both A and `input`.
    pub open spec fn added(self, input: u8) -> NesRegisters {
        let total = self.a + input + self.carry_in();
        let low = (total % 256) as u8;
        let p = with_flag(
            with_flag(zn_flags(self.p, low), FLAG_CARRY, total > 0xff),
            FLAG_OVERFLOW,
            (input ^ low) & (low ^ self.a) & 0x80 != 0,
        );
        NesRegisters { a: low, p, ..self }
    }

    /// The registers after `input` was subtracted from A with borrow: the
    /// complement of `input` is added.
    pub open spec fn subtracted(self, input: u8) -> NesRegisters {
        self.added((255 - input) as u8)
    }

    /// The registers after the value `register` of a register was compared
    /// with `value`: C is set when `register` is not below `value`; Z and N
    /// follow the low byte of the difference.
    pub open spec fn compared(self, register: u8, value: u8) -> NesRegisters {
        self.carrying(register >= value).flagged(register.wrapping_sub(value))
    }

    /// The registers after `value` was tested against A: V and N are bits 6
    /// and 7 of `value`, and Z tells whether A and `value` share no bit.
    pub open spec fn bit_tested(self, value: u8) -> NesRegisters {
        self.status(
            with_flag(
                with_flag(
                    with_flag(self.p, FLAG_OVERFLOW, value & FLAG_OVERFLOW != 0),
                    FLAG_NEGATIVE,
                    value >= 0x80,
                ),
                FLAG_ZERO,
                value & self.a == 0,
            ),
        )
    }

    /// Sets every register but the program counter to its start-up value.
    pub fn reset(&mut self)
        ensures
            *final(self) == old(self).after_reset(),
    {
        self.a = 0;
        self.x = 0;
        self.y = 0;
        self.sp = STACK_INITIAL;
        self.p = STATUS_INITIAL;
    }

    pub fn status_zero(&self) -> (set: bool)
        ensures
            set == self.zero(),
    {
        self.p & FLAG_ZERO == FLAG_ZERO
    }

    pub fn status_negative(&self) -> (set: bool)
        ensures
            set == self.negative(),
    {
        self.p & FLAG_NEGATIVE == FLAG_NEGATIVE
    }

    pub fn status_carry(&self) -> (set: bool)
        ensures
            set == self.carry(),
    {
        self.p & FLAG_CARRY == FLAG_CARRY
    }

    pub fn status_overflow(&self) -> (set: bool)
        ensures
            set == self.overflow(),
    {
        self.p & FLAG_OVERFLOW == FLAG_OVERFLOW
    }

    pub fn with_a(self, value: u8) -> (r: NesRegisters)
        ensures
            r == (NesRegisters { a: value, ..self }),
    {
        let mut r = self;
        r.a = value;
        r
    }

    pub fn with_x(self, value: u8) -> (r: NesRegisters)
        ensures
            r == (NesRegisters { x: value, ..self }),
    {
        let mut r = self;
        r.x = value;
        r
    }

    pub fn with_flags_from(self, value: u8) -> (r: NesRegisters)
        ensures
            r == self.status(zn_flags(self.p, value)),
    {
        let mut r = self;
        r.set_flags(value);
        r
    }

    pub fn with_pc(self, value: u16) -> (r: NesRegisters)
        ensures
            r == (NesRegisters { pc: value, ..self }),
    {
        let mut r = self;
        r.set_pc(value);
        r
    }

    pub fn set_pc(&mut self, value: u16)
        ensures
            *final(self) == (NesRegisters { pc: value, ..*old(self) }),
    {
        self.pc = value;
    }

    pub fn get_pc(&self) -> (pc: u16)
        ensures
            pc == self.pc,
    {
        self.pc
    }

    /// Sets Z and N from `value`.
    pub fn set_flags(&mut self, value: u8)
        ensures
            *final(self) == old(self).status(zn_flags(old(self).p, value)),
    {
        self.set_zero_from(value);
        self.set_negative_from(value);
    }

    /// Sets V to bit 6 of `test`.
    pub fn set_overflow_from(&mut self, test: u8)
        ensures
            *final(self) == old(self).status(
                with_flag(old(self).p, FLAG_OVERFLOW, test & FLAG_OVERFLOW != 0),
            ),
    {
        if (test & FLAG_OVERFLOW) != 0 {
            self.p |= FLAG_OVERFLOW;
        } else {
            self.p &= !FLAG_OVERFLOW;
        }
    }

    /// Sets N to bit 7 of `test`.
    pub fn set_negative_from(&mut self, test: u8)
        ensures
            *final(self) == old(self).status(with_flag(old(self).p, FLAG_NEGATIVE, test >= 0x80)),
    {
        if test >= 0x80 {
            self.p |= FLAG_NEGATIVE;
        } else {
            self.p &= !FLAG_NEGATIVE;
        }
    }

    /// Sets Z when `test` is zero and clears it otherwise.
    pub fn set_zero_from(&mut self, test: u8)
        ensures
            *final(self) == old(self).status(with_flag(old(self).p, FLAG_ZERO, test == 0)),
    {
        if test == 0 {
            self.p |= FLAG_ZERO;
        } else {
            self.p &= !FLAG_ZERO;
        }
    }

    /// Sets C when `on` and clears it otherwise.
    pub fn assign_carry(&mut self, on: bool)
        ensures
            *final(self) == old(self).status(with_flag(old(self).p, FLAG_CARRY, on)),
    {
        if on {
            self.p |= FLAG_CARRY;
        } else {
            self.p &= !FLAG_CARRY;
        }
    }

    /// Sets V when `on` and clears it otherwise.
    pub fn assign_overflow(&mut self, on: bool)
        ensures
            *final(self) == old(self).status(with_flag(old(self).p, FLAG_OVERFLOW, on)),
    {
        if on {
            self.p |= FLAG_OVERFLOW;
        } else {
            self.p &= !FLAG_OVERFLOW;
        }
    }

    pub fn set_carry(&mut self)
        ensures
            *final(self) == old(self).status(with_flag(old(self).p, FLAG_CARRY, true)),
    {
        self.p |= FLAG_CARRY;
    }

    pub fn clear_carry(&mut self)
        ensures
            *final(self) == old(self).status(with_flag(old(self).p, FLAG_CARRY, false)),
    {
        self.p &= !FLAG_CARRY;
    }

    pub fn set_interrupt(&mut self)
        ensures
            *final(self) == old(self).status(with_flag(old(self).p, FLAG_INTERRUPT, true)),
    {
        self.p |= FLAG_INTERRUPT;
    }

    pub fn clear_interrupt(&mut self)
        ensures
            *final(self) == old(self).status(with_flag(old(self).p, FLAG_INTERRUPT, false)),
    {
        self.p &= !FLAG_INTERRUPT;
    }

    pub fn set_decimal(&mut self)
        ensures
            *final(self) == old(self).status(with_flag(old(self).p, FLAG_DECIMAL, true)),
    {
        self.p |= FLAG_DECIMAL;
    }

    pub fn clear_decimal(&mut self)
        ensures
            *final(self) == old(self).status(with_flag(old(self).p, FLAG_DECIMAL, false)),
    {
        self.p &= !FLAG_DECIMAL;
    }

    pub fn set_overflow(&mut self)
        ensures
            *final(self) == old(self).status(with_flag(old(self).p, FLAG_OVERFLOW, true)),
    {
        self.p |= FLAG_OVERFLOW;
    }

    pub fn clear_overflow(&mut self)
        ensures
            *final(self) == old(self).status(with_flag(old(self).p, FLAG_OVERFLOW, false)),
    {
        self.p &= !FLAG_OVERFLOW;
    }

    pub fn set_negative(&mut self)
        ensures
            *final(self) == old(self).status(with_flag(old(self).p, FLAG_NEGATIVE, true)),
    {
        self.p |= FLAG_NEGATIVE;
    }

    pub fn clear_negative(&mut self)
        ensures
            *final(self) == old(self).status(with_flag(old(self).p, FLAG_NEGATIVE, false)),
    {
        self.p &= !FLAG_NEGATIVE;
    }

    /// The carry as a number: 1 when C is set, 0 otherwise.
    pub fn get_carry(&self) -> (c: u8)
        ensures
            c == self.p & FLAG_CARRY,
    {
        self.p & FLAG_CARRY
    }

    pub fn set_a(&mut self, value: u8)
        ensures
            *final(self) == (NesRegisters { a: value, ..*old(self) }),
    {
        self.a = value;
    }

    pub fn set_p(&mut self, value: u8)
        ensures
            *final(self) == old(self).status(value),
    {
        self.p = value;
    }

    /// The status as a push by software writes it to the stack.
    pub fn get_status_stack(&self) -> (value: u8)
        ensures
            value == stack_status(self.p),
    {
        self.p | FLAG_BL | FLAG_BH
    }

    /// Takes the status from a value pulled off the stack; the B bits stay.
    pub fn set_status_stack(&mut self, value: u8)
        ensures
            *final(self) == old(self).status(restored_status(old(self).p, value)),
    {
        let current_b = self.p & (FLAG_BH | FLAG_BL);
        self.p = (value & !(FLAG_BH | FLAG_BL)) | current_b;
    }
}

/// The CPU: its registers and the counters that pace it.
#[derive(Clone, Copy)]
pub struct Nes2a03 {
    /// whether the machine keeps running
    pub running: bool,
    /// CPU cycles counted so far
    pub cycles: u64,
    /// the cycle at which the next instruction is fetched
    pub next_tick: u64,
    /// divider of the master clock
    pub clock_counter: u8,
    /// the register file
    pub registers: NesRegisters,
}

impl Default for Nes2a03 {
    fn default() -> (cpu: Nes2a03)
        ensures
            cpu == Nes2a03::idle(),
    {
        Nes2a03 {
            running: false,
            cycles: 0,
            next_tick: 0,
            clock_counter: 0,
            registers: NesRegisters { pc: 0, sp: 0, a: 0, x: 0, y: 0, p: 0 },
        }
    }
}

impl Nes2a03 {
    /// A CPU that was created and not yet reset.
    pub open spec fn idle() -> Nes2a03 {
        Nes2a03 {
            running: false,
            cycles: 0,
            next_tick: 0,
            clock_counter: 0,
            registers: NesRegisters::zeroed(),
        }
    }

    pub fn get_cycles(&self) -> (cycles: u64)
        ensures
            cycles == self.cycles,
    {
        self.cycles
    }
}

/// Something that holds the registers of a CPU.
///
/// `registers` and `with_registers` are the model: what the holder holds, and
/// the holder with other registers in their place. The two laws say that the
/// registers are a part of the holder that can be replaced freely.
pub trait RegisterAccess: Sized {
    /// The registers that are held.
    spec fn registers(&self) -> NesRegisters;

    /// The holder with `registers` in place of its own.
    spec fn with_registers(self, registers: NesRegisters) -> Self;

    /// Registers that were put in place are the registers that are held.
    proof fn lemma_read_back(self, registers: NesRegisters)
        ensures
            self.with_registers(registers).registers() == registers,
    ;

    /// Registers that are put in place take the place of those put earlier.
    proof fn lemma_overwrite(self, first: NesRegisters, second: NesRegisters)
        ensures
            self.with_registers(first).with_registers(second) == self.with_registers(second),
    ;

    fn get_a(&self) -> (value: u8)
        ensures
            value == self.registers().a,
    ;

    fn get_x(&self) -> (value: u8)
        ensures
            value == self.registers().x,
    ;

    fn get_y(&self) -> (value: u8)
        ensures
            value == self.registers().y,
    ;

    fn get_p(&self) -> (value: u8)
        ensures
            value == self.registers().p,
    ;

    fn get_sp(&self) -> (value: u8)
        ensures
            value == self.registers().sp,
    ;

    fn get_pc(&self) -> (value: u16)
        ensures
            value == self.registers().pc,
    ;

    /// Sets A and gives the value that it held.
    fn set_a(&mut self, value: u8) -> (held: u8)
        ensures
            held == old(self).registers().a,
            *final(self) == old(self).with_registers(
                NesRegisters { a: value, ..old(self).registers() },
            ),
    ;

    /// Sets X and gives the value that it held.
    fn set_x(&mut self, value: u8) -> (held: u8)
        ensures
            held == old(self).registers().x,
            *final(self) == old(self).with_registers(
                NesRegisters { x: value, ..old(self).registers() },
            ),
    ;

    /// Sets Y and gives the value that it held.
    fn set_y(&mut self, value: u8) -> (held: u8)
        ensures
            held == old(self).registers().y,
            *final(self) == old(self).with_registers(
                NesRegisters { y: value, ..old(self).registers() },
            ),
    ;

    /// Sets the status and gives the value that it held.
    fn set_p(&mut self, value: u8) -> (held: u8)
        ensures
            held == old(self).registers().p,
            *final(self) == old(self).with_registers(old(self).registers().status(value)),
    ;

    /// Sets the stack pointer and gives the value that it held.
    fn set_sp(&mut self, value: u8) -> (held: u8)
        ensures
            held == old(self).registers().sp,
            *final(self) == old(self).with_registers(
                NesRegisters { sp: value, ..old(self).registers() },
            ),
    ;

    /// Sets the program counter and gives the value that it held.
    fn set_pc(&mut self, value: u16) -> (held: u16)
        ensures
            held == old(self).registers().pc,
            *final(self) == old(self).with_registers(
                NesRegisters { pc: value, ..old(self).registers() },
            ),
    ;

    /// Sets every register but the program counter to its start-up value.
    fn reset(&mut self)
        ensures
            *final(self) == old(self).with_registers(old(self).registers().after_reset()),
    {
        let ghost start = *self;
        let ghost r0 = start.registers();
        let ghost r1 = NesRegisters { a: 0, ..r0 };
        let ghost r2 = NesRegisters { x: 0, ..r1 };
        let ghost r3 = NesRegisters { y: 0, ..r2 };
        let ghost r4 = NesRegisters { sp: STACK_INITIAL, ..r3 };
        let ghost r5 = r4.status(STATUS_INITIAL);
        proof {
            start.lemma_read_back(r1);
            start.lemma_read_back(r2);
            start.lemma_read_back(r3);
            start.lemma_read_back(r4);
            start.lemma_overwrite(r1, r2);
            start.lemma_overwrite(r2, r3);
            start.lemma_overwrite(r3, r4);
            start.lemma_overwrite(r4, r5);
        }
        self.set_a(0);
        self.set_x(0);
        self.set_y(0);
        self.set_sp(STACK_INITIAL);
        self.set_p(STATUS_INITIAL);
    }

    fn status_zero(&self) -> (set: bool)
        ensures
            set == self.registers().zero(),
    {
        self.get_p() & FLAG_ZERO == FLAG_ZERO
    }

    fn status_negative(&self) -> (set: bool)
        ensures
            set == self.registers().negative(),
    {
        self.get_p() & FLAG_NEGATIVE == FLAG_NEGATIVE
    }

    fn status_carry(&self) -> (set: bool)
        ensures
            set == self.registers().carry(),
    {
        self.get_p() & FLAG_CARRY == FLAG_CARRY
    }

    /// The status as a push by software writes it to the stack.
    fn get_status_stack(&self) -> (value: u8)
        ensures
            value == stack_status(self.registers().p),
    {
        self.get_p() | FLAG_BL | FLAG_BH
    }

    /// Takes the status from a value pulled off the stack; the B bits stay.
    fn set_status_stack(&mut self, value: u8)
        ensures
            *final(self) == old(self).with_registers(
                old(self).registers().status(restored_status(old(self).registers().p, value)),
            ),
    {
        let current_b = self.get_p() & (FLAG_BH | FLAG_BL);
        self.set_p((value & !(FLAG_BH | FLAG_BL)) | current_b);
    }

    /// Sets Z and N from `value`.
    fn set_flags_from(&mut self, value: u8)
        ensures
            *final(self) == old(self).with_registers(old(self).registers().flagged(value)),
    {
        let ghost start = *self;
        let ghost r0 = start.registers();
        let ghost r1 = r0.status(with_flag(r0.p, FLAG_ZERO, value == 0));
        proof {
            start.lemma_read_back(r1);
            start.lemma_overwrite(r1, r0.flagged(value));
        }
        self.set_zero_from(value);
        self.set_negative_from(value);
    }

    /// Sets V to bit 6 of `test`.
    fn set_overflow_from(&mut self, test: u8)
        ensures
            *final(self) == old(self).with_registers(
                old(self).registers().status(
                    with_flag(old(self).registers().p, FLAG_OVERFLOW, test & FLAG_OVERFLOW != 0),
                ),
            ),
    {
        if (test & FLAG_OVERFLOW) != 0 {
            self.set_p(self.get_p() | FLAG_OVERFLOW);
        } else {
            self.set_p(self.get_p() & !FLAG_OVERFLOW);
        }
    }

    /// Sets N to bit 7 of `test`.
    fn set_negative_from(&mut self, test: u8)
        ensures
            *final(self) == old(self).with_registers(
                old(self).registers().status(
                    with_flag(old(self).registers().p, FLAG_NEGATIVE, test >= 0x80),
                ),
            ),
    {
        if test >= 0x80 {
            self.set_negative();
        } else {
            self.clear_negative();
        }
    }

    /// Sets Z when `test` is zero and clears it otherwise.
    fn set_zero_from(&mut self, test: u8)
        ensures
            *final(self) == old(self).with_registers(
                old(self).registers().status(
                    with_flag(old(self).registers().p, FLAG_ZERO, test == 0),
                ),
            ),
    {
        if test == 0 {
            self.set_zero()
        } else {
            self.clear_zero()
        }
    }

    fn set_zero(&mut self)
        ensures
            *final(self) == old(self).with_registers(
                old(self).registers().status(with_flag(old(self).registers().p, FLAG_ZERO, true)),
            ),
    {
        self.set_p(self.get_p() | FLAG_ZERO);
    }

    fn clear_zero(&mut self)
        ensures
            *final(self) == old(self).with_registers(
                old(self).registers().status(with_flag(old(self).registers().p, FLAG_ZERO, false)),
            ),
    {
        self.set_p(self.get_p() & !FLAG_ZERO);
    }

    fn set_carry(&mut self)
        ensures
            *final(self) == old(self).with_registers(
                old(self).registers().status(with_flag(old(self).registers().p, FLAG_CARRY, true)),
            ),
    {
        self.set_p(self.get_p() | FLAG_CARRY);
    }

    fn clear_carry(&mut self)
        ensures
            *final(self) == old(self).with_registers(
                old(self).registers().status(with_flag(old(self).registers().p, FLAG_CARRY, false)),
            ),
    {
        self.set_p(self.get_p() & !FLAG_CARRY);
    }

    fn set_overflow(&mut self)
        ensures
            *final(self) == old(self).with_registers(
                old(self).registers().status(with_flag(old(self).registers().p, FLAG_OVERFLOW, true)),
            ),
    {
        self.set_p(self.get_p() | FLAG_OVERFLOW);
    }

    fn clear_overflow(&mut self)
        ensures
            *final(self) == old(self).with_registers(
                old(self).registers().status(with_flag(old(self).registers().p, FLAG_OVERFLOW, false)),
            ),
    {
        self.set_p(self.get_p() & !FLAG_OVERFLOW);
    }

    fn set_negative(&mut self)
        ensures
            *final(self) == old(self).with_registers(
                old(self).registers().status(with_flag(old(self).registers().p, FLAG_NEGATIVE, true)),
            ),
    {
        self.set_p(self.get_p() | FLAG_NEGATIVE);
    }

    fn clear_negative(&mut self)
        ensures
            *final(self) == old(self).with_registers(
                old(self).registers().status(with_flag(old(self).registers().p, FLAG_NEGATIVE, false)),
            ),
    {
        self.set_p(self.get_p() & !FLAG_NEGATIVE);
    }

    fn set_decimal(&mut self)
        ensures
            *final(self) == old(self).with_registers(
                old(self).registers().status(with_flag(old(self).registers().p, FLAG_DECIMAL, true)),
            ),
    {
        self.set_p(self.get_p() | FLAG_DECIMAL);
    }

    fn clear_decimal(&mut self)
        ensures
            *final(self) == old(self).with_registers(
                old(self).registers().status(with_flag(old(self).registers().p, FLAG_DECIMAL, false)),
            ),
    {
        self.set_p(self.get_p() & !FLAG_DECIMAL);
    }

    /// The carry bit of the status: 1 when C is set, 0 otherwise.
    fn get_carry(&self) -> (carry: u8)
        ensures
            carry == self.registers().p & FLAG_CARRY,
    {
        self.get_p() & FLAG_CARRY
    }

    fn increment_a(&mut self)
        ensures
            *final(self) == old(self).with_registers(
                NesRegisters { a: old(self).registers().a.wrapping_add(1), ..old(self).registers() },
            ),
    {
        self.set_a(self.get_a().wrapping_add(1));
    }

    fn increment_pc(&mut self)
        ensures
            *final(self) == old(self).with_registers(
                NesRegisters {
                    pc: old(self).registers().pc.wrapping_add(1),
                    ..old(self).registers()
                },
            ),
    {
        self.set_pc(self.get_pc().wrapping_add(1));
    }

    fn increment_x(&mut self)
        ensures
            *final(self) == old(self).with_registers(
                NesRegisters { x: old(self).registers().x.wrapping_add(1), ..old(self).registers() },
            ),
    {
        self.set_x(self.get_x().wrapping_add(1));
    }

    fn increment_y(&mut self)
        ensures
            *final(self) == old(self).with_registers(
                NesRegisters { y: old(self).registers().y.wrapping_add(1), ..old(self).registers() },
            ),
    {
        self.set_y(self.get_y().wrapping_add(1));
    }
}

impl RegisterAccess for Nes2a03 {
    open spec fn registers(&self) -> NesRegisters {
        self.registers
    }

    open spec fn with_registers(self, registers: NesRegisters) -> Self {
        Nes2a03 { registers, ..self }
    }

    proof fn lemma_read_back(self, registers: NesRegisters) {
    }

    proof fn lemma_overwrite(self, first: NesRegisters, second: NesRegisters) {
    }

    fn get_a(&self) -> (value: u8) {
        self.registers.a
    }

    fn get_x(&self) -> (value: u8) {
        self.registers.x
    }

    fn get_y(&self) -> (value: u8) {
        self.registers.y
    }

    fn get_p(&self) -> (value: u8) {
        self.registers.p
    }

    fn get_sp(&self) -> (value: u8) {
        self.registers.sp
    }

    fn get_pc(&self) -> (value: u16) {
        self.registers.pc
    }

    fn set_a(&mut self, value: u8) -> (held: u8) {
        let old = self.registers.a;
        self.registers.a = value;
        old
    }

    fn set_x(&mut self, value: u8) -> (held: u8) {
        let old = self.registers.x;
        self.registers.x = value;
        old
    }

    fn set_y(&mut self, value: u8) -> (held: u8) {
        let old = self.registers.y;
        self.registers.y = value;
        old
    }

    fn set_p(&mut self, value: u8) -> (held: u8) {
        let old = self.registers.p;
        self.registers.p = value;
        old
    }

    fn set_sp(&mut self, value: u8) -> (held: u8) {
        let old = self.registers.sp;
        self.registers.sp = value;
        old
    }

    fn set_pc(&mut self, value: u16) -> (held: u16) {
        let old = self.registers.pc;
        self.registers.pc = value;
        old
    }
}

} // verus!
