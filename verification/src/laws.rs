//! What holds of the instructions whatever the machine is in.

use vstd::prelude::*;
use crate::bus::APU_END;
use crate::bus::Bus;
use crate::bus::high_byte;
use crate::bus::lemma_ram_cell;
use crate::bus::lemma_word_round_trip;
use crate::bus::low_byte;
use crate::bus::ram_cell;
use crate::bus::RAM_END;
use crate::cpu::FLAG_BH;
use crate::cpu::FLAG_BL;
use crate::cpu::FLAG_CARRY;
use crate::cpu::FLAG_NEGATIVE;
use crate::cpu::FLAG_OVERFLOW;
use crate::cpu::flag_set;
use crate::cpu::FLAG_ZERO;
use crate::cpu::Nes2a03;
use crate::cpu::NesRegisters;
use crate::cpu::stack_status;
use crate::cpu::with_flag;
use crate::cpu::zn_flags;
use crate::nes::ABSOLUTE;
use crate::nes::addressable;
use crate::nes::CPU_DIVIDER;
use crate::nes::IMMEDIATE;
use crate::nes::INDIRECT;
use crate::nes::lemma_load_frame;
use crate::nes::lemma_operand_frame;
use crate::nes::Nes;
use crate::nes::page_sensitive;
use crate::nes::STACK_OFFSET;
use crate::opcodes::adc_effect;
use crate::opcodes::branched;
use crate::opcodes::compare_effect;
use crate::opcodes::displacement;
use crate::opcodes::jsr_effect;
use crate::opcodes::lda_effect;
use crate::opcodes::pha_effect;
use crate::opcodes::php_effect;
use crate::opcodes::pla_effect;
use crate::opcodes::plp_effect;
use crate::opcodes::rts_effect;
use crate::ppu::Nes2c02;

verus! {

/// Whether `flag` is one of the eight bits of the status.
pub open spec fn single_flag(flag: u8) -> bool {
    flag == 0x01 || flag == 0x02 || flag == 0x04 || flag == 0x08 || flag == 0x10 || flag == 0x20
        || flag == 0x40 || flag == 0x80
}

proof fn lemma_flag_bits(p: u8, flag: u8, other: u8)
    by (bit_vector)
    requires
        flag == 0x01 || flag == 0x02 || flag == 0x04 || flag == 0x08 || flag == 0x10 || flag == 0x20
            || flag == 0x40 || flag == 0x80,
        other == 0x01 || other == 0x02 || other == 0x04 || other == 0x08 || other == 0x10 || other
            == 0x20 || other == 0x40 || other == 0x80,
        other != flag,
    ensures
        (p | flag) & flag == flag,
        (p & !flag) & flag != flag,
        (p | flag) & other == p & other,
        (p & !flag) & other == p & other,
{
}

/// Writing a flag of the status sets that flag as asked and leaves every other
/// flag as it is.
pub proof fn lemma_flag_written(p: u8, flag: u8, on: bool, other: u8)
    requires
        single_flag(flag),
        single_flag(other),
        other != flag,
    ensures
        flag_set(with_flag(p, flag, on), flag) == on,
        flag_set(with_flag(p, flag, on), other) == flag_set(p, other),
{
    lemma_flag_bits(p, flag, other);
}

/// After Z and N were taken from a value, Z tells whether the value is zero
/// and N whether it is `$80` or more; C and V are as before.
pub proof fn lemma_zn_flags(p: u8, value: u8)
    ensures
        flag_set(zn_flags(p, value), FLAG_ZERO) == (value == 0),
        flag_set(zn_flags(p, value), FLAG_NEGATIVE) == (value >= 0x80),
        flag_set(zn_flags(p, value), FLAG_CARRY) == flag_set(p, FLAG_CARRY),
        flag_set(zn_flags(p, value), FLAG_OVERFLOW) == flag_set(p, FLAG_OVERFLOW),
{
    let z = with_flag(p, FLAG_ZERO, value == 0);
    lemma_flag_written(p, FLAG_ZERO, value == 0, FLAG_NEGATIVE);
    lemma_flag_written(p, FLAG_ZERO, value == 0, FLAG_CARRY);
    lemma_flag_written(p, FLAG_ZERO, value == 0, FLAG_OVERFLOW);
    lemma_flag_written(z, FLAG_NEGATIVE, value >= 0x80, FLAG_ZERO);
    lemma_flag_written(z, FLAG_NEGATIVE, value >= 0x80, FLAG_CARRY);
    lemma_flag_written(z, FLAG_NEGATIVE, value >= 0x80, FLAG_OVERFLOW);
}

/// The number of operand bytes that follow the opcode in an addressing mode.
pub open spec fn operand_bytes(mode: u8) -> u16 {
    if ABSOLUTE <= mode && mode <= INDIRECT {
        2
    } else {
        1
    }
}

/// Reading the operand of an instruction moves the program counter past the
/// operand and changes no other register, and nothing in the RAM or in the
/// registers of the APU. Only a mode that adds an index register to a 16-bit
/// base can cross a page. An immediate operand is the byte at the program
/// counter.
pub proof fn law_operand<P>(m: Nes<P>, mode: u8)
    requires
        addressable(mode),
    ensures
        m.operand(mode).machine.regs() == (NesRegisters {
            pc: m.regs().pc.wrapping_add(operand_bytes(mode)),
            ..m.regs()
        }),
        m.operand(mode).machine.ram == m.ram,
        m.operand(mode).machine.apu == m.apu,
        m.operand(mode).crossed ==> page_sensitive(mode),
        mode == IMMEDIATE ==> m.operand(mode).value == m.load(m.regs().pc).0,
{
    law_resolution(m, mode);
    reveal(Nes::resolved);
}

/// LDA leaves its operand in A, sets Z exactly when the operand is zero and N
/// exactly when it is `$80` or more, and changes neither X, Y, the stack
/// pointer nor the RAM.
pub proof fn law_lda<P>(m: Nes<P>, mode: u8)
    requires
        addressable(mode),
    ensures
        ({
            let value = m.operand(mode).value;
            let after = lda_effect(m, mode);
            &&& after.regs().a == value
            &&& after.regs().zero() == (value == 0)
            &&& after.regs().negative() == (value >= 0x80)
            &&& after.regs().x == m.regs().x
            &&& after.regs().y == m.regs().y
            &&& after.regs().sp == m.regs().sp
            &&& after.regs().pc == m.regs().pc.wrapping_add(operand_bytes(mode))
            &&& after.ram == m.ram
        }),
{
    law_operand(m, mode);
    let operand = m.operand(mode);
    lemma_zn_flags(operand.machine.regs().p, operand.value);
}

/// LDA with an immediate operand leaves that operand in A, sets Z exactly when
/// it is zero and N exactly when it is `$80` or more.
pub proof fn law_lda_immediate<P>(m: Nes<P>)
    ensures
        ({
            let value = m.load(m.regs().pc).0;
            let after = lda_effect(m, IMMEDIATE).regs();
            &&& after.a == value
            &&& after.zero() == (value == 0)
            &&& after.negative() == (value >= 0x80)
        }),
{
    reveal(Nes::resolved);
    let operand = m.operand(IMMEDIATE);
    lemma_zn_flags(operand.machine.regs().p, operand.value);
}

/// The registers after an addition: the result and the carry together are the
/// sum of A, the input and the carry that came in; V tells whether the sign of
/// the result differs from the signs of both operands; Z and N follow the
/// result.
pub proof fn law_added(r: NesRegisters, input: u8)
    ensures
        ({
            let after = r.added(input);
            &&& after.a + 256 * after.carry_in() == r.a + input + r.carry_in()
            &&& after.overflow() == ((input ^ after.a) & (after.a ^ r.a) & 0x80 != 0)
            &&& after.zero() == (after.a == 0)
            &&& after.negative() == (after.a >= 0x80)
        }),
{
    let total = r.a + input + r.carry_in();
    let low = (total % 256) as u8;
    let flagged = zn_flags(r.p, low);
    let carried = with_flag(flagged, FLAG_CARRY, total > 0xff);
    let on = (input ^ low) & (low ^ r.a) & 0x80 != 0;
    lemma_zn_flags(r.p, low);
    lemma_flag_written(flagged, FLAG_CARRY, total > 0xff, FLAG_ZERO);
    lemma_flag_written(flagged, FLAG_CARRY, total > 0xff, FLAG_NEGATIVE);
    lemma_flag_written(carried, FLAG_OVERFLOW, on, FLAG_CARRY);
    lemma_flag_written(carried, FLAG_OVERFLOW, on, FLAG_ZERO);
    lemma_flag_written(carried, FLAG_OVERFLOW, on, FLAG_NEGATIVE);
}

/// ADC with the carry clear: the new A and 256 times the new carry are the sum
/// of the old A and the operand, and V is set exactly when the sign of the
/// result differs from the signs of both.
pub proof fn law_adc<P>(m: Nes<P>, mode: u8)
    requires
        !m.regs().carry(),
    ensures
        ({
            let value = m.operand(mode).value;
            let after = adc_effect(m, mode).regs();
            &&& after.a + 256 * after.carry_in() == m.regs().a + value
            &&& after.overflow() == ((value ^ after.a) & (after.a ^ m.regs().a) & 0x80 != 0)
        }),
{
    lemma_operand_frame(m, mode);
    law_added(m.operand(mode).machine.regs(), m.operand(mode).value);
}

/// The registers after a comparison: C tells whether the register is not
/// below the value, Z whether the two are equal, and N is bit 7 of their
/// difference.
pub proof fn law_compared(r: NesRegisters, register: u8, value: u8)
    ensures
        ({
            let after = r.compared(register, value);
            &&& after.carry() == (register >= value)
            &&& after.zero() == (register == value)
            &&& after.negative() == (register.wrapping_sub(value) >= 0x80)
            &&& after.a == r.a
        }),
{
    let carried = with_flag(r.p, FLAG_CARRY, register >= value);
    lemma_zn_flags(carried, register.wrapping_sub(value));
    lemma_flag_written(r.p, FLAG_CARRY, register >= value, FLAG_ZERO);
}

/// CMP leaves C telling whether A is not below the operand, Z whether the two
/// are equal, and N as bit 7 of A minus the operand.
pub proof fn law_cmp<P>(m: Nes<P>, mode: u8)
    ensures
        ({
            let value = m.operand(mode).value;
            let a = m.regs().a;
            let after = compare_effect(m, mode).regs();
            &&& after.carry() == (a >= value)
            &&& after.zero() == (a == value)
            &&& after.negative() == (a.wrapping_sub(value) >= 0x80)
        }),
{
    lemma_operand_frame(m, mode);
    law_compared(m.operand(mode).machine.regs(), m.regs().a, m.operand(mode).value);
}

/// A byte that was pushed is the byte that is pulled next, and the stack
/// pointer is then where it was before the push.
pub proof fn law_push_pull<P>(m: Nes<P>, value: u8)
    ensures
        m.pushed(value).pulled().0 == value,
        m.pushed(value).pulled().1.regs() == m.regs(),
{
    let sp = m.regs().sp;
    lemma_ram_cell(Nes::<P>::stack_cell(sp));
    broadcast use vstd::array::axiom_spec_array_update;
}

/// A word that was pushed is the word that is pulled next, whatever the stack
/// pointer is, and the stack pointer is then where it was before the push.
pub proof fn law_stack_round_trip<P>(m: Nes<P>, value: u16)
    ensures
        m.pushed_short(value).pulled_short().0 == value,
        m.pushed_short(value).pulled_short().1.regs() == m.regs(),
{
    let sp = m.regs().sp;
    let below = sp.wrapping_sub(1);
    let high = high_byte(value);
    let low = low_byte(value);
    lemma_ram_cell(Nes::<P>::stack_cell(sp));
    lemma_ram_cell(Nes::<P>::stack_cell(below));
    lemma_word_round_trip(value);
    broadcast use vstd::array::axiom_spec_array_update;
    let first = m.pushed(high);
    let second = first.pushed(low);
    assert(second.ram@[ram_cell(Nes::<P>::stack_cell(below))] == low);
    assert(second.ram@[ram_cell(Nes::<P>::stack_cell(sp))] == high);
}

/// A taken branch lands at the address after its operand plus the operand
/// read as a signed number, within the 16-bit address space; this holds across
/// every page boundary.
pub proof fn law_branch_taken<P>(m: Nes<P>, cycles: u8)
    ensures
        ({
            let pc = m.regs().pc;
            let offset = m.load(pc).0;
            branched(m, true, cycles).0.regs().pc == (pc + 1 + displacement(offset)) % 0x1_0000
        }),
{
}

/// A branch changes no register but the program counter and nothing in the
/// RAM; a branch that is not taken goes on behind its operand.
pub proof fn law_branch_frame<P>(m: Nes<P>, taken: bool, cycles: u8)
    ensures
        ({
            let after = branched(m, taken, cycles).0;
            &&& after.regs() == (NesRegisters { pc: after.regs().pc, ..m.regs() })
            &&& after.ram == m.ram
            &&& !taken ==> after.regs().pc == m.regs().pc.wrapping_add(1)
            &&& !taken ==> branched(m, taken, cycles).1 == cycles
        }),
{
    lemma_load_frame(m, m.regs().pc);
}

proof fn lemma_mirror(address: u16)
    by (bit_vector)
    requires
        address < 0x2000,
    ensures
        address ^ 0x0800 < 0x2000,
        (address ^ 0x0800) & 0x07ff == address & 0x07ff,
{
}

/// The RAM is seen again 2 KiB further: a byte written at an address of the
/// RAM window is read at that address with bit 11 flipped.
pub proof fn law_ram_mirror<P>(m: Nes<P>, address: u16, value: u8)
    requires
        address < RAM_END,
    ensures
        m.store(address, value).load(address ^ 0x0800).0 == value,
        m.load(address ^ 0x0800).0 == m.load(address).0,
{
    lemma_mirror(address);
    lemma_ram_cell(address);
    broadcast use vstd::array::axiom_spec_array_update;
}

/// PHA and then PLA leave A and the stack pointer as they were.
pub proof fn law_pha_pla<P>(m: Nes<P>)
    ensures
        pla_effect(pha_effect(m)).regs().a == m.regs().a,
        pla_effect(pha_effect(m)).regs().sp == m.regs().sp,
{
    law_push_pull(m, m.regs().a);
}

proof fn lemma_status_restored(p: u8)
    by (bit_vector)
    ensures
        ((p | 0x10 | 0x20) & !(0x20u8 | 0x10u8)) | (p & (0x20u8 | 0x10u8)) == p,
{
}

/// PHP and then PLP leave the status as it was: the B bits, which PHP sets in
/// the copy on the stack, stay in the register as they were.
pub proof fn law_php_plp<P>(m: Nes<P>)
    ensures
        plp_effect(php_effect(m)).regs().p == m.regs().p,
        plp_effect(php_effect(m)).regs().sp == m.regs().sp,
{
    law_push_pull(m, stack_status(m.regs().p));
    lemma_status_restored(m.regs().p);
}

/// JSR goes to its operand, and the RTS that follows returns to the byte after
/// the two bytes of that operand. Here `m` is the machine after the opcode of
/// the JSR was fetched. Where the stack pointer is `$FF` before the JSR, it is
/// at its reset value afterwards, and RTS stops the machine instead.
pub proof fn law_jsr_rts<P>(m: Nes<P>)
    requires
        m.regs().sp != 0xff,
    ensures
        ({
            let pc = m.regs().pc;
            let called = jsr_effect(m);
            &&& called.regs().pc == crate::bus::load_short(m, pc).0
            &&& rts_effect(called).regs().pc == pc.wrapping_add(2)
            &&& rts_effect(called).regs().sp == m.regs().sp
        }),
{
    let pc = m.regs().pc;
    let read = crate::bus::load_short(m, pc).1;
    law_stack_round_trip(read, pc.wrapping_add(1));
}

/// Resolving an addressing mode moves the program counter past the operand
/// and changes no other register, and nothing in the RAM or in the registers
/// of the APU.
pub proof fn law_resolution<P>(m: Nes<P>, mode: u8)
    requires
        addressable(mode),
    ensures
        m.resolved(mode).machine.regs() == (NesRegisters {
            pc: m.regs().pc.wrapping_add(operand_bytes(mode)),
            ..m.regs()
        }),
        m.resolved(mode).machine.ram == m.ram,
        m.resolved(mode).machine.apu == m.apu,
{
    reveal(Nes::resolved);
}

/// A read where nothing is mapped gives 0: in the cartridge space of a machine
/// without a cartridge, and between the registers of the APU and the
/// cartridge space.
pub proof fn law_unmapped_reads<P>(m: Nes<P>, address: u16)
    requires
        0x4018 <= address,
        address < APU_END || m.cartridge is None,
    ensures
        m.load(address).0 == 0,
        m.load(address).1 == m,
{
}

proof fn lemma_pushed_status(p: u8)
    by (bit_vector)
    ensures
        (p | 0x10 | 0x20) & 0x20 == 0x20,
        (p | 0x10 | 0x20) & 0x10 == 0x10,
        (p | 0x10 | 0x20) & 0xcf == p & 0xcf,
{
}

/// The copy of the status that PHP pushes has both B bits set and every other
/// bit as the register has it.
pub proof fn law_pushed_status<P>(m: Nes<P>)
    ensures
        ({
            let pushed = php_effect(m).load(Nes::<P>::stack_cell(m.regs().sp)).0;
            &&& flag_set(pushed, FLAG_BH)
            &&& flag_set(pushed, FLAG_BL)
            &&& pushed & 0xcf == m.regs().p & 0xcf
        }),
{
    law_push_pull(m, stack_status(m.regs().p));
    lemma_pushed_status(m.regs().p);
    lemma_ram_cell(Nes::<P>::stack_cell(m.regs().sp));
    broadcast use vstd::array::axiom_spec_array_update;
}

/// The stack wraps within its page: a push with the stack pointer at 0 writes
/// `$0100` and leaves the stack pointer at `$FF`.
pub proof fn law_stack_wraps<P>(m: Nes<P>, value: u8)
    requires
        m.regs().sp == 0,
    ensures
        m.pushed(value).regs().sp == 0xff,
        m.pushed(value).load(STACK_OFFSET).0 == value,
{
    lemma_ram_cell(STACK_OFFSET);
    broadcast use vstd::array::axiom_spec_array_update;
}

/// Twelve ticks of the master clock are three ticks of the PPU and then one
/// step of the CPU. Here both dividers stand at their start.
pub proof fn law_clock_ratio<P>(m: Nes<P>)
    requires
        m.cpu.clock_counter == 0,
        m.ppu.clock_counter == 0,
    ensures
        m.ticked_times(12) == (Nes {
            ppu: m.ppu.ticked().ticked().ticked(),
            cpu: Nes2a03 { clock_counter: CPU_DIVIDER, ..m.cpu },
            ..m
        }).stepped().counted(),
{
    reveal_with_fuel(Nes::ticked_times, 13);
    let t1 = m.master_ticked();
    let t2 = t1.master_ticked();
    let t3 = t2.master_ticked();
    let t4 = t3.master_ticked();
    assert(t4 == (Nes {
        ppu: m.ppu.ticked(),
        cpu: Nes2a03 { clock_counter: 4, ..m.cpu },
        ..m
    }));
    let t5 = t4.master_ticked();
    let t6 = t5.master_ticked();
    let t7 = t6.master_ticked();
    let t8 = t7.master_ticked();
    assert(t8 == (Nes {
        ppu: m.ppu.ticked().ticked(),
        cpu: Nes2a03 { clock_counter: 8, ..m.cpu },
        ..m
    }));
    let t9 = t8.master_ticked();
    let t10 = t9.master_ticked();
    let t11 = t10.master_ticked();
    assert(t11 == (Nes {
        ppu: Nes2c02 { clock_counter: 3, ..m.ppu.ticked().ticked() },
        cpu: Nes2a03 { clock_counter: 11, ..m.cpu },
        ..m
    }));
}

} // verus!
