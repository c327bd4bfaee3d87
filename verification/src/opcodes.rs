//! The instructions. Each handler takes the machine, the addressing mode of
//! the encoding, its base cycles and its length, and gives the cycles that the
//! instruction took.

use vstd::prelude::*;
use crate::bus::Bus;
use crate::bus::BusRegion;
use crate::bus::load_short;
use crate::bus::split_high;
use crate::cpu::FLAG_CARRY;
use crate::cpu::FLAG_DECIMAL;
use crate::cpu::FLAG_INTERRUPT;
use crate::cpu::FLAG_OVERFLOW;
use crate::cpu::NesRegisters;
use crate::cpu::restored_status;
use crate::cpu::STACK_INITIAL;
use crate::cpu::stack_status;
use crate::cpu::with_flag;
use crate::laws::law_adc;
use crate::laws::law_branch_frame;
use crate::laws::law_branch_taken;
use crate::laws::law_cmp;
use crate::laws::law_lda;
use crate::laws::law_operand;
use crate::laws::operand_bytes;
use crate::nes::ACCUMULATOR;
use crate::nes::addressable;
use crate::nes::IMMEDIATE;
use crate::nes::lemma_load_short_frame;
use crate::nes::Nes;
use crate::nes::page_sensitive;
use crate::nes::pages_differ;
use crate::nes::same_fittings;

verus! {

/// The cycles of an instruction that reads its operand: one more than the base
/// where indexing crossed a page. Only the modes that add an index register to
/// a 16-bit base can cross one.
pub open spec fn with_penalty(cycles: u8, crossed: bool) -> u8 {
    if crossed {
        (cycles + 1) as u8
    } else {
        cycles
    }
}

fn penalised(cycles: u8, crossed: bool) -> (spent: u8)
    requires
        crossed ==> cycles < u8::MAX,
    ensures
        spent == with_penalty(cycles, crossed),
{
    if crossed {
        cycles + 1
    } else {
        cycles
    }
}

/// `value` shifted left by one bit, with `carry` (0 or 1) moved into bit 0.
pub open spec fn shifted_left(value: u8, carry: int) -> u8 {
    ((value * 2) % 256 + carry) as u8
}

/// `value` shifted right by one bit, with `carry` (0 or 1) moved into bit 7.
pub open spec fn shifted_right(value: u8, carry: int) -> u8 {
    (value / 2 + 128 * carry) as u8
}

/// Bit 7 of `value`, which a shift to the left moves out.
pub open spec fn top_bit(value: u8) -> bool {
    value >= 0x80
}

/// Bit 0 of `value`, which a shift to the right moves out.
pub open spec fn bottom_bit(value: u8) -> bool {
    value % 2 == 1
}

fn shift_left(value: u8, carry: bool) -> (result: u8)
    ensures
        result == shifted_left(value, if carry { 1 } else { 0 }),
{
    let doubled = value.wrapping_add(value);
    if carry {
        doubled + 1
    } else {
        doubled
    }
}

fn shift_right(value: u8, carry: bool) -> (result: u8)
    ensures
        result == shifted_right(value, if carry { 1 } else { 0 }),
{
    if carry {
        value / 2 + 128
    } else {
        value / 2
    }
}

/// The displacement that the operand of a branch stands for: the byte read as
/// a signed number.
pub open spec fn displacement(offset: u8) -> int {
    if offset < 0x80 {
        offset as int
    } else {
        offset - 0x100
    }
}

/// Where a taken branch lands: the displacement is added to the address after
/// the operand, within the 16-bit address space.
pub open spec fn branch_target(next: u16, offset: u8) -> u16 {
    ((next + displacement(offset)) % 0x1_0000) as u16
}

/// Where a taken branch lands.
pub fn branch_destination(next: u16, offset: u8) -> (target: u16)
    ensures
        target == branch_target(next, offset),
{
    if offset < 0x80 {
        next.wrapping_add(offset as u16)
    } else {
        next.wrapping_sub(0x100 - offset as u16)
    }
}

/// The cycles of a branch: the base, one more where it is taken, and one more
/// again where it then lands in another page than the one after its operand.
pub open spec fn branch_cycles(cycles: u8, taken: bool, next: u16, target: u16) -> u8 {
    if !taken {
        cycles
    } else if pages_differ(next, target) {
        (cycles + 2) as u8
    } else {
        (cycles + 1) as u8
    }
}

/// The machine after a branch, taken or not, and the cycles that it took.
pub open spec fn branched<P>(m: Nes<P>, taken: bool, cycles: u8) -> (Nes<P>, u8) {
    let pc = m.regs().pc;
    let (offset, read) = m.load(pc);
    let next = pc.wrapping_add(1);
    let target = branch_target(next, offset);
    (
        read.at(if taken { target } else { next }),
        branch_cycles(cycles, taken, next, target),
    )
}

/// Reads the operand of a branch and takes the branch where `taken` holds.
pub fn branch<P>(nes: &mut Nes<P>, taken: bool, cycles: u8) -> (spent: u8)
    requires
        taken ==> cycles <= u8::MAX - 2,
    ensures
        (*final(nes), spent) == branched(*old(nes), taken, cycles),
        same_fittings(*old(nes), *final(nes)),
{
    let pc = nes.cpu.registers.pc;
    let offset = nes.get(pc);
    let next = pc.wrapping_add(1);
    if taken {
        let target = branch_destination(next, offset);
        nes.cpu.registers.pc = target;
        if split_high(next) != split_high(target) {
            cycles + 2
        } else {
            cycles + 1
        }
    } else {
        nes.cpu.registers.pc = next;
        cycles
    }
}

// load and store ------------------------------------------------------------
/// The machine after LDX.
pub open spec fn ldx_effect<P>(m: Nes<P>, mode: u8) -> Nes<P> {
    let operand = m.operand(mode);
    operand.machine.with_regs(operand.machine.regs().load_x(operand.value))
}

/// LDX: the operand goes to X; Z and N follow it.
pub fn ldx<P>(nes: &mut Nes<P>, addressing: u8, cycles: u8, _bytes: u8) -> (spent: u8)
    requires
        addressable(addressing),
        page_sensitive(addressing) ==> cycles < u8::MAX,
    ensures
        *final(nes) == ldx_effect(*old(nes), addressing),
        spent == with_penalty(cycles, old(nes).operand(addressing).crossed),
        final(nes).regs().pc == old(nes).regs().pc.wrapping_add(operand_bytes(addressing)),
        final(nes).ram == old(nes).ram,
        !page_sensitive(addressing) ==> spent == cycles,
        same_fittings(*old(nes), *final(nes)),
{
    let ghost before = *nes;
    proof {
        law_operand(before, addressing);
    }
    let (value, _, crossed) = nes.fetch(addressing);
    nes.cpu.registers.x = value;
    nes.cpu.registers.set_flags(value);
    penalised(cycles, crossed)
}

/// The machine after LDA.
pub open spec fn lda_effect<P>(m: Nes<P>, mode: u8) -> Nes<P> {
    let operand = m.operand(mode);
    operand.machine.with_regs(operand.machine.regs().load_a(operand.value))
}

/// LDA: the operand goes to A; Z and N follow it.
pub fn lda<P>(nes: &mut Nes<P>, addressing: u8, cycles: u8, _bytes: u8) -> (spent: u8)
    requires
        addressable(addressing),
        page_sensitive(addressing) ==> cycles < u8::MAX,
    ensures
        *final(nes) == lda_effect(*old(nes), addressing),
        spent == with_penalty(cycles, old(nes).operand(addressing).crossed),
        final(nes).regs().a == old(nes).operand(addressing).value,
        final(nes).regs().zero() == (final(nes).regs().a == 0),
        final(nes).regs().negative() == (final(nes).regs().a >= 0x80),
        addressing == IMMEDIATE ==> final(nes).regs().a == old(nes).load(old(nes).regs().pc).0,
        final(nes).regs().x == old(nes).regs().x && final(nes).regs().y == old(nes).regs().y,
        final(nes).regs().sp == old(nes).regs().sp,
        final(nes).regs().pc == old(nes).regs().pc.wrapping_add(operand_bytes(addressing)),
        final(nes).ram == old(nes).ram,
        !page_sensitive(addressing) ==> spent == cycles,
        same_fittings(*old(nes), *final(nes)),
{
    let ghost before = *nes;
    proof {
        law_operand(before, addressing);
        law_lda(before, addressing);
    }
    let (value, _, crossed) = nes.fetch(addressing);
    nes.cpu.registers.a = value;
    nes.cpu.registers.set_flags(value);
    penalised(cycles, crossed)
}

/// The machine after LDY.
pub open spec fn ldy_effect<P>(m: Nes<P>, mode: u8) -> Nes<P> {
    let operand = m.operand(mode);
    operand.machine.with_regs(operand.machine.regs().load_y(operand.value))
}

/// LDY: the operand goes to Y; Z and N follow it.
pub fn ldy<P>(nes: &mut Nes<P>, addressing: u8, cycles: u8, _bytes: u8) -> (spent: u8)
    requires
        addressable(addressing),
        page_sensitive(addressing) ==> cycles < u8::MAX,
    ensures
        *final(nes) == ldy_effect(*old(nes), addressing),
        spent == with_penalty(cycles, old(nes).operand(addressing).crossed),
        final(nes).regs().pc == old(nes).regs().pc.wrapping_add(operand_bytes(addressing)),
        final(nes).ram == old(nes).ram,
        !page_sensitive(addressing) ==> spent == cycles,
        same_fittings(*old(nes), *final(nes)),
{
    let ghost before = *nes;
    proof {
        law_operand(before, addressing);
    }
    let (value, _, crossed) = nes.fetch(addressing);
    nes.cpu.registers.y = value;
    nes.cpu.registers.set_flags(value);
    penalised(cycles, crossed)
}

/// The machine after STA.
pub open spec fn sta_effect<P>(m: Nes<P>, mode: u8) -> Nes<P> {
    let target = m.resolved(mode);
    target.machine.store(target.address, target.machine.regs().a)
}

/// STA: A is written at the effective address; no flag changes.
pub fn sta<P>(nes: &mut Nes<P>, addressing: u8, cycles: u8, _bytes: u8) -> (spent: u8)
    requires
        addressable(addressing),
    ensures
        *final(nes) == sta_effect(*old(nes), addressing),
        spent == cycles,
        same_fittings(*old(nes), *final(nes)),
{
    let address = nes.get_address_from_mode(addressing);
    let value = nes.cpu.registers.a;
    nes.set(address, value);
    cycles
}

/// The machine after STX.
pub open spec fn stx_effect<P>(m: Nes<P>, mode: u8) -> Nes<P> {
    let target = m.resolved(mode);
    target.machine.store(target.address, target.machine.regs().x)
}

/// STX: X is written at the effective address; no flag changes.
pub fn stx<P>(nes: &mut Nes<P>, addressing: u8, cycles: u8, _bytes: u8) -> (spent: u8)
    requires
        addressable(addressing),
    ensures
        *final(nes) == stx_effect(*old(nes), addressing),
        spent == cycles,
        same_fittings(*old(nes), *final(nes)),
{
    let address = nes.get_address_from_mode(addressing);
    let value = nes.cpu.registers.x;
    nes.set(address, value);
    cycles
}

/// The machine after STY.
pub open spec fn sty_effect<P>(m: Nes<P>, mode: u8) -> Nes<P> {
    let target = m.resolved(mode);
    target.machine.store(target.address, target.machine.regs().y)
}

/// STY: Y is written at the effective address; no flag changes.
pub fn sty<P>(nes: &mut Nes<P>, addressing: u8, cycles: u8, _bytes: u8) -> (spent: u8)
    requires
        addressable(addressing),
    ensures
        *final(nes) == sty_effect(*old(nes), addressing),
        spent == cycles,
        same_fittings(*old(nes), *final(nes)),
{
    let address = nes.get_address_from_mode(addressing);
    let value = nes.cpu.registers.y;
    nes.set(address, value);
    cycles
}

// stack -------------------------------------------------------------------------

/// The machine after PHP.
pub open spec fn php_effect<P>(m: Nes<P>) -> Nes<P> {
    m.pushed(stack_status(m.regs().p))
}

/// PHP: the status is pushed with both B bits set.
pub fn php<P>(nes: &mut Nes<P>, _addressing: u8, cycles: u8, _bytes: u8) -> (spent: u8)
    ensures
        *final(nes) == php_effect(*old(nes)),
        spent == cycles,
        same_fittings(*old(nes), *final(nes)),
{
    let value = nes.cpu.registers.get_status_stack();
    nes.stack_push(value);
    cycles
}

/// The machine after PLP.
pub open spec fn plp_effect<P>(m: Nes<P>) -> Nes<P> {
    let (value, pulled) = m.pulled();
    pulled.with_regs(pulled.regs().status(restored_status(pulled.regs().p, value)))
}

/// PLP: the status is pulled; the B bits stay as they are in the register.
pub fn plp<P>(nes: &mut Nes<P>, _addressing: u8, cycles: u8, _bytes: u8) -> (spent: u8)
    ensures
        *final(nes) == plp_effect(*old(nes)),
        spent == cycles,
        same_fittings(*old(nes), *final(nes)),
{
    let value = nes.stack_pop();
    nes.cpu.registers.set_status_stack(value);
    cycles
}

/// The machine after PLA.
pub open spec fn pla_effect<P>(m: Nes<P>) -> Nes<P> {
    let (value, pulled) = m.pulled();
    pulled.with_regs(pulled.regs().load_a(value))
}

/// PLA: A is pulled; Z and N follow it.
pub fn pla<P>(nes: &mut Nes<P>, _addressing: u8, cycles: u8, _bytes: u8) -> (spent: u8)
    ensures
        *final(nes) == pla_effect(*old(nes)),
        spent == cycles,
        same_fittings(*old(nes), *final(nes)),
{
    let value = nes.stack_pop();
    nes.cpu.registers.set_flags(value);
    nes.cpu.registers.set_a(value);
    cycles
}

/// The machine after PHA.
pub open spec fn pha_effect<P>(m: Nes<P>) -> Nes<P> {
    m.pushed(m.regs().a)
}

/// PHA: A is pushed.
pub fn pha<P>(nes: &mut Nes<P>, _addressing: u8, cycles: u8, _bytes: u8) -> (spent: u8)
    ensures
        *final(nes) == pha_effect(*old(nes)),
        spent == cycles,
        same_fittings(*old(nes), *final(nes)),
{
    let value = nes.cpu.registers.a;
    nes.stack_push(value);
    cycles
}
// register to register ----------------------------------------------------------
/// The registers after TSX.
pub open spec fn tsx_effect(r: NesRegisters) -> NesRegisters {
    r.load_x(r.sp)
}

/// TSX: the stack pointer goes to X; Z and N follow it.
pub fn tsx<P>(nes: &mut Nes<P>, _addressing: u8, cycles: u8, _bytes: u8) -> (spent: u8)
    ensures
        *final(nes) == old(nes).with_regs(tsx_effect(old(nes).regs())),
        spent == cycles,
        same_fittings(*old(nes), *final(nes)),
{
    let value = nes.cpu.registers.sp;
    nes.cpu.registers.x = value;
    nes.cpu.registers.set_flags(value);
    cycles
}

/// The registers after TXS.
pub open spec fn txs_effect(r: NesRegisters) -> NesRegisters {
    NesRegisters { sp: r.x, ..r }
}

/// TXS: X goes to the stack pointer; no flag changes.
pub fn txs<P>(nes: &mut Nes<P>, _addressing: u8, cycles: u8, _bytes: u8) -> (spent: u8)
    ensures
        *final(nes) == old(nes).with_regs(txs_effect(old(nes).regs())),
        spent == cycles,
        same_fittings(*old(nes), *final(nes)),
{
    let value = nes.cpu.registers.x;
    nes.cpu.registers.sp = value;
    cycles
}

/// The registers after TAX.
pub open spec fn tax_effect(r: NesRegisters) -> NesRegisters {
    r.load_x(r.a)
}

/// TAX: A goes to X; Z and N follow it.
pub fn tax<P>(nes: &mut Nes<P>, _addressing: u8, cycles: u8, _bytes: u8) -> (spent: u8)
    ensures
        *final(nes) == old(nes).with_regs(tax_effect(old(nes).regs())),
        spent == cycles,
        same_fittings(*old(nes), *final(nes)),
{
    let value = nes.cpu.registers.a;
    nes.cpu.registers.x = value;
    nes.cpu.registers.set_flags(value);
    cycles
}

/// The registers after TXA.
pub open spec fn txa_effect(r: NesRegisters) -> NesRegisters {
    r.load_a(r.x)
}

/// TXA: X goes to A; Z and N follow it.
pub fn txa<P>(nes: &mut Nes<P>, _addressing: u8, cycles: u8, _bytes: u8) -> (spent: u8)
    ensures
        *final(nes) == old(nes).with_regs(txa_effect(old(nes).regs())),
        spent == cycles,
        same_fittings(*old(nes), *final(nes)),
{
    let value = nes.cpu.registers.x;
    nes.cpu.registers.a = value;
    nes.cpu.registers.set_flags(value);
    cycles
}

/// The registers after TAY.
pub open spec fn tay_effect(r: NesRegisters) -> NesRegisters {
    r.load_y(r.a)
}

/// TAY: A goes to Y; Z and N follow it.
pub fn tay<P>(nes: &mut Nes<P>, _addressing: u8, cycles: u8, _bytes: u8) -> (spent: u8)
    ensures
        *final(nes) == old(nes).with_regs(tay_effect(old(nes).regs())),
        spent == cycles,
        same_fittings(*old(nes), *final(nes)),
{
    let value = nes.cpu.registers.a;
    nes.cpu.registers.y = value;
    nes.cpu.registers.set_flags(value);
    cycles
}

/// The registers after TYA.
pub open spec fn tya_effect(r: NesRegisters) -> NesRegisters {
    r.load_a(r.y)
}

/// TYA: Y goes to A; Z and N follow it.
pub fn tya<P>(nes: &mut Nes<P>, _addressing: u8, cycles: u8, _bytes: u8) -> (spent: u8)
    ensures
        *final(nes) == old(nes).with_regs(tya_effect(old(nes).regs())),
        spent == cycles,
        same_fittings(*old(nes), *final(nes)),
{
    let value = nes.cpu.registers.y;
    nes.cpu.registers.a = value;
    nes.cpu.registers.set_flags(value);
    cycles
}

/// The registers after INX.
pub open spec fn inx_effect(r: NesRegisters) -> NesRegisters {
    r.load_x(r.x.wrapping_add(1))
}

/// INX: X goes up by one, from `$FF` to 0; Z and N follow it.
pub fn inx<P>(nes: &mut Nes<P>, _addressing: u8, cycles: u8, _bytes: u8) -> (spent: u8)
    ensures
        *final(nes) == old(nes).with_regs(inx_effect(old(nes).regs())),
        spent == cycles,
        same_fittings(*old(nes), *final(nes)),
{
    let value = nes.cpu.registers.x.wrapping_add(1);
    nes.cpu.registers.x = value;
    nes.cpu.registers.set_flags(value);
    cycles
}

/// The registers after INY.
pub open spec fn iny_effect(r: NesRegisters) -> NesRegisters {
    r.load_y(r.y.wrapping_add(1))
}

/// INY: Y goes up by one, from `$FF` to 0; Z and N follow it.
pub fn iny<P>(nes: &mut Nes<P>, _addressing: u8, cycles: u8, _bytes: u8) -> (spent: u8)
    ensures
        *final(nes) == old(nes).with_regs(iny_effect(old(nes).regs())),
        spent == cycles,
        same_fittings(*old(nes), *final(nes)),
{
    let value = nes.cpu.registers.y.wrapping_add(1);
    nes.cpu.registers.y = value;
    nes.cpu.registers.set_flags(value);
    cycles
}

/// The registers after DEX.
pub open spec fn dex_effect(r: NesRegisters) -> NesRegisters {
    r.load_x(r.x.wrapping_sub(1))
}

/// DEX: X goes down by one, from 0 to `$FF`; Z and N follow it.
pub fn dex<P>(nes: &mut Nes<P>, _addressing: u8, cycles: u8, _bytes: u8) -> (spent: u8)
    ensures
        *final(nes) == old(nes).with_regs(dex_effect(old(nes).regs())),
        spent == cycles,
        same_fittings(*old(nes), *final(nes)),
{
    let value = nes.cpu.registers.x.wrapping_sub(1);
    nes.cpu.registers.x = value;
    nes.cpu.registers.set_flags(value);
    cycles
}

/// The registers after DEY.
pub open spec fn dey_effect(r: NesRegisters) -> NesRegisters {
    r.load_y(r.y.wrapping_sub(1))
}

/// DEY: Y goes down by one, from 0 to `$FF`; Z and N follow it.
pub fn dey<P>(nes: &mut Nes<P>, _addressing: u8, cycles: u8, _bytes: u8) -> (spent: u8)
    ensures
        *final(nes) == old(nes).with_regs(dey_effect(old(nes).regs())),
        spent == cycles,
        same_fittings(*old(nes), *final(nes)),
{
    let value = nes.cpu.registers.y.wrapping_sub(1);
    nes.cpu.registers.y = value;
    nes.cpu.registers.set_flags(value);
    cycles
}

/// The registers after CLC.
pub open spec fn clc_effect(r: NesRegisters) -> NesRegisters {
    r.status(with_flag(r.p, FLAG_CARRY, false))
}

/// CLC: C is cleared.
pub fn clc<P>(nes: &mut Nes<P>, _addressing: u8, cycles: u8, _bytes: u8) -> (spent: u8)
    ensures
        *final(nes) == old(nes).with_regs(clc_effect(old(nes).regs())),
        spent == cycles,
        same_fittings(*old(nes), *final(nes)),
{
    nes.cpu.registers.clear_carry();
    cycles
}

/// The registers after SEC.
pub open spec fn sec_effect(r: NesRegisters) -> NesRegisters {
    r.status(with_flag(r.p, FLAG_CARRY, true))
}

/// SEC: C is set.
pub fn sec<P>(nes: &mut Nes<P>, _addressing: u8, cycles: u8, _bytes: u8) -> (spent: u8)
    ensures
        *final(nes) == old(nes).with_regs(sec_effect(old(nes).regs())),
        spent == cycles,
        same_fittings(*old(nes), *final(nes)),
{
    nes.cpu.registers.set_carry();
    cycles
}

/// The registers after SED.
pub open spec fn sed_effect(r: NesRegisters) -> NesRegisters {
    r.status(with_flag(r.p, FLAG_DECIMAL, true))
}

/// SED: D is set. The flag has no effect on arithmetic.
pub fn sed<P>(nes: &mut Nes<P>, _addressing: u8, cycles: u8, _bytes: u8) -> (spent: u8)
    ensures
        *final(nes) == old(nes).with_regs(sed_effect(old(nes).regs())),
        spent == cycles,
        same_fittings(*old(nes), *final(nes)),
{
    nes.cpu.registers.set_decimal();
    cycles
}

/// The registers after CLD.
pub open spec fn cld_effect(r: NesRegisters) -> NesRegisters {
    r.status(with_flag(r.p, FLAG_DECIMAL, false))
}

/// CLD: D is cleared.
pub fn cld<P>(nes: &mut Nes<P>, _addressing: u8, cycles: u8, _bytes: u8) -> (spent: u8)
    ensures
        *final(nes) == old(nes).with_regs(cld_effect(old(nes).regs())),
        spent == cycles,
        same_fittings(*old(nes), *final(nes)),
{
    nes.cpu.registers.clear_decimal();
    cycles
}

/// The registers after CLV.
pub open spec fn clv_effect(r: NesRegisters) -> NesRegisters {
    r.status(with_flag(r.p, FLAG_OVERFLOW, false))
}

/// CLV: V is cleared.
pub fn clv<P>(nes: &mut Nes<P>, _addressing: u8, cycles: u8, _bytes: u8) -> (spent: u8)
    ensures
        *final(nes) == old(nes).with_regs(clv_effect(old(nes).regs())),
        spent == cycles,
        same_fittings(*old(nes), *final(nes)),
{
    nes.cpu.registers.clear_overflow();
    cycles
}

// interrupts ------------------------------------------------------------------------

/// The machine stopped on the instruction that it has just fetched: the program
/// counter goes back to the opcode.
pub open spec fn halt_effect<P>(m: Nes<P>) -> Nes<P> {
    m.at(m.regs().pc.wrapping_sub(1)).stopped()
}

/// BRK stops the machine and leaves the program counter on the BRK.
pub fn brk<P>(nes: &mut Nes<P>, _addressing: u8, cycles: u8, _bytes: u8) -> (spent: u8)
    ensures
        *final(nes) == halt_effect(*old(nes)),
        spent == cycles,
        same_fittings(*old(nes), *final(nes)),
{
    nes.cpu.registers.pc = nes.cpu.registers.pc.wrapping_sub(1);
    nes.cpu.running = false;
    cycles
}

/// NOP changes nothing.
pub fn nop<P>(nes: &mut Nes<P>, _addressing: u8, cycles: u8, _bytes: u8) -> (spent: u8)
    ensures
        *final(nes) == *old(nes),
        spent == cycles,
        same_fittings(*old(nes), *final(nes)),
{
    cycles
}

/// The registers after SEI.
pub open spec fn sei_effect(r: NesRegisters) -> NesRegisters {
    r.status(with_flag(r.p, FLAG_INTERRUPT, true))
}

/// SEI: I is set.
pub fn sei<P>(nes: &mut Nes<P>, _addressing: u8, cycles: u8, _bytes: u8) -> (spent: u8)
    ensures
        *final(nes) == old(nes).with_regs(sei_effect(old(nes).regs())),
        spent == cycles,
        same_fittings(*old(nes), *final(nes)),
{
    nes.cpu.registers.set_interrupt();
    cycles
}

/// The registers after CLI.
pub open spec fn cli_effect(r: NesRegisters) -> NesRegisters {
    r.status(with_flag(r.p, FLAG_INTERRUPT, false))
}

/// CLI: I is cleared.
pub fn cli<P>(nes: &mut Nes<P>, _addressing: u8, cycles: u8, _bytes: u8) -> (spent: u8)
    ensures
        *final(nes) == old(nes).with_regs(cli_effect(old(nes).regs())),
        spent == cycles,
        same_fittings(*old(nes), *final(nes)),
{
    nes.cpu.registers.clear_interrupt();
    cycles
}

/// The machine after RTI.
pub open spec fn rti_effect<P>(m: Nes<P>) -> Nes<P> {
    let (flags, first) = m.pulled();
    let (target, second) = first.pulled_short();
    let jumped = second.at(target);
    jumped.with_regs(jumped.regs().status(restored_status(jumped.regs().p, flags)))
}

/// RTI: the status is pulled as by PLP, then the program counter, which is
/// taken as it was pushed.
pub fn rti<P>(nes: &mut Nes<P>, _addressing: u8, cycles: u8, _bytes: u8) -> (spent: u8)
    ensures
        *final(nes) == rti_effect(*old(nes)),
        spent == cycles,
        same_fittings(*old(nes), *final(nes)),
{
    let flags = nes.stack_pop();
    let value = nes.stack_pop_short();
    nes.cpu.registers.pc = value;
    nes.cpu.registers.set_status_stack(flags);
    cycles
}

// arithmetic ------------------------------------------------------------------------

/// Adds `input` and the carry to A and sets Z, N, C and V.
pub fn add_to_a<P>(nes: &mut Nes<P>, input: u8)
    ensures
        *final(nes) == old(nes).with_regs(old(nes).regs().added(input)),
        same_fittings(*old(nes), *final(nes)),
{
    let a = nes.cpu.registers.a;
    let carry: u16 = if nes.cpu.registers.status_carry() {
        1
    } else {
        0
    };
    let value: u16 = input as u16 + a as u16 + carry;
    let low_value = (value % 256) as u8;
    nes.cpu.registers.set_flags(low_value);
    nes.cpu.registers.assign_carry(value > 0xff);
    nes.cpu.registers.assign_overflow((input ^ low_value) & (low_value ^ a) & 0x80 != 0);
    nes.cpu.registers.a = low_value;
}

/// The machine after ADC.
pub open spec fn adc_effect<P>(m: Nes<P>, mode: u8) -> Nes<P> {
    let operand = m.operand(mode);
    let r = operand.machine.regs();
    operand.machine.with_regs(r.added(operand.value))
}

/// ADC: the operand and the carry are added to A.
pub fn adc<P>(nes: &mut Nes<P>, addressing: u8, cycles: u8, _bytes: u8) -> (spent: u8)
    requires
        addressable(addressing),
        page_sensitive(addressing) ==> cycles < u8::MAX,
    ensures
        *final(nes) == adc_effect(*old(nes), addressing),
        spent == with_penalty(cycles, old(nes).operand(addressing).crossed),
        !old(nes).regs().carry() ==> final(nes).regs().a + 256 * final(nes).regs().carry_in()
            == old(nes).regs().a + old(nes).operand(addressing).value,
        !old(nes).regs().carry() ==> final(nes).regs().overflow() == ((old(nes).operand(
            addressing,
        ).value ^ final(nes).regs().a) & (final(nes).regs().a ^ old(nes).regs().a) & 0x80 != 0),
        final(nes).regs().pc == old(nes).regs().pc.wrapping_add(operand_bytes(addressing)),
        final(nes).ram == old(nes).ram,
        !page_sensitive(addressing) ==> spent == cycles,
        same_fittings(*old(nes), *final(nes)),
{
    let ghost before = *nes;
    proof {
        law_operand(before, addressing);
        if !before.regs().carry() {
            law_adc(before, addressing);
        }
    }
    let (value, _, crossed) = nes.fetch(addressing);
    add_to_a(nes, value);
    penalised(cycles, crossed)
}

/// The machine after SBC.
pub open spec fn sbc_effect<P>(m: Nes<P>, mode: u8) -> Nes<P> {
    let operand = m.operand(mode);
    let r = operand.machine.regs();
    operand.machine.with_regs(r.subtracted(operand.value))
}

/// SBC: the operand is subtracted from A with borrow.
pub fn sbc<P>(nes: &mut Nes<P>, addressing: u8, cycles: u8, _bytes: u8) -> (spent: u8)
    requires
        addressable(addressing),
        page_sensitive(addressing) ==> cycles < u8::MAX,
    ensures
        *final(nes) == sbc_effect(*old(nes), addressing),
        spent == with_penalty(cycles, old(nes).operand(addressing).crossed),
        final(nes).regs().pc == old(nes).regs().pc.wrapping_add(operand_bytes(addressing)),
        final(nes).ram == old(nes).ram,
        !page_sensitive(addressing) ==> spent == cycles,
        same_fittings(*old(nes), *final(nes)),
{
    let ghost before = *nes;
    proof {
        law_operand(before, addressing);
    }
    let (value, _, crossed) = nes.fetch(addressing);
    add_to_a(nes, 255 - value);
    penalised(cycles, crossed)
}

/// The machine after AND.
pub open spec fn and_effect<P>(m: Nes<P>, mode: u8) -> Nes<P> {
    let operand = m.operand(mode);
    let r = operand.machine.regs();
    operand.machine.with_regs(r.load_a(operand.value & r.a))
}

/// AND: A takes the bits that it shares with the operand; Z and N follow.
pub fn and<P>(nes: &mut Nes<P>, addressing: u8, cycles: u8, _bytes: u8) -> (spent: u8)
    requires
        addressable(addressing),
        page_sensitive(addressing) ==> cycles < u8::MAX,
    ensures
        *final(nes) == and_effect(*old(nes), addressing),
        spent == with_penalty(cycles, old(nes).operand(addressing).crossed),
        final(nes).regs().pc == old(nes).regs().pc.wrapping_add(operand_bytes(addressing)),
        final(nes).ram == old(nes).ram,
        !page_sensitive(addressing) ==> spent == cycles,
        same_fittings(*old(nes), *final(nes)),
{
    let ghost before = *nes;
    proof {
        law_operand(before, addressing);
    }
    let (value, _, crossed) = nes.fetch(addressing);
    let result = value & nes.cpu.registers.a;
    nes.cpu.registers.a = result;
    nes.cpu.registers.set_flags(result);
    penalised(cycles, crossed)
}

/// The machine after LSR.
pub open spec fn lsr_effect<P>(m: Nes<P>, mode: u8) -> Nes<P> {
    if mode == ACCUMULATOR {
        let r = m.regs();
        let value = r.a;
        let result = shifted_right(value, 0);
        m.with_regs(NesRegisters { a: result, ..r.carrying(bottom_bit(value)).flagged(result) })
    } else {
        let operand = m.operand(mode);
        let r = operand.machine.regs();
        let value = operand.value;
        let result = shifted_right(value, 0);
        operand.machine.with_regs(r.carrying(bottom_bit(value)).flagged(result)).store(
            operand.address,
            result,
        )
    }
}

/// LSR: the value moves right by one bit; C takes bit 0, bit 7 becomes 0.
pub fn lsr<P>(nes: &mut Nes<P>, addressing: u8, cycles: u8, _bytes: u8) -> (spent: u8)
    requires
        addressing == ACCUMULATOR || addressable(addressing),
    ensures
        *final(nes) == lsr_effect(*old(nes), addressing),
        spent == cycles,
        same_fittings(*old(nes), *final(nes)),
{
    if addressing == ACCUMULATOR {
        let value = nes.cpu.registers.a;
        let result = shift_right(value, false);
        nes.cpu.registers.assign_carry(value % 2 == 1);
        nes.cpu.registers.set_flags(result);
        nes.cpu.registers.a = result;
    } else {
        let (value, address, _) = nes.fetch(addressing);
        let result = shift_right(value, false);
        nes.cpu.registers.assign_carry(value % 2 == 1);
        nes.cpu.registers.set_flags(result);
        nes.set(address, result);
    }
    cycles
}

/// The machine after DEC.
pub open spec fn dec_effect<P>(m: Nes<P>, mode: u8) -> Nes<P> {
    let operand = m.operand(mode);
    let result = operand.value.wrapping_sub(1);
    let stored = operand.machine.store(operand.address, result);
    stored.with_regs(stored.regs().flagged(result))
}

/// DEC: the byte at the effective address goes down by one; Z and N follow.
pub fn dec<P>(nes: &mut Nes<P>, addressing: u8, cycles: u8, _bytes: u8) -> (spent: u8)
    requires
        addressable(addressing),
    ensures
        *final(nes) == dec_effect(*old(nes), addressing),
        spent == cycles,
        same_fittings(*old(nes), *final(nes)),
{
    let (value, address, _) = nes.fetch(addressing);
    let result = value.wrapping_sub(1);
    nes.set(address, result);
    nes.cpu.registers.set_flags(result);
    cycles
}

/// The machine after INC.
pub open spec fn inc_effect<P>(m: Nes<P>, mode: u8) -> Nes<P> {
    let operand = m.operand(mode);
    let result = operand.value.wrapping_add(1);
    let stored = operand.machine.store(operand.address, result);
    stored.with_regs(stored.regs().flagged(result))
}

/// INC: the byte at the effective address goes up by one; Z and N follow.
pub fn inc<P>(nes: &mut Nes<P>, addressing: u8, cycles: u8, _bytes: u8) -> (spent: u8)
    requires
        addressable(addressing),
    ensures
        *final(nes) == inc_effect(*old(nes), addressing),
        spent == cycles,
        same_fittings(*old(nes), *final(nes)),
{
    let (value, address, _) = nes.fetch(addressing);
    let result = value.wrapping_add(1);
    nes.set(address, result);
    nes.cpu.registers.set_flags(result);
    cycles
}

/// The machine after ORA.
pub open spec fn ora_effect<P>(m: Nes<P>, mode: u8) -> Nes<P> {
    let operand = m.operand(mode);
    let r = operand.machine.regs();
    operand.machine.with_regs(r.load_a(operand.value | r.a))
}

/// ORA: A takes the bits of the operand too; Z and N follow.
pub fn ora<P>(nes: &mut Nes<P>, addressing: u8, cycles: u8, _bytes: u8) -> (spent: u8)
    requires
        addressable(addressing),
        page_sensitive(addressing) ==> cycles < u8::MAX,
    ensures
        *final(nes) == ora_effect(*old(nes), addressing),
        spent == with_penalty(cycles, old(nes).operand(addressing).crossed),
        final(nes).regs().pc == old(nes).regs().pc.wrapping_add(operand_bytes(addressing)),
        final(nes).ram == old(nes).ram,
        !page_sensitive(addressing) ==> spent == cycles,
        same_fittings(*old(nes), *final(nes)),
{
    let ghost before = *nes;
    proof {
        law_operand(before, addressing);
    }
    let (value, _, crossed) = nes.fetch(addressing);
    let result = value | nes.cpu.registers.a;
    nes.cpu.registers.a = result;
    nes.cpu.registers.set_flags(result);
    penalised(cycles, crossed)
}

/// The machine after EOR.
pub open spec fn eor_effect<P>(m: Nes<P>, mode: u8) -> Nes<P> {
    let operand = m.operand(mode);
    let r = operand.machine.regs();
    operand.machine.with_regs(r.load_a(operand.value ^ r.a))
}

/// EOR: A takes the bits in which it differs from the operand; Z and N follow.
pub fn eor<P>(nes: &mut Nes<P>, addressing: u8, cycles: u8, _bytes: u8) -> (spent: u8)
    requires
        addressable(addressing),
        page_sensitive(addressing) ==> cycles < u8::MAX,
    ensures
        *final(nes) == eor_effect(*old(nes), addressing),
        spent == with_penalty(cycles, old(nes).operand(addressing).crossed),
        final(nes).regs().pc == old(nes).regs().pc.wrapping_add(operand_bytes(addressing)),
        final(nes).ram == old(nes).ram,
        !page_sensitive(addressing) ==> spent == cycles,
        same_fittings(*old(nes), *final(nes)),
{
    let ghost before = *nes;
    proof {
        law_operand(before, addressing);
    }
    let (value, _, crossed) = nes.fetch(addressing);
    let result = value ^ nes.cpu.registers.a;
    nes.cpu.registers.a = result;
    nes.cpu.registers.set_flags(result);
    penalised(cycles, crossed)
}

/// The machine after ASL.
pub open spec fn asl_effect<P>(m: Nes<P>, mode: u8) -> Nes<P> {
    if mode == ACCUMULATOR {
        let r = m.regs();
        let value = r.a;
        let result = shifted_left(value, 0);
        m.with_regs(NesRegisters { a: result, ..r.carrying(top_bit(value)).flagged(result) })
    } else {
        let operand = m.operand(mode);
        let r = operand.machine.regs();
        let value = operand.value;
        let result = shifted_left(value, 0);
        operand.machine.with_regs(r.carrying(top_bit(value)).flagged(result)).store(
            operand.address,
            result,
        )
    }
}

/// ASL: the value moves left by one bit; C takes bit 7, bit 0 becomes 0.
pub fn asl<P>(nes: &mut Nes<P>, addressing: u8, cycles: u8, _bytes: u8) -> (spent: u8)
    requires
        addressing == ACCUMULATOR || addressable(addressing),
    ensures
        *final(nes) == asl_effect(*old(nes), addressing),
        spent == cycles,
        same_fittings(*old(nes), *final(nes)),
{
    if addressing == ACCUMULATOR {
        let value = nes.cpu.registers.a;
        let result = shift_left(value, false);
        nes.cpu.registers.assign_carry(value >= 0x80);
        nes.cpu.registers.set_flags(result);
        nes.cpu.registers.a = result;
    } else {
        let (value, address, _) = nes.fetch(addressing);
        let result = shift_left(value, false);
        nes.cpu.registers.assign_carry(value >= 0x80);
        nes.cpu.registers.set_flags(result);
        nes.set(address, result);
    }
    cycles
}

/// The machine after ROR.
pub open spec fn ror_effect<P>(m: Nes<P>, mode: u8) -> Nes<P> {
    if mode == ACCUMULATOR {
        let r = m.regs();
        let value = r.a;
        let result = shifted_right(value, r.carry_in());
        m.with_regs(NesRegisters { a: result, ..r.carrying(bottom_bit(value)).flagged(result) })
    } else {
        let operand = m.operand(mode);
        let r = operand.machine.regs();
        let value = operand.value;
        let result = shifted_right(value, r.carry_in());
        operand.machine.with_regs(r.carrying(bottom_bit(value)).flagged(result)).store(
            operand.address,
            result,
        )
    }
}

/// ROR: the value moves right by one bit through the carry: C takes bit 0, bit 7 the old C.
pub fn ror<P>(nes: &mut Nes<P>, addressing: u8, cycles: u8, _bytes: u8) -> (spent: u8)
    requires
        addressing == ACCUMULATOR || addressable(addressing),
    ensures
        *final(nes) == ror_effect(*old(nes), addressing),
        spent == cycles,
        same_fittings(*old(nes), *final(nes)),
{
    if addressing == ACCUMULATOR {
        let value = nes.cpu.registers.a;
        let carry = nes.cpu.registers.status_carry();
        let result = shift_right(value, carry);
        nes.cpu.registers.assign_carry(value % 2 == 1);
        nes.cpu.registers.set_flags(result);
        nes.cpu.registers.a = result;
    } else {
        let (value, address, _) = nes.fetch(addressing);
        let carry = nes.cpu.registers.status_carry();
        let result = shift_right(value, carry);
        nes.cpu.registers.assign_carry(value % 2 == 1);
        nes.cpu.registers.set_flags(result);
        nes.set(address, result);
    }
    cycles
}

/// The machine after ROL.
pub open spec fn rol_effect<P>(m: Nes<P>, mode: u8) -> Nes<P> {
    if mode == ACCUMULATOR {
        let r = m.regs();
        let value = r.a;
        let result = shifted_left(value, r.carry_in());
        m.with_regs(NesRegisters { a: result, ..r.carrying(top_bit(value)).flagged(result) })
    } else {
        let operand = m.operand(mode);
        let r = operand.machine.regs();
        let value = operand.value;
        let result = shifted_left(value, r.carry_in());
        operand.machine.with_regs(r.carrying(top_bit(value)).flagged(result)).store(
            operand.address,
            result,
        )
    }
}

/// ROL: the value moves left by one bit through the carry: C takes bit 7, bit 0 the old C.
pub fn rol<P>(nes: &mut Nes<P>, addressing: u8, cycles: u8, _bytes: u8) -> (spent: u8)
    requires
        addressing == ACCUMULATOR || addressable(addressing),
    ensures
        *final(nes) == rol_effect(*old(nes), addressing),
        spent == cycles,
        same_fittings(*old(nes), *final(nes)),
{
    if addressing == ACCUMULATOR {
        let value = nes.cpu.registers.a;
        let carry = nes.cpu.registers.status_carry();
        let result = shift_left(value, carry);
        nes.cpu.registers.assign_carry(value >= 0x80);
        nes.cpu.registers.set_flags(result);
        nes.cpu.registers.a = result;
    } else {
        let (value, address, _) = nes.fetch(addressing);
        let carry = nes.cpu.registers.status_carry();
        let result = shift_left(value, carry);
        nes.cpu.registers.assign_carry(value >= 0x80);
        nes.cpu.registers.set_flags(result);
        nes.set(address, result);
    }
    cycles
}
// compare ---------------------------------------------------------------------------
/// The machine after CMP.
pub open spec fn compare_effect<P>(m: Nes<P>, mode: u8) -> Nes<P> {
    let operand = m.operand(mode);
    let r = operand.machine.regs();
    operand.machine.with_regs(r.compared(r.a, operand.value))
}

/// CMP: A is compared with the operand.
pub fn cmp<P>(nes: &mut Nes<P>, addressing: u8, cycles: u8, _bytes: u8) -> (spent: u8)
    requires
        addressable(addressing),
        page_sensitive(addressing) ==> cycles < u8::MAX,
    ensures
        *final(nes) == compare_effect(*old(nes), addressing),
        spent == with_penalty(cycles, old(nes).operand(addressing).crossed),
        final(nes).regs().carry() == (old(nes).regs().a >= old(nes).operand(addressing).value),
        final(nes).regs().zero() == (old(nes).regs().a == old(nes).operand(addressing).value),
        final(nes).regs().negative() == (old(nes).regs().a.wrapping_sub(
            old(nes).operand(addressing).value,
        ) >= 0x80),
        final(nes).regs().a == old(nes).regs().a,
        final(nes).regs().pc == old(nes).regs().pc.wrapping_add(operand_bytes(addressing)),
        final(nes).ram == old(nes).ram,
        !page_sensitive(addressing) ==> spent == cycles,
        same_fittings(*old(nes), *final(nes)),
{
    let ghost before = *nes;
    proof {
        law_operand(before, addressing);
        law_cmp(before, addressing);
    }
    let (value, _, crossed) = nes.fetch(addressing);
    let register = nes.cpu.registers.a;
    nes.cpu.registers.assign_carry(register >= value);
    nes.cpu.registers.set_flags(register.wrapping_sub(value));
    penalised(cycles, crossed)
}

/// The machine after CPX.
pub open spec fn cpx_effect<P>(m: Nes<P>, mode: u8) -> Nes<P> {
    let operand = m.operand(mode);
    let r = operand.machine.regs();
    operand.machine.with_regs(r.compared(r.x, operand.value))
}

/// CPX: X is compared with the operand.
pub fn cpx<P>(nes: &mut Nes<P>, addressing: u8, cycles: u8, _bytes: u8) -> (spent: u8)
    requires
        addressable(addressing),
        page_sensitive(addressing) ==> cycles < u8::MAX,
    ensures
        *final(nes) == cpx_effect(*old(nes), addressing),
        spent == with_penalty(cycles, old(nes).operand(addressing).crossed),
        final(nes).regs().pc == old(nes).regs().pc.wrapping_add(operand_bytes(addressing)),
        final(nes).ram == old(nes).ram,
        !page_sensitive(addressing) ==> spent == cycles,
        same_fittings(*old(nes), *final(nes)),
{
    let ghost before = *nes;
    proof {
        law_operand(before, addressing);
    }
    let (value, _, crossed) = nes.fetch(addressing);
    let register = nes.cpu.registers.x;
    nes.cpu.registers.assign_carry(register >= value);
    nes.cpu.registers.set_flags(register.wrapping_sub(value));
    penalised(cycles, crossed)
}

/// The machine after CPY.
pub open spec fn cpy_effect<P>(m: Nes<P>, mode: u8) -> Nes<P> {
    let operand = m.operand(mode);
    let r = operand.machine.regs();
    operand.machine.with_regs(r.compared(r.y, operand.value))
}

/// CPY: Y is compared with the operand.
pub fn cpy<P>(nes: &mut Nes<P>, addressing: u8, cycles: u8, _bytes: u8) -> (spent: u8)
    requires
        addressable(addressing),
        page_sensitive(addressing) ==> cycles < u8::MAX,
    ensures
        *final(nes) == cpy_effect(*old(nes), addressing),
        spent == with_penalty(cycles, old(nes).operand(addressing).crossed),
        final(nes).regs().pc == old(nes).regs().pc.wrapping_add(operand_bytes(addressing)),
        final(nes).ram == old(nes).ram,
        !page_sensitive(addressing) ==> spent == cycles,
        same_fittings(*old(nes), *final(nes)),
{
    let ghost before = *nes;
    proof {
        law_operand(before, addressing);
    }
    let (value, _, crossed) = nes.fetch(addressing);
    let register = nes.cpu.registers.y;
    nes.cpu.registers.assign_carry(register >= value);
    nes.cpu.registers.set_flags(register.wrapping_sub(value));
    penalised(cycles, crossed)
}

/// The machine after BIT.
pub open spec fn bit_effect<P>(m: Nes<P>, mode: u8) -> Nes<P> {
    let operand = m.operand(mode);
    let r = operand.machine.regs();
    operand.machine.with_regs(r.bit_tested(operand.value))
}

/// BIT: the operand is tested against A; A stays.
pub fn bit<P>(nes: &mut Nes<P>, addressing: u8, cycles: u8, _bytes: u8) -> (spent: u8)
    requires
        addressable(addressing),
        page_sensitive(addressing) ==> cycles < u8::MAX,
    ensures
        *final(nes) == bit_effect(*old(nes), addressing),
        spent == with_penalty(cycles, old(nes).operand(addressing).crossed),
        final(nes).regs().pc == old(nes).regs().pc.wrapping_add(operand_bytes(addressing)),
        final(nes).ram == old(nes).ram,
        !page_sensitive(addressing) ==> spent == cycles,
        same_fittings(*old(nes), *final(nes)),
{
    let ghost before = *nes;
    proof {
        law_operand(before, addressing);
    }
    let (value, _, crossed) = nes.fetch(addressing);
    let mask = nes.cpu.registers.a;
    nes.cpu.registers.set_overflow_from(value);
    nes.cpu.registers.set_negative_from(value);
    nes.cpu.registers.set_zero_from(value & mask);
    penalised(cycles, crossed)
}
// jump and branch --------------------------------------------------------------------

/// The machine after JSR.
pub open spec fn jsr_effect<P>(m: Nes<P>) -> Nes<P> {
    let pc = m.regs().pc;
    let (target, read) = load_short(m, pc);
    read.pushed_short(pc.wrapping_add(1)).at(target)
}

/// JSR: the address of the last byte of the instruction is pushed, high byte
/// first, and the program counter takes the operand.
pub fn jsr<P>(nes: &mut Nes<P>, _addressing: u8, cycles: u8, _bytes: u8) -> (spent: u8)
    ensures
        *final(nes) == jsr_effect(*old(nes)),
        spent == cycles,
        same_fittings(*old(nes), *final(nes)),
{
    let pc = nes.cpu.registers.pc;
    proof {
        lemma_load_short_frame(*nes, pc);
    }
    let jump_address = nes.get_short(pc);
    nes.stack_push_short(pc.wrapping_add(1));
    nes.cpu.registers.pc = jump_address;
    cycles
}

/// The machine after JMP.
pub open spec fn jmp_effect<P>(m: Nes<P>, mode: u8) -> Nes<P> {
    let target = m.resolved(mode);
    target.machine.at(target.address)
}

/// JMP: the program counter takes the effective address.
pub fn jmp<P>(nes: &mut Nes<P>, addressing: u8, cycles: u8, _bytes: u8) -> (spent: u8)
    requires
        addressable(addressing),
    ensures
        *final(nes) == jmp_effect(*old(nes), addressing),
        spent == cycles,
        same_fittings(*old(nes), *final(nes)),
{
    let address = nes.get_address_from_mode(addressing);
    nes.cpu.registers.pc = address;
    cycles
}

/// The machine after RTS.
pub open spec fn rts_effect<P>(m: Nes<P>) -> Nes<P> {
    if m.regs().sp != STACK_INITIAL {
        let (value, pulled) = m.pulled_short();
        pulled.at(value.wrapping_add(1))
    } else {
        halt_effect(m)
    }
}

/// RTS: a word is pulled and the program counter takes the address after it.
/// Where the stack pointer is at its reset value there is nothing to return
/// to: the machine stops on the RTS.
pub fn rts<P>(nes: &mut Nes<P>, _addressing: u8, cycles: u8, _bytes: u8) -> (spent: u8)
    ensures
        *final(nes) == rts_effect(*old(nes)),
        spent == cycles,
        same_fittings(*old(nes), *final(nes)),
{
    if nes.cpu.registers.sp != STACK_INITIAL {
        let value = nes.stack_pop_short();
        nes.cpu.registers.pc = value.wrapping_add(1);
    } else {
        nes.cpu.registers.pc = nes.cpu.registers.pc.wrapping_sub(1);
        nes.cpu.running = false;
    }
    cycles
}

/// BEQ: branches where Z is set.
pub fn beq<P>(nes: &mut Nes<P>, _addressing: u8, cycles: u8, _bytes: u8) -> (spent: u8)
    requires
        old(nes).regs().zero() ==> cycles <= u8::MAX - 2,
    ensures
        (*final(nes), spent) == branched(*old(nes), old(nes).regs().zero(), cycles),
        old(nes).regs().zero() ==> final(nes).regs().pc == (old(nes).regs().pc + 1 + displacement(
            old(nes).load(old(nes).regs().pc).0,
        )) % 0x1_0000,
        !old(nes).regs().zero() ==> final(nes).regs().pc == old(nes).regs().pc.wrapping_add(1),
        !old(nes).regs().zero() ==> spent == cycles,
        final(nes).regs() == (NesRegisters { pc: final(nes).regs().pc, ..old(nes).regs() }),
        final(nes).ram == old(nes).ram,
        same_fittings(*old(nes), *final(nes)),
{
    let ghost before = *nes;
    proof {
        law_branch_taken(before, cycles);
        law_branch_frame(before, before.regs().zero(), cycles);
    }
    let taken = nes.cpu.registers.status_zero();
    branch(nes, taken, cycles)
}

/// BNE: branches where Z is clear.
pub fn bne<P>(nes: &mut Nes<P>, _addressing: u8, cycles: u8, _bytes: u8) -> (spent: u8)
    requires
        !old(nes).regs().zero() ==> cycles <= u8::MAX - 2,
    ensures
        (*final(nes), spent) == branched(*old(nes), !old(nes).regs().zero(), cycles),
        !old(nes).regs().zero() ==> final(nes).regs().pc == (old(nes).regs().pc + 1 + displacement(
            old(nes).load(old(nes).regs().pc).0,
        )) % 0x1_0000,
        old(nes).regs().zero() ==> final(nes).regs().pc == old(nes).regs().pc.wrapping_add(1),
        old(nes).regs().zero() ==> spent == cycles,
        final(nes).regs() == (NesRegisters { pc: final(nes).regs().pc, ..old(nes).regs() }),
        final(nes).ram == old(nes).ram,
        same_fittings(*old(nes), *final(nes)),
{
    let ghost before = *nes;
    proof {
        law_branch_taken(before, cycles);
        law_branch_frame(before, !before.regs().zero(), cycles);
    }
    let taken = !nes.cpu.registers.status_zero();
    branch(nes, taken, cycles)
}

/// BPL: branches where N is clear.
pub fn bpl<P>(nes: &mut Nes<P>, _addressing: u8, cycles: u8, _bytes: u8) -> (spent: u8)
    requires
        !old(nes).regs().negative() ==> cycles <= u8::MAX - 2,
    ensures
        (*final(nes), spent) == branched(*old(nes), !old(nes).regs().negative(), cycles),
        !old(nes).regs().negative() ==> final(nes).regs().pc == (old(nes).regs().pc + 1 + displacement(
            old(nes).load(old(nes).regs().pc).0,
        )) % 0x1_0000,
        old(nes).regs().negative() ==> final(nes).regs().pc == old(nes).regs().pc.wrapping_add(1),
        old(nes).regs().negative() ==> spent == cycles,
        final(nes).regs() == (NesRegisters { pc: final(nes).regs().pc, ..old(nes).regs() }),
        final(nes).ram == old(nes).ram,
        same_fittings(*old(nes), *final(nes)),
{
    let ghost before = *nes;
    proof {
        law_branch_taken(before, cycles);
        law_branch_frame(before, !before.regs().negative(), cycles);
    }
    let taken = !nes.cpu.registers.status_negative();
    branch(nes, taken, cycles)
}

/// BCS: branches where C is set.
pub fn bcs<P>(nes: &mut Nes<P>, _addressing: u8, cycles: u8, _bytes: u8) -> (spent: u8)
    requires
        old(nes).regs().carry() ==> cycles <= u8::MAX - 2,
    ensures
        (*final(nes), spent) == branched(*old(nes), old(nes).regs().carry(), cycles),
        old(nes).regs().carry() ==> final(nes).regs().pc == (old(nes).regs().pc + 1 + displacement(
            old(nes).load(old(nes).regs().pc).0,
        )) % 0x1_0000,
        !old(nes).regs().carry() ==> final(nes).regs().pc == old(nes).regs().pc.wrapping_add(1),
        !old(nes).regs().carry() ==> spent == cycles,
        final(nes).regs() == (NesRegisters { pc: final(nes).regs().pc, ..old(nes).regs() }),
        final(nes).ram == old(nes).ram,
        same_fittings(*old(nes), *final(nes)),
{
    let ghost before = *nes;
    proof {
        law_branch_taken(before, cycles);
        law_branch_frame(before, before.regs().carry(), cycles);
    }
    let taken = nes.cpu.registers.status_carry();
    branch(nes, taken, cycles)
}

/// BCC: branches where C is clear.
pub fn bcc<P>(nes: &mut Nes<P>, _addressing: u8, cycles: u8, _bytes: u8) -> (spent: u8)
    requires
        !old(nes).regs().carry() ==> cycles <= u8::MAX - 2,
    ensures
        (*final(nes), spent) == branched(*old(nes), !old(nes).regs().carry(), cycles),
        !old(nes).regs().carry() ==> final(nes).regs().pc == (old(nes).regs().pc + 1 + displacement(
            old(nes).load(old(nes).regs().pc).0,
        )) % 0x1_0000,
        old(nes).regs().carry() ==> final(nes).regs().pc == old(nes).regs().pc.wrapping_add(1),
        old(nes).regs().carry() ==> spent == cycles,
        final(nes).regs() == (NesRegisters { pc: final(nes).regs().pc, ..old(nes).regs() }),
        final(nes).ram == old(nes).ram,
        same_fittings(*old(nes), *final(nes)),
{
    let ghost before = *nes;
    proof {
        law_branch_taken(before, cycles);
        law_branch_frame(before, !before.regs().carry(), cycles);
    }
    let taken = !nes.cpu.registers.status_carry();
    branch(nes, taken, cycles)
}

/// BVS: branches where V is set.
pub fn bvs<P>(nes: &mut Nes<P>, _addressing: u8, cycles: u8, _bytes: u8) -> (spent: u8)
    requires
        old(nes).regs().overflow() ==> cycles <= u8::MAX - 2,
    ensures
        (*final(nes), spent) == branched(*old(nes), old(nes).regs().overflow(), cycles),
        old(nes).regs().overflow() ==> final(nes).regs().pc == (old(nes).regs().pc + 1 + displacement(
            old(nes).load(old(nes).regs().pc).0,
        )) % 0x1_0000,
        !old(nes).regs().overflow() ==> final(nes).regs().pc == old(nes).regs().pc.wrapping_add(1),
        !old(nes).regs().overflow() ==> spent == cycles,
        final(nes).regs() == (NesRegisters { pc: final(nes).regs().pc, ..old(nes).regs() }),
        final(nes).ram == old(nes).ram,
        same_fittings(*old(nes), *final(nes)),
{
    let ghost before = *nes;
    proof {
        law_branch_taken(before, cycles);
        law_branch_frame(before, before.regs().overflow(), cycles);
    }
    let taken = nes.cpu.registers.status_overflow();
    branch(nes, taken, cycles)
}

/// BVC: branches where V is clear.
pub fn bvc<P>(nes: &mut Nes<P>, _addressing: u8, cycles: u8, _bytes: u8) -> (spent: u8)
    requires
        !old(nes).regs().overflow() ==> cycles <= u8::MAX - 2,
    ensures
        (*final(nes), spent) == branched(*old(nes), !old(nes).regs().overflow(), cycles),
        !old(nes).regs().overflow() ==> final(nes).regs().pc == (old(nes).regs().pc + 1 + displacement(
            old(nes).load(old(nes).regs().pc).0,
        )) % 0x1_0000,
        old(nes).regs().overflow() ==> final(nes).regs().pc == old(nes).regs().pc.wrapping_add(1),
        old(nes).regs().overflow() ==> spent == cycles,
        final(nes).regs() == (NesRegisters { pc: final(nes).regs().pc, ..old(nes).regs() }),
        final(nes).ram == old(nes).ram,
        same_fittings(*old(nes), *final(nes)),
{
    let ghost before = *nes;
    proof {
        law_branch_taken(before, cycles);
        law_branch_frame(before, !before.regs().overflow(), cycles);
    }
    let taken = !nes.cpu.registers.status_overflow();
    branch(nes, taken, cycles)
}

/// BMI: branches where N is set.
pub fn bmi<P>(nes: &mut Nes<P>, _addressing: u8, cycles: u8, _bytes: u8) -> (spent: u8)
    requires
        old(nes).regs().negative() ==> cycles <= u8::MAX - 2,
    ensures
        (*final(nes), spent) == branched(*old(nes), old(nes).regs().negative(), cycles),
        old(nes).regs().negative() ==> final(nes).regs().pc == (old(nes).regs().pc + 1 + displacement(
            old(nes).load(old(nes).regs().pc).0,
        )) % 0x1_0000,
        !old(nes).regs().negative() ==> final(nes).regs().pc == old(nes).regs().pc.wrapping_add(1),
        !old(nes).regs().negative() ==> spent == cycles,
        final(nes).regs() == (NesRegisters { pc: final(nes).regs().pc, ..old(nes).regs() }),
        final(nes).ram == old(nes).ram,
        same_fittings(*old(nes), *final(nes)),
{
    let ghost before = *nes;
    proof {
        law_branch_taken(before, cycles);
        law_branch_frame(before, before.regs().negative(), cycles);
    }
    let taken = nes.cpu.registers.status_negative();
    branch(nes, taken, cycles)
}
// undocumented instructions ------------------------------------------------------------

/// The machine after an instruction that takes an operand and does nothing
/// with it: only the program counter moves.
pub open spec fn skip_effect<P>(m: Nes<P>, mode: u8) -> Nes<P> {
    m.resolved(mode).machine
}

/// IGN: a NOP that takes an address.
pub fn ign<P>(nes: &mut Nes<P>, addressing: u8, cycles: u8, _bytes: u8) -> (spent: u8)
    requires
        addressable(addressing),
        page_sensitive(addressing) ==> cycles < u8::MAX,
    ensures
        *final(nes) == skip_effect(*old(nes), addressing),
        spent == with_penalty(cycles, old(nes).resolved(addressing).crossed),
        same_fittings(*old(nes), *final(nes)),
{
    let (_, crossed) = nes.resolve(addressing);
    penalised(cycles, crossed)
}

/// The machine after LAX.
pub open spec fn lax_effect<P>(m: Nes<P>, mode: u8) -> Nes<P> {
    let operand = m.operand(mode);
    let r = operand.machine.regs();
    operand.machine.with_regs(NesRegisters { x: operand.value, ..r.load_a(operand.value) })
}

/// LAX: the operand goes to A and to X; Z and N follow it.
pub fn lax<P>(nes: &mut Nes<P>, addressing: u8, cycles: u8, _bytes: u8) -> (spent: u8)
    requires
        addressable(addressing),
        page_sensitive(addressing) ==> cycles < u8::MAX,
    ensures
        *final(nes) == lax_effect(*old(nes), addressing),
        spent == with_penalty(cycles, old(nes).operand(addressing).crossed),
        final(nes).regs().pc == old(nes).regs().pc.wrapping_add(operand_bytes(addressing)),
        final(nes).ram == old(nes).ram,
        !page_sensitive(addressing) ==> spent == cycles,
        same_fittings(*old(nes), *final(nes)),
{
    let ghost before = *nes;
    proof {
        law_operand(before, addressing);
    }
    let (value, _, crossed) = nes.fetch(addressing);
    nes.cpu.registers.a = value;
    nes.cpu.registers.x = value;
    nes.cpu.registers.set_flags(value);
    penalised(cycles, crossed)
}

/// The machine after SAX.
pub open spec fn sax_effect<P>(m: Nes<P>, mode: u8) -> Nes<P> {
    let target = m.resolved(mode);
    target.machine.store(target.address, target.machine.regs().x & target.machine.regs().a)
}

/// SAX: the bits that A and X share are written at the effective address.
pub fn sax<P>(nes: &mut Nes<P>, addressing: u8, cycles: u8, _bytes: u8) -> (spent: u8)
    requires
        addressable(addressing),
    ensures
        *final(nes) == sax_effect(*old(nes), addressing),
        spent == cycles,
        same_fittings(*old(nes), *final(nes)),
{
    let address = nes.get_address_from_mode(addressing);
    let value = nes.cpu.registers.x & nes.cpu.registers.a;
    nes.set(address, value);
    cycles
}

/// The machine after DCP.
pub open spec fn dcp_effect<P>(m: Nes<P>, mode: u8) -> Nes<P> {
    let operand = m.operand(mode);
    let result = operand.value.wrapping_sub(1);
    let stored = operand.machine.store(operand.address, result);
    stored.with_regs(stored.regs().compared(stored.regs().a, result))
}

/// DCP: DEC, then CMP with the new value. Z and N are those of the comparison.
pub fn dcp<P>(nes: &mut Nes<P>, addressing: u8, cycles: u8, _bytes: u8) -> (spent: u8)
    requires
        addressable(addressing),
    ensures
        *final(nes) == dcp_effect(*old(nes), addressing),
        spent == cycles,
        same_fittings(*old(nes), *final(nes)),
{
    let (value, address, _) = nes.fetch(addressing);
    let result = value.wrapping_sub(1);
    nes.set(address, result);
    let register = nes.cpu.registers.a;
    nes.cpu.registers.assign_carry(register >= result);
    nes.cpu.registers.set_flags(register.wrapping_sub(result));
    cycles
}

/// The machine after ISC.
pub open spec fn isc_effect<P>(m: Nes<P>, mode: u8) -> Nes<P> {
    let operand = m.operand(mode);
    let result = operand.value.wrapping_add(1);
    let stored = operand.machine.store(operand.address, result);
    stored.with_regs(stored.regs().flagged(result).subtracted(result))
}

/// ISC, also known as ISB: INC, then SBC with the new value.
pub fn isc<P>(nes: &mut Nes<P>, addressing: u8, cycles: u8, _bytes: u8) -> (spent: u8)
    requires
        addressable(addressing),
    ensures
        *final(nes) == isc_effect(*old(nes), addressing),
        spent == cycles,
        same_fittings(*old(nes), *final(nes)),
{
    let (value, address, _) = nes.fetch(addressing);
    let result = value.wrapping_add(1);
    nes.set(address, result);
    nes.cpu.registers.set_flags(result);
    add_to_a(nes, 255 - result);
    cycles
}

/// The machine after SLO.
pub open spec fn slo_effect<P>(m: Nes<P>, mode: u8) -> Nes<P> {
    if mode == ACCUMULATOR {
        let r = m.regs();
        let value = r.a;
        let result = shifted_left(value, 0);
        let shifted = NesRegisters { a: result, ..r.carrying(top_bit(value)) };
        m.with_regs(shifted.load_a(result | shifted.a))
    } else {
        let operand = m.operand(mode);
        let r = operand.machine.regs();
        let value = operand.value;
        let result = shifted_left(value, 0);
        let stored = operand.machine.with_regs(r.carrying(top_bit(value))).store(
            operand.address,
            result,
        );
        let shifted = stored.regs();
        stored.with_regs(shifted.load_a(result | shifted.a))
    }
}

/// SLO: ASL, then ORA with the new value.
pub fn slo<P>(nes: &mut Nes<P>, addressing: u8, cycles: u8, _bytes: u8) -> (spent: u8)
    requires
        addressing == ACCUMULATOR || addressable(addressing),
    ensures
        *final(nes) == slo_effect(*old(nes), addressing),
        spent == cycles,
        same_fittings(*old(nes), *final(nes)),
{
    let result = if addressing == ACCUMULATOR {
        let value = nes.cpu.registers.a;
        let result = shift_left(value, false);
        nes.cpu.registers.assign_carry(value >= 0x80);
        nes.cpu.registers.a = result;
        result
    } else {
        let (value, address, _) = nes.fetch(addressing);
        let result = shift_left(value, false);
        nes.cpu.registers.assign_carry(value >= 0x80);
        nes.set(address, result);
        result
    };
    let combined = result | nes.cpu.registers.a;
    nes.cpu.registers.a = combined;
    nes.cpu.registers.set_flags(combined);
    cycles
}

/// The machine after RLA.
pub open spec fn rla_effect<P>(m: Nes<P>, mode: u8) -> Nes<P> {
    if mode == ACCUMULATOR {
        let r = m.regs();
        let value = r.a;
        let result = shifted_left(value, r.carry_in());
        let shifted = NesRegisters { a: result, ..r.carrying(top_bit(value)) };
        m.with_regs(shifted.load_a(result & shifted.a))
    } else {
        let operand = m.operand(mode);
        let r = operand.machine.regs();
        let value = operand.value;
        let result = shifted_left(value, r.carry_in());
        let stored = operand.machine.with_regs(r.carrying(top_bit(value))).store(
            operand.address,
            result,
        );
        let shifted = stored.regs();
        stored.with_regs(shifted.load_a(result & shifted.a))
    }
}

/// RLA: ROL, then AND with the new value.
pub fn rla<P>(nes: &mut Nes<P>, addressing: u8, cycles: u8, _bytes: u8) -> (spent: u8)
    requires
        addressing == ACCUMULATOR || addressable(addressing),
    ensures
        *final(nes) == rla_effect(*old(nes), addressing),
        spent == cycles,
        same_fittings(*old(nes), *final(nes)),
{
    let result = if addressing == ACCUMULATOR {
        let value = nes.cpu.registers.a;
        let carry = nes.cpu.registers.status_carry();
        let result = shift_left(value, carry);
        nes.cpu.registers.assign_carry(value >= 0x80);
        nes.cpu.registers.a = result;
        result
    } else {
        let (value, address, _) = nes.fetch(addressing);
        let carry = nes.cpu.registers.status_carry();
        let result = shift_left(value, carry);
        nes.cpu.registers.assign_carry(value >= 0x80);
        nes.set(address, result);
        result
    };
    let combined = result & nes.cpu.registers.a;
    nes.cpu.registers.a = combined;
    nes.cpu.registers.set_flags(combined);
    cycles
}

/// The machine after SRE.
pub open spec fn sre_effect<P>(m: Nes<P>, mode: u8) -> Nes<P> {
    if mode == ACCUMULATOR {
        let r = m.regs();
        let value = r.a;
        let result = shifted_right(value, 0);
        let shifted = NesRegisters { a: result, ..r.carrying(bottom_bit(value)) };
        m.with_regs(shifted.load_a(result ^ shifted.a))
    } else {
        let operand = m.operand(mode);
        let r = operand.machine.regs();
        let value = operand.value;
        let result = shifted_right(value, 0);
        let stored = operand.machine.with_regs(r.carrying(bottom_bit(value))).store(
            operand.address,
            result,
        );
        let shifted = stored.regs();
        stored.with_regs(shifted.load_a(result ^ shifted.a))
    }
}

/// SRE: LSR, then EOR with the new value.
pub fn sre<P>(nes: &mut Nes<P>, addressing: u8, cycles: u8, _bytes: u8) -> (spent: u8)
    requires
        addressing == ACCUMULATOR || addressable(addressing),
    ensures
        *final(nes) == sre_effect(*old(nes), addressing),
        spent == cycles,
        same_fittings(*old(nes), *final(nes)),
{
    let result = if addressing == ACCUMULATOR {
        let value = nes.cpu.registers.a;
        let result = shift_right(value, false);
        nes.cpu.registers.assign_carry(value % 2 == 1);
        nes.cpu.registers.a = result;
        result
    } else {
        let (value, address, _) = nes.fetch(addressing);
        let result = shift_right(value, false);
        nes.cpu.registers.assign_carry(value % 2 == 1);
        nes.set(address, result);
        result
    };
    let combined = result ^ nes.cpu.registers.a;
    nes.cpu.registers.a = combined;
    nes.cpu.registers.set_flags(combined);
    cycles
}

/// The machine after RRA.
pub open spec fn rra_effect<P>(m: Nes<P>, mode: u8) -> Nes<P> {
    if mode == ACCUMULATOR {
        let r = m.regs();
        let value = r.a;
        let result = shifted_right(value, r.carry_in());
        let shifted = NesRegisters { a: result, ..r.carrying(bottom_bit(value)) };
        m.with_regs(shifted.added(result))
    } else {
        let operand = m.operand(mode);
        let r = operand.machine.regs();
        let value = operand.value;
        let result = shifted_right(value, r.carry_in());
        let stored = operand.machine.with_regs(r.carrying(bottom_bit(value))).store(
            operand.address,
            result,
        );
        let shifted = stored.regs();
        stored.with_regs(shifted.added(result))
    }
}

/// RRA: ROR, then ADC with the new value.
pub fn rra<P>(nes: &mut Nes<P>, addressing: u8, cycles: u8, _bytes: u8) -> (spent: u8)
    requires
        addressing == ACCUMULATOR || addressable(addressing),
    ensures
        *final(nes) == rra_effect(*old(nes), addressing),
        spent == cycles,
        same_fittings(*old(nes), *final(nes)),
{
    let result = if addressing == ACCUMULATOR {
        let value = nes.cpu.registers.a;
        let carry = nes.cpu.registers.status_carry();
        let result = shift_right(value, carry);
        nes.cpu.registers.assign_carry(value % 2 == 1);
        nes.cpu.registers.a = result;
        result
    } else {
        let (value, address, _) = nes.fetch(addressing);
        let carry = nes.cpu.registers.status_carry();
        let result = shift_right(value, carry);
        nes.cpu.registers.assign_carry(value % 2 == 1);
        nes.set(address, result);
        result
    };
    add_to_a(nes, result);
    cycles
}

/// A halting instruction stops the machine and leaves the program counter on
/// itself.
pub fn halt<P>(nes: &mut Nes<P>, _addressing: u8, cycles: u8, _bytes: u8) -> (spent: u8)
    ensures
        *final(nes) == halt_effect(*old(nes)),
        spent == cycles,
        same_fittings(*old(nes), *final(nes)),
{
    nes.cpu.registers.pc = nes.cpu.registers.pc.wrapping_sub(1);
    nes.cpu.running = false;
    cycles
}

/// ALR takes its operand and has no effect.
pub fn alr<P>(nes: &mut Nes<P>, addressing: u8, cycles: u8, _bytes: u8) -> (spent: u8)
    requires
        addressable(addressing),
        page_sensitive(addressing) ==> cycles < u8::MAX,
    ensures
        *final(nes) == skip_effect(*old(nes), addressing),
        spent == with_penalty(cycles, old(nes).resolved(addressing).crossed),
        same_fittings(*old(nes), *final(nes)),
{
    let (_, crossed) = nes.resolve(addressing);
    penalised(cycles, crossed)
}

/// ANC takes its operand and has no effect.
pub fn anc<P>(nes: &mut Nes<P>, addressing: u8, cycles: u8, _bytes: u8) -> (spent: u8)
    requires
        addressable(addressing),
        page_sensitive(addressing) ==> cycles < u8::MAX,
    ensures
        *final(nes) == skip_effect(*old(nes), addressing),
        spent == with_penalty(cycles, old(nes).resolved(addressing).crossed),
        same_fittings(*old(nes), *final(nes)),
{
    let (_, crossed) = nes.resolve(addressing);
    penalised(cycles, crossed)
}

/// ARR takes its operand and has no effect.
pub fn arr<P>(nes: &mut Nes<P>, addressing: u8, cycles: u8, _bytes: u8) -> (spent: u8)
    requires
        addressable(addressing),
        page_sensitive(addressing) ==> cycles < u8::MAX,
    ensures
        *final(nes) == skip_effect(*old(nes), addressing),
        spent == with_penalty(cycles, old(nes).resolved(addressing).crossed),
        same_fittings(*old(nes), *final(nes)),
{
    let (_, crossed) = nes.resolve(addressing);
    penalised(cycles, crossed)
}

/// AXS takes its operand and has no effect.
pub fn axs<P>(nes: &mut Nes<P>, addressing: u8, cycles: u8, _bytes: u8) -> (spent: u8)
    requires
        addressable(addressing),
        page_sensitive(addressing) ==> cycles < u8::MAX,
    ensures
        *final(nes) == skip_effect(*old(nes), addressing),
        spent == with_penalty(cycles, old(nes).resolved(addressing).crossed),
        same_fittings(*old(nes), *final(nes)),
{
    let (_, crossed) = nes.resolve(addressing);
    penalised(cycles, crossed)
}

/// SKB: a NOP that takes an immediate operand.
pub fn skb<P>(nes: &mut Nes<P>, addressing: u8, cycles: u8, _bytes: u8) -> (spent: u8)
    requires
        addressable(addressing),
        page_sensitive(addressing) ==> cycles < u8::MAX,
    ensures
        *final(nes) == skip_effect(*old(nes), addressing),
        spent == with_penalty(cycles, old(nes).resolved(addressing).crossed),
        same_fittings(*old(nes), *final(nes)),
{
    let (_, crossed) = nes.resolve(addressing);
    penalised(cycles, crossed)
}

/// The entry of an encoding that stands for no instruction: the machine stops
/// on it, as on a halting instruction.
pub fn placeholder<P>(nes: &mut Nes<P>, _addressing: u8, cycles: u8, _bytes: u8) -> (spent: u8)
    ensures
        *final(nes) == halt_effect(*old(nes)),
        spent == cycles,
        same_fittings(*old(nes), *final(nes)),
{
    nes.cpu.registers.pc = nes.cpu.registers.pc.wrapping_sub(1);
    nes.cpu.running = false;
    cycles
}

} // verus!
