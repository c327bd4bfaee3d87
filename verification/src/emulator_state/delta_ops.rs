//! Loads and stores on a snapshot that record how to undo themselves.

use vstd::prelude::*;
use crate::bus::join_word;
use crate::bus::word_of;
use crate::common::AddressingMode;
use crate::cpu::NesRegisters;
use crate::cpu::RegisterAccess;
use crate::emulator_state::AddressableMemory;
use crate::emulator_state::Delta;
use crate::emulator_state::DeltaEvent;
use crate::emulator_state::Snapshot;

verus! {

/// The number of operand bytes that follow the opcode in an addressing mode.
pub open spec fn operand_length(mode: AddressingMode) -> u16 {
    match mode {
        AddressingMode::Implicit | AddressingMode::Accumulator => 0,
        AddressingMode::Absolute | AddressingMode::AbsoluteX | AddressingMode::AbsoluteY
        | AddressingMode::Indirect => 2,
        _ => 1,
    }
}

/// The little-endian word that `read` gives at `address` and the byte after
/// it.
pub open spec fn word_read(read: spec_fn(u16) -> u8, address: u16) -> u16 {
    word_of(read(address), read(address.wrapping_add(1)))
}

/// The little-endian word that `read` gives at `pointer` and at the byte after
/// it within the zero page.
pub open spec fn zero_page_word(read: spec_fn(u16) -> u8, pointer: u8) -> u16 {
    word_of(read(pointer as u16), read(pointer.wrapping_add(1) as u16))
}

/// The effective address of an addressing mode, from the registers and from
/// what reads of the memory give. The program counter points at the operand.
pub open spec fn effective_address(
    mode: AddressingMode,
    r: NesRegisters,
    read: spec_fn(u16) -> u8,
) -> u16 {
    let operand = read(r.pc);
    let word = word_read(read, r.pc);
    match mode {
        AddressingMode::Implicit | AddressingMode::Accumulator | AddressingMode::Immediate => r.pc,
        AddressingMode::ZeroPage | AddressingMode::Relative => operand as u16,
        AddressingMode::ZeroPageX => operand.wrapping_add(r.x) as u16,
        AddressingMode::ZeroPageY => operand.wrapping_add(r.y) as u16,
        AddressingMode::Absolute => word,
        AddressingMode::AbsoluteX => word.wrapping_add(r.x as u16),
        AddressingMode::AbsoluteY => word.wrapping_add(r.y as u16),
        AddressingMode::Indirect => word_of(
            read(word),
            read(crate::nes::next_in_page(word)),
        ),
        AddressingMode::IndexedIndirect => zero_page_word(read, operand.wrapping_add(r.x)),
        AddressingMode::IndirectIndexed => zero_page_word(read, operand).wrapping_add(r.y as u16),
    }
}

/// Whether a mode has an operand in memory.
pub open spec fn has_operand(mode: AddressingMode) -> bool {
    mode != AddressingMode::Implicit && mode != AddressingMode::Accumulator
}

/// Resolves an addressing mode on anything that holds registers and memory:
/// gives the effective address and moves the program counter past the
/// operand.
pub fn translate_address<N: AddressableMemory + RegisterAccess>(
    snap: &mut N,
    mode: AddressingMode,
) -> (address: u16)
    requires
        has_operand(mode),
    ensures
        address == effective_address(
            mode,
            old(snap).registers(),
            |at: u16| old(snap).cell(at),
        ),
        *final(snap) == old(snap).with_registers(
            NesRegisters {
                pc: old(snap).registers().pc.wrapping_add(operand_length(mode)),
                ..old(snap).registers()
            },
        ),
{
    let pc = snap.get_pc();
    let operand = snap.get(pc);
    let word = join_word(operand, snap.get(pc.wrapping_add(1)));
    let x = snap.get_x();
    let y = snap.get_y();
    let (address, length): (u16, u16) = match mode {
        AddressingMode::Implicit | AddressingMode::Accumulator | AddressingMode::Immediate => (
            pc,
            1,
        ),
        AddressingMode::ZeroPage | AddressingMode::Relative => (operand as u16, 1),
        AddressingMode::ZeroPageX => (operand.wrapping_add(x) as u16, 1),
        AddressingMode::ZeroPageY => (operand.wrapping_add(y) as u16, 1),
        AddressingMode::Absolute => (word, 2),
        AddressingMode::AbsoluteX => (word.wrapping_add(x as u16), 2),
        AddressingMode::AbsoluteY => (word.wrapping_add(y as u16), 2),
        AddressingMode::Indirect => {
            let low = snap.get(word);
            let next = join_word(
                crate::bus::split_low(word).wrapping_add(1),
                crate::bus::split_high(word),
            );
            (join_word(low, snap.get(next)), 2)
        },
        AddressingMode::IndexedIndirect => {
            let base = operand.wrapping_add(x);
            (join_word(snap.get(base as u16), snap.get(base.wrapping_add(1) as u16)), 1)
        },
        AddressingMode::IndirectIndexed => {
            let base = join_word(
                snap.get(operand as u16),
                snap.get(operand.wrapping_add(1) as u16),
            );
            (base.wrapping_add(y as u16), 1)
        },
    };
    snap.set_pc(pc.wrapping_add(length));
    address
}

/// The cycles that LDX takes in a mode; 0 in a mode that LDX does not have.
pub open spec fn ldx_cycles(mode: AddressingMode) -> u64 {
    match mode {
        AddressingMode::Immediate => 2,
        AddressingMode::ZeroPage => 3,
        AddressingMode::ZeroPageY | AddressingMode::Absolute | AddressingMode::AbsoluteY => 4,
        _ => 0,
    }
}

/// The cycles that LDA takes in a mode; 0 in a mode that LDA does not have.
pub open spec fn lda_cycles(mode: AddressingMode) -> u64 {
    match mode {
        AddressingMode::Immediate => 2,
        AddressingMode::ZeroPage => 3,
        AddressingMode::ZeroPageX | AddressingMode::Absolute | AddressingMode::AbsoluteX
        | AddressingMode::AbsoluteY => 4,
        AddressingMode::IndexedIndirect => 6,
        AddressingMode::IndirectIndexed => 5,
        _ => 0,
    }
}

/// The cycles that LDY takes in a mode; 0 in a mode that LDY does not have.
pub open spec fn ldy_cycles(mode: AddressingMode) -> u64 {
    match mode {
        AddressingMode::Immediate => 2,
        AddressingMode::ZeroPage => 3,
        AddressingMode::ZeroPageX | AddressingMode::Absolute | AddressingMode::AbsoluteX => 4,
        _ => 0,
    }
}

/// The cycles that STA takes in a mode; 0 in a mode that STA does not have.
pub open spec fn sta_cycles(mode: AddressingMode) -> u64 {
    match mode {
        AddressingMode::ZeroPage => 3,
        AddressingMode::ZeroPageX | AddressingMode::Absolute => 4,
        AddressingMode::AbsoluteX | AddressingMode::AbsoluteY => 5,
        AddressingMode::IndexedIndirect | AddressingMode::IndirectIndexed => 6,
        _ => 0,
    }
}

/// The cycles that STX and STY take in a mode; 0 in a mode that they do not
/// have.
pub open spec fn index_store_cycles(mode: AddressingMode) -> u64 {
    match mode {
        AddressingMode::ZeroPage => 3,
        AddressingMode::ZeroPageX | AddressingMode::Absolute => 4,
        _ => 0,
    }
}

/// The snapshot after the operand of an instruction was resolved: the program
/// counter is past the operand.
pub open spec fn advanced(snap: Snapshot, mode: AddressingMode) -> Snapshot {
    Snapshot { pc: snap.pc.wrapping_add(operand_length(mode)), ..snap }
}

/// The address that the operand of an instruction on a snapshot resolves to.
pub open spec fn target(snap: Snapshot, mode: AddressingMode) -> u16 {
    effective_address(mode, snap.registers(), |at: u16| snap.cell(at))
}

/// LDX on a snapshot. The change that is given back undoes the load: it holds
/// what X and the status were before.
pub fn ldx(snap: &mut Snapshot, mode: AddressingMode, cycle: u64) -> (delta: Delta)
    requires
        has_operand(mode),
    ensures
        *final(snap) == advanced(*old(snap), mode).with_registers(
            advanced(*old(snap), mode).registers().load_x(
                old(snap).cell(target(*old(snap), mode)),
            ),
        ),
        delta == (Delta {
            cycle: cycle.wrapping_add(ldx_cycles(mode)),
            event: DeltaEvent::write_x_of(old(snap).x, old(snap).p),
        }),
{
    let address = translate_address(snap, mode);
    let value = snap.get(address);
    let old_value = snap.get_x();
    let old_flags = snap.get_p();
    snap.set_x(value);
    snap.set_flags_from(value);
    let cycles: u64 = match mode {
        AddressingMode::Immediate => 2,
        AddressingMode::ZeroPage => 3,
        AddressingMode::ZeroPageY => 4,
        AddressingMode::Absolute => 4,
        AddressingMode::AbsoluteY => 4,
        _ => 0,
    };
    Delta::new(cycle.wrapping_add(cycles), DeltaEvent::write_x(old_value, old_flags))
}

/// LDA on a snapshot. The change that is given back undoes the load: it holds
/// what A and the status were before.
pub fn lda(snap: &mut Snapshot, mode: AddressingMode, cycle: u64) -> (delta: Delta)
    requires
        has_operand(mode),
    ensures
        *final(snap) == advanced(*old(snap), mode).with_registers(
            advanced(*old(snap), mode).registers().load_a(
                old(snap).cell(target(*old(snap), mode)),
            ),
        ),
        delta == (Delta {
            cycle: cycle.wrapping_add(lda_cycles(mode)),
            event: DeltaEvent::write_a_of(old(snap).a, old(snap).p),
        }),
{
    let address = translate_address(snap, mode);
    let value = snap.get(address);
    let old_value = snap.get_a();
    let old_flags = snap.get_p();
    snap.set_a(value);
    snap.set_flags_from(value);
    let cycles: u64 = match mode {
        AddressingMode::Immediate => 2,
        AddressingMode::ZeroPage => 3,
        AddressingMode::ZeroPageX => 4,
        AddressingMode::Absolute => 4,
        AddressingMode::AbsoluteX => 4,
        AddressingMode::AbsoluteY => 4,
        AddressingMode::IndexedIndirect => 6,
        AddressingMode::IndirectIndexed => 5,
        _ => 0,
    };
    Delta::new(cycle.wrapping_add(cycles), DeltaEvent::write_a(old_value, old_flags))
}

/// LDY on a snapshot. The change that is given back undoes the load: it holds
/// what Y and the status were before.
pub fn ldy(snap: &mut Snapshot, mode: AddressingMode, cycle: u64) -> (delta: Delta)
    requires
        has_operand(mode),
    ensures
        *final(snap) == advanced(*old(snap), mode).with_registers(
            advanced(*old(snap), mode).registers().load_y(
                old(snap).cell(target(*old(snap), mode)),
            ),
        ),
        delta == (Delta {
            cycle: cycle.wrapping_add(ldy_cycles(mode)),
            event: DeltaEvent::write_y_of(old(snap).y, old(snap).p),
        }),
{
    let address = translate_address(snap, mode);
    let value = snap.get(address);
    let old_value = snap.get_y();
    let old_flags = snap.get_p();
    snap.set_y(value);
    snap.set_flags_from(value);
    let cycles: u64 = match mode {
        AddressingMode::Immediate => 2,
        AddressingMode::ZeroPage => 3,
        AddressingMode::ZeroPageX => 4,
        AddressingMode::Absolute => 4,
        AddressingMode::AbsoluteX => 4,
        _ => 0,
    };
    Delta::new(cycle.wrapping_add(cycles), DeltaEvent::write_y(old_value, old_flags))
}

/// STA on a snapshot. The change that is given back undoes the store: it
/// holds what the byte at the address and the status were before.
pub fn sta(snap: &mut Snapshot, mode: AddressingMode, cycle: u64) -> (delta: Delta)
    requires
        has_operand(mode),
    ensures
        *final(snap) == advanced(*old(snap), mode).with_cell(
            target(*old(snap), mode),
            old(snap).a,
        ),
        delta == (Delta {
            cycle: cycle.wrapping_add(sta_cycles(mode)),
            event: DeltaEvent::write_mem_of(
                target(*old(snap), mode),
                old(snap).cell(target(*old(snap), mode)),
                old(snap).p,
            ),
        }),
{
    let address = translate_address(snap, mode);
    let old_flags = snap.get_p();
    let old_value = snap.get(address);
    let value = snap.get_a();
    snap.set(address, value);
    let cycles: u64 = match mode {
        AddressingMode::ZeroPage => 3,
        AddressingMode::ZeroPageX => 4,
        AddressingMode::Absolute => 4,
        AddressingMode::AbsoluteX => 5,
        AddressingMode::AbsoluteY => 5,
        AddressingMode::IndexedIndirect => 6,
        AddressingMode::IndirectIndexed => 6,
        _ => 0,
    };
    Delta::new(cycle.wrapping_add(cycles), DeltaEvent::write_mem(address, old_value, old_flags))
}

/// STX on a snapshot. The change that is given back undoes the store.
pub fn stx(snap: &mut Snapshot, mode: AddressingMode, cycle: u64) -> (delta: Delta)
    requires
        has_operand(mode),
    ensures
        *final(snap) == advanced(*old(snap), mode).with_cell(
            target(*old(snap), mode),
            old(snap).x,
        ),
        delta == (Delta {
            cycle: cycle.wrapping_add(index_store_cycles(mode)),
            event: DeltaEvent::write_mem_of(
                target(*old(snap), mode),
                old(snap).cell(target(*old(snap), mode)),
                old(snap).p,
            ),
        }),
{
    let address = translate_address(snap, mode);
    let old_flags = snap.get_p();
    let old_value = snap.get(address);
    let value = snap.get_x();
    snap.set(address, value);
    let cycles: u64 = match mode {
        AddressingMode::ZeroPage => 3,
        AddressingMode::ZeroPageX => 4,
        AddressingMode::Absolute => 4,
        _ => 0,
    };
    Delta::new(cycle.wrapping_add(cycles), DeltaEvent::write_mem(address, old_value, old_flags))
}

/// STY on a snapshot. The change that is given back undoes the store.
pub fn sty(snap: &mut Snapshot, mode: AddressingMode, cycle: u64) -> (delta: Delta)
    requires
        has_operand(mode),
    ensures
        *final(snap) == advanced(*old(snap), mode).with_cell(
            target(*old(snap), mode),
            old(snap).y,
        ),
        delta == (Delta {
            cycle: cycle.wrapping_add(index_store_cycles(mode)),
            event: DeltaEvent::write_mem_of(
                target(*old(snap), mode),
                old(snap).cell(target(*old(snap), mode)),
                old(snap).p,
            ),
        }),
{
    let address = translate_address(snap, mode);
    let old_flags = snap.get_p();
    let old_value = snap.get(address);
    let value = snap.get_y();
    snap.set(address, value);
    let cycles: u64 = match mode {
        AddressingMode::ZeroPage => 3,
        AddressingMode::ZeroPageX => 4,
        AddressingMode::Absolute => 4,
        _ => 0,
    };
    Delta::new(cycle.wrapping_add(cycles), DeltaEvent::write_mem(address, old_value, old_flags))
}

/// Undoing the change that a load gave back puts the register and the status
/// back as they were before the load.
pub proof fn law_load_undone(before: Snapshot, after: Snapshot, delta: Delta)
    requires
        delta.event == DeltaEvent::write_a_of(before.a, before.p) || delta.event
            == DeltaEvent::write_x_of(before.x, before.p) || delta.event
            == DeltaEvent::write_y_of(before.y, before.p),
    ensures
        delta.event.undone(after).p == before.p,
        delta.event == DeltaEvent::write_a_of(before.a, before.p) ==> delta.event.undone(
            after,
        ).a == before.a,
        delta.event == DeltaEvent::write_x_of(before.x, before.p) ==> delta.event.undone(
            after,
        ).x == before.x,
        delta.event == DeltaEvent::write_y_of(before.y, before.p) ==> delta.event.undone(
            after,
        ).y == before.y,
{
}

} // verus!
