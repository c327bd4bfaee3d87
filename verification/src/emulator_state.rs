//! The state of a machine together with enough of its history to look at any
//! recent cycle.

use vstd::prelude::*;
use crate::cpu::NesRegisters;
use crate::cpu::RegisterAccess;

pub mod delta_ops;
pub mod registers;

verus! {

/// A memory whose reads do not change it.
pub trait AddressableMemory: Sized {
    /// The half-open range of addresses that the memory decodes.
    spec fn range(&self) -> (u16, u16);

    /// The byte at `address`.
    spec fn cell(&self, address: u16) -> u8;

    /// The memory with `value` at `address`.
    spec fn with_cell(self, address: u16, value: u8) -> Self;

    fn bounds(&self) -> (bounds: (u16, u16))
        ensures
            bounds == self.range(),
    ;

    fn set(&mut self, address: u16, value: u8)
        ensures
            *final(self) == old(self).with_cell(address, value),
    ;

    fn get(&self, address: u16) -> (value: u8)
        ensures
            value == self.cell(address),
    ;
}

/// The whole state of a machine: its registers and its 64 KiB of memory.
pub struct Snapshot {
    pub a: u8,
    pub x: u8,
    pub y: u8,
    pub p: u8,
    pub sp: u8,
    pub pc: u16,
    pub memory: Box<[u8; 0x1_0000]>,
}

impl Clone for Snapshot {
    fn clone(&self) -> (copy: Snapshot)
        ensures
            copy == *self,
    {
        Snapshot {
            a: self.a,
            x: self.x,
            y: self.y,
            p: self.p,
            sp: self.sp,
            pc: self.pc,
            memory: Box::new(*self.memory),
        }
    }
}

impl AddressableMemory for Snapshot {
    open spec fn range(&self) -> (u16, u16) {
        (0, 0xffff)
    }

    open spec fn cell(&self, address: u16) -> u8 {
        self.memory@[address as int]
    }

    open spec fn with_cell(self, address: u16, value: u8) -> Self {
        Snapshot {
            memory: Box::new(vstd::array::spec_array_update(*self.memory, address as int, value)),
            ..self
        }
    }

    fn bounds(&self) -> (bounds: (u16, u16)) {
        (0, 0xffff)
    }

    fn set(&mut self, address: u16, value: u8) {
        self.memory[address as usize] = value;
        assert(*self.memory =~= vstd::array::spec_array_update(
            *old(self).memory,
            address as int,
            value,
        ));
    }

    fn get(&self, address: u16) -> (value: u8) {
        self.memory[address as usize]
    }
}

impl RegisterAccess for Snapshot {
    open spec fn registers(&self) -> NesRegisters {
        NesRegisters { pc: self.pc, sp: self.sp, a: self.a, x: self.x, y: self.y, p: self.p }
    }

    open spec fn with_registers(self, registers: NesRegisters) -> Self {
        Snapshot {
            a: registers.a,
            x: registers.x,
            y: registers.y,
            p: registers.p,
            sp: registers.sp,
            pc: registers.pc,
            memory: self.memory,
        }
    }

    proof fn lemma_read_back(self, registers: NesRegisters) {
    }

    proof fn lemma_overwrite(self, first: NesRegisters, second: NesRegisters) {
    }

    fn get_a(&self) -> (value: u8) {
        self.a
    }

    fn get_x(&self) -> (value: u8) {
        self.x
    }

    fn get_y(&self) -> (value: u8) {
        self.y
    }

    fn get_p(&self) -> (value: u8) {
        self.p
    }

    fn get_sp(&self) -> (value: u8) {
        self.sp
    }

    fn get_pc(&self) -> (value: u16) {
        self.pc
    }

    fn set_a(&mut self, value: u8) -> (held: u8) {
        let old = self.a;
        self.a = value;
        old
    }

    fn set_x(&mut self, value: u8) -> (held: u8) {
        let old = self.x;
        self.x = value;
        old
    }

    fn set_y(&mut self, value: u8) -> (held: u8) {
        let old = self.y;
        self.y = value;
        old
    }

    fn set_p(&mut self, value: u8) -> (held: u8) {
        let old = self.p;
        self.p = value;
        old
    }

    fn set_sp(&mut self, value: u8) -> (held: u8) {
        let old = self.sp;
        self.sp = value;
        old
    }

    fn set_pc(&mut self, value: u16) -> (held: u16) {
        let old = self.pc;
        self.pc = value;
        old
    }
}

/// A write to memory, as it is undone: where it went, what was there before,
/// and the status before.
#[derive(Clone, Copy, PartialEq, Eq, Structural, Debug)]
pub struct MemoryWrite {
    pub address: u16,
    pub old_value: u8,
    pub status: u8,
}

/// The registers of one byte.
#[derive(Clone, Copy, PartialEq, Eq, Structural, Debug)]
pub enum ByteRegister {
    A,
    X,
    Y,
    P,
    SP,
}

/// What a register of one byte held before a write, and the status before.
#[derive(Clone, Copy, PartialEq, Eq, Structural, Debug)]
pub struct RegisterHistory {
    pub old: u8,
    pub status: u8,
}

/// A write to a register, as it is undone.
#[derive(Clone, Copy, PartialEq, Eq, Structural, Debug)]
pub enum RegisterWrite {
    Byte(ByteRegister, RegisterHistory),
    PC(u16, u8),
}

/// An event that touches the machine as a whole.
#[derive(Clone, Copy, PartialEq, Eq, Structural, Debug)]
pub enum GlobalEvent {
    Reset,
    Stop,
}

/// One change of the state.
#[derive(Clone, Copy, PartialEq, Eq, Structural, Debug)]
pub enum DeltaEvent {
    WriteMem(MemoryWrite),
    WriteRegister(RegisterWrite),
    GlobalStateUpdate(GlobalEvent),
}

impl DeltaEvent {
    /// The change that undoes a write to memory.
    pub open spec fn write_mem_of(address: u16, old_value: u8, status: u8) -> DeltaEvent {
        DeltaEvent::WriteMem(MemoryWrite { address, old_value, status })
    }

    /// The change that undoes a write to X.
    pub open spec fn write_x_of(old: u8, status: u8) -> DeltaEvent {
        DeltaEvent::WriteRegister(
            RegisterWrite::Byte(ByteRegister::X, RegisterHistory { old, status }),
        )
    }

    /// The change that undoes a write to A.
    pub open spec fn write_a_of(old: u8, status: u8) -> DeltaEvent {
        DeltaEvent::WriteRegister(
            RegisterWrite::Byte(ByteRegister::A, RegisterHistory { old, status }),
        )
    }

    /// The change that undoes a write to Y.
    pub open spec fn write_y_of(old: u8, status: u8) -> DeltaEvent {
        DeltaEvent::WriteRegister(
            RegisterWrite::Byte(ByteRegister::Y, RegisterHistory { old, status }),
        )
    }

    pub fn write_mem(address: u16, old_value: u8, status: u8) -> (event: DeltaEvent)
        ensures
            event == DeltaEvent::write_mem_of(address, old_value, status),
    {
        DeltaEvent::WriteMem(MemoryWrite { address, old_value, status })
    }

    pub fn write_x(old: u8, status: u8) -> (event: DeltaEvent)
        ensures
            event == DeltaEvent::write_x_of(old, status),
    {
        DeltaEvent::WriteRegister(
            RegisterWrite::Byte(ByteRegister::X, RegisterHistory { old, status }),
        )
    }

    pub fn write_a(old: u8, status: u8) -> (event: DeltaEvent)
        ensures
            event == DeltaEvent::write_a_of(old, status),
    {
        DeltaEvent::WriteRegister(
            RegisterWrite::Byte(ByteRegister::A, RegisterHistory { old, status }),
        )
    }

    pub fn write_y(old: u8, status: u8) -> (event: DeltaEvent)
        ensures
            event == DeltaEvent::write_y_of(old, status),
    {
        DeltaEvent::WriteRegister(
            RegisterWrite::Byte(ByteRegister::Y, RegisterHistory { old, status }),
        )
    }

    /// The snapshot with this change undone: the place that was written holds
    /// again what it held before, and so does the status. An event that
    /// touches the machine as a whole leaves a snapshot as it is.
    pub open spec fn undone(self, snapshot: Snapshot) -> Snapshot {
        match self {
            DeltaEvent::WriteMem(write) => Snapshot {
                p: write.status,
                ..snapshot.with_cell(write.address, write.old_value)
            },
            DeltaEvent::WriteRegister(RegisterWrite::PC(old, status)) => Snapshot {
                pc: old,
                p: status,
                ..snapshot
            },
            DeltaEvent::WriteRegister(RegisterWrite::Byte(which, history)) => match which {
                ByteRegister::A => Snapshot { a: history.old, p: history.status, ..snapshot },
                ByteRegister::X => Snapshot { x: history.old, p: history.status, ..snapshot },
                ByteRegister::Y => Snapshot { y: history.old, p: history.status, ..snapshot },
                ByteRegister::SP => Snapshot { sp: history.old, p: history.status, ..snapshot },
                ByteRegister::P => Snapshot { p: history.status, ..snapshot },
            },
            DeltaEvent::GlobalStateUpdate(_) => snapshot,
        }
    }
}

/// A change of the state and the cycle in which it happened.
#[derive(Clone, Copy, PartialEq, Eq, Structural, Debug)]
pub struct Delta {
    pub cycle: u64,
    pub event: DeltaEvent,
}

impl Delta {
    pub fn new(cycle: u64, event: DeltaEvent) -> (delta: Delta)
        ensures
            delta == (Delta { cycle, event }),
    {
        Delta { cycle, event }
    }

    /// Undoes this change in `snapshot`.
    pub fn apply(&self, snapshot: Snapshot) -> (undone: Snapshot)
        ensures
            undone == self.event.undone(snapshot),
    {
        let mut snapshot = snapshot;
        match self.event {
            DeltaEvent::WriteMem(write) => {
                snapshot.set(write.address, write.old_value);
                snapshot.set_p(write.status);
            },
            DeltaEvent::WriteRegister(RegisterWrite::PC(old, status)) => {
                snapshot.set_pc(old);
                snapshot.set_p(status);
            },
            DeltaEvent::WriteRegister(RegisterWrite::Byte(which, history)) => {
                match which {
                    ByteRegister::A => {
                        snapshot.set_a(history.old);
                    },
                    ByteRegister::X => {
                        snapshot.set_x(history.old);
                    },
                    ByteRegister::Y => {
                        snapshot.set_y(history.old);
                    },
                    ByteRegister::SP => {
                        snapshot.set_sp(history.old);
                    },
                    ByteRegister::P => {
                        snapshot.set_p(history.old);
                    },
                }
                snapshot.set_p(history.status);
            },
            DeltaEvent::GlobalStateUpdate(_) => {},
        }
        snapshot
    }
}

/// The snapshot with undone, in their order, those of `deltas` that happened
/// after `cycle`.
pub open spec fn rewound(deltas: Seq<Delta>, newest: Snapshot, cycle: u64) -> Snapshot
    decreases deltas.len(),
{
    if deltas.len() == 0 {
        newest
    } else {
        let earlier = rewound(deltas.drop_last(), newest, cycle);
        if deltas.last().cycle > cycle {
            deltas.last().event.undone(earlier)
        } else {
            earlier
        }
    }
}

/// Those of `deltas` that happened in `cycle` or later, in their order.
pub open spec fn since(deltas: Seq<Delta>, cycle: u64) -> Seq<Delta>
    decreases deltas.len(),
{
    if deltas.len() == 0 {
        Seq::empty()
    } else if deltas.last().cycle >= cycle {
        since(deltas.drop_last(), cycle).push(deltas.last())
    } else {
        since(deltas.drop_last(), cycle)
    }
}

/// The state of a machine and the changes that led to it.
pub struct State {
    /// the recent changes
    pub deltas: Vec<Delta>,
    pub newest_state: Snapshot,
}

/// The state of a machine as it was in a cycle.
pub struct StateView<'a> {
    pub state: &'a State,
    pub cycle: u64,
}

impl State {
    /// The state as it was after `cycle`: the newest state with every later
    /// change undone.
    pub fn get_snapshot(&self, cycle: u64) -> (snapshot: Snapshot)
        ensures
            snapshot == rewound(self.deltas@, self.newest_state, cycle),
    {
        let mut snapshot = self.newest_state.clone();
        let mut i: usize = 0;
        assert(self.deltas@.take(0) =~= Seq::<Delta>::empty());
        while i < self.deltas.len()
            invariant
                i <= self.deltas@.len(),
                snapshot == rewound(self.deltas@.take(i as int), self.newest_state, cycle),
            decreases self.deltas@.len() - i,
        {
            assert(self.deltas@.take(i + 1).drop_last() =~= self.deltas@.take(i as int));
            let delta = self.deltas[i];
            if delta.cycle > cycle {
                snapshot = delta.apply(snapshot);
            }
            i += 1;
        }
        assert(self.deltas@.take(i as int) =~= self.deltas@);
        snapshot
    }

    /// The state as it was after `cycle`, without a copy of the memory.
    pub fn get_thin_snapshot(&self, cycle: u64) -> (view: StateView<'_>)
        ensures
            view.state == self,
            view.cycle == cycle,
    {
        StateView { state: self, cycle }
    }

    /// Forgets the changes that happened before `cycle`; the others stay in
    /// their order.
    pub fn prune_before(&mut self, cycle: u64)
        ensures
            final(self).deltas@ == since(old(self).deltas@, cycle),
            final(self).newest_state == old(self).newest_state,
    {
        let mut kept: Vec<Delta> = Vec::new();
        let mut i: usize = 0;
        assert(self.deltas@.take(0) =~= Seq::<Delta>::empty());
        while i < self.deltas.len()
            invariant
                i <= self.deltas@.len(),
                kept@ == since(self.deltas@.take(i as int), cycle),
            decreases self.deltas@.len() - i,
        {
            assert(self.deltas@.take(i + 1).drop_last() =~= self.deltas@.take(i as int));
            let delta = self.deltas[i];
            if delta.cycle >= cycle {
                kept.push(delta);
            }
            i += 1;
        }
        assert(self.deltas@.take(i as int) =~= self.deltas@);
        self.deltas = kept;
    }
}

/// Something that can be done to a snapshot and undone again.
pub trait Event {
    fn apply(&self, snapshot: &mut Snapshot);

    fn undo(&self, snapshot: &mut Snapshot);
}

} // verus!
