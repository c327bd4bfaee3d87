//! The index registers and the accumulator as values of their own.

use vstd::prelude::*;
use crate::cpu::NesRegisters;
use crate::cpu::RegisterAccess;

verus! {

/// One register of a holder of registers.
pub trait Register<T> {
    /// What the register holds in `access`.
    spec fn held(&self, access: &T) -> u8;

    /// The holder `access` with `value` in the register.
    spec fn written(&self, access: T, value: u8) -> T;

    fn get(&self, access: &T) -> (value: u8)
        ensures
            value == self.held(access),
    ;

    /// Sets the register and gives what it held.
    fn set(&mut self, access: &mut T, value: u8) -> (held: u8)
        ensures
            held == old(self).held(old(access)),
            *final(access) == old(self).written(*old(access), value),
    ;
}

/// The index register X.
pub struct X;

/// The index register Y.
pub struct Y;

/// The accumulator.
pub struct A;

impl<T: RegisterAccess> Register<T> for X {
    open spec fn held(&self, access: &T) -> u8 {
        access.registers().x
    }

    open spec fn written(&self, access: T, value: u8) -> T {
        access.with_registers(NesRegisters { x: value, ..access.registers() })
    }

    fn get(&self, access: &T) -> (value: u8) {
        access.get_x()
    }

    fn set(&mut self, access: &mut T, value: u8) -> (held: u8) {
        access.set_x(value)
    }
}

impl<T: RegisterAccess> Register<T> for Y {
    open spec fn held(&self, access: &T) -> u8 {
        access.registers().y
    }

    open spec fn written(&self, access: T, value: u8) -> T {
        access.with_registers(NesRegisters { y: value, ..access.registers() })
    }

    fn get(&self, access: &T) -> (value: u8) {
        access.get_y()
    }

    fn set(&mut self, access: &mut T, value: u8) -> (held: u8) {
        access.set_y(value)
    }
}

impl<T: RegisterAccess> Register<T> for A {
    open spec fn held(&self, access: &T) -> u8 {
        access.registers().a
    }

    open spec fn written(&self, access: T, value: u8) -> T {
        access.with_registers(NesRegisters { a: value, ..access.registers() })
    }

    fn get(&self, access: &T) -> (value: u8) {
        access.get_a()
    }

    fn set(&mut self, access: &mut T, value: u8) -> (held: u8) {
        access.set_a(value)
    }
}

} // verus!
