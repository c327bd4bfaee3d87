//! Address translation inside a cartridge.

use vstd::prelude::*;

verus! {

/// The part of a cartridge that decides which of its bytes the CPU sees at an
/// address.
pub trait Mapper {
    /// The cartridge address that stands behind the CPU address `address`.
    spec fn translated(&self, address: u16) -> u16;

    fn translate(&self, address: u16) -> (translated: u16)
        ensures
            translated == self.translated(address),
    ;
}

/// The mapper of a cartridge without banking: every address stands for itself.
impl Mapper for () {
    open spec fn translated(&self, address: u16) -> u16 {
        address
    }

    fn translate(&self, address: u16) -> (translated: u16) {
        address
    }
}

} // verus!
