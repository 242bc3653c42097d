//! Registers that can only be written.

use vstd::prelude::*;
use vcell::VolatileCell;

verus! {

/// Write-only register.
///
/// The payload lives in a cell that may be written through a shared
/// reference, so any number of holders of `&WO<T>` may write. There is no way
/// to read the register through a reference.
#[verifier::reject_recursive_types(T)]
pub struct WO<T> {
    register: VolatileCell<T>,
}

impl<T: Copy> WO<T> {
    /// A register in ordinary memory that holds `value`.
    ///
    /// Registers of a peripheral are not made this way: they are found at the
    /// peripheral's address. This one stands in for them where no hardware is.
    pub fn new(value: T) -> (register: Self) {
        WO { register: VolatileCell::new(value) }
    }

    /// Writes `value` to the register with one volatile store.
    ///
    /// Uninterruptible if `T` is a word, halfword or byte.
    ///
    /// The store goes through a shared reference, and the register is the same
    /// value to every holder before and after it: there is nothing for a
    /// postcondition to speak of.
    #[inline(always)]
    pub fn write(&self, value: T) {
        self.register.set(value)
    }

    /// Gives up a register in ordinary memory and returns its payload, which
    /// is what the last store left there.
    ///
    /// A register of a peripheral is only ever borrowed, so it cannot be read
    /// back this way. The payload is not part of the register's value, so the
    /// contract does not say which value comes back.
    pub fn into_inner(self) -> (value: T) {
        self.register.get()
    }
}

} // verus!
