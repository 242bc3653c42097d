//! Registers that can only be read.

use vstd::prelude::*;
use crate::access::load;

verus! {

/// Read-only register.
pub struct RO<T> {
    register: T,
}

impl<T> View for RO<T> {
    type V = T;

    /// The value that the register holds.
    closed spec fn view(&self) -> T {
        self.register
    }
}

impl<T> RO<T> {
    /// A register is known by what it holds: two registers that hold the same
    /// value are equal, so the wrapper adds no state to its payload.
    pub proof fn lemma_nothing_but_payload(self, other: Self)
        requires
            self@ == other@,
        ensures
            self == other,
    {
    }
}

impl<T: Copy> RO<T> {
    /// A register in ordinary memory that holds `value`.
    ///
    /// Registers of a peripheral are not made this way: they are found at the
    /// peripheral's address. This one stands in for them where no hardware is.
    pub fn new(value: T) -> (register: Self)
        ensures
            register@ == value,
    {
        RO { register: value }
    }

    /// Reads the register with one volatile load.
    ///
    /// Uninterruptible if `T` is a word, halfword or byte.
    #[inline(always)]
    pub fn read(&self) -> (value: T)
        ensures
            value == self@,
    {
        load(&self.register)
    }
}

} // verus!
