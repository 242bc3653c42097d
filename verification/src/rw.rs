//! Registers that can be both read and written.

use vstd::prelude::*;
use crate::access::{load, store};

verus! {

/// Read-write register.
pub struct RW<T> {
    register: T,
}

impl<T> View for RW<T> {
    type V = T;

    /// The value that the register holds.
    closed spec fn view(&self) -> T {
        self.register
    }
}

impl<T> RW<T> {
    /// The register as a store of `value` leaves it.
    pub closed spec fn written(self, value: T) -> Self {
        RW { register: value }
    }

    /// A load that follows a store returns what was stored: whatever the
    /// register held before, once `value` is written to it, `value` is what it
    /// holds and so what `read` returns.
    pub proof fn lemma_write_then_read(self, value: T)
        ensures
            self.written(value)@ == value,
    {
    }

    /// The register as the stores of `values`, made first to last, leave it.
    pub open spec fn written_each(self, values: Seq<T>) -> Self
        decreases values.len(),
    {
        if values.len() == 0 {
            self
        } else {
            self.written_each(values.drop_last()).written(values.last())
        }
    }

    /// No store of a run is lost to the load that follows it: after the first
    /// `n` stores of `values` the register holds the `n`-th of them, whatever
    /// was stored before it, and also where an earlier store was of the same
    /// value.
    pub proof fn lemma_each_store_is_held(self, values: Seq<T>, n: int)
        requires
            0 < n <= values.len(),
        ensures
            self.written_each(values.take(n))@ == values[n - 1],
    {
        let run = values.take(n);
        assert(run.last() == values[n - 1]);
        self.written_each(run.drop_last()).lemma_write_then_read(run.last());
    }

    /// A register is known by what it holds: two registers that hold the same
    /// value are equal, so the wrapper adds no state to its payload.
    pub proof fn lemma_nothing_but_payload(self, other: Self)
        requires
            self@ == other@,
        ensures
            self == other,
    {
    }
}

impl<T: Copy> RW<T> {
    /// A register in ordinary memory that holds `value`.
    ///
    /// Registers of a peripheral are not made this way: they are found at the
    /// peripheral's address. This one stands in for them where no hardware is.
    pub fn new(value: T) -> (register: Self)
        ensures
            register@ == value,
    {
        RW { register: value }
    }

    /// Reads the register with one volatile load.
    ///
    /// Uninterruptible if `T` is a word, halfword or byte.
    #[inline(always)]
    pub fn read(&self) -> (value: T)
        ensures
            value == self@,
    {
        load(&self.register)
    }

    /// Writes `value` to the register with one volatile store.
    ///
    /// Uninterruptible if `T` is a word, halfword or byte.
    #[inline(always)]
    pub fn write(&mut self, value: T)
        ensures
            *final(self) == old(self).written(value),
            final(self)@ == value,
    {
        store(&mut self.register, value);
    }

    /// Performs a read-modify-write, using `func` to perform the modification.
    ///
    /// The register is loaded once, `func` is applied once to what was loaded,
    /// and what it returns is stored once. The load and the store are two
    /// accesses, not one atomic access: a change made to the register between
    /// them by anything else is overwritten.
    pub fn modify<F>(&mut self, func: F) where F: FnOnce(T) -> T
        requires
            call_requires(func, (old(self)@,)),
        ensures
            call_ensures(func, (old(self)@,), final(self)@),
    {
        let loaded = self.read();
        let changed = func(loaded);
        self.write(changed);
    }
}

} // verus!
