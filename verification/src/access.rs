//! The volatile load and store that every register access comes down to.
//!
//! Nothing here is proved: each item states what the function it calls does,
//! and the registers are verified against these statements.

use vstd::prelude::*;
use vcell::VolatileCell;

verus! {

/// One volatile load from `slot`, by `volatile::Volatile::read` on a read-only
/// handle to it.
///
/// The load returns a copy of what the slot holds.
#[inline(always)]
#[verifier::external_body]
pub(crate) fn load<T: Copy>(slot: &T) -> (value: T)
    ensures
        value == *slot,
{
    volatile::Volatile::new_read_only(slot).read()
}

/// One volatile store of `value` to `slot`, by `volatile::Volatile::write` on a
/// write-only handle to it.
///
/// The store leaves `value` in the slot.
#[inline(always)]
#[verifier::external_body]
pub(crate) fn store<T: Copy>(slot: &mut T, value: T)
    ensures
        *final(slot) == value,
{
    volatile::Volatile::new_write_only(slot).write(value)
}

/// `vcell::VolatileCell`: a cell whose payload is only ever loaded and stored
/// volatilely, and may be stored to through a shared reference.
///
/// What a cell holds is no part of its value here: a store through a shared
/// reference changes the payload and leaves the cell the same cell. So none of
/// the three specifications below says anything of the payload.
#[verifier::external_type_specification]
#[verifier::external_body]
#[verifier::reject_recursive_types(T)]
pub struct ExVolatileCell<T>(VolatileCell<T>);

/// `VolatileCell::new` makes a cell around `value`.
pub assume_specification<T>[ VolatileCell::<T>::new ](value: T) -> (cell: VolatileCell<T>);

/// `VolatileCell::set` makes one volatile store of `value` to the payload.
pub assume_specification<T>[ VolatileCell::<T>::set ](cell: &VolatileCell<T>, value: T) where
    T: Copy,
;

/// `VolatileCell::get` makes one volatile load of the payload.
pub assume_specification<T>[ VolatileCell::<T>::get ](cell: &VolatileCell<T>) -> (value: T) where
    T: Copy,
;

} // verus!
