//! Volatile access to memory mapped hardware registers.
//!
//! A register block is declared as a plain struct whose fields are [`RO`],
//! [`RW`] and [`WO`] registers, so that the type of a field says which
//! accesses the hardware allows on it:
//!
//! | register | `read` | `write` | `modify` | written through |
//! |----------|--------|---------|----------|-----------------|
//! | [`RO`]   | yes    |         |          |                 |
//! | [`RW`]   | yes    | yes     | yes      | `&mut`          |
//! | [`WO`]   |        | yes     |          | `&`             |
//!
//! Every access is one volatile load or store of the whole payload, made where
//! the call stands. The payload is meant to be a byte, halfword or word, which
//! the processor moves in one instruction.
//!
//! # What the contracts say
//!
//! The contracts speak of the value that a register holds, its view. They
//! describe a register that keeps what was last stored in it, as ordinary
//! memory does. A peripheral that changes a register on its own is not
//! described by them, and neither is the number or the order of the accesses
//! that reach the bus: that each call is one access that the compiler keeps is
//! what volatile loads and stores give, and it rests on [`access`].
//!
//! A [`WO`] register is written through shared references, so nothing that a
//! contract could speak of changes when it is written.

pub mod access;
pub mod ro;
pub mod rw;
pub mod wo;

pub use ro::RO;
pub use rw::RW;
pub use wo::WO;
