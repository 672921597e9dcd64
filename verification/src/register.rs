//! The shared time register: one 16-bit word that the time source writes
//! and the display scan reads, without a lock.

use vstd::prelude::*;

verus! {

/// Trusted: the type `portable_atomic::AtomicU16`, declared so that a
/// register can hold one. Nothing is known of what a cell holds.
#[verifier::external_type_specification]
#[verifier::external_body]
pub struct ExAtomicU16(portable_atomic::AtomicU16);

/// Trusted: `portable_atomic::AtomicU16::new`. The contract claims nothing
/// of the cell that comes back.
#[verifier::external_body]
fn cell_new(value: u16) -> portable_atomic::AtomicU16 {
    portable_atomic::AtomicU16::new(value)
}

/// Trusted: `portable_atomic::AtomicU16::load` with relaxed ordering. Other
/// holders of the cell may store at any time, so the contract claims
/// nothing of the value that comes back.
#[verifier::external_body]
fn cell_load(cell: &portable_atomic::AtomicU16) -> u16 {
    cell.load(portable_atomic::Ordering::Relaxed)
}

/// Trusted: `portable_atomic::AtomicU16::store` with relaxed ordering. The
/// contract claims nothing.
#[verifier::external_body]
fn cell_store(cell: &portable_atomic::AtomicU16, value: u16) {
    cell.store(value, portable_atomic::Ordering::Relaxed)
}

/// The register that carries the clock reading from the time source to the
/// display scan. Both sides hold a shared reference to it.
///
/// The word is atomic: a load gives a whole value that was stored, never
/// parts of two. Which stored value a load gives depends on how the two
/// sides interleave, so the contracts of [`TimeRegister::load`] and of the
/// functions built on it hold for every value.
pub struct TimeRegister {
    cell: portable_atomic::AtomicU16,
}

impl TimeRegister {
    /// A register that holds `initial`.
    pub fn new(initial: u16) -> Self {
        TimeRegister { cell: cell_new(initial) }
    }

    /// Replaces the value of the register by `value`.
    pub fn store(&self, value: u16) {
        cell_store(&self.cell, value)
    }

    /// The value of the register at this moment.
    pub fn load(&self) -> u16 {
        cell_load(&self.cell)
    }
}

} // verus!
