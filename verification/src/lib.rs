//! Ownership-checked handles over the resources of the xNVMe device library.
//!
//! The foreign library allocates and frees its own objects. This crate holds
//! the rules of that boundary as plain values: which addresses are owned, by
//! which handle, when a release call is owed, and what each reply of the
//! foreign side means. The caller makes the foreign calls and hands the
//! replies in.

use vstd::prelude::*;

pub mod device;
pub mod enumerate;
pub mod ledger;
pub mod options;

verus! {

/// What can go wrong at the boundary.
#[derive(Debug, Clone, Copy, PartialEq, Eq, Structural)]
pub enum XnvmeError {
    /// The foreign library reported this error code.
    XError(i32),
    /// A string holds a zero byte, at this index, and so cannot be handed to
    /// the foreign library as a terminated string.
    InvalidParameter(usize),
}

pub type Result<T> = core::result::Result<T, XnvmeError>;

/// A slot for a value that the foreign library made and will unmake.
///
/// The slot never builds or drops the foreign value by itself: it only lends
/// it out, and the handle that owns the slot decides when the foreign release
/// call is due.
pub struct ForeignType<T> {
    value: T,
}

impl<T> View for ForeignType<T> {
    type V = T;

    closed spec fn view(&self) -> T {
        self.value
    }
}

impl<T> ForeignType<T> {
    /// A slot around `value`.
    pub fn new(value: T) -> (cell: Self)
        ensures
            cell@ == value,
    {
        Self { value }
    }

    /// Lends the foreign value. Any number of calls give the same value, and
    /// none of them changes the slot.
    pub fn get(&self) -> (value: &T)
        ensures
            *value == self@,
    {
        &self.value
    }
}

} // verus!
