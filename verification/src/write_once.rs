//! Single-writer/multi-reader shared cells with capability-typed handles.
//!
//! A cell holds the latest value of `T` and is shared between one producer
//! and any number of readers. The write capability and the read capability
//! are distinct handle types, so a second writer cannot be constructed at
//! all: `new` is the only way to obtain a write handle, and write handles
//! cannot be cloned.
//!
//! The cell is an atomically swapped immutable snapshot: a write publishes
//! a fresh snapshot of the whole value and swaps one pointer, a read copies
//! out the snapshot the pointer currently designates. Reads and writes are
//! lock-free, never block one another, and a read always observes one whole
//! previously written value, never a mixture of two writes. Which write a
//! read observes depends on scheduling, so no contract here pins the value
//! a read returns; the functions that consume a reading state what holds
//! for every value it may be.

use vstd::prelude::*;

verus! {

/// Capability marker of a shared-cell handle.
pub trait RW {}

/// Capability marker of a read-only handle.
pub struct RPtr;

/// Capability marker of the single write handle.
pub struct WPtr;

impl RW for RPtr {

}

impl RW for WPtr {

}

/// A handle on a shared cell of `T`, tagged with its capability `K`.
///
/// The cell itself lives as long as any of its handles; it is created once
/// by `new` and its content is only ever overwritten whole, never resized
/// or reallocated into a different cell.
#[verifier::external_body]
#[verifier::reject_recursive_types(T)]
#[verifier::reject_recursive_types(K)]
pub struct RWPtr<T, K: RW> {
    cell: std::sync::Arc<arc_swap::ArcSwap<T>>,
    role: std::marker::PhantomData<K>,
}

/// Creates a cell holding `data` and returns its two handles: first the
/// duplicable read handle, then the unique write handle.
pub fn new<T>(data: T) -> (handles: (RWPtr<T, RPtr>, RWPtr<T, WPtr>)) {
    fresh_cell(data)
}

/// Relies on `arc_swap::ArcSwap::from_pointee` and `std::sync::Arc::new`:
/// allocates one cell initially holding `data` and hands out two handles to
/// that same cell.
#[verifier::external_body]
fn fresh_cell<T>(data: T) -> (handles: (RWPtr<T, RPtr>, RWPtr<T, WPtr>)) {
    let cell = std::sync::Arc::new(arc_swap::ArcSwap::from_pointee(data));
    let read = RWPtr { cell: std::sync::Arc::clone(&cell), role: std::marker::PhantomData };
    let write = RWPtr { cell, role: std::marker::PhantomData };
    (read, write)
}

impl<T: Clone, K: RW> RWPtr<T, K> {
    /// Relies on `arc_swap::ArcSwapAny::load_full`: atomically copies the
    /// pointer to the snapshot most recently stored in the cell, so the
    /// returned value is one whole stored value, never a torn mixture.
    /// A concurrent writer decides which stored value that is, so nothing
    /// more is promised of the result.
    #[verifier::external_body]
    pub fn read(&self) -> T {
        self.cell.load_full().as_ref().clone()
    }
}

impl<T> RWPtr<T, WPtr> {
    /// Relies on `arc_swap::ArcSwapAny::store`: publishes `value` as a
    /// fresh immutable snapshot and atomically swaps it in as the cell's
    /// current value, to be seen by every later read.
    #[verifier::external_body]
    pub fn write(&mut self, value: T) {
        self.cell.store(std::sync::Arc::new(value));
    }
}

impl<T> Clone for RWPtr<T, RPtr> {
    /// Relies on `std::sync::Arc::clone`: yields another read handle on the
    /// same cell.
    #[verifier::external_body]
    fn clone(&self) -> (other: Self) {
        RWPtr { cell: std::sync::Arc::clone(&self.cell), role: std::marker::PhantomData }
    }
}

} // verus!
