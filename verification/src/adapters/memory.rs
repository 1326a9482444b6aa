//! In-memory adapter: a shared, lock-guarded optional slot. Useful for
//! tests and temporary storage without file I/O. Cloning the adapter shares
//! the slot, so handles built from clones observe each other's writes.

use vstd::prelude::*;
use vstd::rwlock::RwLock;
use vstd::rwlock::RwLockPredicate;
use std::sync::Arc;
use crate::adapters::AdapterSync;
use crate::error::SaberError;

verus! {

/// Lock predicate for the shared slot: any payload (or none) may be stored.
pub struct SlotPred;

impl<T> RwLockPredicate<Option<T>> for SlotPred {
    open spec fn inv(self, v: Option<T>) -> bool {
        true
    }
}

/// In-memory adapter for the blocking store.
///
/// The slot is jointly owned by every clone of this adapter: cloning shares
/// the slot rather than duplicating the data, which is the intended way to
/// simulate one shared backend across several handles in one process.
/// Because clones are concurrent writers, this adapter does not track the
/// slot in its spec model (`models_backend()` is false): what `read`
/// returns depends on the latest write through any clone.
#[derive(Clone)]
pub struct MemorySync<T> {
    slot: Arc<RwLock<Option<T>, SlotPred>>,
}

impl<T: Clone> MemorySync<T> {
    /// Create a new in-memory adapter with an empty slot.
    pub fn new() -> (r: Self)
        ensures
            r.wf(),
    {
        MemorySync { slot: Arc::new(RwLock::new(None, Ghost(SlotPred))) }
    }
}

impl<T: Clone> Default for MemorySync<T> {
    /// A fresh adapter with an empty slot.
    fn default() -> (r: Self)
        ensures
            r.wf(),
    {
        MemorySync::new()
    }
}

impl<T: Clone> AdapterSync<T> for MemorySync<T> {
    open spec fn wf(&self) -> bool {
        true
    }

    /// The slot is shared by every clone, so no single adapter value can
    /// model it exactly.
    open spec fn models_backend(&self) -> bool {
        false
    }

    /// Unused: this adapter does not track its backend.
    open spec fn stored(&self) -> Option<T> {
        None
    }

    /// Take a read lock and hand out a duplicate of the current payload.
    /// Never fails.
    fn read(&self) -> (r: Result<Option<T>, SaberError>)
        ensures
            r is Ok,
    {
        let handle = self.slot.acquire_read();
        let current = handle.borrow();
        let duplicate = current.clone();
        handle.release_read();
        Ok(duplicate)
    }

    /// Take the exclusive lock and replace the payload with a duplicate of
    /// `data`. Never fails.
    fn write(&mut self, data: &T) -> (r: Result<(), SaberError>)
        ensures
            r is Ok,
    {
        let (_prior, write_handle) = self.slot.acquire_write();
        write_handle.release_write(Some(data.clone()));
        Ok(())
    }
}

} // verus!
