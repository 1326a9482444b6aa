//! Storage adapters: pluggable backends that read and write one opaque
//! payload, together with the contract every backend must meet.

use vstd::prelude::*;
use crate::error::SaberError;

pub mod json_file;
pub mod memory;

pub use json_file::JsonFile;
pub use json_file::JsonFileSync;
pub use memory::MemorySync;

verus! {

/// The contract of a blocking storage backend.
///
/// An adapter persists at most one payload. `read` reports the decoded
/// payload, `None` when the backend has never been written (not an error),
/// or an error. `write` replaces the payload and must be atomic: an
/// interrupted or failed write leaves the old payload intact, never a
/// corrupt mixture.
///
/// The spec functions describe the adapter's model of its backend. An
/// adapter whose backend has no other writer (`models_backend()`) tracks
/// the persisted payload exactly in `stored()`; the read/write contracts
/// bind such an adapter to read-your-writes consistency. A backend shared
/// with other writers (such as a cloned in-memory adapter) reports
/// `models_backend() == false`, and its reads are only promised to return
/// some payload that was written to the shared backend.
pub trait AdapterSync<T>: Sized {
    /// Well-formedness of the adapter value itself.
    spec fn wf(&self) -> bool;

    /// Whether `stored()` is an exact model of the backend: true when this
    /// adapter value is the backend's only writer, so that the model can
    /// follow every write.
    spec fn models_backend(&self) -> bool;

    /// The payload the backend currently holds as this adapter models it;
    /// `None` when the backend has never been written. Meaningful only
    /// when `models_backend()` holds.
    spec fn stored(&self) -> Option<T>;

    /// Read the payload from storage. `Ok(None)` means the backend has
    /// never been written: the caller should fall back to its default.
    fn read(&self) -> (r: Result<Option<T>, SaberError>)
        requires
            self.wf(),
        ensures
            self.models_backend() ==> (r matches Ok(v) ==> v == self.stored()),
    ;

    /// Persist the payload. On success the backend holds exactly `data`;
    /// on failure the backend's prior payload is intact (atomicity).
    fn write(&mut self, data: &T) -> (r: Result<(), SaberError>)
        requires
            old(self).wf(),
        ensures
            final(self).wf(),
            final(self).models_backend() == old(self).models_backend(),
            old(self).models_backend() ==> (r matches Ok(_) ==> final(self).stored()
                == Some(*data)),
            old(self).models_backend() ==> (r matches Err(_) ==> final(self).stored()
                == old(self).stored()),
    ;
}

} // verus!
