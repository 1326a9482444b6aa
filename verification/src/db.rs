//! The database handle: owner of the one in-memory value, mediator of all
//! reads and mutations, and the only caller of the adapter's durability
//! operations. Durability is opt-in: nothing is persisted until `write` or
//! `update` is called.

use vstd::prelude::*;
use crate::adapters::AdapterSync;
use crate::error::SaberError;

verus! {

/// The value a fresh handle starts from: the backend's payload when one
/// exists, the caller-supplied default otherwise.
pub open spec fn initial_value<T>(loaded: Option<T>, default: T) -> T {
    match loaded {
        Some(v) => v,
        None => default,
    }
}

/// Pick the value a fresh handle starts from, given what the backend
/// reported: the loaded payload when one exists, the default otherwise.
pub fn pick_initial_value<T>(loaded: Option<T>, default: T) -> (r: T)
    ensures
        r == initial_value(loaded, default),
{
    match loaded {
        Some(v) => v,
        None => default,
    }
}

/// Blocking database handle: holds exactly one value and one adapter.
pub struct SaberDBSync<T, A> {
    adapter: A,
    data: Option<T>,
}

impl<T, A: AdapterSync<T>> SaberDBSync<T, A> {
    /// The current in-memory value.
    pub closed spec fn value(self) -> T {
        self.data.unwrap()
    }

    /// The adapter this handle delegates durability to.
    pub closed spec fn store(self) -> A {
        self.adapter
    }

    /// Well-formedness: the handle always holds a value, and its adapter
    /// is well-formed. Constructors establish this and every method keeps
    /// it.
    pub closed spec fn wf(self) -> bool {
        &&& self.data is Some
        &&& self.adapter.wf()
    }

    /// Create a handle: ask the adapter to read. An existing payload
    /// becomes the initial value; "no payload" falls back to `default` and
    /// writes nothing — the backend stays empty until an explicit `write`
    /// or `update`. An adapter read error is surfaced unchanged.
    pub fn new(adapter: A, default: T) -> (r: Result<Self, SaberError>)
        requires
            adapter.wf(),
        ensures
            r matches Ok(db) ==> db.wf() && db.store() == adapter,
            adapter.models_backend() ==> (r matches Ok(db) ==> db.value() == initial_value(
                adapter.stored(),
                default,
            )),
    {
        match adapter.read() {
            Ok(loaded) => {
                let data = pick_initial_value(loaded, default);
                Ok(SaberDBSync { adapter, data: Some(data) })
            },
            Err(e) => Err(e),
        }
    }

    /// Read-only access to the current in-memory value.
    pub fn data(&self) -> (r: &T)
        requires
            self.wf(),
        ensures
            *r == self.value(),
    {
        self.data.as_ref().unwrap()
    }

    /// Exclusive, mutable access to the current in-memory value. Mutation
    /// happens in memory only; durability is a separate, explicit step.
    pub fn data_mut(&mut self) -> (r: &mut T)
        requires
            old(self).wf(),
        ensures
            *r == old(self).value(),
            final(self).wf(),
            final(self).value() == *final(r),
            final(self).store() == old(self).store(),
    {
        self.data.as_mut().unwrap()
    }

    /// Persist the current in-memory value through the adapter. Does not
    /// mutate the in-memory value; surfaces exactly the adapter's error.
    /// Against a backend the adapter models exactly, success means the
    /// backend now holds this handle's value, and failure means the prior
    /// payload is intact.
    pub fn write(&mut self) -> (r: Result<(), SaberError>)
        requires
            old(self).wf(),
        ensures
            final(self).wf(),
            final(self).value() == old(self).value(),
            final(self).store().models_backend() == old(self).store().models_backend(),
            old(self).store().models_backend() ==> (r matches Ok(_) ==> final(self).store().stored() == Some(old(self).value())),
            old(self).store().models_backend() ==> (r matches Err(_) ==> final(self).store().stored() == old(self).store().stored()),
    {
        let data = self.data.as_ref().unwrap();
        self.adapter.write(data)
    }

    /// Apply `mutator` to the value, then persist. The in-memory value
    /// reflects the mutation whether or not the write succeeds: a failed
    /// `update` means "memory updated, persistence failed", and the caller
    /// decides whether to retry `write`. Against a backend the adapter
    /// models exactly, success means the post-mutation value was already
    /// persisted when `update` returned.
    pub fn update<F: FnOnce(T) -> T>(&mut self, mutator: F) -> (r: Result<(), SaberError>)
        requires
            old(self).wf(),
            mutator.requires((old(self).value(),)),
        ensures
            final(self).wf(),
            mutator.ensures((old(self).value(),), final(self).value()),
            final(self).store().models_backend() == old(self).store().models_backend(),
            old(self).store().models_backend() ==> (r matches Ok(_) ==> final(self).store().stored() == Some(final(self).value())),
            old(self).store().models_backend() ==> (r matches Err(_) ==> final(self).store().stored() == old(self).store().stored()),
    {
        let current = self.data.take();
        let mutated = mutator(current.unwrap());
        self.data = Some(mutated);
        self.write()
    }
}

/// Round-trip law: after a successful `write` of value `v` the backend
/// holds `Some(v)` (by `write`'s contract), and a fresh handle built
/// against that backend state starts from exactly `v`, whatever default
/// the caller supplies (by `new`'s contract through `initial_value`).
pub proof fn lemma_round_trip<T>(v: T, default: T)
    ensures
        initial_value(Some(v), default) == v,
{
}

/// Default-on-missing law: a fresh handle built against a backend that
/// holds no payload starts from exactly the caller-supplied default; and
/// by `new`'s contract the adapter value is handed to the handle unchanged,
/// so construction writes nothing.
pub proof fn lemma_default_on_missing<T>(default: T)
    ensures
        initial_value(None::<T>, default) == default,
{
}

} // verus!


