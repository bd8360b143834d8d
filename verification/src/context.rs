use crate::geometry::{Geometry, GeometryView};
use crate::handle::Handle;
use std::collections::HashMap;
use vstd::prelude::*;
use vstd::std_specs::cmp::PartialEqSpec;

verus! {

broadcast use vstd::std_specs::hash::group_hash_axioms;

/// The store: it hands each inserted object a slot of its own and keeps,
/// for objects that were made from others, the slot they were made from.
pub struct Store {
    next_slot: u64,
    derived_from: HashMap<u64, u64>,
}

/// The working context that every operation takes: the store and the
/// geometry layers.
pub struct Core {
    pub store: Store,
    pub geometry: Geometry,
}

/// The working context as plain values.
pub ghost struct CoreView {
    /// The slot that the next inserted object gets.
    pub next: u64,
    /// For each object that was made from another: the slot of that other.
    pub provenance: Map<u64, u64>,
    /// The geometry layers.
    pub geometry: GeometryView,
}

impl Store {
    /// The slot that the next inserted object gets. Every slot below it was
    /// handed out, and none from it on.
    pub closed spec fn next(&self) -> u64 {
        self.next_slot
    }

    /// For each object that was made from another: the slot of that other.
    pub closed spec fn provenance(&self) -> Map<u64, u64> {
        self.derived_from@
    }

    /// Whether the store handed out the slot of `handle`.
    pub open spec fn issued<T>(&self, handle: Handle<T>) -> bool {
        handle.id() < self.next()
    }

    /// Whether the store handed out the slot of `handle`.
    pub fn has_issued<T>(&self, handle: &Handle<T>) -> (issued: bool)
        ensures
            issued == self.issued(*handle),
    {
        handle.slot() < self.next_slot
    }

    /// A store that holds nothing.
    pub fn new() -> (store: Self)
        ensures
            store.next() == 0,
            store.provenance() == Map::<u64, u64>::empty(),
    {
        Store { next_slot: 0, derived_from: HashMap::new() }
    }

    /// How many more objects the store can take.
    pub fn room(&self) -> (room: u64)
        ensures
            room == u64::MAX - self.next(),
    {
        u64::MAX - self.next_slot
    }

    /// Stores `value` in a slot that no handle refers to yet, and returns
    /// the handle to it.
    pub fn insert<T>(&mut self, value: T) -> (handle: Handle<T>)
        requires
            old(self).next() < u64::MAX,
        ensures
            handle.id() == old(self).next(),
            handle.value() == value,
            final(self).next() == old(self).next() + 1,
            final(self).provenance() == old(self).provenance(),
            !old(self).issued(handle),
            final(self).issued(handle),
    {
        let slot: u64 = self.next_slot;
        self.next_slot = slot + 1;
        Handle::issue(slot, value)
    }

    /// Records that the object of `handle` was made from that of `source`,
    /// and hands `handle` back.
    pub fn derive_from<T>(&mut self, handle: Handle<T>, source: &Handle<T>) -> (same: Handle<T>)
        ensures
            same == handle,
            final(self).next() == old(self).next(),
            final(self).provenance() == old(self).provenance().insert(handle.id(), source.id()),
    {
        self.derived_from.insert(handle.slot(), source.slot());
        handle
    }

    /// The slot of the object that the object of `handle` was made from.
    pub fn derived_from<T>(&self, handle: &Handle<T>) -> (source: Option<u64>)
        ensures
            source == if self.provenance().contains_key(handle.id()) {
                Some(self.provenance()[handle.id()])
            } else {
                None
            },
    {
        let key: u64 = handle.slot();
        match self.derived_from.get(&key) {
            Some(source) => Some(*source),
            None => None,
        }
    }
}

impl CoreView {
    /// Whether the store of the context handed out `slot`.
    pub open spec fn knows(self, slot: u64) -> bool {
        slot < self.next
    }
}

impl View for Core {
    type V = CoreView;

    open spec fn view(&self) -> CoreView {
        CoreView {
            next: self.store.next(),
            provenance: self.store.provenance(),
            geometry: self.geometry@,
        }
    }
}

impl Core {
    /// A context that holds nothing.
    pub fn new() -> (core: Self)
        ensures
            core@.next == 0,
            core@.provenance == Map::<u64, u64>::empty(),
            core@.geometry == GeometryView::empty(),
    {
        Core { store: Store::new(), geometry: Geometry::new() }
    }
}

/// Two handles that come from separate insertions into one store differ,
/// whatever the values they hold: the later one was not handed out when the
/// earlier one was.
pub proof fn separate_insertions_differ<T>(store: Store, earlier: Handle<T>, later: Handle<T>)
    requires
        store.issued(earlier),
        !store.issued(later),
    ensures
        earlier.id() != later.id(),
        !earlier.eq_spec(&later),
        earlier != later,
{
}

} // verus!
