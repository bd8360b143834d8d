use crate::context::Store;
use crate::names::{render, rendered};
use std::cmp::Ordering;
use std::fmt::Debug;
use std::hash::{Hash, Hasher};
use std::rc::Rc;
use vstd::prelude::*;
use vstd::std_specs::cmp::{PartialEqSpecImpl, PartialOrdSpecImpl};

verus! {

/// `Rc::clone` hands back another pointer to the same allocation, so the
/// value behind the new pointer is the value behind the old one.
#[verifier::external_body]
fn share<T>(inner: &Rc<T>) -> (shared: Rc<T>)
    ensures
        shared == *inner,
{
    Rc::clone(inner)
}

/// `Debug` of the stored value, on one line. What it holds is up to the
/// value's own impl, so nothing is claimed of it.
#[verifier::external_body]
fn debug_text<T: Debug>(value: &T) -> (text: String) {
    format!("{:?}", value)
}

/// `Debug` of the stored value, in the alternate form that spreads over
/// lines. What it holds is up to the value's own impl, so nothing is
/// claimed of it.
#[verifier::external_body]
fn pretty_debug_text<T: Debug>(value: &T) -> (text: String) {
    format!("{:#?}", value)
}

/// `Hasher::write_u64` feeds the number to the hasher. What state that
/// leaves is up to the hasher, so nothing is claimed of it.
#[verifier::external_body]
fn feed<H: Hasher>(state: &mut H, slot: u64) {
    state.write_u64(slot);
}

/// A shared, read-only reference to a stored object.
///
/// A handle is told apart from every other handle by the slot that it
/// refers to, never by the value that the slot holds.
pub struct Handle<T> {
    slot: u64,
    inner: Rc<T>,
}

impl<T> Handle<T> {
    /// The slot that the handle refers to: its identity.
    pub closed spec fn id(&self) -> u64 {
        self.slot
    }

    /// The value that the slot holds.
    pub closed spec fn value(&self) -> T {
        *self.inner
    }

    /// The handle to `inner` in the slot `slot`. Only the store calls this,
    /// with a slot that it has not handed out before.
    pub(crate) fn issue(slot: u64, inner: T) -> (handle: Self)
        ensures
            handle.id() == slot,
            handle.value() == inner,
    {
        Handle { slot, inner: Rc::new(inner) }
    }

    /// Takes ownership of `inner` and stores it in `store`, in a slot that
    /// no handle of the store refers to yet: the identity of the new handle,
    /// for good.
    pub fn new(inner: T, store: &mut Store) -> (handle: Self)
        requires
            old(store).next() < u64::MAX,
        ensures
            handle.value() == inner,
            handle.id() == old(store).next(),
            !old(store).issued(handle),
            final(store).issued(handle),
            final(store).next() == old(store).next() + 1,
            final(store).provenance() == old(store).provenance(),
    {
        store.insert(inner)
    }

    /// The handle's identity, as a number.
    pub fn slot(&self) -> (slot: u64)
        ensures
            slot == self.id(),
    {
        self.slot
    }

    /// Read-only access to the stored value.
    pub fn get(&self) -> (value: &T)
        ensures
            *value == self.value(),
    {
        &*self.inner
    }
}

impl<T> Clone for Handle<T> {
    /// Another handle to the same slot; the stored value is shared.
    fn clone(&self) -> (copy: Self)
        ensures
            copy == *self,
            copy.id() == self.id(),
    {
        Handle { slot: self.slot, inner: share(&self.inner) }
    }
}

impl<T> PartialEq for Handle<T> {
    fn eq(&self, other: &Self) -> (same: bool) {
        self.slot == other.slot
    }
}

impl<T> Eq for Handle<T> {}

impl<T> PartialEqSpecImpl for Handle<T> {
    open spec fn obeys_eq_spec() -> bool {
        true
    }

    open spec fn eq_spec(&self, other: &Self) -> bool {
        self.id() == other.id()
    }
}

impl<T> Hash for Handle<T> {
    /// Hashes the slot, and nothing of the stored value.
    fn hash<H: Hasher>(&self, state: &mut H) {
        feed(state, self.slot);
    }
}

impl<T> PartialOrd for Handle<T> {
    fn partial_cmp(&self, other: &Self) -> (order: Option<Ordering>) {
        if self.slot < other.slot {
            Some(Ordering::Less)
        } else if self.slot == other.slot {
            Some(Ordering::Equal)
        } else {
            Some(Ordering::Greater)
        }
    }
}

impl<T> PartialOrdSpecImpl for Handle<T> {
    open spec fn obeys_partial_cmp_spec() -> bool {
        true
    }

    open spec fn partial_cmp_spec(&self, other: &Self) -> Option<Ordering> {
        if self.id() < other.id() {
            Some(Ordering::Less)
        } else if self.id() == other.id() {
            Some(Ordering::Equal)
        } else {
            Some(Ordering::Greater)
        }
    }
}

impl<T: Debug> Handle<T> {
    /// The handle as text for diagnostics: `kind`, the slot and the
    /// stored value, which is written on one line or, with `alternate`,
    /// spread over lines.
    pub fn debug_string(&self, kind: &str, alternate: bool) -> (text: String)
        ensures
            exists|object: Seq<char>| text@ == #[trigger] rendered(kind@, self.id(), object),
    {
        let object = if alternate {
            pretty_debug_text(self.get())
        } else {
            debug_text(self.get())
        };
        let text = render(kind, self.slot, object.as_str());
        assert(text@ == rendered(kind@, self.id(), object@));
        text
    }
}

} // verus!
