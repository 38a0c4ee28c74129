//! The snapshot registry: which handles are live, and the snapshot each stands for.

use std::collections::HashMap;
use vstd::prelude::*;
use crate::protocol::SnapshotRef;

verus! {

broadcast use vstd::std_specs::hash::group_hash_axioms;

/// What a registry is to the contracts.
pub struct RegistryView<S> {
    /// The live handles, each with its snapshot.
    pub live: Map<usize, S>,
    /// How many handles were issued so far; also the number of the next one.
    pub next: nat,
}

impl<S> RegistryView<S> {
    /// The registry of a worker that has just started.
    pub open spec fn empty() -> Self {
        RegistryView { live: Map::empty(), next: 0 }
    }

    /// Every live handle was issued, and the count of issued handles fits the machine.
    pub open spec fn inv(self) -> bool {
        &&& self.next <= usize::MAX
        &&& forall|h: usize| #[trigger] self.live.contains_key(h) ==> h < self.next
    }

    /// Whether one more handle can be issued.
    pub open spec fn has_room(self) -> bool {
        self.next < usize::MAX
    }

    /// Whether `handle` is live.
    pub open spec fn is_live(self, handle: usize) -> bool {
        self.live.contains_key(handle)
    }

    /// The registry after `snapshot` was put under the next handle, and that handle.
    pub open spec fn register(self, snapshot: S) -> (Self, usize) {
        (
            RegistryView {
                live: self.live.insert(self.next as usize, snapshot),
                next: self.next + 1,
            },
            self.next as usize,
        )
    }

    /// The snapshot that `handle` stands for, if it is live.
    pub open spec fn resolve(self, handle: usize) -> Option<S> {
        if self.live.contains_key(handle) {
            Some(self.live[handle])
        } else {
            None
        }
    }

    /// The registry without `handle`. Handles are never issued again.
    pub open spec fn release(self, handle: usize) -> Self {
        RegistryView { live: self.live.remove(handle), next: self.next }
    }
}

/// The snapshots that a worker keeps for its callers, by handle.
pub struct SnapshotRegistry<S> {
    snapshots: HashMap<usize, S>,
    counter: usize,
}

impl<S> View for SnapshotRegistry<S> {
    type V = RegistryView<S>;

    closed spec fn view(&self) -> RegistryView<S> {
        RegistryView { live: self.snapshots@, next: self.counter as nat }
    }
}

impl<S> SnapshotRegistry<S> {
    #[verifier::type_invariant]
    spec fn wf(self) -> bool {
        forall|h: usize| #[trigger] self.snapshots@.contains_key(h) ==> h < self.counter
    }

    /// A registry with no snapshot, whose first handle will be 0.
    pub fn new() -> (r: Self)
        ensures
            r@ == RegistryView::<S>::empty(),
            r@.inv(),
    {
        SnapshotRegistry { snapshots: HashMap::new(), counter: 0 }
    }

    /// Whether one more handle can be issued.
    pub fn has_room(&self) -> (b: bool)
        ensures
            b == self@.has_room(),
            self@.inv(),
    {
        proof {
            use_type_invariant(self);
        }
        self.counter < usize::MAX
    }

    /// Takes ownership of `snapshot` and issues the next handle for it.
    pub fn register(&mut self, snapshot: S) -> (handle: SnapshotRef)
        requires
            old(self)@.has_room(),
        ensures
            (final(self)@, handle@) == old(self)@.register(snapshot),
            !old(self)@.is_live(handle@),
            final(self)@.inv(),
    {
        proof {
            use_type_invariant(&*self);
        }
        let id: usize = self.counter;
        let mut snapshots = HashMap::new();
        std::mem::swap(&mut snapshots, &mut self.snapshots);
        snapshots.insert(id, snapshot);
        self.counter = id + 1;
        self.snapshots = snapshots;
        SnapshotRef::from_id(id)
    }

    /// The snapshot that `handle` stands for, or `None` where it is not live.
    pub fn resolve(&self, handle: SnapshotRef) -> (snapshot: Option<&S>)
        ensures
            match snapshot {
                Some(s) => self@.resolve(handle@) == Some(*s),
                None => self@.resolve(handle@) is None,
            },
            self@.inv(),
    {
        proof {
            use_type_invariant(self);
        }
        let id: usize = handle.id();
        self.snapshots.get(&id)
    }

    /// Drops the snapshot under `handle`. A handle that is not live is left alone.
    pub fn release(&mut self, handle: SnapshotRef)
        ensures
            final(self)@ == old(self)@.release(handle@),
            final(self)@.inv(),
    {
        proof {
            use_type_invariant(&*self);
        }
        let id: usize = handle.id();
        let mut snapshots = HashMap::new();
        std::mem::swap(&mut snapshots, &mut self.snapshots);
        snapshots.remove(&id);
        self.snapshots = snapshots;
    }
}

} // verus!
