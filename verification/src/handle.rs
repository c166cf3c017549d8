use std::collections::HashMap;
use vstd::map::*;
use vstd::prelude::*;

use crate::inode::ROOT_INODE;

verus! {

broadcast use vstd::std_specs::hash::group_hash_axioms;

/// The table of open read sessions: a generated handle identifier mapped to
/// exclusive ownership of an open host file resource.
///
/// The table is generic in the resource it owns: the verified core never
/// looks inside a resource, it only stores, hands out and removes it. The
/// surrounding process instantiates `R` with its open file type.
///
/// Handle identifiers come from an owned, monotonically increasing counter
/// that starts above the reserved root identifier and is never reused
/// within the table's lifetime — release does not return an identifier to
/// the pool.
pub struct HandleTable<R> {
    map: HashMap<u64, R>,
    next_id: u64,
}

impl<R> HandleTable<R> {
    /// The model: each live handle identifier, mapped to its resource.
    pub closed spec fn view(&self) -> Map<u64, R> {
        self.map@
    }

    /// The next identifier the counter will hand out.
    pub closed spec fn spec_next_id(&self) -> u64 {
        self.next_id
    }

    /// Counter discipline: identifiers start above the reserved root
    /// identifier, and every live handle was handed out by the counter, so
    /// it lies strictly below the next one.
    pub open spec fn wf(&self) -> bool {
        &&& self.spec_next_id() > ROOT_INODE
        &&& forall|h: u64|
            self@.contains_key(h) ==> ROOT_INODE < h < self.spec_next_id()
    }

    /// An empty table whose counter starts just above the reserved root
    /// identifier.
    pub fn new() -> (t: Self)
        ensures
            t@ == Map::<u64, R>::empty(),
            t.spec_next_id() == ROOT_INODE + 1,
            t.wf(),
    {
        HandleTable { map: HashMap::new(), next_id: ROOT_INODE + 1 }
    }

    /// The counter's current value: the identifier the next open will
    /// receive. Callers use it to ensure headroom before an open.
    pub fn counter_value(&self) -> (id: u64)
        ensures
            id == self.spec_next_id(),
    {
        self.next_id
    }

    /// Draws the next handle identifier from the counter. The result was
    /// never held by the table before and never will be drawn again.
    pub fn alloc_id(&mut self) -> (id: u64)
        requires
            old(self).wf(),
            old(self).spec_next_id() < u64::MAX,
        ensures
            id == old(self).spec_next_id(),
            id > ROOT_INODE,
            !old(self)@.contains_key(id),
            final(self)@ == old(self)@,
            final(self).spec_next_id() == old(self).spec_next_id() + 1,
            final(self).wf(),
    {
        let id = self.next_id;
        self.next_id = self.next_id + 1;
        id
    }

    /// Stores a freshly opened resource under a fresh identifier and
    /// returns that identifier.
    pub fn store(&mut self, resource: R) -> (id: u64)
        requires
            old(self).wf(),
            old(self).spec_next_id() < u64::MAX,
        ensures
            id == old(self).spec_next_id(),
            id > ROOT_INODE,
            !old(self)@.contains_key(id),
            final(self)@ == old(self)@.insert(id, resource),
            final(self).spec_next_id() == old(self).spec_next_id() + 1,
            final(self).wf(),
    {
        let id = self.alloc_id();
        self.map.insert(id, resource);
        id
    }

    /// Fetches the resource a live handle refers to; an identifier the
    /// table does not hold yields nothing.
    pub fn get(&self, id: u64) -> (r: Option<&R>)
        ensures
            match r {
                Some(resource) => self@.contains_key(id) && *resource == self@[id],
                None => !self@.contains_key(id),
            },
    {
        self.map.get(&id)
    }

    /// Removes a handle and releases ownership of its resource to the
    /// caller, who is expected to close it. Removing an absent handle is
    /// not an error; the counter never moves backwards, so the identifier
    /// is not reused.
    pub fn remove(&mut self, id: u64) -> (r: Option<R>)
        requires
            old(self).wf(),
        ensures
            final(self)@ == old(self)@.remove(id),
            final(self).spec_next_id() == old(self).spec_next_id(),
            final(self).wf(),
            match r {
                Some(resource) => old(self)@.contains_key(id) && resource == old(self)@[id],
                None => !old(self)@.contains_key(id),
            },
    {
        let r = self.map.remove(&id);
        proof {
            assert_maps_equal!(self@, old(self)@.remove(id));
        }
        r
    }
}

} // verus!
