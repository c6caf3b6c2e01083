//! The concurrent access discipline: one exclusive-access guard around
//! the whole registry.
//!
//! Every operation — read or write — acquires exclusive access to the
//! registry for its duration and releases it before returning, so
//! concurrent operations are serialized: the observable effect of any
//! set of concurrent calls is that of some total order of the same
//! calls, each of which is a single atomic [`Registry`] operation with
//! the contract stated on [`Registry`]. (For what a serial order of
//! create operations yields, see `laws::lemma_serialized_creates`.)

use vstd::prelude::*;
use vstd::rwlock::{RwLock, RwLockPredicate};
use crate::registry::{Registry, Permission, Grant, RegistryError, Snapshot};

verus! {

/// The guard's storage predicate: any registry value may be stored.
/// The registry needs no data invariant of its own here, because a
/// startup snapshot may load arbitrary decoded contents.
pub struct AnyRegistry;

impl RwLockPredicate<Registry> for AnyRegistry {
    open spec fn inv(self, v: Registry) -> bool {
        true
    }
}

/// The registry behind its exclusive-access guard. This is the one
/// shared, mutable object of the system; request handlers hold it (via
/// reference counting) and call one operation per request.
pub struct SharedRegistry {
    guard: RwLock<Registry, AnyRegistry>,
}

impl SharedRegistry {
    /// A fresh shared registry holding no permissions and no grants.
    pub fn new() -> SharedRegistry {
        SharedRegistry { guard: RwLock::new(Registry::new(), Ghost(AnyRegistry)) }
    }

    /// Atomically appends `p` to the permission collection.
    pub fn define_permission(&self, p: Permission) {
        let (mut reg, handle) = self.guard.acquire_write();
        reg.define_permission(p);
        handle.release_write(reg);
    }

    /// Atomically copies out the permission collection, in insertion
    /// order.
    pub fn list_permissions(&self) -> Vec<Permission> {
        let (reg, handle) = self.guard.acquire_write();
        let out = clone_permissions(reg.list_permissions());
        handle.release_write(reg);
        out
    }

    /// Atomically copies out the grant collection, in insertion order.
    pub fn list_grants(&self) -> Vec<Grant> {
        let (reg, handle) = self.guard.acquire_write();
        let out = clone_grants(reg.list_grants());
        handle.release_write(reg);
        out
    }

    /// Atomically attempts to create `g`: appended iff its permission
    /// name is defined in the registry state this call observes,
    /// otherwise `Rejected` with nothing mutated.
    pub fn create_grant(&self, g: Grant) -> Result<(), RegistryError> {
        let (mut reg, handle) = self.guard.acquire_write();
        let out = reg.create_grant(g);
        handle.release_write(reg);
        out
    }

    /// Atomically answers whether some stored grant is field-wise equal
    /// to `q` in the registry state this call observes.
    pub fn check_grant(&self, q: &Grant) -> bool {
        let (reg, handle) = self.guard.acquire_write();
        let out = reg.check_grant(q);
        handle.release_write(reg);
        out
    }

    /// Atomically replaces both collections from a decoded startup
    /// snapshot, or leaves the registry unchanged and signals
    /// `Malformed` when the snapshot source was absent or undecodable.
    pub fn load_snapshot(&self, snapshot: Option<Snapshot>) -> Result<(), RegistryError> {
        let (mut reg, handle) = self.guard.acquire_write();
        let out = reg.load_snapshot(snapshot);
        handle.release_write(reg);
        out
    }
}

/// An element-for-element copy of a permission collection.
fn clone_permissions(v: &Vec<Permission>) -> (r: Vec<Permission>)
    ensures
        r@.map_values(|p: Permission| p@) == v@.map_values(|p: Permission| p@),
{
    let n = v.len();
    let mut r: Vec<Permission> = Vec::new();
    let mut i: usize = 0;
    while i < n
        invariant
            n == v@.len(),
            0 <= i <= n,
            r@.len() == i,
            forall|j: int| 0 <= j < i ==> r@[j]@ == v@[j]@,
        decreases n - i,
    {
        r.push(v[i].clone());
        i = i + 1;
    }
    proof {
        assert(r@.map_values(|p: Permission| p@) =~= v@.map_values(|p: Permission| p@));
    }
    r
}

/// An element-for-element copy of a grant collection.
fn clone_grants(v: &Vec<Grant>) -> (r: Vec<Grant>)
    ensures
        r@.map_values(|g: Grant| g@) == v@.map_values(|g: Grant| g@),
{
    let n = v.len();
    let mut r: Vec<Grant> = Vec::new();
    let mut i: usize = 0;
    while i < n
        invariant
            n == v@.len(),
            0 <= i <= n,
            r@.len() == i,
            forall|j: int| 0 <= j < i ==> r@[j]@ == v@[j]@,
        decreases n - i,
    {
        r.push(v[i].clone());
        i = i + 1;
    }
    proof {
        assert(r@.map_values(|g: Grant| g@) =~= v@.map_values(|g: Grant| g@));
    }
    r
}

} // verus!
