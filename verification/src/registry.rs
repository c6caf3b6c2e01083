//! The permission/grant data store and its operations.

use vstd::prelude::*;

verus! {

/// Advisory description of the expected shape of grant values for a
/// permission. It is metadata only: no operation validates stored
/// values against it.
#[derive(Clone, Copy, PartialEq, Eq, Structural, Debug)]
pub enum ValueType {
    Str,
    Bool,
    Dict,
}

/// A permission definition. `name` is the key that grants reference.
pub struct Permission {
    pub name: String,
    pub value_type: ValueType,
    pub multiple: bool,
}

/// Mathematical model of a [`Permission`].
pub ghost struct PermissionView {
    pub name: Seq<char>,
    pub value_type: ValueType,
    pub multiple: bool,
}

impl View for Permission {
    type V = PermissionView;

    open spec fn view(&self) -> PermissionView {
        PermissionView {
            name: self.name@,
            value_type: self.value_type,
            multiple: self.multiple,
        }
    }
}

impl Clone for Permission {
    fn clone(&self) -> (r: Self)
        ensures
            r@ == self@,
    {
        Permission {
            name: self.name.clone(),
            value_type: self.value_type,
            multiple: self.multiple,
        }
    }
}

/// A single granted instance of a permission: the subject `user` holds
/// `permission_name` within application `app`, with an optional string
/// payload `value` (absent means a boolean-style presence grant).
pub struct Grant {
    pub permission_name: String,
    pub value: Option<String>,
    pub user: String,
    pub app: String,
}

/// Mathematical model of a [`Grant`]. Two grants match exactly when
/// their models are equal, i.e. all four fields agree (absence of
/// `value` matching absence).
pub ghost struct GrantView {
    pub permission_name: Seq<char>,
    pub value: Option<Seq<char>>,
    pub user: Seq<char>,
    pub app: Seq<char>,
}

impl View for Grant {
    type V = GrantView;

    open spec fn view(&self) -> GrantView {
        GrantView {
            permission_name: self.permission_name@,
            value: match self.value {
                Option::Some(v) => Option::Some(v@),
                Option::None => Option::None,
            },
            user: self.user@,
            app: self.app@,
        }
    }
}

impl Clone for Grant {
    fn clone(&self) -> (r: Self)
        ensures
            r@ == self@,
    {
        Grant {
            permission_name: self.permission_name.clone(),
            value: match &self.value {
                Option::Some(v) => Option::Some(v.clone()),
                Option::None => Option::None,
            },
            user: self.user.clone(),
            app: self.app.clone(),
        }
    }
}

/// The failures a registry operation can signal.
#[derive(Clone, Copy, PartialEq, Eq, Structural, Debug)]
pub enum RegistryError {
    /// Grant creation referenced a permission name that is not defined.
    Rejected,
    /// The startup snapshot could not be decoded.
    Malformed,
}

/// A decoded startup snapshot: full contents for both collections.
pub struct Snapshot {
    pub perms: Vec<Permission>,
    pub grants: Vec<Grant>,
}

/// Mathematical model of a [`Snapshot`].
pub ghost struct SnapshotView {
    pub perms: Seq<PermissionView>,
    pub grants: Seq<GrantView>,
}

impl View for Snapshot {
    type V = SnapshotView;

    open spec fn view(&self) -> SnapshotView {
        SnapshotView {
            perms: self.perms@.map_values(|p: Permission| p@),
            grants: self.grants@.map_values(|g: Grant| g@),
        }
    }
}

/// Mathematical model of the whole registry: the two collections, in
/// insertion order.
pub ghost struct RegistryView {
    pub perms: Seq<PermissionView>,
    pub grants: Seq<GrantView>,
}

/// The model of a registry that holds nothing.
pub open spec fn empty_view() -> RegistryView {
    RegistryView { perms: Seq::<PermissionView>::empty(), grants: Seq::<GrantView>::empty() }
}

/// A permission with this name has been defined.
pub open spec fn permission_defined(v: RegistryView, name: Seq<char>) -> bool {
    exists|i: int| 0 <= i < v.perms.len() && v.perms[i].name == name
}

/// Some stored grant is field-wise equal to `q`.
pub open spec fn grant_present(v: RegistryView, q: GrantView) -> bool {
    exists|i: int| 0 <= i < v.grants.len() && v.grants[i] == q
}

/// The effect of defining permission `p`: append it, leave grants alone.
pub open spec fn define_permission_spec(v: RegistryView, p: PermissionView) -> RegistryView {
    RegistryView { perms: v.perms.push(p), grants: v.grants }
}

/// The effect of attempting to create grant `g`: append it when its
/// permission is defined, otherwise leave the registry unchanged.
pub open spec fn create_grant_spec(v: RegistryView, g: GrantView) -> RegistryView {
    if permission_defined(v, g.permission_name) {
        RegistryView { perms: v.perms, grants: v.grants.push(g) }
    } else {
        v
    }
}

/// The in-memory store owning both collections. Its operations are the
/// only way the collections change, and each operation is atomic: it
/// either fully applies its effect or none of it.
pub struct Registry {
    perms: Vec<Permission>,
    grants: Vec<Grant>,
}

impl View for Registry {
    type V = RegistryView;

    closed spec fn view(&self) -> RegistryView {
        RegistryView {
            perms: self.perms@.map_values(|p: Permission| p@),
            grants: self.grants@.map_values(|g: Grant| g@),
        }
    }
}

impl Registry {
    /// A fresh registry holds no permissions and no grants.
    pub fn new() -> (r: Registry)
        ensures
            r@ == empty_view(),
    {
        let r = Registry { perms: Vec::new(), grants: Vec::new() };
        proof {
            assert(r@.perms =~= empty_view().perms);
            assert(r@.grants =~= empty_view().grants);
        }
        r
    }

    /// Appends `p` to the permission collection; always succeeds. No
    /// uniqueness check is made: a duplicate name is accepted silently.
    pub fn define_permission(&mut self, p: Permission)
        ensures
            final(self)@ == define_permission_spec(old(self)@, p@),
    {
        self.perms.push(p);
        proof {
            assert(final(self)@.perms =~= define_permission_spec(old(self)@, p@).perms);
            assert(final(self)@.grants =~= old(self)@.grants);
        }
    }

    /// The permission collection, in insertion order.
    pub fn list_permissions(&self) -> (r: &Vec<Permission>)
        ensures
            r@.map_values(|p: Permission| p@) == self@.perms,
    {
        &self.perms
    }

    /// The grant collection, in insertion order.
    pub fn list_grants(&self) -> (r: &Vec<Grant>)
        ensures
            r@.map_values(|g: Grant| g@) == self@.grants,
    {
        &self.grants
    }

    /// A permission named `name` is currently defined.
    fn has_permission_named(&self, name: &String) -> (r: bool)
        ensures
            r == permission_defined(self@, name@),
    {
        let n = self.perms.len();
        let mut i: usize = 0;
        while i < n
            invariant
                n == self.perms.len(),
                0 <= i <= n,
                forall|j: int| 0 <= j < i ==> self@.perms[j].name != name@,
            decreases n - i,
        {
            if self.perms[i].name == *name {
                proof {
                    assert(self@.perms[i as int].name == name@);
                }
                return true;
            }
            i = i + 1;
        }
        false
    }

    /// Appends `g` to the grant collection iff a permission named
    /// `g.permission_name` is defined at call time; otherwise signals
    /// `Rejected` and mutates nothing.
    pub fn create_grant(&mut self, g: Grant) -> (r: Result<(), RegistryError>)
        ensures
            r is Ok <==> permission_defined(old(self)@, g@.permission_name),
            r is Err ==> r == Result::<(), RegistryError>::Err(RegistryError::Rejected),
            final(self)@ == create_grant_spec(old(self)@, g@),
    {
        if self.has_permission_named(&g.permission_name) {
            self.grants.push(g);
            proof {
                assert(final(self)@.perms =~= create_grant_spec(old(self)@, g@).perms);
                assert(final(self)@.grants =~= create_grant_spec(old(self)@, g@).grants);
            }
            Result::Ok(())
        } else {
            Result::Err(RegistryError::Rejected)
        }
    }

    /// Some stored grant is field-wise equal to `q`. Read-only: no
    /// mutation, and no existence check against the permission
    /// collection.
    pub fn check_grant(&self, q: &Grant) -> (r: bool)
        ensures
            r == grant_present(self@, q@),
    {
        let n = self.grants.len();
        let mut i: usize = 0;
        while i < n
            invariant
                n == self.grants.len(),
                0 <= i <= n,
                forall|j: int| 0 <= j < i ==> self@.grants[j] != q@,
            decreases n - i,
        {
            if grants_match(&self.grants[i], q) {
                proof {
                    assert(self@.grants[i as int] == q@);
                }
                return true;
            }
            i = i + 1;
        }
        false
    }

    /// Wholesale-replaces both collections from a decoded startup
    /// snapshot. `None` stands for a source that was absent or failed
    /// to decode: the registry is left in its prior state and
    /// `Malformed` is signalled.
    pub fn load_snapshot(&mut self, snapshot: Option<Snapshot>) -> (r: Result<(), RegistryError>)
        ensures
            r is Ok <==> snapshot is Some,
            r is Err ==> r == Result::<(), RegistryError>::Err(RegistryError::Malformed),
            match snapshot {
                Option::Some(s) => final(self)@.perms == s@.perms && final(self)@.grants
                    == s@.grants,
                Option::None => final(self)@ == old(self)@,
            },
    {
        match snapshot {
            Option::Some(s) => {
                self.perms = s.perms;
                self.grants = s.grants;
                Result::Ok(())
            },
            Option::None => Result::Err(RegistryError::Malformed),
        }
    }
}

/// `a` and `b` agree on all four fields (absence of `value` matching
/// absence).
pub fn grants_match(a: &Grant, b: &Grant) -> (r: bool)
    ensures
        r == (a@ == b@),
{
    let name_eq = a.permission_name == b.permission_name;
    let value_eq = match (&a.value, &b.value) {
        (Option::Some(x), Option::Some(y)) => *x == *y,
        (Option::None, Option::None) => true,
        _ => false,
    };
    let user_eq = a.user == b.user;
    let app_eq = a.app == b.app;
    name_eq && value_eq && user_eq && app_eq
}

} // verus!
