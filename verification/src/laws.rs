//! Registry-wide laws: properties that relate several operations,
//! stated over the mathematical model and proved once and for all.

use vstd::prelude::*;
use crate::registry::{
    RegistryView, PermissionView, GrantView, empty_view, permission_defined, grant_present,
    define_permission_spec, create_grant_spec,
};

verus! {

/// The model after a whole sequence of define operations, applied in
/// order.
pub open spec fn apply_defines(v: RegistryView, ps: Seq<PermissionView>) -> RegistryView
    decreases ps.len(),
{
    if ps.len() == 0 {
        v
    } else {
        define_permission_spec(apply_defines(v, ps.drop_last()), ps.last())
    }
}

/// The model after a whole sequence of attempted create operations,
/// applied in order.
pub open spec fn apply_creates(v: RegistryView, gs: Seq<GrantView>) -> RegistryView
    decreases gs.len(),
{
    if gs.len() == 0 {
        v
    } else {
        create_grant_spec(apply_creates(v, gs.drop_last()), gs.last())
    }
}

/// Law: after any sequence of define operations the permission
/// collection is exactly the prior collection followed by the defined
/// permissions, in call order, and the grant collection is untouched
/// (defining is append-only and order-preserving).
pub proof fn lemma_defines_append_in_order(v: RegistryView, ps: Seq<PermissionView>)
    ensures
        apply_defines(v, ps).perms == v.perms + ps,
        apply_defines(v, ps).grants == v.grants,
    decreases ps.len(),
{
    if ps.len() == 0 {
        assert(v.perms + ps =~= v.perms);
    } else {
        lemma_defines_append_in_order(v, ps.drop_last());
        assert(apply_defines(v, ps).perms =~= v.perms + ps);
    }
}

/// Law: a grant that was just created successfully is present, so a
/// check for it answers true immediately afterwards.
pub proof fn lemma_created_grant_is_present(v: RegistryView, g: GrantView)
    requires
        permission_defined(v, g.permission_name),
    ensures
        grant_present(create_grant_spec(v, g), g),
{
    let w = create_grant_spec(v, g);
    assert(w.grants[w.grants.len() - 1] == g);
}

/// Law: a present grant stays present across any further define or
/// create operation; read operations take the registry immutably and
/// cannot change the model at all.
pub proof fn lemma_grant_presence_is_stable(v: RegistryView, q: GrantView)
    requires
        grant_present(v, q),
    ensures
        forall|p: PermissionView| grant_present(define_permission_spec(v, p), q),
        forall|g: GrantView| grant_present(create_grant_spec(v, g), q),
{
    let i = choose|i: int| 0 <= i < v.grants.len() && v.grants[i] == q;
    assert forall|p: PermissionView| grant_present(define_permission_spec(v, p), q) by {
        assert(define_permission_spec(v, p).grants[i] == q);
    }
    assert forall|g: GrantView| grant_present(create_grant_spec(v, g), q) by {
        assert(create_grant_spec(v, g).grants[i] == q);
    }
}

/// Every stored grant references a permission that is defined.
pub open spec fn referential_integrity(v: RegistryView) -> bool {
    forall|i: int| 0 <= i < v.grants.len() ==> permission_defined(v, v.grants[i].permission_name)
}

/// Law: the empty registry trivially satisfies referential integrity.
pub proof fn lemma_empty_integrity()
    ensures
        referential_integrity(empty_view()),
{
}

/// A permission that is defined stays defined after a further define
/// operation (permissions are never removed).
pub proof fn lemma_define_keeps_defined(v: RegistryView, p: PermissionView, name: Seq<char>)
    requires
        permission_defined(v, name),
    ensures
        permission_defined(define_permission_spec(v, p), name),
{
    let i = choose|i: int| 0 <= i < v.perms.len() && v.perms[i].name == name;
    assert(define_permission_spec(v, p).perms[i].name == name);
}

/// Law: defining a permission preserves referential integrity.
pub proof fn lemma_define_preserves_integrity(v: RegistryView, p: PermissionView)
    requires
        referential_integrity(v),
    ensures
        referential_integrity(define_permission_spec(v, p)),
{
    let w = define_permission_spec(v, p);
    assert forall|i: int| 0 <= i < w.grants.len() implies permission_defined(
        w,
        w.grants[i].permission_name,
    ) by {
        assert(w.grants[i] == v.grants[i]);
        lemma_define_keeps_defined(v, p, v.grants[i].permission_name);
    }
}

/// Law: attempting to create a grant preserves referential integrity,
/// whether the attempt succeeds or is rejected.
pub proof fn lemma_create_preserves_integrity(v: RegistryView, g: GrantView)
    requires
        referential_integrity(v),
    ensures
        referential_integrity(create_grant_spec(v, g)),
{
    let w = create_grant_spec(v, g);
    if permission_defined(v, g.permission_name) {
        assert forall|i: int| 0 <= i < w.grants.len() implies permission_defined(
            w,
            w.grants[i].permission_name,
        ) by {
            if i < v.grants.len() {
                assert(w.grants[i] == v.grants[i]);
            } else {
                assert(w.grants[i] == g);
            }
        }
    }
}

/// Law: in a registry satisfying referential integrity, a query whose
/// permission name was never defined checks false, even if a
/// structurally identical record is stored under another permission
/// name.
pub proof fn lemma_check_undefined_is_false(v: RegistryView, q: GrantView)
    requires
        referential_integrity(v),
        !permission_defined(v, q.permission_name),
    ensures
        !grant_present(v, q),
{
    if grant_present(v, q) {
        let i = choose|i: int| 0 <= i < v.grants.len() && v.grants[i] == q;
        assert(permission_defined(v, v.grants[i].permission_name));
    }
}

/// Law (serialization): running N create operations, in any serial
/// order, against a permission that is already defined appends exactly
/// those N grants, in order, with none lost and the permission
/// collection unchanged.
pub proof fn lemma_serialized_creates(v: RegistryView, gs: Seq<GrantView>, name: Seq<char>)
    requires
        permission_defined(v, name),
        forall|i: int| 0 <= i < gs.len() ==> gs[i].permission_name == name,
    ensures
        apply_creates(v, gs).perms == v.perms,
        apply_creates(v, gs).grants == v.grants + gs,
    decreases gs.len(),
{
    if gs.len() == 0 {
        assert(v.grants + gs =~= v.grants);
    } else {
        lemma_serialized_creates(v, gs.drop_last(), name);
        let w = apply_creates(v, gs.drop_last());
        assert(gs[gs.len() - 1].permission_name == name);
        assert(permission_defined(w, name));
        assert(apply_creates(v, gs).grants =~= v.grants + gs);
    }
}

} // verus!
