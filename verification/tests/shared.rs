use permission_registry::registry::{Grant, Permission, RegistryError, Snapshot, ValueType};
use permission_registry::shared::SharedRegistry;

fn perm(name: &str, value_type: ValueType, multiple: bool) -> Permission {
    Permission { name: name.to_owned(), value_type, multiple }
}

fn grant(permission_name: &str, value: Option<&str>, user: &str, app: &str) -> Grant {
    Grant {
        permission_name: permission_name.to_owned(),
        value: value.map(|v| v.to_owned()),
        user: user.to_owned(),
        app: app.to_owned(),
    }
}

#[test]
fn shared_registry_serializes_the_same_operations() {
    let s = SharedRegistry::new();
    assert_eq!(s.list_permissions().len(), 0);
    assert_eq!(s.list_grants().len(), 0);

    s.define_permission(perm("can_export", ValueType::Bool, false));
    let listed = s.list_permissions();
    assert_eq!(listed.len(), 1);
    assert_eq!(listed[0].name, "can_export");

    assert_eq!(s.create_grant(grant("can_export", None, "u1", "a1")), Ok(()));
    assert!(s.check_grant(&grant("can_export", None, "u1", "a1")));
    assert!(!s.check_grant(&grant("can_export", None, "u1", "a2")));
    assert_eq!(
        s.create_grant(grant("unknown_perm", None, "u1", "a1")),
        Err(RegistryError::Rejected)
    );
    assert_eq!(s.list_grants().len(), 1);
}

#[test]
fn shared_registry_loads_snapshots() {
    let s = SharedRegistry::new();
    assert_eq!(s.load_snapshot(None), Err(RegistryError::Malformed));
    assert_eq!(s.list_permissions().len(), 0);

    let snap = Snapshot {
        perms: vec![perm("loaded", ValueType::Str, true)],
        grants: vec![grant("loaded", Some("x"), "u9", "a9")],
    };
    assert_eq!(s.load_snapshot(Some(snap)), Ok(()));
    assert_eq!(s.list_permissions().len(), 1);
    assert!(s.check_grant(&grant("loaded", Some("x"), "u9", "a9")));
}

#[test]
fn shared_registry_many_creates_no_lost_update() {
    let s = SharedRegistry::new();
    s.define_permission(perm("bulk", ValueType::Str, true));
    let n = 20;
    for i in 0..n {
        let user = format!("user{}", i);
        assert_eq!(s.create_grant(grant("bulk", None, &user, "a1")), Ok(()));
    }
    let grants = s.list_grants();
    assert_eq!(grants.len(), n);
    for i in 0..n {
        assert_eq!(grants[i].user, format!("user{}", i));
        assert!(s.check_grant(&grant("bulk", None, &grants[i].user, "a1")));
    }
}
