use rext_core::permissions::{DefaultPermissions, Permission, PermissionSet};

fn names(set: &PermissionSet) -> Vec<String> {
    let mut v = set.to_strings();
    v.sort();
    v
}

#[test]
fn permission_strings_round_trip() {
    let all = [
        Permission::All,
        Permission::AdminRead,
        Permission::AdminDatabase,
        Permission::UserCreate,
        Permission::SystemLogs,
    ];
    for p in all.iter() {
        assert_eq!(&Permission::from_string(&p.to_string()), p);
    }
    assert_eq!(Permission::AdminRead.to_string(), "admin:read");
    assert_eq!(Permission::All.to_string(), "*");
    assert_eq!(Permission::from_string("reports:export"), Permission::Custom("reports:export".to_string()));
    assert_eq!(Permission::Custom("x".to_string()).to_string(), "x");
}

#[test]
fn permission_metadata() {
    assert_eq!(Permission::All.category(), "super");
    assert_eq!(Permission::AdminLogs.category(), "admin");
    assert_eq!(Permission::UserProfile.category(), "user");
    assert_eq!(Permission::SystemDatabase.category(), "system");
    assert_eq!(Permission::Custom("q".to_string()).category(), "custom");
    assert_eq!(Permission::SystemDatabase.description(), "Access system database");
    assert_eq!(Permission::Custom("q".to_string()).description(), "Custom permission");
}

#[test]
fn includes_and_equality() {
    assert!(Permission::All.includes(&Permission::UserRead));
    assert!(Permission::UserRead.includes(&Permission::UserRead));
    assert!(!Permission::UserRead.includes(&Permission::UserWrite));
    assert!(Permission::Custom("a".to_string()) != Permission::Custom("b".to_string()));
    assert!(Permission::Custom("admin:read".to_string()) != Permission::AdminRead);
}

#[test]
fn set_operations() {
    let mut s = PermissionSet::new();
    assert!(!s.contains(&Permission::UserRead));
    s.add(Permission::UserRead);
    s.add(Permission::UserRead);
    assert_eq!(s.to_vec().len(), 1);
    assert!(s.contains(&Permission::UserRead));
    assert!(s.contains_any(&[Permission::AdminRead, Permission::UserRead]));
    assert!(!s.contains_all(&[Permission::AdminRead, Permission::UserRead]));
    s.remove(&Permission::UserRead);
    assert!(!s.contains(&Permission::UserRead));
    let mut t = PermissionSet::from_strings(vec!["user:read".to_string(), "custom:x".to_string()]);
    assert_eq!(names(&t), vec!["custom:x".to_string(), "user:read".to_string()]);
    t.merge(&DefaultPermissions::user());
    assert_eq!(names(&t), vec!["custom:x".to_string(), "user:profile".to_string(), "user:read".to_string()]);
    assert!(PermissionSet::default().to_vec().is_empty());
}

#[test]
fn wildcard_grants_everything() {
    let s = DefaultPermissions::super_admin();
    assert!(s.contains(&Permission::SystemDatabase));
    assert!(s.contains(&Permission::Custom("anything".to_string())));
    assert!(s.contains_all(&[Permission::AdminDelete, Permission::UserCreate]));
    assert!(!s.contains_any(&[]));
}

#[test]
fn default_roles() {
    assert_eq!(DefaultPermissions::admin().to_vec().len(), 12);
    assert!(!DefaultPermissions::admin().contains(&Permission::AdminDelete));
    assert_eq!(names(&DefaultPermissions::user()), vec!["user:profile".to_string(), "user:read".to_string()]);
    let ro = DefaultPermissions::admin_readonly();
    assert_eq!(ro.to_vec().len(), 5);
    assert!(ro.contains(&Permission::AdminMetrics));
    assert!(!ro.contains(&Permission::AdminWrite));
    let v = PermissionSet::from_vec(vec![Permission::AdminRead, Permission::AdminRead, Permission::UserRead]);
    assert_eq!(v.to_vec().len(), 2);
}
