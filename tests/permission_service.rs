use rext_core::permission_service::PermissionService;
use rext_core::permissions::Permission;

#[test]
fn all_permissions_are_listed_once() {
    let all = PermissionService::get_all_permissions();
    assert_eq!(all.len(), 19);
    assert_eq!(all[0], Permission::All);
    assert_eq!(all[18], Permission::SystemDatabase);
}

#[test]
fn permissions_grouped_by_category() {
    let groups = PermissionService::get_permissions_by_category();
    let names: Vec<&str> = groups.iter().map(|(c, _)| c.as_str()).collect();
    assert_eq!(names, vec!["super", "admin", "user", "system"]);
    let sizes: Vec<usize> = groups.iter().map(|(_, v)| v.len()).collect();
    assert_eq!(sizes, vec![1, 9, 5, 4]);
    assert_eq!(groups[2].1[0], Permission::UserRead);
}

#[test]
fn permission_strings_are_kept() {
    let input = vec!["admin:read".to_string(), "reports:view".to_string(), "plain".to_string()];
    let out = PermissionService::validate_permission_strings(&input).unwrap();
    assert_eq!(out, input);
}

#[test]
fn permission_string_validity() {
    assert!(PermissionService::is_valid_permission("*"));
    assert!(PermissionService::is_valid_permission("user:profile"));
    assert!(PermissionService::is_valid_permission("reports:view"));
    assert!(!PermissionService::is_valid_permission("reports"));
    assert!(!PermissionService::is_valid_permission(""));
}
