//! Permission bookkeeping of the generated backend that needs no database: the
//! built-in permissions, their grouping by category, and validation of
//! permission strings.
use vstd::prelude::*;

use crate::permissions::{
    parse_permission, permission_category, permission_name, permission_views, Permission, PermissionView,
};
use crate::text::{chars_of, owned};
use crate::validation::AppError;

verus! {

/// Permission service
pub struct PermissionService;

/// The built-in permissions, in their fixed order.
pub open spec fn builtin_permissions() -> Seq<PermissionView> {
    seq![
        PermissionView::All,
        PermissionView::AdminRead,
        PermissionView::AdminWrite,
        PermissionView::AdminDelete,
        PermissionView::AdminUsers,
        PermissionView::AdminRoles,
        PermissionView::AdminLogs,
        PermissionView::AdminDatabase,
        PermissionView::AdminHealth,
        PermissionView::AdminMetrics,
        PermissionView::UserRead,
        PermissionView::UserWrite,
        PermissionView::UserDelete,
        PermissionView::UserProfile,
        PermissionView::UserCreate,
        PermissionView::SystemHealth,
        PermissionView::SystemMetrics,
        PermissionView::SystemLogs,
        PermissionView::SystemDatabase,
    ]
}

/// `s` names a built-in permission.
pub open spec fn is_builtin_name(s: Seq<char>) -> bool {
    s == "*"@ || s == "admin:read"@ || s == "admin:write"@ || s == "admin:delete"@ || s == "admin:users"@ || s == "admin:roles"@ || s == "admin:logs"@ || s == "admin:database"@ || s == "admin:health"@ || s == "admin:metrics"@ || s == "user:read"@ || s == "user:write"@ || s == "user:delete"@ || s == "user:profile"@ || s == "user:create"@ || s == "system:health"@ || s == "system:metrics"@ || s == "system:logs"@ || s == "system:database"@
}

/// A permission string is valid when it names a built-in permission or, as a
/// custom permission, holds a `:`.
pub open spec fn valid_permission_name(s: Seq<char>) -> bool {
    is_builtin_name(s) || s.contains(':')
}

/// The built-in permissions of category `c`, in their fixed order.
pub open spec fn in_category(c: Seq<char>) -> Seq<PermissionView> {
    builtin_permissions().filter(|p: PermissionView| permission_category(p) == c)
}

/// The categories of the built-in permissions, in order of first appearance.
pub open spec fn builtin_categories() -> Seq<Seq<char>> {
    seq!["super"@, "admin"@, "user"@, "system"@]
}

/// Naming the permission that a string names gives back the string.
pub proof fn lemma_name_of_parsed(s: Seq<char>)
    ensures
        permission_name(parse_permission(s)) == s,
{
}

impl PermissionService {
    /// Get all available permissions
    pub fn get_all_permissions() -> (r: Vec<Permission>)
        ensures
            permission_views(r@) == builtin_permissions(),
    {
        let r = vec![
            Permission::All,
            Permission::AdminRead,
            Permission::AdminWrite,
            Permission::AdminDelete,
            Permission::AdminUsers,
            Permission::AdminRoles,
            Permission::AdminLogs,
            Permission::AdminDatabase,
            Permission::AdminHealth,
            Permission::AdminMetrics,
            Permission::UserRead,
            Permission::UserWrite,
            Permission::UserDelete,
            Permission::UserProfile,
            Permission::UserCreate,
            Permission::SystemHealth,
            Permission::SystemMetrics,
            Permission::SystemLogs,
            Permission::SystemDatabase,
        ];
        assert(permission_views(r@) =~= builtin_permissions());
        r
    }

    /// Get permissions by category: each category of the built-in permissions,
    /// in order of first appearance, with its permissions in their fixed order.
    pub fn get_permissions_by_category() -> (r: Vec<(String, Vec<Permission>)>)
        ensures
            r.len() == builtin_categories().len(),
            forall|i: int|
                0 <= i < r.len() ==> (#[trigger] r@[i]).0@ == builtin_categories()[i] && permission_views(
                    r@[i].1@,
                ) == in_category(builtin_categories()[i]),
    {
        let all = Self::get_all_permissions();
        let cats: Vec<&str> = vec!["super", "admin", "user", "system"];
        let mut r: Vec<(String, Vec<Permission>)> = Vec::new();
        for c in 0..cats.len()
            invariant
                cats@.len() == 4,
                forall|k: int| 0 <= k < 4 ==> (#[trigger] cats@[k])@ == builtin_categories()[k],
                permission_views(all@) == builtin_permissions(),
                r.len() == c,
                forall|i: int|
                    0 <= i < c ==> (#[trigger] r@[i]).0@ == builtin_categories()[i] && permission_views(
                        r@[i].1@,
                    ) == in_category(builtin_categories()[i]),
        {
            let name = cats[c];
            let ghost pred = |p: PermissionView| permission_category(p) == name@;
            let mut members: Vec<Permission> = Vec::new();
            for k in 0..all.len()
                invariant
                    permission_views(all@) == builtin_permissions(),
                    pred == (|p: PermissionView| permission_category(p) == name@),
                    permission_views(members@) == permission_views(all@).take(k as int).filter(pred),
            {
                proof {
                    reveal(Seq::filter);
                    assert(permission_views(all@).take(k + 1).drop_last() =~= permission_views(all@).take(
                        k as int,
                    ));
                    assert(permission_views(all@).take(k + 1).last() == all@[k as int]@);
                }
                let cat = all[k].category();
                if owned(cat) == owned(name) {
                    let ghost prev = members@;
                    members.push(all[k].duplicate());
                    assert(permission_views(members@) =~= permission_views(prev).push(all@[k as int]@));
                }
            }
            assert(permission_views(all@).take(all.len() as int) =~= permission_views(all@));
            r.push((owned(name), members));
        }
        r
    }

    /// Validate permission strings: each string, read as a permission and
    /// written back.
    pub fn validate_permission_strings(permissions: &[String]) -> (r: Result<Vec<String>, AppError>)
        ensures
            r matches Ok(v) && v@.map_values(|s: String| s@) == permissions@.map_values(
                |s: String| permission_name(parse_permission(s@)),
            ),
    {
        let ghost target = permissions@.map_values(|s: String| permission_name(parse_permission(s@)));
        let mut valid: Vec<String> = Vec::new();
        for i in 0..permissions.len()
            invariant
                target == permissions@.map_values(|s: String| permission_name(parse_permission(s@))),
                valid@.map_values(|s: String| s@) == target.take(i as int),
        {
            let p = Permission::from_string(permissions[i].as_str());
            let ghost prev = valid@;
            valid.push(p.to_string());
            assert(valid@.map_values(|s: String| s@) =~= prev.map_values(|s: String| s@).push(target[i as int]));
            assert(target.take(i + 1) =~= target.take(i as int).push(target[i as int]));
        }
        assert(target.take(permissions.len() as int) =~= target);
        Ok(valid)
    }

    /// Check if a permission string is valid
    pub fn is_valid_permission(permission_str: &str) -> (r: bool)
        ensures
            r == valid_permission_name(permission_str@),
    {
        match Permission::from_string(permission_str) {
            Permission::Custom(_) => {
                let v = chars_of(permission_str);
                let mut i: usize = 0;
                while i < v.len()
                    invariant
                        v@ == permission_str@,
                        !is_builtin_name(permission_str@),
                        forall|j: int| 0 <= j < i ==> v@[j] != ':',
                    decreases v.len() - i,
                {
                    if v[i] == ':' {
                        return true;
                    }
                    i = i + 1;
                }
                false
            },
            _ => true,
        }
    }
}

} // verus!
