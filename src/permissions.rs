//! Permissions of the generated backend: the permission catalogue, its string
//! forms, and sets of permissions as roles hold them.
use vstd::prelude::*;

use crate::text::owned;

verus! {

/// Represents all available permissions in the system
#[derive(Debug, Eq, Hash)]
pub enum Permission {
    // Super admin permission (wildcard)
    All,

    // Admin permissions
    AdminRead,
    AdminWrite,
    AdminDelete,
    AdminUsers,
    AdminRoles,
    AdminLogs,
    AdminDatabase,
    AdminHealth,
    AdminMetrics,

    // User permissions
    UserRead,
    UserWrite,
    UserDelete,
    UserProfile,
    UserCreate,

    // System permissions
    SystemHealth,
    SystemMetrics,
    SystemLogs,
    SystemDatabase,

    // Custom permissions (for dynamic roles)
    Custom(String),
}

/// A permission as a mathematical value.
pub enum PermissionView {
    All,
    AdminRead,
    AdminWrite,
    AdminDelete,
    AdminUsers,
    AdminRoles,
    AdminLogs,
    AdminDatabase,
    AdminHealth,
    AdminMetrics,
    UserRead,
    UserWrite,
    UserDelete,
    UserProfile,
    UserCreate,
    SystemHealth,
    SystemMetrics,
    SystemLogs,
    SystemDatabase,
    Custom(Seq<char>),
}

impl View for Permission {
    type V = PermissionView;

    open spec fn view(&self) -> PermissionView {
        match self {
            Permission::All => PermissionView::All,
            Permission::AdminRead => PermissionView::AdminRead,
            Permission::AdminWrite => PermissionView::AdminWrite,
            Permission::AdminDelete => PermissionView::AdminDelete,
            Permission::AdminUsers => PermissionView::AdminUsers,
            Permission::AdminRoles => PermissionView::AdminRoles,
            Permission::AdminLogs => PermissionView::AdminLogs,
            Permission::AdminDatabase => PermissionView::AdminDatabase,
            Permission::AdminHealth => PermissionView::AdminHealth,
            Permission::AdminMetrics => PermissionView::AdminMetrics,
            Permission::UserRead => PermissionView::UserRead,
            Permission::UserWrite => PermissionView::UserWrite,
            Permission::UserDelete => PermissionView::UserDelete,
            Permission::UserProfile => PermissionView::UserProfile,
            Permission::UserCreate => PermissionView::UserCreate,
            Permission::SystemHealth => PermissionView::SystemHealth,
            Permission::SystemMetrics => PermissionView::SystemMetrics,
            Permission::SystemLogs => PermissionView::SystemLogs,
            Permission::SystemDatabase => PermissionView::SystemDatabase,
            Permission::Custom(s) => PermissionView::Custom(s@),
        }
    }
}

/// The string form of a permission.
pub open spec fn permission_name(p: PermissionView) -> Seq<char> {
    match p {
        PermissionView::All => "*"@,
        PermissionView::AdminRead => "admin:read"@,
        PermissionView::AdminWrite => "admin:write"@,
        PermissionView::AdminDelete => "admin:delete"@,
        PermissionView::AdminUsers => "admin:users"@,
        PermissionView::AdminRoles => "admin:roles"@,
        PermissionView::AdminLogs => "admin:logs"@,
        PermissionView::AdminDatabase => "admin:database"@,
        PermissionView::AdminHealth => "admin:health"@,
        PermissionView::AdminMetrics => "admin:metrics"@,
        PermissionView::UserRead => "user:read"@,
        PermissionView::UserWrite => "user:write"@,
        PermissionView::UserDelete => "user:delete"@,
        PermissionView::UserProfile => "user:profile"@,
        PermissionView::UserCreate => "user:create"@,
        PermissionView::SystemHealth => "system:health"@,
        PermissionView::SystemMetrics => "system:metrics"@,
        PermissionView::SystemLogs => "system:logs"@,
        PermissionView::SystemDatabase => "system:database"@,
        PermissionView::Custom(s) => s,
    }
}

/// The permission that a string names: one of the built-in permissions, or
/// else a custom permission holding the string.
pub open spec fn parse_permission(s: Seq<char>) -> PermissionView {
    if s == "*"@ {
        PermissionView::All
    } else if s == "admin:read"@ {
        PermissionView::AdminRead
    } else if s == "admin:write"@ {
        PermissionView::AdminWrite
    } else if s == "admin:delete"@ {
        PermissionView::AdminDelete
    } else if s == "admin:users"@ {
        PermissionView::AdminUsers
    } else if s == "admin:roles"@ {
        PermissionView::AdminRoles
    } else if s == "admin:logs"@ {
        PermissionView::AdminLogs
    } else if s == "admin:database"@ {
        PermissionView::AdminDatabase
    } else if s == "admin:health"@ {
        PermissionView::AdminHealth
    } else if s == "admin:metrics"@ {
        PermissionView::AdminMetrics
    } else if s == "user:read"@ {
        PermissionView::UserRead
    } else if s == "user:write"@ {
        PermissionView::UserWrite
    } else if s == "user:delete"@ {
        PermissionView::UserDelete
    } else if s == "user:profile"@ {
        PermissionView::UserProfile
    } else if s == "user:create"@ {
        PermissionView::UserCreate
    } else if s == "system:health"@ {
        PermissionView::SystemHealth
    } else if s == "system:metrics"@ {
        PermissionView::SystemMetrics
    } else if s == "system:logs"@ {
        PermissionView::SystemLogs
    } else if s == "system:database"@ {
        PermissionView::SystemDatabase
    } else {
        PermissionView::Custom(s)
    }
}

/// The category of a permission.
pub open spec fn permission_category(p: PermissionView) -> Seq<char> {
    match p {
        PermissionView::All => "super"@,
        PermissionView::AdminRead => "admin"@,
        PermissionView::AdminWrite => "admin"@,
        PermissionView::AdminDelete => "admin"@,
        PermissionView::AdminUsers => "admin"@,
        PermissionView::AdminRoles => "admin"@,
        PermissionView::AdminLogs => "admin"@,
        PermissionView::AdminDatabase => "admin"@,
        PermissionView::AdminHealth => "admin"@,
        PermissionView::AdminMetrics => "admin"@,
        PermissionView::UserRead => "user"@,
        PermissionView::UserWrite => "user"@,
        PermissionView::UserDelete => "user"@,
        PermissionView::UserProfile => "user"@,
        PermissionView::UserCreate => "user"@,
        PermissionView::SystemHealth => "system"@,
        PermissionView::SystemMetrics => "system"@,
        PermissionView::SystemLogs => "system"@,
        PermissionView::SystemDatabase => "system"@,
        PermissionView::Custom(_) => "custom"@,
    }
}

/// The description of a permission.
pub open spec fn permission_description(p: PermissionView) -> Seq<char> {
    match p {
        PermissionView::All => "Full system access"@,
        PermissionView::AdminRead => "Read admin data"@,
        PermissionView::AdminWrite => "Write admin data"@,
        PermissionView::AdminDelete => "Delete admin data"@,
        PermissionView::AdminUsers => "Manage users"@,
        PermissionView::AdminRoles => "Manage roles"@,
        PermissionView::AdminLogs => "View system logs"@,
        PermissionView::AdminDatabase => "Access database"@,
        PermissionView::AdminHealth => "View system health"@,
        PermissionView::AdminMetrics => "View system metrics"@,
        PermissionView::UserRead => "Read user data"@,
        PermissionView::UserWrite => "Write user data"@,
        PermissionView::UserDelete => "Delete user data"@,
        PermissionView::UserProfile => "Manage user profile"@,
        PermissionView::UserCreate => "Create users"@,
        PermissionView::SystemHealth => "View system health"@,
        PermissionView::SystemMetrics => "View system metrics"@,
        PermissionView::SystemLogs => "View system logs"@,
        PermissionView::SystemDatabase => "Access system database"@,
        PermissionView::Custom(_) => "Custom permission"@,
    }
}

/// A number for each variant; custom permissions share one.
pub open spec fn variant_index(p: PermissionView) -> int {
    match p {
        PermissionView::All => 0,
        PermissionView::AdminRead => 1,
        PermissionView::AdminWrite => 2,
        PermissionView::AdminDelete => 3,
        PermissionView::AdminUsers => 4,
        PermissionView::AdminRoles => 5,
        PermissionView::AdminLogs => 6,
        PermissionView::AdminDatabase => 7,
        PermissionView::AdminHealth => 8,
        PermissionView::AdminMetrics => 9,
        PermissionView::UserRead => 10,
        PermissionView::UserWrite => 11,
        PermissionView::UserDelete => 12,
        PermissionView::UserProfile => 13,
        PermissionView::UserCreate => 14,
        PermissionView::SystemHealth => 15,
        PermissionView::SystemMetrics => 16,
        PermissionView::SystemLogs => 17,
        PermissionView::SystemDatabase => 18,
        PermissionView::Custom(_) => 19,
    }
}

fn is(s: &str, lit: &str) -> (r: bool)
    ensures
        r == (s@ == lit@),
{
    owned(s) == owned(lit)
}

impl Permission {
    fn variant(&self) -> (r: u8)
        ensures
            r as int == variant_index(self@),
    {
        match self {
            Permission::All => 0,
            Permission::AdminRead => 1,
            Permission::AdminWrite => 2,
            Permission::AdminDelete => 3,
            Permission::AdminUsers => 4,
            Permission::AdminRoles => 5,
            Permission::AdminLogs => 6,
            Permission::AdminDatabase => 7,
            Permission::AdminHealth => 8,
            Permission::AdminMetrics => 9,
            Permission::UserRead => 10,
            Permission::UserWrite => 11,
            Permission::UserDelete => 12,
            Permission::UserProfile => 13,
            Permission::UserCreate => 14,
            Permission::SystemHealth => 15,
            Permission::SystemMetrics => 16,
            Permission::SystemLogs => 17,
            Permission::SystemDatabase => 18,
            Permission::Custom(_) => 19,
        }
    }

    /// Convert permission to string representation
    pub fn to_string(&self) -> (r: String)
        ensures
            r@ == permission_name(self@),
    {
        match self {
            Permission::All => owned("*"),
            Permission::AdminRead => owned("admin:read"),
            Permission::AdminWrite => owned("admin:write"),
            Permission::AdminDelete => owned("admin:delete"),
            Permission::AdminUsers => owned("admin:users"),
            Permission::AdminRoles => owned("admin:roles"),
            Permission::AdminLogs => owned("admin:logs"),
            Permission::AdminDatabase => owned("admin:database"),
            Permission::AdminHealth => owned("admin:health"),
            Permission::AdminMetrics => owned("admin:metrics"),
            Permission::UserRead => owned("user:read"),
            Permission::UserWrite => owned("user:write"),
            Permission::UserDelete => owned("user:delete"),
            Permission::UserProfile => owned("user:profile"),
            Permission::UserCreate => owned("user:create"),
            Permission::SystemHealth => owned("system:health"),
            Permission::SystemMetrics => owned("system:metrics"),
            Permission::SystemLogs => owned("system:logs"),
            Permission::SystemDatabase => owned("system:database"),
            Permission::Custom(s) => s.clone(),
        }
    }

    /// Create permission from string
    pub fn from_string(s: &str) -> (r: Self)
        ensures
            r@ == parse_permission(s@),
    {
        if is(s, "*") {
            Permission::All
        } else if is(s, "admin:read") {
            Permission::AdminRead
        } else if is(s, "admin:write") {
            Permission::AdminWrite
        } else if is(s, "admin:delete") {
            Permission::AdminDelete
        } else if is(s, "admin:users") {
            Permission::AdminUsers
        } else if is(s, "admin:roles") {
            Permission::AdminRoles
        } else if is(s, "admin:logs") {
            Permission::AdminLogs
        } else if is(s, "admin:database") {
            Permission::AdminDatabase
        } else if is(s, "admin:health") {
            Permission::AdminHealth
        } else if is(s, "admin:metrics") {
            Permission::AdminMetrics
        } else if is(s, "user:read") {
            Permission::UserRead
        } else if is(s, "user:write") {
            Permission::UserWrite
        } else if is(s, "user:delete") {
            Permission::UserDelete
        } else if is(s, "user:profile") {
            Permission::UserProfile
        } else if is(s, "user:create") {
            Permission::UserCreate
        } else if is(s, "system:health") {
            Permission::SystemHealth
        } else if is(s, "system:metrics") {
            Permission::SystemMetrics
        } else if is(s, "system:logs") {
            Permission::SystemLogs
        } else if is(s, "system:database") {
            Permission::SystemDatabase
        } else {
            Permission::Custom(owned(s))
        }
    }

    /// Get permission category
    pub fn category(&self) -> (r: &'static str)
        ensures
            r@ == permission_category(self@),
    {
        match self {
            Permission::All => "super",
            Permission::AdminRead => "admin",
            Permission::AdminWrite => "admin",
            Permission::AdminDelete => "admin",
            Permission::AdminUsers => "admin",
            Permission::AdminRoles => "admin",
            Permission::AdminLogs => "admin",
            Permission::AdminDatabase => "admin",
            Permission::AdminHealth => "admin",
            Permission::AdminMetrics => "admin",
            Permission::UserRead => "user",
            Permission::UserWrite => "user",
            Permission::UserDelete => "user",
            Permission::UserProfile => "user",
            Permission::UserCreate => "user",
            Permission::SystemHealth => "system",
            Permission::SystemMetrics => "system",
            Permission::SystemLogs => "system",
            Permission::SystemDatabase => "system",
            Permission::Custom(_) => "custom",
        }
    }

    /// Get permission description
    pub fn description(&self) -> (r: &'static str)
        ensures
            r@ == permission_description(self@),
    {
        match self {
            Permission::All => "Full system access",
            Permission::AdminRead => "Read admin data",
            Permission::AdminWrite => "Write admin data",
            Permission::AdminDelete => "Delete admin data",
            Permission::AdminUsers => "Manage users",
            Permission::AdminRoles => "Manage roles",
            Permission::AdminLogs => "View system logs",
            Permission::AdminDatabase => "Access database",
            Permission::AdminHealth => "View system health",
            Permission::AdminMetrics => "View system metrics",
            Permission::UserRead => "Read user data",
            Permission::UserWrite => "Write user data",
            Permission::UserDelete => "Delete user data",
            Permission::UserProfile => "Manage user profile",
            Permission::UserCreate => "Create users",
            Permission::SystemHealth => "View system health",
            Permission::SystemMetrics => "View system metrics",
            Permission::SystemLogs => "View system logs",
            Permission::SystemDatabase => "Access system database",
            Permission::Custom(_) => "Custom permission",
        }
    }

    /// Check if this permission includes another permission
    pub fn includes(&self, other: &Permission) -> (r: bool)
        ensures
            r == (self@ is All || self@ == other@),
    {
        match self {
            Permission::All => true,
            _ => self.eq(other),
        }
    }

    /// A permission equal to this one.
    pub fn duplicate(&self) -> (r: Permission)
        ensures
            r@ == self@,
    {
        match self {
            Permission::All => Permission::All,
            Permission::AdminRead => Permission::AdminRead,
            Permission::AdminWrite => Permission::AdminWrite,
            Permission::AdminDelete => Permission::AdminDelete,
            Permission::AdminUsers => Permission::AdminUsers,
            Permission::AdminRoles => Permission::AdminRoles,
            Permission::AdminLogs => Permission::AdminLogs,
            Permission::AdminDatabase => Permission::AdminDatabase,
            Permission::AdminHealth => Permission::AdminHealth,
            Permission::AdminMetrics => Permission::AdminMetrics,
            Permission::UserRead => Permission::UserRead,
            Permission::UserWrite => Permission::UserWrite,
            Permission::UserDelete => Permission::UserDelete,
            Permission::UserProfile => Permission::UserProfile,
            Permission::UserCreate => Permission::UserCreate,
            Permission::SystemHealth => Permission::SystemHealth,
            Permission::SystemMetrics => Permission::SystemMetrics,
            Permission::SystemLogs => Permission::SystemLogs,
            Permission::SystemDatabase => Permission::SystemDatabase,
            Permission::Custom(s) => Permission::Custom(s.clone()),
        }
    }
}

impl PartialEq for Permission {
    fn eq(&self, other: &Permission) -> (r: bool)
        ensures
            r == (self@ == other@),
    {
        match (self, other) {
            (Permission::Custom(a), Permission::Custom(b)) => *a == *b,
            _ => self.variant() == other.variant(),
        }
    }
}

impl vstd::std_specs::cmp::PartialEqSpecImpl for Permission {
    open spec fn obeys_eq_spec() -> bool {
        true
    }

    open spec fn eq_spec(&self, other: &Permission) -> bool {
        self@ == other@
    }
}

/// The views of a sequence of permissions.
pub open spec fn permission_views(s: Seq<Permission>) -> Seq<PermissionView> {
    s.map_values(|p: Permission| p@)
}

/// No permission appears twice in `s`.
pub open spec fn no_repeats(s: Seq<PermissionView>) -> bool {
    forall|i: int, j: int| 0 <= i < j < s.len() ==> s[i] != s[j]
}

/// Holds of every permission but `x`.
pub open spec fn other_than(x: PermissionView) -> spec_fn(PermissionView) -> bool {
    |q: PermissionView| q != x
}

/// Collection of permissions with helper methods
pub struct PermissionSet {
    permissions: Vec<Permission>,
}

impl PermissionSet {
    /// The permissions held, in the order in which they were first added.
    pub closed spec fn members(&self) -> Seq<PermissionView> {
        permission_views(self.permissions@)
    }

    /// The set holds each permission at most once.
    pub closed spec fn wf(&self) -> bool {
        no_repeats(self.members())
    }

    /// Whether the set grants `p`: it holds `p` or the wildcard.
    pub open spec fn grants(&self, p: PermissionView) -> bool {
        self@.contains(PermissionView::All) || self@.contains(p)
    }

    fn position(&self, p: &Permission) -> (r: Option<usize>)
        ensures
            r matches Some(i) ==> i < self.permissions.len() && self.members()[i as int] == p@,
            r is None ==> !self.members().contains(p@),
    {
        for i in 0..self.permissions.len()
            invariant
                forall|j: int| 0 <= j < i ==> self.members()[j] != p@,
        {
            if self.permissions[i].eq(p) {
                return Some(i);
            }
        }
        None
    }

    /// Create a new empty permission set
    pub fn new() -> (r: Self)
        ensures
            r.wf(),
            r@ == Set::<PermissionView>::empty(),
    {
        let r = PermissionSet { permissions: Vec::new() };
        assert(r@ =~= Set::<PermissionView>::empty());
        r
    }

    /// Create from vector of permissions
    pub fn from_vec(permissions: Vec<Permission>) -> (r: Self)
        ensures
            r.wf(),
            r@ == permission_views(permissions@).to_set(),
    {
        let mut r = PermissionSet::new();
        for i in 0..permissions.len()
            invariant
                r.wf(),
                r@ == permission_views(permissions@).take(i as int).to_set(),
        {
            r.add(permissions[i].duplicate());
            assert(permission_views(permissions@).take(i + 1) =~= permission_views(permissions@).take(
                i as int,
            ).push(permissions@[i as int]@));
            proof {
                permission_views(permissions@).take(i as int).lemma_push_to_set_commute(permissions@[i as int]@);
            }
        }
        assert(permission_views(permissions@).take(permissions.len() as int) =~= permission_views(
            permissions@,
        ));
        r
    }

    /// Create from vector of strings
    pub fn from_strings(permissions: Vec<String>) -> (r: Self)
        ensures
            r.wf(),
            r@ == permissions@.map_values(|s: String| parse_permission(s@)).to_set(),
    {
        let ghost parsed = permissions@.map_values(|s: String| parse_permission(s@));
        let mut r = PermissionSet::new();
        for i in 0..permissions.len()
            invariant
                parsed == permissions@.map_values(|s: String| parse_permission(s@)),
                r.wf(),
                r@ == parsed.take(i as int).to_set(),
        {
            r.add(Permission::from_string(permissions[i].as_str()));
            assert(parsed.take(i + 1) =~= parsed.take(i as int).push(parsed[i as int]));
            proof {
                parsed.take(i as int).lemma_push_to_set_commute(parsed[i as int]);
            }
        }
        assert(parsed.take(permissions.len() as int) =~= parsed);
        r
    }

    /// Add a permission
    pub fn add(&mut self, permission: Permission)
        requires
            old(self).wf(),
        ensures
            final(self).wf(),
            final(self)@ == old(self)@.insert(permission@),
    {
        if self.position(&permission).is_none() {
            let ghost before = self.members();
            let ghost pv = permission@;
            self.permissions.push(permission);
            assert(self.members() =~= before.push(pv));
            proof {
                before.lemma_push_to_set_commute(pv);
            }
        } else {
            assert(self@ =~= old(self)@.insert(permission@));
        }
    }

    /// Remove a permission
    pub fn remove(&mut self, permission: &Permission)
        requires
            old(self).wf(),
        ensures
            final(self).wf(),
            final(self)@ == old(self)@.remove(permission@),
    {
        let ghost before = self.members();
        let mut kept: Vec<Permission> = Vec::new();
        for i in 0..self.permissions.len()
            invariant
                before == self.members(),
                no_repeats(before),
                permission_views(kept@) == before.take(i as int).filter(other_than(permission@)),
        {
            proof {
                reveal(Seq::filter);
                assert(before.take(i + 1).drop_last() =~= before.take(i as int));
            }
            if !self.permissions[i].eq(permission) {
                let ghost prev = kept@;
                kept.push(self.permissions[i].duplicate());
                assert(permission_views(kept@) =~= permission_views(prev).push(before[i as int]));
            }
        }
        assert(before.take(before.len() as int) =~= before);
        let ghost after = before.filter(other_than(permission@));
        proof {
            lemma_filter_keeps_distinct(before, permission@);
        }
        self.permissions = kept;
        assert(self.members() == after);
        assert(self@ =~= old(self)@.remove(permission@)) by {
            assert forall|q: PermissionView| self@.contains(q) <==> old(self)@.remove(permission@).contains(q) by {
                if old(self)@.contains(q) && q != permission@ {
                    let k = choose|k: int| 0 <= k < before.len() && before[k] == q;
                    lemma_filter_contains(before, permission@, k);
                }
                if self@.contains(q) {
                    assert(after.contains(q));
                    let k = choose|k: int| 0 <= k < after.len() && after[k] == q;
                    lemma_filter_member(before, permission@, k);
                }
            }
        }
    }

    /// Check if set contains a permission
    pub fn contains(&self, permission: &Permission) -> (r: bool)
        requires
            self.wf(),
        ensures
            r == self.grants(permission@),
    {
        let all = Permission::All;
        self.position(&all).is_some() || self.position(permission).is_some()
    }

    /// Check if set contains any of the given permissions
    pub fn contains_any(&self, permissions: &[Permission]) -> (r: bool)
        requires
            self.wf(),
        ensures
            r == exists|i: int| 0 <= i < permissions@.len() && self.grants(#[trigger] permissions@[i]@),
    {
        for i in 0..permissions.len()
            invariant
                self.wf(),
                forall|j: int| 0 <= j < i ==> !self.grants(#[trigger] permissions@[j]@),
        {
            if self.contains(&permissions[i]) {
                return true;
            }
        }
        false
    }

    /// Check if set contains all of the given permissions
    pub fn contains_all(&self, permissions: &[Permission]) -> (r: bool)
        requires
            self.wf(),
        ensures
            r == forall|i: int| 0 <= i < permissions@.len() ==> self.grants(#[trigger] permissions@[i]@),
    {
        for i in 0..permissions.len()
            invariant
                self.wf(),
                forall|j: int| 0 <= j < i ==> self.grants(#[trigger] permissions@[j]@),
        {
            if !self.contains(&permissions[i]) {
                return false;
            }
        }
        true
    }

    /// Get all permissions as vector
    pub fn to_vec(&self) -> (r: Vec<Permission>)
        ensures
            permission_views(r@) == self.members(),
    {
        let mut r: Vec<Permission> = Vec::new();
        for i in 0..self.permissions.len()
            invariant
                permission_views(r@) == self.members().take(i as int),
        {
            let ghost prev = r@;
            r.push(self.permissions[i].duplicate());
            assert(permission_views(r@) =~= permission_views(prev).push(self.members()[i as int]));
            assert(self.members().take(i + 1) =~= self.members().take(i as int).push(self.members()[i as int]));
        }
        assert(self.members().take(self.permissions.len() as int) =~= self.members());
        r
    }

    /// Get all permissions as strings
    pub fn to_strings(&self) -> (r: Vec<String>)
        ensures
            r@.map_values(|s: String| s@) == self.members().map_values(|p: PermissionView| permission_name(p)),
    {
        let ghost target = self.members().map_values(|p: PermissionView| permission_name(p));
        let mut r: Vec<String> = Vec::new();
        for i in 0..self.permissions.len()
            invariant
                target == self.members().map_values(|p: PermissionView| permission_name(p)),
                r@.map_values(|s: String| s@) == target.take(i as int),
        {
            let ghost prev = r@;
            r.push(self.permissions[i].to_string());
            assert(r@.map_values(|s: String| s@) =~= prev.map_values(|s: String| s@).push(target[i as int]));
            assert(target.take(i + 1) =~= target.take(i as int).push(target[i as int]));
        }
        assert(target.take(self.permissions.len() as int) =~= target);
        r
    }

    /// Merge with another permission set
    pub fn merge(&mut self, other: &PermissionSet)
        requires
            old(self).wf(),
        ensures
            final(self).wf(),
            final(self)@ == old(self)@.union(other@),
    {
        for i in 0..other.permissions.len()
            invariant
                self.wf(),
                self@ == old(self)@.union(other.members().take(i as int).to_set()),
        {
            self.add(other.permissions[i].duplicate());
            assert(other.members().take(i + 1) =~= other.members().take(i as int).push(other.members()[i as int]));
            proof {
                other.members().take(i as int).lemma_push_to_set_commute(other.members()[i as int]);
            }
            assert(self@ =~= old(self)@.union(other.members().take(i + 1).to_set()));
        }
        assert(other.members().take(other.permissions.len() as int) =~= other.members());
        assert(self@ =~= old(self)@.union(other@));
    }
}

impl View for PermissionSet {
    type V = Set<PermissionView>;

    closed spec fn view(&self) -> Set<PermissionView> {
        self.members().to_set()
    }
}

proof fn lemma_filter_contains(s: Seq<PermissionView>, x: PermissionView, k: int)
    requires
        0 <= k < s.len(),
        s[k] != x,
    ensures
        s.filter(other_than(x)).contains(s[k]),
{
    let pred = other_than(x);
    s.lemma_filter_contains(pred, k);
}

proof fn lemma_filter_member(s: Seq<PermissionView>, x: PermissionView, k: int)
    requires
        0 <= k < s.filter(other_than(x)).len(),
    ensures
        s.contains(s.filter(other_than(x))[k]),
        s.filter(other_than(x))[k] != x,
{
    let pred = other_than(x);
    let f = s.filter(pred);
    s.lemma_filter_pred(pred, k);
    assert(f.contains(f[k]));
    s.lemma_filter_contains_rev(pred, f[k]);
}

proof fn lemma_filter_keeps_distinct(s: Seq<PermissionView>, x: PermissionView)
    requires
        no_repeats(s),
    ensures
        no_repeats(s.filter(other_than(x))),
    decreases s.len(),
{
    reveal(Seq::filter);
    let pred = other_than(x);
    if s.len() > 0 {
        let rest = s.drop_last();
        assert(no_repeats(rest));
        lemma_filter_keeps_distinct(rest, x);
        if pred(s.last()) {
            let f = rest.filter(pred);
            assert forall|i: int| 0 <= i < f.len() implies f[i] != s.last() by {
                assert(f.contains(f[i]));
                rest.lemma_filter_contains_rev(pred, f[i]);
                let k = choose|k: int| 0 <= k < rest.len() && rest[k] == f[i];
                assert(s[k] == rest[k]);
            }
        }
    }
}

impl Default for PermissionSet {
    fn default() -> (r: Self)
        ensures
            r.wf(),
            r@ == Set::<PermissionView>::empty(),
    {
        Self::new()
    }
}

/// Predefined permission sets for common roles
pub struct DefaultPermissions;

impl DefaultPermissions {
    /// Super admin permissions (all permissions)
    pub fn super_admin() -> (r: PermissionSet)
        ensures
            r.wf(),
            r@ == set![
                PermissionView::All,
            ],
    {
        let mut r = PermissionSet::new();
        r.add(Permission::All);
        r
    }

    /// Admin permissions (most admin functions)
    pub fn admin() -> (r: PermissionSet)
        ensures
            r.wf(),
            r@ == set![
                PermissionView::AdminRead,
                PermissionView::AdminWrite,
                PermissionView::AdminUsers,
                PermissionView::AdminRoles,
                PermissionView::AdminLogs,
                PermissionView::AdminDatabase,
                PermissionView::AdminHealth,
                PermissionView::AdminMetrics,
                PermissionView::UserRead,
                PermissionView::UserWrite,
                PermissionView::UserDelete,
                PermissionView::UserCreate,
            ],
    {
        let mut r = PermissionSet::new();
        r.add(Permission::AdminRead);
        r.add(Permission::AdminWrite);
        r.add(Permission::AdminUsers);
        r.add(Permission::AdminRoles);
        r.add(Permission::AdminLogs);
        r.add(Permission::AdminDatabase);
        r.add(Permission::AdminHealth);
        r.add(Permission::AdminMetrics);
        r.add(Permission::UserRead);
        r.add(Permission::UserWrite);
        r.add(Permission::UserDelete);
        r.add(Permission::UserCreate);
        r
    }

    /// User permissions (basic user functions)
    pub fn user() -> (r: PermissionSet)
        ensures
            r.wf(),
            r@ == set![
                PermissionView::UserProfile,
                PermissionView::UserRead,
            ],
    {
        let mut r = PermissionSet::new();
        r.add(Permission::UserProfile);
        r.add(Permission::UserRead);
        r
    }

    /// Read-only admin permissions
    pub fn admin_readonly() -> (r: PermissionSet)
        ensures
            r.wf(),
            r@ == set![
                PermissionView::AdminRead,
                PermissionView::AdminLogs,
                PermissionView::AdminHealth,
                PermissionView::AdminMetrics,
                PermissionView::UserRead,
            ],
    {
        let mut r = PermissionSet::new();
        r.add(Permission::AdminRead);
        r.add(Permission::AdminLogs);
        r.add(Permission::AdminHealth);
        r.add(Permission::AdminMetrics);
        r.add(Permission::UserRead);
        r
    }
}

} // verus!
