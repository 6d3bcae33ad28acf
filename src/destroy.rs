//! Destruction of a generated application. Every guarded directory is first
//! checked to hold exactly what generation put there; only when all of them do
//! is anything removed.
use vstd::prelude::*;

use crate::error::RextCoreError;
use crate::files::{join, join_path};
use crate::text::{owned, push_str};

verus! {

/// What a directory entry is.
#[derive(Debug, Clone, Copy, PartialEq, Eq, Structural)]
pub enum EntryKind {
    /// A plain file.
    File,
    /// A directory.
    Directory,
    /// Anything else, such as a symbolic link.
    Other,
}

/// One entry of a directory listing.
#[derive(Debug, Clone)]
pub struct DirEntry {
    /// The entry's name within its directory.
    pub name: String,
    /// What the entry is.
    pub kind: EntryKind,
}

/// A directory that generation creates, with the exact entries it holds then.
#[derive(Debug, Clone)]
pub struct GuardedDir {
    /// The directory, relative to the project root.
    pub path: String,
    /// The plain files it holds.
    pub files: Vec<String>,
    /// The directories it holds.
    pub subdirs: Vec<String>,
}

/// What a [`GuardedDir`] holds, as mathematical values.
pub struct GuardedDirView {
    pub path: Seq<char>,
    pub files: Seq<Seq<char>>,
    pub subdirs: Seq<Seq<char>>,
}

/// The views of a sequence of strings.
pub open spec fn strings(s: Seq<String>) -> Seq<Seq<char>> {
    s.map_values(|x: String| x@)
}

impl View for GuardedDir {
    type V = GuardedDirView;

    open spec fn view(&self) -> GuardedDirView {
        GuardedDirView { path: self.path@, files: strings(self.files@), subdirs: strings(self.subdirs@) }
    }
}

/// The views of a sequence of guarded directories.
pub open spec fn layout_view(s: Seq<GuardedDir>) -> Seq<GuardedDirView> {
    s.map_values(|g: GuardedDir| g@)
}

/// What destruction removes, in order: the files of the guarded directories, then
/// the guarded directories themselves, innermost first, then the root files.
#[derive(Debug, Clone)]
pub struct DestroyPlan {
    /// Files inside guarded directories.
    pub files: Vec<String>,
    /// Guarded directories, each after every directory it contains.
    pub directories: Vec<String>,
    /// Files at the project root.
    pub root_files: Vec<String>,
}

/// `entries` holds an entry named `name` of kind `kind`.
pub open spec fn has_entry(entries: Seq<DirEntry>, name: Seq<char>, kind: EntryKind) -> bool {
    exists|i: int| 0 <= i < entries.len() && entries[i].name@ == name && entries[i].kind == kind
}

/// The listing `entries` of a directory is exactly what `g` expects: as many
/// entries as expected, each expected file present as a plain file and each
/// expected subdirectory present as a directory.
pub open spec fn listing_matches(g: GuardedDirView, entries: Seq<DirEntry>) -> bool {
    &&& entries.len() == g.files.len() + g.subdirs.len()
    &&& forall|k: int| 0 <= k < g.files.len() ==> has_entry(entries, #[trigger] g.files[k], EntryKind::File)
    &&& forall|k: int|
        0 <= k < g.subdirs.len() ==> has_entry(entries, #[trigger] g.subdirs[k], EntryKind::Directory)
}

fn find_entry(entries: &Vec<DirEntry>, name: &String, kind: EntryKind) -> (r: bool)
    ensures
        r == has_entry(entries@, name@, kind),
{
    for i in 0..entries.len()
        invariant
            forall|j: int| 0 <= j < i ==> !(entries@[j].name@ == name@ && entries@[j].kind == kind),
    {
        if entries[i].kind == kind && entries[i].name == *name {
            return true;
        }
    }
    false
}

/// Whether the listing of a guarded directory is exactly what it expects.
pub fn check_listing(g: &GuardedDir, entries: &Vec<DirEntry>) -> (r: bool)
    ensures
        r == listing_matches(g@, entries@),
{
    if entries.len() < g.files.len() || entries.len() - g.files.len() != g.subdirs.len() {
        return false;
    }
    for k in 0..g.files.len()
        invariant
            forall|m: int| 0 <= m < k ==> has_entry(entries@, #[trigger] strings(g.files@)[m], EntryKind::File),
    {
        if !find_entry(entries, &g.files[k], EntryKind::File) {
            assert(strings(g.files@)[k as int] == g.files@[k as int]@);
            return false;
        }
    }
    for k in 0..g.subdirs.len()
        invariant
            forall|m: int| 0 <= m < g.files.len() ==> has_entry(entries@, #[trigger] strings(g.files@)[m], EntryKind::File),
            forall|m: int|
                0 <= m < k ==> has_entry(entries@, #[trigger] strings(g.subdirs@)[m], EntryKind::Directory),
    {
        if !find_entry(entries, &g.subdirs[k], EntryKind::Directory) {
            assert(strings(g.subdirs@)[k as int] == g.subdirs@[k as int]@);
            return false;
        }
    }
    true
}

/// A listing that matches its directory stops matching once any entry is added
/// to it: destruction refuses a guarded directory that holds one extra file.
pub proof fn lemma_extra_entry_refused(g: GuardedDirView, entries: Seq<DirEntry>, extra: DirEntry)
    requires
        listing_matches(g, entries),
    ensures
        !listing_matches(g, entries.push(extra)),
{
}

/// Destruction refuses the whole layout as soon as one guarded directory's
/// listing gains an entry.
pub proof fn lemma_extra_entry_refuses_layout(
    layout: Seq<GuardedDirView>,
    listings: Seq<Vec<DirEntry>>,
    i: int,
    grown: Vec<DirEntry>,
    extra: DirEntry,
)
    requires
        0 <= i < layout.len(),
        listings.len() == layout.len(),
        listing_matches(layout[i], listings[i]@),
        grown@ == listings[i]@.push(extra),
    ensures
        !all_listings_match(layout, listings.update(i, grown)),
{
    assert(listings.update(i, grown)[i] == grown);
}

/// The paths of the files of `g` under `base`.
pub open spec fn dir_file_paths(base: Seq<char>, g: GuardedDirView) -> Seq<Seq<char>> {
    g.files.map_values(|f: Seq<char>| join_path(join_path(base, g.path), f))
}

/// The paths of the files of the first `n` guarded directories under `base`.
pub open spec fn layout_file_paths(base: Seq<char>, layout: Seq<GuardedDirView>, n: int) -> Seq<Seq<char>>
    decreases n,
{
    if n <= 0 {
        Seq::empty()
    } else {
        layout_file_paths(base, layout, n - 1) + dir_file_paths(base, layout[n - 1])
    }
}

/// The paths of the guarded directories under `base`, innermost last in `layout`
/// and so first here.
pub open spec fn layout_dir_paths(base: Seq<char>, layout: Seq<GuardedDirView>) -> Seq<Seq<char>> {
    layout.reverse().map_values(|g: GuardedDirView| join_path(base, g.path))
}

/// The paths of the root files under `base`.
pub open spec fn root_paths(base: Seq<char>, root: Seq<Seq<char>>) -> Seq<Seq<char>> {
    root.map_values(|f: Seq<char>| join_path(base, f))
}

/// Every guarded directory's listing is what it expects.
pub open spec fn all_listings_match(layout: Seq<GuardedDirView>, listings: Seq<Vec<DirEntry>>) -> bool {
    forall|i: int| 0 <= i < layout.len() ==> listing_matches(#[trigger] layout[i], listings[i]@)
}

fn safety_message(path: &String) -> (r: String) {
    let mut m = owned("directory '");
    push_str(&mut m, path.as_str());
    push_str(&mut m, "' does not hold exactly the generated files");
    m
}

/// Decides what destruction removes under `base_dir`. `listings[i]` is the
/// listing of the `i`-th guarded directory of `layout`. If any listing is not
/// exactly what its directory expects, the result is a safety-check error and
/// nothing is to be removed; otherwise it is the full removal plan.
pub fn plan_destroy(
    base_dir: &str,
    layout: &Vec<GuardedDir>,
    root_files: &Vec<String>,
    listings: &Vec<Vec<DirEntry>>,
) -> (r: Result<DestroyPlan, RextCoreError>)
    requires
        listings.len() == layout.len(),
    ensures
        r is Ok <==> all_listings_match(layout_view(layout@), listings@),
        r matches Err(e) ==> e is SafetyCheck,
        r matches Ok(p) ==> {
            &&& strings(p.files@) == layout_file_paths(base_dir@, layout_view(layout@), layout.len() as int)
            &&& strings(p.directories@) == layout_dir_paths(base_dir@, layout_view(layout@))
            &&& strings(p.root_files@) == root_paths(base_dir@, strings(root_files@))
        },
{
    let ghost lv = layout_view(layout@);
    for i in 0..layout.len()
        invariant
            lv == layout_view(layout@),
            listings.len() == layout.len(),
            forall|j: int| 0 <= j < i ==> listing_matches(#[trigger] lv[j], listings@[j]@),
    {
        if !check_listing(&layout[i], &listings[i]) {
            assert(!listing_matches(lv[i as int], listings@[i as int]@));
            return Err(RextCoreError::SafetyCheck(safety_message(&layout[i].path)));
        }
    }
    let mut files: Vec<String> = Vec::new();
    for i in 0..layout.len()
        invariant
            lv == layout_view(layout@),
            strings(files@) == layout_file_paths(base_dir@, lv, i as int),
    {
        let g = &layout[i];
        let dir = join(base_dir, g.path.as_str());
        let ghost start = strings(files@);
        let ghost target = dir_file_paths(base_dir@, lv[i as int]);
        proof {
            assert(lv[i as int] == layout@[i as int]@);
        }
        for k in 0..g.files.len()
            invariant
                i < layout.len(),
                g == &layout@[i as int],
                lv == layout_view(layout@),
                dir@ == join_path(base_dir@, g.path@),
                target == dir_file_paths(base_dir@, lv[i as int]),
                target.len() == g.files.len(),
                strings(files@) == start + target.take(k as int),
        {
            let p = join(dir.as_str(), g.files[k].as_str());
            let ghost prev = files@;
            files.push(p);
            assert(lv[i as int] == layout@[i as int]@);
            assert(strings(g.files@)[k as int] == g.files@[k as int]@);
            assert(target[k as int] == p@);
            assert(strings(files@) =~= strings(prev).push(p@));
            assert(target.take(k + 1) =~= target.take(k as int).push(target[k as int]));
            assert(strings(files@) =~= start + target.take(k + 1));
        }
        assert(target.take(g.files.len() as int) =~= target);
    }
    let mut directories: Vec<String> = Vec::new();
    let n = layout.len();
    for k in 0..n
        invariant
            n == layout.len(),
            lv == layout_view(layout@),
            strings(directories@) == layout_dir_paths(base_dir@, lv).take(k as int),
    {
        let p = join(base_dir, layout[n - 1 - k].path.as_str());
        let ghost prev = directories@;
        directories.push(p);
        assert(strings(directories@) =~= strings(prev).push(p@));
        assert(lv.reverse()[k as int] == lv[n - 1 - k]);
        assert(lv[n - 1 - k] == layout@[n - 1 - k]@);
        assert(layout_dir_paths(base_dir@, lv)[k as int] == p@);
        assert(strings(directories@) =~= layout_dir_paths(base_dir@, lv).take(k + 1));
    }
    assert(layout_dir_paths(base_dir@, lv).take(n as int) =~= layout_dir_paths(base_dir@, lv));
    let mut roots: Vec<String> = Vec::new();
    for k in 0..root_files.len()
        invariant
            strings(roots@) == root_paths(base_dir@, strings(root_files@)).take(k as int),
    {
        let p = join(base_dir, root_files[k].as_str());
        let ghost prev = roots@;
        roots.push(p);
        assert(strings(roots@) =~= strings(prev).push(p@));
        assert(root_paths(base_dir@, strings(root_files@))[k as int] == p@);
        assert(strings(roots@) =~= root_paths(base_dir@, strings(root_files@)).take(k + 1));
    }
    assert(root_paths(base_dir@, strings(root_files@)).take(root_files.len() as int) =~= root_paths(
        base_dir@,
        strings(root_files@),
    ));
    Ok(DestroyPlan { files, directories, root_files: roots })
}

/// The directories that the default generation creates, each parent before the
/// directories it contains, with the entries each holds afterwards.
pub open spec fn minimal_layout_spec() -> Seq<GuardedDirView> {
    seq![
        GuardedDirView { path: "backend"@, files: seq!["main.rs"@], subdirs: seq!["bridge"@, "control"@, "domain"@, "entity"@, "infrastructure"@] },
        GuardedDirView { path: "backend/bridge"@, files: seq!["mod.rs"@], subdirs: seq!["handlers"@, "middleware"@, "routes"@, "types"@] },
        GuardedDirView { path: "backend/bridge/handlers"@, files: seq!["mod.rs"@, "websocket.rs"@, "admin.rs"@, "roles.rs"@, "auth.rs"@], subdirs: seq![] },
        GuardedDirView { path: "backend/bridge/middleware"@, files: seq!["mod.rs"@, "auth.rs"@, "admin.rs"@, "logging.rs"@], subdirs: seq![] },
        GuardedDirView { path: "backend/bridge/routes"@, files: seq!["mod.rs"@, "admin.rs"@, "auth.rs"@], subdirs: seq![] },
        GuardedDirView { path: "backend/bridge/types"@, files: seq!["mod.rs"@, "admin.rs"@, "auth.rs"@, "logging.rs"@], subdirs: seq![] },
        GuardedDirView { path: "backend/control"@, files: seq!["mod.rs"@], subdirs: seq!["services"@] },
        GuardedDirView { path: "backend/control/services"@, files: seq!["mod.rs"@, "server_config.rs"@, "startup.rs"@, "user_service.rs"@, "database_service.rs"@, "admin_service.rs"@, "token_service.rs"@, "session_service.rs"@, "auth_service.rs"@, "permission_service.rs"@, "system_monitor.rs"@], subdirs: seq![] },
        GuardedDirView { path: "backend/domain"@, files: seq!["mod.rs"@, "permissions.rs"@, "user.rs"@, "validation.rs"@, "auth.rs"@], subdirs: seq![] },
        GuardedDirView { path: "backend/entity"@, files: seq!["mod.rs"@], subdirs: seq![] },
        GuardedDirView { path: "backend/infrastructure"@, files: seq!["mod.rs"@, "job_queue.rs"@, "logging.rs"@, "scheduler.rs"@, "websocket.rs"@, "app_error.rs"@, "email.rs"@, "database.rs"@, "query_performance.rs"@, "server.rs"@, "cors.rs"@, "openapi.rs"@, "jwt_claims.rs"@], subdirs: seq!["macros"@] },
        GuardedDirView { path: "backend/infrastructure/macros"@, files: seq!["mod.rs"@, "permission_macro.rs"@], subdirs: seq![] },
        GuardedDirView { path: "frontend"@, files: seq!["package.json"@, "vite.config.ts"@, "openapi-ts.config.ts"@, "tsconfig.json"@], subdirs: seq!["config"@] },
        GuardedDirView { path: "frontend/config"@, files: seq!["unified.config.ts"@], subdirs: seq![] },
        GuardedDirView { path: "migration"@, files: seq!["Cargo.toml"@], subdirs: seq!["src"@] },
        GuardedDirView { path: "migration/src"@, files: seq!["lib.rs"@, "main.rs"@, "initial_migration.rs"@], subdirs: seq![] },
    ]
}

/// The files that the default generation writes at the project root.
pub open spec fn root_markers_spec() -> Seq<Seq<char>> {
    seq!["rext.toml"@, "example.env"@, "docker-compose.yml"@, "dockerignore"@, "Dockerfile"@, ".gitignore"@, "README.md"@, "build.rs"@, "Cargo.toml"@]
}

/// The number of guarded directories of the default generation.
pub const MINIMAL_LAYOUT_LEN: usize = 16;

/// The guarded directories of the default generation.
pub fn minimal_layout() -> (r: Vec<GuardedDir>)
    ensures
        layout_view(r@) == minimal_layout_spec(),
        r.len() == MINIMAL_LAYOUT_LEN,
{
    let r = vec![
        GuardedDir { path: owned("backend"), files: vec![owned("main.rs")], subdirs: vec![owned("bridge"), owned("control"), owned("domain"), owned("entity"), owned("infrastructure")] },
        GuardedDir { path: owned("backend/bridge"), files: vec![owned("mod.rs")], subdirs: vec![owned("handlers"), owned("middleware"), owned("routes"), owned("types")] },
        GuardedDir { path: owned("backend/bridge/handlers"), files: vec![owned("mod.rs"), owned("websocket.rs"), owned("admin.rs"), owned("roles.rs"), owned("auth.rs")], subdirs: vec![] },
        GuardedDir { path: owned("backend/bridge/middleware"), files: vec![owned("mod.rs"), owned("auth.rs"), owned("admin.rs"), owned("logging.rs")], subdirs: vec![] },
        GuardedDir { path: owned("backend/bridge/routes"), files: vec![owned("mod.rs"), owned("admin.rs"), owned("auth.rs")], subdirs: vec![] },
        GuardedDir { path: owned("backend/bridge/types"), files: vec![owned("mod.rs"), owned("admin.rs"), owned("auth.rs"), owned("logging.rs")], subdirs: vec![] },
        GuardedDir { path: owned("backend/control"), files: vec![owned("mod.rs")], subdirs: vec![owned("services")] },
        GuardedDir { path: owned("backend/control/services"), files: vec![owned("mod.rs"), owned("server_config.rs"), owned("startup.rs"), owned("user_service.rs"), owned("database_service.rs"), owned("admin_service.rs"), owned("token_service.rs"), owned("session_service.rs"), owned("auth_service.rs"), owned("permission_service.rs"), owned("system_monitor.rs")], subdirs: vec![] },
        GuardedDir { path: owned("backend/domain"), files: vec![owned("mod.rs"), owned("permissions.rs"), owned("user.rs"), owned("validation.rs"), owned("auth.rs")], subdirs: vec![] },
        GuardedDir { path: owned("backend/entity"), files: vec![owned("mod.rs")], subdirs: vec![] },
        GuardedDir { path: owned("backend/infrastructure"), files: vec![owned("mod.rs"), owned("job_queue.rs"), owned("logging.rs"), owned("scheduler.rs"), owned("websocket.rs"), owned("app_error.rs"), owned("email.rs"), owned("database.rs"), owned("query_performance.rs"), owned("server.rs"), owned("cors.rs"), owned("openapi.rs"), owned("jwt_claims.rs")], subdirs: vec![owned("macros")] },
        GuardedDir { path: owned("backend/infrastructure/macros"), files: vec![owned("mod.rs"), owned("permission_macro.rs")], subdirs: vec![] },
        GuardedDir { path: owned("frontend"), files: vec![owned("package.json"), owned("vite.config.ts"), owned("openapi-ts.config.ts"), owned("tsconfig.json")], subdirs: vec![owned("config")] },
        GuardedDir { path: owned("frontend/config"), files: vec![owned("unified.config.ts")], subdirs: vec![] },
        GuardedDir { path: owned("migration"), files: vec![owned("Cargo.toml")], subdirs: vec![owned("src")] },
        GuardedDir { path: owned("migration/src"), files: vec![owned("lib.rs"), owned("main.rs"), owned("initial_migration.rs")], subdirs: vec![] },
    ];
    assert(layout_view(r@) =~= minimal_layout_spec()) by {
        assert forall|i: int| 0 <= i < r.len() implies #[trigger] r@[i]@ == minimal_layout_spec()[i] by {
            assert(strings(r@[i].files@) =~= minimal_layout_spec()[i].files);
            assert(strings(r@[i].subdirs@) =~= minimal_layout_spec()[i].subdirs);
        }
    }
    r
}

/// The root files of the default generation.
pub fn root_markers() -> (r: Vec<String>)
    ensures
        strings(r@) == root_markers_spec(),
{
    let r = vec![owned("rext.toml"), owned("example.env"), owned("docker-compose.yml"), owned("dockerignore"), owned("Dockerfile"), owned(".gitignore"), owned("README.md"), owned("build.rs"), owned("Cargo.toml")];
    assert(strings(r@) =~= root_markers_spec());
    r
}

} // verus!
