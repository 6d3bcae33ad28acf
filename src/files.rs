//! Module selection, placeholder rendering, and the plan that materializes the
//! rendered files under a target directory.
use vstd::prelude::*;

use crate::catalog::{catalog, catalog_spec, FileDescriptor, RextModule, CATALOG_LEN};
use crate::error::RextCoreError;
use crate::text::{
    app_name_token, chars_of, free_of, inert_name, lemma_substitute_leaves_no_token,
    lemma_substitute_token_free, owned, push_str, substitute, substitute_app_name,
};

verus! {

/// A file to be created in a Rext application, with its content rendered.
#[derive(Debug, Clone)]
pub struct RextFile {
    /// The name of the file (including extension)
    pub name: String,
    /// The content of the file
    pub content: String,
    /// The relative path from the project root where the file should be created
    pub path: String,
    /// The Rext module this file belongs to
    pub module: RextModule,
    /// Whether this file needs directory creation
    pub needs_directory: bool,
}

/// What a [`RextFile`] holds, as mathematical values.
pub struct RextFileView {
    pub name: Seq<char>,
    pub content: Seq<char>,
    pub path: Seq<char>,
    pub module: RextModule,
    pub needs_directory: bool,
}

impl View for RextFile {
    type V = RextFileView;

    open spec fn view(&self) -> RextFileView {
        RextFileView {
            name: self.name@,
            content: self.content@,
            path: self.path@,
            module: self.module,
            needs_directory: self.needs_directory,
        }
    }
}

/// `rel` appended to `base` as a path. The relative path `.` names `base`
/// itself, and an empty base leaves `rel` as it is.
pub open spec fn join_path(base: Seq<char>, rel: Seq<char>) -> Seq<char> {
    if rel == seq!['.'] {
        base
    } else if base.len() == 0 {
        rel
    } else {
        base + seq!['/'] + rel
    }
}

/// The directory in which `f` is created under `base`.
pub open spec fn directory_of(f: RextFileView, base: Seq<char>) -> Seq<char> {
    join_path(base, f.path)
}

/// The full path at which `f` is created under `base`.
pub open spec fn full_path_of(f: RextFileView, base: Seq<char>) -> Seq<char> {
    join_path(join_path(base, f.path), f.name)
}

/// Joins `rel` to `base` as a path.
pub fn join(base: &str, rel: &str) -> (r: String)
    ensures
        r@ == join_path(base@, rel@),
{
    let rv = chars_of(rel);
    if rv.len() == 1 && rv[0] == '.' {
        assert(rv@ =~= seq!['.']);
        return owned(base);
    }
    assert(rel@ != seq!['.']) by {
        if rel@ == seq!['.'] {
            assert(rv@.len() == 1 && rv@[0] == '.');
        }
    }
    let bv = chars_of(base);
    if bv.len() == 0 {
        return owned(rel);
    }
    let mut r = owned(base);
    push_str(&mut r, "/");
    proof {
        reveal_strlit("/");
    }
    push_str(&mut r, rel);
    r
}

impl RextFile {
    /// Create a new RextFile
    pub fn new(
        name: String,
        content: String,
        path: String,
        module: RextModule,
        needs_directory: bool,
    ) -> (r: Self)
        ensures
            r.name == name,
            r.content == content,
            r.path == path,
            r.module == module,
            r.needs_directory == needs_directory,
    {
        RextFile { name, content, path, module, needs_directory }
    }

    /// Get the full path where this file should be created
    pub fn full_path(&self, base_dir: &str) -> (r: String)
        ensures
            r@ == full_path_of(self@, base_dir@),
    {
        let dir = join(base_dir, self.path.as_str());
        join(dir.as_str(), self.name.as_str())
    }

    /// Get the directory path where this file should be created
    pub fn directory_path(&self, base_dir: &str) -> (r: String)
        ensures
            r@ == directory_of(self@, base_dir@),
    {
        join(base_dir, self.path.as_str())
    }
}

/// Configuration for file creation
pub struct FileCreationConfig {
    /// Application name to substitute in templates
    pub app_name: String,
    /// Modules to include (only files from these modules will be created)
    pub modules: Vec<RextModule>,
}

impl Default for FileCreationConfig {
    fn default() -> (r: Self)
        ensures
            r.app_name@ == "my-rext-app"@,
            r.modules@ == seq![RextModule::RextCore],
    {
        FileCreationConfig { app_name: owned("my-rext-app"), modules: vec![RextModule::RextCore] }
    }
}

/// Whether `m` is one of `modules`.
pub fn module_selected(modules: &Vec<RextModule>, m: RextModule) -> (r: bool)
    ensures
        r == modules@.contains(m),
{
    for i in 0..modules.len()
        invariant
            forall|j: int| 0 <= j < i ==> modules@[j] != m,
    {
        if modules[i] == m {
            return true;
        }
    }
    false
}

/// The catalog entries whose module is one of `modules`.
pub open spec fn selected(cat: Seq<FileDescriptor>, modules: Seq<RextModule>) -> Seq<FileDescriptor> {
    cat.filter(|d: FileDescriptor| modules.contains(d.module))
}

/// Keeps, in catalog order, exactly the descriptors whose module is one of
/// `modules`.
pub fn select_descriptors(cat: &Vec<FileDescriptor>, modules: &Vec<RextModule>) -> (r: Vec<
    FileDescriptor,
>)
    ensures
        r@ == selected(cat@, modules@),
{
    let ghost pred = |d: FileDescriptor| modules@.contains(d.module);
    let mut r: Vec<FileDescriptor> = Vec::new();
    for i in 0..cat.len()
        invariant
            r@ == cat@.take(i as int).filter(pred),
            pred == (|d: FileDescriptor| modules@.contains(d.module)),
    {
        proof {
            reveal(Seq::filter);
            assert(cat@.take(i + 1).drop_last() =~= cat@.take(i as int));
            assert(cat@.take(i + 1).last() == cat@[i as int]);
        }
        let d = cat[i];
        if module_selected(modules, d.module) {
            r.push(d);
        }
    }
    assert(cat@.take(cat.len() as int) =~= cat@);
    r
}

/// Selection is exact: a descriptor is selected if and only if it is in the
/// catalog and its module is one of the requested modules, and the selected
/// descriptors keep their catalog order.
pub proof fn lemma_selection_exact(cat: Seq<FileDescriptor>, modules: Seq<RextModule>)
    ensures
        forall|d: FileDescriptor|
            #[trigger] selected(cat, modules).contains(d) <==> (cat.contains(d) && modules.contains(
                d.module,
            )),
        forall|i: int|
            0 <= i < selected(cat, modules).len() ==> modules.contains(
                (#[trigger] selected(cat, modules)[i]).module,
            ),
        selected(cat, modules) == cat.filter(|d: FileDescriptor| modules.contains(d.module)),
{
    let pred = |d: FileDescriptor| modules.contains(d.module);
    let sel = cat.filter(pred);
    assert forall|d: FileDescriptor| #[trigger] sel.contains(d) <==> (cat.contains(d) && modules.contains(d.module)) by {
        if sel.contains(d) {
            cat.lemma_filter_contains_rev(pred, d);
            let k = choose|k: int| 0 <= k < sel.len() && sel[k] == d;
            cat.lemma_filter_pred(pred, k);
        }
        if cat.contains(d) && modules.contains(d.module) {
            let k = choose|k: int| 0 <= k < cat.len() && cat[k] == d;
            cat.lemma_filter_contains(pred, k);
        }
    }
    assert forall|i: int| 0 <= i < sel.len() implies modules.contains((#[trigger] sel[i]).module) by {
        cat.lemma_filter_pred(pred, i);
    }
}

/// Rendering is literal and single-pass: with an application name that is not
/// empty and shares no character with the placeholder, no placeholder is left
/// in the rendered content, and rendering that content again changes nothing.
pub proof fn lemma_rendering_complete(d: FileDescriptor, raw: Seq<char>, app_name: Seq<char>)
    requires
        inert_name(app_name),
    ensures
        free_of(rendered(d, raw, app_name).content, app_name_token()),
        substitute(rendered(d, raw, app_name).content, app_name) == rendered(d, raw, app_name).content,
{
    lemma_substitute_leaves_no_token(raw, app_name);
    lemma_substitute_token_free(substitute(raw, app_name), app_name);
}

/// The file that a descriptor yields for raw content `raw` and application name
/// `app_name`.
pub open spec fn rendered(d: FileDescriptor, raw: Seq<char>, app_name: Seq<char>) -> RextFileView {
    RextFileView {
        name: d.name@,
        content: substitute(raw, app_name),
        path: d.path@,
        module: d.module,
        needs_directory: d.needs_directory,
    }
}

/// Process template content by replacing placeholders
pub fn process_template(content: &str, config: &FileCreationConfig) -> (r: String)
    ensures
        r@ == substitute(content@, config.app_name@),
{
    substitute_app_name(content, config.app_name.as_str())
}

/// Renders one descriptor with its raw content.
pub fn render(d: &FileDescriptor, raw: &str, config: &FileCreationConfig) -> (r: RextFile)
    ensures
        r@ == rendered(*d, raw@, config.app_name@),
{
    RextFile::new(owned(d.name), process_template(raw, config), owned(d.path), d.module, d.needs_directory)
}

/// The files rendered from the first `n` catalog entries that the modules select;
/// `raws[i]` is the raw content of entry `i`.
pub open spec fn rendered_upto(
    cat: Seq<FileDescriptor>,
    raws: Seq<String>,
    modules: Seq<RextModule>,
    app_name: Seq<char>,
    n: int,
) -> Seq<RextFileView>
    decreases n,
{
    if n <= 0 {
        Seq::empty()
    } else {
        let prev = rendered_upto(cat, raws, modules, app_name, n - 1);
        if modules.contains(cat[n - 1].module) {
            prev.push(rendered(cat[n - 1], raws[n - 1]@, app_name))
        } else {
            prev
        }
    }
}

/// The files that generation creates for a configuration; `raws[i]` is the raw
/// content of catalog entry `i`.
pub open spec fn generated_files(raws: Seq<String>, modules: Seq<RextModule>, app_name: Seq<char>) -> Seq<
    RextFileView,
> {
    rendered_upto(catalog_spec(), raws, modules, app_name, catalog_spec().len() as int)
}

/// The views of a sequence of files.
pub open spec fn views(files: Seq<RextFile>) -> Seq<RextFileView> {
    files.map_values(|f: RextFile| f@)
}

/// Get all files that should be created for the given configuration.
/// `templates[i]` is the raw content of the `i`-th catalog entry.
pub fn get_rext_files(config: &FileCreationConfig, templates: &Vec<String>) -> (r: Vec<RextFile>)
    requires
        templates.len() == CATALOG_LEN,
    ensures
        views(r@) == generated_files(templates@, config.modules@, config.app_name@),
{
    let cat = catalog();
    let mut files: Vec<RextFile> = Vec::new();
    for i in 0..cat.len()
        invariant
            cat@ == catalog_spec(),
            cat.len() == templates.len(),
            views(files@) == rendered_upto(cat@, templates@, config.modules@, config.app_name@, i as int),
    {
        if module_selected(&config.modules, cat[i].module) {
            let f = render(&cat[i], templates[i].as_str(), config);
            files.push(f);
            assert(views(files@) =~= views(files@.drop_last()).push(f@));
        }
    }
    files
}

/// One file to write: where, and what.
#[derive(Debug, Clone)]
pub struct FileWrite {
    /// The full path of the file.
    pub path: String,
    /// The rendered content.
    pub content: String,
}

/// The file-system work that generation performs, in order: every directory is
/// created first (creation is recursive and accepts an existing directory), then
/// every file is written, overwriting what is there. The first failing step ends
/// the work; what was done before it stays on disk.
#[derive(Debug, Clone)]
pub struct MaterializePlan {
    /// Directories to create, each once.
    pub directories: Vec<String>,
    /// Files to write, in the order of the rendered files.
    pub writes: Vec<FileWrite>,
}

/// Each element of `dirs` is named once and is the directory of a file of
/// `files` that needs one.
pub open spec fn dirs_from_files(dirs: Seq<String>, files: Seq<RextFileView>, base: Seq<char>) -> bool {
    &&& forall|i: int, j: int| 0 <= i < j < dirs.len() ==> dirs[i]@ != dirs[j]@
    &&& forall|i: int|
        #![trigger dirs[i]]
        0 <= i < dirs.len() ==> exists|k: int|
            0 <= k < files.len() && files[k].needs_directory && dirs[i]@ == directory_of(
                #[trigger] files[k],
                base,
            )
}

/// `dirs` names the directory of each of the first `n` files of `files` that
/// needs one.
pub open spec fn dirs_cover(dirs: Seq<String>, files: Seq<RextFileView>, base: Seq<char>, n: int) -> bool {
    forall|k: int|
        0 <= k < n && (#[trigger] files[k]).needs_directory ==> exists|i: int|
            #![trigger dirs[i]]
            0 <= i < dirs.len() && dirs[i]@ == directory_of(files[k], base)
}

/// `dirs` names, each once, exactly the directories of the files of `files`
/// that need one.
pub open spec fn directory_set(dirs: Seq<String>, files: Seq<RextFileView>, base: Seq<char>) -> bool {
    dirs_from_files(dirs, files, base) && dirs_cover(dirs, files, base, files.len() as int)
}

/// Whether some element of `dirs` is `d`.
fn contains_path(dirs: &Vec<String>, d: &String) -> (r: bool)
    ensures
        r == exists|i: int| 0 <= i < dirs.len() && dirs@[i]@ == d@,
{
    for i in 0..dirs.len()
        invariant
            forall|j: int| 0 <= j < i ==> dirs@[j]@ != d@,
    {
        if dirs[i] == *d {
            return true;
        }
    }
    false
}

/// Create all necessary directories for the files: the distinct directories of
/// the files that need one.
pub fn create_directories(files: &Vec<RextFile>, base_dir: &str) -> (r: Vec<String>)
    ensures
        directory_set(r@, views(files@), base_dir@),
{
    let ghost fv = views(files@);
    let mut dirs: Vec<String> = Vec::new();
    for k in 0..files.len()
        invariant
            fv == views(files@),
            fv.len() == files.len(),
            dirs_from_files(dirs@, fv, base_dir@),
            dirs_cover(dirs@, fv, base_dir@, k as int),
    {
        let ghost before = dirs@;
        if files[k].needs_directory {
            let d = files[k].directory_path(base_dir);
            if !contains_path(&dirs, &d) {
                dirs.push(d);
                proof {
                    lemma_directory_added(before, d, fv, base_dir@, k as int);
                }
            } else {
                proof {
                    lemma_directory_kept(before, fv, base_dir@, k as int);
                }
            }
        } else {
            proof {
                lemma_directory_kept(before, fv, base_dir@, k as int);
            }
        }
    }
    dirs
}

proof fn lemma_directory_kept(dirs: Seq<String>, fv: Seq<RextFileView>, base: Seq<char>, n: int)
    requires
        0 <= n < fv.len(),
        dirs_cover(dirs, fv, base, n),
        fv[n].needs_directory ==> exists|i: int|
            #![trigger dirs[i]]
            0 <= i < dirs.len() && dirs[i]@ == directory_of(fv[n], base),
    ensures
        dirs_cover(dirs, fv, base, n + 1),
{
    assert forall|k: int|
        0 <= k < n + 1 && (#[trigger] fv[k]).needs_directory implies exists|i: int|
            #![trigger dirs[i]]
            0 <= i < dirs.len() && dirs[i]@ == directory_of(fv[k], base) by {
        if k < n {
        }
    }
}

proof fn lemma_directory_added(dirs: Seq<String>, d: String, fv: Seq<RextFileView>, base: Seq<char>, k: int)
    requires
        0 <= k < fv.len(),
        dirs_from_files(dirs, fv, base),
        dirs_cover(dirs, fv, base, k),
        fv[k].needs_directory,
        d@ == directory_of(fv[k], base),
        !exists|i: int| 0 <= i < dirs.len() && dirs[i]@ == d@,
    ensures
        dirs_from_files(dirs.push(d), fv, base),
        dirs_cover(dirs.push(d), fv, base, k + 1),
{
    let after = dirs.push(d);
    assert forall|i: int| #![trigger after[i]] 0 <= i < after.len() implies exists|m: int|
        0 <= m < fv.len() && fv[m].needs_directory && after[i]@ == directory_of(#[trigger] fv[m], base) by {
        if i < dirs.len() {
            assert(after[i] == dirs[i]);
        } else {
            assert(after[i] == d);
            assert(fv[k].needs_directory && after[i]@ == directory_of(fv[k], base));
        }
    }
    assert forall|m: int| 0 <= m < k + 1 && (#[trigger] fv[m]).needs_directory implies exists|i: int|
        #![trigger after[i]]
        0 <= i < after.len() && after[i]@ == directory_of(fv[m], base) by {
        if m < k {
            let i = choose|i: int| #![trigger dirs[i]] 0 <= i < dirs.len() && dirs[i]@ == directory_of(fv[m], base);
            assert(after[i] == dirs[i]);
        } else {
            assert(after[dirs.len() as int] == d);
        }
    }
    assert forall|i: int, j: int| 0 <= i < j < after.len() implies after[i]@ != after[j]@ by {
        if j == dirs.len() {
            assert(after[i] == dirs[i]);
        } else {
            assert(after[i] == dirs[i] && after[j] == dirs[j]);
        }
    }
}

/// The writes that put each file of `files` at its full path under `base`.
pub open spec fn writes_for(writes: Seq<FileWrite>, files: Seq<RextFileView>, base: Seq<char>) -> bool {
    &&& writes.len() == files.len()
    &&& forall|i: int|
        0 <= i < files.len() ==> (#[trigger] writes[i]).path@ == full_path_of(files[i], base)
            && writes[i].content@ == files[i].content
}

/// Create all files in the target directory: the directories first, then one
/// write per file.
pub fn create_files(files: &Vec<RextFile>, base_dir: &str) -> (r: MaterializePlan)
    ensures
        directory_set(r.directories@, views(files@), base_dir@),
        writes_for(r.writes@, views(files@), base_dir@),
{
    let directories = create_directories(files, base_dir);
    let mut writes: Vec<FileWrite> = Vec::new();
    for i in 0..files.len()
        invariant
            writes_for(writes@, views(files@).take(i as int), base_dir@),
    {
        let w = FileWrite { path: files[i].full_path(base_dir), content: files[i].content.clone() };
        writes.push(w);
        assert forall|j: int| 0 <= j < i + 1 implies (#[trigger] writes@[j]).path@ == full_path_of(
            views(files@).take(i + 1)[j],
            base_dir@,
        ) && writes@[j].content@ == views(files@).take(i + 1)[j].content by {
            assert(views(files@).take(i + 1)[j] == views(files@)[j]);
            if j < i {
                assert(views(files@).take(i as int)[j] == views(files@)[j]);
            }
        }
    }
    assert(views(files@).take(files.len() as int) =~= views(files@));
    MaterializePlan { directories, writes }
}

/// The marker files whose presence at the root of a directory shows that it
/// already holds a project.
pub open spec fn marker_names() -> Seq<Seq<char>> {
    seq!["rext.toml"@, "Cargo.toml"@]
}

/// Create a new Rext application with the specified configuration.
///
/// `rext_toml_exists` and `cargo_toml_exists` say whether the two marker files
/// are present in `base_dir`; if either is, nothing is to be done and the
/// result is `AppAlreadyExists`. Otherwise the result is the plan that creates
/// the selected files, rendered, under `base_dir`. `templates[i]` is the raw
/// content of the `i`-th catalog entry.
pub fn create_rext_app(
    base_dir: &str,
    config: FileCreationConfig,
    templates: &Vec<String>,
    rext_toml_exists: bool,
    cargo_toml_exists: bool,
) -> (r: Result<MaterializePlan, RextCoreError>)
    requires
        templates.len() == CATALOG_LEN,
    ensures
        (rext_toml_exists || cargo_toml_exists) <==> r == Err::<MaterializePlan, RextCoreError>(
            RextCoreError::AppAlreadyExists,
        ),
        r is Ok <==> !(rext_toml_exists || cargo_toml_exists),
        r matches Ok(plan) ==> {
            let files = generated_files(templates@, config.modules@, config.app_name@);
            &&& directory_set(plan.directories@, files, base_dir@)
            &&& writes_for(plan.writes@, files, base_dir@)
        },
{
    if rext_toml_exists {
        return Err(RextCoreError::AppAlreadyExists);
    }
    if cargo_toml_exists {
        return Err(RextCoreError::AppAlreadyExists);
    }
    let files = get_rext_files(&config, templates);
    Ok(create_files(&files, base_dir))
}

} // verus!
