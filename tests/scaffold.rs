use std::collections::{BTreeMap, BTreeSet};

use rext_core::catalog::{catalog, FileDescriptor, CATALOG_LEN};
use rext_core::destroy::{minimal_layout, DestroyPlan, DirEntry, EntryKind};
use rext_core::files::{
    create_directories, create_files, join, process_template, render, select_descriptors, MaterializePlan,
};
use rext_core::{
    create_rext_app, destroy_rext_app, get_rext_files, scaffold_config, scaffold_rext_app, FileCreationConfig,
    RextCoreError, RextFile, RextFileType, RextModule,
};

/// A file system held in memory: directories and files by full path.
#[derive(Clone, PartialEq, Debug, Default)]
struct MemFs {
    dirs: BTreeSet<String>,
    files: BTreeMap<String, String>,
}

impl MemFs {
    fn new(root: &str) -> MemFs {
        let mut fs = MemFs::default();
        fs.dirs.insert(root.to_string());
        fs
    }

    fn parent(path: &str) -> Option<&str> {
        path.rfind('/').map(|i| &path[..i])
    }

    fn create_dir_all(&mut self, path: &str) {
        let mut p = Some(path);
        while let Some(d) = p {
            self.dirs.insert(d.to_string());
            p = MemFs::parent(d);
        }
    }

    fn write(&mut self, path: &str, content: &str) {
        let parent = MemFs::parent(path).expect("file path has a directory");
        assert!(self.dirs.contains(parent), "directory {} missing before write of {}", parent, path);
        self.files.insert(path.to_string(), content.to_string());
    }

    fn apply(&mut self, plan: &MaterializePlan) {
        for d in &plan.directories {
            self.create_dir_all(d);
        }
        for w in &plan.writes {
            self.write(&w.path, &w.content);
        }
    }

    fn holds(&self, path: &str) -> bool {
        self.dirs.contains(path) || self.files.contains_key(path)
    }

    fn list(&self, dir: &str) -> Vec<DirEntry> {
        let mut out = Vec::new();
        for d in &self.dirs {
            if MemFs::parent(d) == Some(dir) {
                out.push(DirEntry { name: d[dir.len() + 1..].to_string(), kind: EntryKind::Directory });
            }
        }
        for f in self.files.keys() {
            if MemFs::parent(f) == Some(dir) {
                out.push(DirEntry { name: f[dir.len() + 1..].to_string(), kind: EntryKind::File });
            }
        }
        out
    }

    fn listings(&self, root: &str) -> Vec<Vec<DirEntry>> {
        minimal_layout().iter().map(|g| self.list(&format!("{}/{}", root, g.path))).collect()
    }

    fn remove(&mut self, plan: &DestroyPlan) {
        for f in &plan.files {
            assert!(self.files.remove(f).is_some(), "missing file {}", f);
        }
        for d in &plan.directories {
            assert!(self.list(d).is_empty(), "directory {} not empty", d);
            assert!(self.dirs.remove(d), "missing directory {}", d);
        }
        for f in &plan.root_files {
            assert!(self.files.remove(f).is_some(), "missing root file {}", f);
        }
    }
}

fn templates() -> Vec<String> {
    catalog()
        .iter()
        .map(|d| match d.file_type {
            RextFileType::RextConfig => "[app]\nname = \"{app_name}\"\n".to_string(),
            RextFileType::CargoToml => "[package]\nname = \"{app_name}\"\n".to_string(),
            _ => format!("// {} of {{app_name}}\n", d.source),
        })
        .collect()
}

fn config(name: &str, modules: Vec<RextModule>) -> FileCreationConfig {
    FileCreationConfig { app_name: name.to_string(), modules }
}

fn generate(fs: &mut MemFs, root: &str, name: &str) {
    let plan = create_rext_app(root, config(name, vec![RextModule::RextCore]), &templates(), false, false)
        .expect("generation is allowed");
    fs.apply(&plan);
}

#[test]
fn catalog_identities_are_unique() {
    let cat = catalog();
    assert_eq!(cat.len(), CATALOG_LEN);
    let set: BTreeSet<String> = cat.iter().map(|d| format!("{:?}", d.file_type)).collect();
    assert_eq!(set.len(), cat.len());
    assert_eq!(RextFileType::MainRs.descriptor().path, "backend");
    assert_eq!(RextFileType::GitIgnore.descriptor().name, ".gitignore");
}

#[test]
fn selection_is_exact() {
    let cat = catalog();
    let all: Vec<FileDescriptor> = select_descriptors(&cat, &vec![RextModule::RextCore]);
    assert_eq!(all.len(), cat.len());
    assert!(select_descriptors(&cat, &vec![]).is_empty());
    assert!(select_descriptors(&cat, &vec![RextModule::RextAdmin, RextModule::RextVue]).is_empty());
    let mixed = vec![cat[0], FileDescriptor { module: RextModule::RextEmail, ..cat[1] }, cat[2]];
    let only_core = select_descriptors(&mixed, &vec![RextModule::RextCore]);
    let names: Vec<&str> = only_core.iter().map(|d| d.name).collect();
    assert_eq!(names, vec![cat[0].name, cat[2].name]);
    let only_email = select_descriptors(&mixed, &vec![RextModule::RextEmail]);
    assert_eq!(only_email.len(), 1);
    assert_eq!(only_email[0].name, cat[1].name);
    assert!(get_rext_files(&config("x", vec![]), &templates()).is_empty());
}

#[test]
fn substitution_is_literal_and_single_pass() {
    let c = config("Foo", vec![RextModule::RextCore]);
    let out = process_template("a {app_name} b {app_name}{app_name} {app_nam}", &c);
    assert_eq!(out, "a Foo b FooFoo {app_nam}");
    assert!(!out.contains("{app_name}"));
    assert_eq!(process_template(&out, &c), out);
    assert_eq!(process_template("{app_name}", &c), process_template("{app_name}", &c));
    let recursive = config("{app_name}", vec![]);
    assert_eq!(process_template("<{app_name}>", &recursive), "<{app_name}>");
    assert_eq!(process_template("", &c), "");
    let d = RextFileType::RextConfig.descriptor();
    let f: RextFile = render(&d, "name={app_name}", &c);
    assert_eq!((f.name.as_str(), f.content.as_str(), f.path.as_str()), ("rext.toml", "name=Foo", "."));
}

#[test]
fn guard_blocks_reuse() {
    let mut fs = MemFs::new("/p");
    fs.write("/p/rext.toml", "existing");
    let before = fs.clone();
    let r = create_rext_app("/p", config("x", vec![RextModule::RextCore]), &templates(), true, false);
    assert!(matches!(r, Err(RextCoreError::AppAlreadyExists)));
    let r = create_rext_app("/p", config("x", vec![RextModule::RextCore]), &templates(), false, true);
    assert!(matches!(r, Err(RextCoreError::AppAlreadyExists)));
    assert_eq!(fs, before);
}

#[test]
fn directory_set_is_minimal_and_complete() {
    let files = get_rext_files(&config("app", vec![RextModule::RextCore]), &templates());
    let dirs = create_directories(&files, "/p");
    let expected: BTreeSet<String> = catalog()
        .iter()
        .filter(|d| d.module == RextModule::RextCore && d.needs_directory)
        .map(|d| format!("/p/{}", d.path))
        .collect();
    let got: BTreeSet<String> = dirs.iter().cloned().collect();
    assert_eq!(got.len(), dirs.len());
    assert_eq!(got, expected);
    assert_eq!(got.len(), 16);
    let plan = create_files(&files, "/p");
    assert_eq!(plan.writes.len(), files.len());
    assert_eq!(plan.writes[0].path, "/p/rext.toml");
}

#[test]
fn blog_scenario() {
    let mut fs = MemFs::new("/blog");
    let plan = create_rext_app("/blog", config("blog", vec![RextModule::RextCore]), &templates(), false, false)
        .unwrap();
    assert!(plan.directories.iter().any(|d| d == "/blog/backend/bridge/handlers"));
    fs.apply(&plan);
    let root = &fs.files["/blog/rext.toml"];
    assert!(root.contains("\"blog\""));
    assert!(!root.contains("{app_name}"));
    assert!(fs.dirs.contains("/blog/backend/control/services"));
    assert!(fs.files.contains_key("/blog/backend/control/services/system_monitor.rs"));
}

#[test]
fn round_trip() {
    let mut fs = MemFs::new("/w");
    generate(&mut fs, "/w", "demo-app");
    assert!(fs.files["/w/rext.toml"].contains("demo-app"));
    assert!(fs.files["/w/Cargo.toml"].contains("demo-app"));
    let written: Vec<String> = fs.files.keys().cloned().collect();
    let plan = destroy_rext_app("/w", &fs.listings("/w")).expect("untouched project passes the checks");
    fs.remove(&plan);
    for p in &written {
        assert!(!fs.holds(p));
    }
    assert!(fs.list("/w").is_empty());
    assert!(fs.dirs.iter().all(|d| !d.starts_with("/w/")));
}

#[test]
fn destroy_refuses_extra_file() {
    let mut fs = MemFs::new("/w");
    generate(&mut fs, "/w", "demo-app");
    fs.write("/w/backend/domain/notes.rs", "mine");
    let before = fs.clone();
    let r = destroy_rext_app("/w", &fs.listings("/w"));
    match r {
        Err(RextCoreError::SafetyCheck(m)) => assert!(m.contains("backend/domain")),
        other => panic!("expected a safety-check failure, got {:?}", other.is_ok()),
    }
    assert_eq!(fs, before);
    assert!(fs.files.contains_key("/w/backend/domain/notes.rs"));
}

#[test]
fn destroy_refuses_directory_in_place_of_file() {
    let mut fs = MemFs::new("/w");
    generate(&mut fs, "/w", "demo-app");
    fs.files.remove("/w/backend/entity/mod.rs");
    fs.create_dir_all("/w/backend/entity/mod.rs");
    let r = destroy_rext_app("/w", &fs.listings("/w"));
    assert!(matches!(r, Err(RextCoreError::SafetyCheck(_))));
}

#[test]
fn scaffold_uses_directory_name() {
    assert_eq!(scaffold_config(Some("shop")).app_name, "shop");
    assert_eq!(scaffold_config(None).app_name, "my-rext-app");
    assert_eq!(scaffold_config(None).modules, vec![RextModule::RextCore]);
    let plan = scaffold_rext_app("/s", Some("shop"), &templates(), false, false).unwrap();
    let root = plan.writes.iter().find(|w| w.path == "/s/rext.toml").unwrap();
    assert_eq!(root.content, "[app]\nname = \"shop\"\n");
    assert!(matches!(scaffold_rext_app("/s", None, &templates(), true, true), Err(RextCoreError::AppAlreadyExists)));
}

#[test]
fn paths_join_like_the_file_system() {
    assert_eq!(join("/p", "."), "/p");
    assert_eq!(join("/p", "backend"), "/p/backend");
    assert_eq!(join("", "backend"), "backend");
    let f = RextFile::new("a.rs".to_string(), String::new(), "src".to_string(), RextModule::RextCore, true);
    assert_eq!(f.full_path("/b"), "/b/src/a.rs");
    assert_eq!(f.directory_path("/b"), "/b/src");
    assert_eq!(FileCreationConfig::default().app_name, "my-rext-app");
}

#[test]
fn error_messages() {
    assert_eq!(RextCoreError::AppAlreadyExists.message(), "Rext app already exists");
    assert_eq!(RextCoreError::SafetyCheck("x".to_string()).message(), "Safety check failed: x");
}
