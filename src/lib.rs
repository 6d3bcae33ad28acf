//! # rext_core
//!
//! The library that powers Rext, the fullstack, batteries included Rust framework
//! for developing web applications. It scaffolds a new application into a target
//! directory from a fixed catalog of template files, and destroys a scaffolded
//! application only when every directory it created still holds exactly what it
//! put there.
//!
//! The library decides; the caller performs the file-system work. Generation
//! returns a [`files::MaterializePlan`] (directories to create, then files to
//! write), and destruction returns a [`destroy::DestroyPlan`] or refuses.
use vstd::prelude::*;

pub mod catalog;
pub mod destroy;
pub mod email;
pub mod error;
pub mod files;
pub mod pagination;
pub mod permission_service;
pub mod permissions;
pub mod server_config;
pub mod system_monitor;
pub mod text;
pub mod token_service;
pub mod user;
pub mod validation;

pub use crate::catalog::{RextFileType, RextModule};
pub use crate::error::RextCoreError;
pub use crate::files::{create_rext_app, get_rext_files, FileCreationConfig, RextFile};

use crate::catalog::CATALOG_LEN;
use crate::destroy::{
    minimal_layout, minimal_layout_spec, plan_destroy, root_markers, root_markers_spec,
    strings, DestroyPlan, DirEntry, MINIMAL_LAYOUT_LEN,
};
use crate::files::{directory_set, generated_files, writes_for, MaterializePlan};
use crate::text::{
    chars_of, contains_chars, contains_seq, owned, starts_with, starts_with_chars, trim_start_chars,
    trimmed_start,
};

verus! {

/// Directory containing generated sea-orm entity files
pub const ENTITIES_DIR: &'static str = "backend/entity/models";

/// Configuration for the server
pub struct ServerConfig {
    pub host: [u8; 4],
    pub port: u16,
}

impl Default for ServerConfig {
    fn default() -> (r: Self)
        ensures
            r.host@ == seq![0u8, 0u8, 0u8, 0u8],
            r.port == 3000,
    {
        let r = ServerConfig { host: [0, 0, 0, 0], port: 3000 };
        assert(r.host@ =~= seq![0u8, 0u8, 0u8, 0u8]);
        r
    }
}

/// The application name used when the target directory has no usable name.
pub open spec fn default_app_name() -> Seq<char> {
    "my-rext-app"@
}

/// The configuration for scaffolding into a directory named `dir_name`: the
/// core module, and the directory's name as application name (or the default
/// name when there is none).
pub fn scaffold_config(dir_name: Option<&str>) -> (r: FileCreationConfig)
    ensures
        r.modules@ == seq![RextModule::RextCore],
        r.app_name@ == match dir_name {
            Some(n) => n@,
            None => default_app_name(),
        },
{
    let app_name = match dir_name {
        Some(n) => owned(n),
        None => owned("my-rext-app"),
    };
    FileCreationConfig { app_name, modules: vec![RextModule::RextCore] }
}

/// Scaffold a new Rext application in `current_dir`, whose own name is
/// `dir_name`: the core module, named after the directory. The marker flags and
/// `templates` are as for [`create_rext_app`].
pub fn scaffold_rext_app(
    current_dir: &str,
    dir_name: Option<&str>,
    templates: &Vec<String>,
    rext_toml_exists: bool,
    cargo_toml_exists: bool,
) -> (r: Result<MaterializePlan, RextCoreError>)
    requires
        templates.len() == CATALOG_LEN,
    ensures
        (rext_toml_exists || cargo_toml_exists) <==> r == Err::<MaterializePlan, RextCoreError>(
            RextCoreError::AppAlreadyExists,
        ),
        r is Ok <==> !(rext_toml_exists || cargo_toml_exists),
        r matches Ok(plan) ==> {
            let name = match dir_name {
                Some(n) => n@,
                None => default_app_name(),
            };
            let files = generated_files(templates@, seq![RextModule::RextCore], name);
            &&& directory_set(plan.directories@, files, current_dir@)
            &&& writes_for(plan.writes@, files, current_dir@)
        },
{
    let config = scaffold_config(dir_name);
    create_rext_app(current_dir, config, templates, rext_toml_exists, cargo_toml_exists)
}

/// Completely destroys a Rext application in `base_dir`: the directories and
/// files that the default scaffold creates. `listings[i]` is the listing of the
/// `i`-th directory of [`destroy::minimal_layout`]. If any of them holds other
/// than what the scaffold put there, the result is a safety-check error and
/// nothing is to be removed.
pub fn destroy_rext_app(base_dir: &str, listings: &Vec<Vec<DirEntry>>) -> (r: Result<
    DestroyPlan,
    RextCoreError,
>)
    requires
        listings.len() == MINIMAL_LAYOUT_LEN,
    ensures
        r is Ok <==> destroy::all_listings_match(minimal_layout_spec(), listings@),
        r matches Err(e) ==> e is SafetyCheck,
        r matches Ok(p) ==> {
            &&& strings(p.files@) == destroy::layout_file_paths(
                base_dir@,
                minimal_layout_spec(),
                MINIMAL_LAYOUT_LEN as int,
            )
            &&& strings(p.directories@) == destroy::layout_dir_paths(base_dir@, minimal_layout_spec())
            &&& strings(p.root_files@) == destroy::root_paths(base_dir@, root_markers_spec())
        },
{
    let layout = minimal_layout();
    let roots = root_markers();
    plan_destroy(base_dir, &layout, &roots, listings)
}

/// The first line that marks a file as a generated SeaORM entity.
pub open spec fn entity_header() -> Seq<char> {
    "//! `SeaORM` Entity"@
}

/// The attribute placed before an entity field of a type that the API schema
/// shows as a string.
pub open spec fn schema_attribute() -> Seq<char> {
    "    #[schema(value_type = String)]"@
}

/// A file whose first line is `first_line` is a generated entity.
pub open spec fn is_entity_header(first_line: Seq<char>) -> bool {
    starts_with(trimmed_start(first_line), entity_header())
}

/// An entity line that declares a public field of a type shown as a string.
pub open spec fn needs_schema(line: Seq<char>) -> bool {
    let t = trimmed_start(line);
    starts_with(t, "pub "@) && (contains_seq(t, "Uuid"@) || contains_seq(t, "DateTimeWithTimeZone"@))
}

/// The lines of an entity file with the schema attribute placed before each
/// line that needs it.
pub open spec fn annotated(lines: Seq<Seq<char>>) -> Seq<Seq<char>>
    decreases lines.len(),
{
    if lines.len() == 0 {
        Seq::empty()
    } else {
        let prev = annotated(lines.drop_last());
        if needs_schema(lines.last()) {
            prev.push(schema_attribute()).push(lines.last())
        } else {
            prev.push(lines.last())
        }
    }
}

/// Whether a file whose first line is `first_line` is a generated SeaORM entity.
pub fn is_sea_orm_entity(first_line: &str) -> (r: bool)
    ensures
        r == is_entity_header(first_line@),
{
    let v = chars_of(first_line);
    let t = trim_start_chars(&v);
    let h = chars_of("//! `SeaORM` Entity");
    starts_with_chars(&t, &h)
}

/// Whether an entity line declares a public field of a type shown as a string.
pub fn line_needs_schema(line: &str) -> (r: bool)
    ensures
        r == needs_schema(line@),
{
    let v = chars_of(line);
    let t = trim_start_chars(&v);
    let p = chars_of("pub ");
    if !starts_with_chars(&t, &p) {
        return false;
    }
    let a = chars_of("Uuid");
    let b = chars_of("DateTimeWithTimeZone");
    contains_chars(&t, &a) || contains_chars(&t, &b)
}

/// Places the schema attribute before every line of an entity file that declares
/// a public field of a type that the API schema shows as a string.
pub fn annotate_entity_lines(lines: &Vec<String>) -> (r: Vec<String>)
    ensures
        strings(r@) == annotated(strings(lines@)),
{
    let mut out: Vec<String> = Vec::new();
    for i in 0..lines.len()
        invariant
            strings(out@) == annotated(strings(lines@).take(i as int)),
    {
        let ghost prev = out@;
        proof {
            assert(strings(lines@).take(i + 1).drop_last() =~= strings(lines@).take(i as int));
            assert(strings(lines@).take(i + 1).last() == lines@[i as int]@);
        }
        if line_needs_schema(lines[i].as_str()) {
            out.push(owned("    #[schema(value_type = String)]"));
            out.push(lines[i].clone());
            assert(strings(out@) =~= strings(prev).push(schema_attribute()).push(lines@[i as int]@));
        } else {
            out.push(lines[i].clone());
            assert(strings(out@) =~= strings(prev).push(lines@[i as int]@));
        }
    }
    assert(strings(lines@).take(lines.len() as int) =~= strings(lines@));
    out
}

} // verus!
