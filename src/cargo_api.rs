//! The calls into `cargo_toml` and `toml`, with the contracts the rest of the
//! library relies on.
//!
//! A `cargo_toml::Manifest` is opaque here. What the transformation reads and
//! writes of it is named by the spec functions below: the dependency table,
//! the path that each detailed dependency carries, and the library target.

use vstd::prelude::*;

verus! {

#[verifier::external_type_specification]
#[verifier::external_body]
#[verifier::reject_recursive_types(Metadata)]
pub struct ExManifest<Metadata>(cargo_toml::Manifest<Metadata>);

#[verifier::external_type_specification]
#[verifier::external_body]
pub struct ExTomlValue(toml::Value);

#[verifier::external_type_specification]
#[verifier::external_body]
pub struct ExDependency(cargo_toml::Dependency);

#[verifier::external_type_specification]
#[verifier::external_body]
pub struct ExParseError(cargo_toml::Error);

#[verifier::external_type_specification]
#[verifier::external_body]
pub struct ExSerializeError(toml::ser::Error);

/// The language edition of a build target.
#[derive(Clone, Copy, Debug, PartialEq, Eq, Structural)]
pub enum Edition {
    E2015,
    E2018,
    E2021,
}

/// What a build target (`cargo_toml::Product`) of a manifest says, field by
/// field.
pub struct TargetView {
    pub path: Option<Seq<char>>,
    pub name: Option<Seq<char>>,
    pub test: bool,
    pub doctest: bool,
    pub bench: bool,
    pub doc: bool,
    pub plugin: bool,
    pub proc_macro: bool,
    pub harness: bool,
    pub edition: Edition,
    pub crate_type: Seq<Seq<char>>,
    pub required_features: Seq<Seq<char>>,
}

/// A target with every field at the value of `Product::default()` but the
/// source path and the edition.
pub open spec fn fresh_target(path: Seq<char>, edition: Edition) -> TargetView {
    TargetView {
        path: Some(path),
        name: None,
        test: true,
        doctest: true,
        bench: true,
        doc: true,
        plugin: false,
        proc_macro: false,
        harness: true,
        edition,
        crate_type: Seq::empty(),
        required_features: Seq::empty(),
    }
}

/// The document that `cargo_toml::Manifest::from_slice` reads from the text,
/// or `None` where it refuses the text.
pub uninterp spec fn parsed_manifest(text: Seq<char>) -> Option<cargo_toml::Manifest>;

/// `text` is a text that `toml::to_string` may write for the document. The
/// document alone does not fix the text: the custom profiles sit in a
/// `HashMap`, written in the order in which it is walked.
pub uninterp spec fn writes_toml(m: cargo_toml::Manifest, text: Seq<char>) -> bool;

/// `toml::to_string` fails on the document.
pub uninterp spec fn toml_refuses(m: cargo_toml::Manifest) -> bool;

/// The whole document but for what the transformation rewrites: the `path`
/// of every detailed entry of `[dependencies]` taken out, no `[lib]`, and
/// no `[[bin]]`, `[[example]]`, `[[test]]` or `[[bench]]` targets.
pub uninterp spec fn manifest_rest(m: cargo_toml::Manifest) -> cargo_toml::Manifest;

/// How many targets the `[[bin]]`, `[[example]]`, `[[test]]` and `[[bench]]`
/// lists hold together.
pub uninterp spec fn listed_target_count(m: cargo_toml::Manifest) -> nat;

/// The `[dependencies]` table: each name with its entry.
pub uninterp spec fn dependency_table(m: cargo_toml::Manifest) -> Map<Seq<char>, cargo_toml::Dependency>;

/// For each name of the `[dependencies]` table, the `path` of its entry where
/// the entry is in detailed form and has one, else `None`.
pub uninterp spec fn dependency_paths(m: cargo_toml::Manifest) -> Map<Seq<char>, Option<Seq<char>>>;

/// The `[lib]` target, where the document has one.
pub uninterp spec fn library_target(m: cargo_toml::Manifest) -> Option<TargetView>;

pub open spec fn opt_view(o: Option<String>) -> Option<Seq<char>> {
    match o {
        Some(s) => Some(s@),
        None => None,
    }
}

/// Relies on `cargo_toml::Manifest::from_slice`: a function of the text alone.
#[verifier::external_body]
pub(crate) fn parse_manifest(text: &str) -> (r: Result<cargo_toml::Manifest, cargo_toml::Error>)
    ensures
        match r {
            Ok(m) => parsed_manifest(text@) == Some(m),
            Err(_) => parsed_manifest(text@) is None,
        },
{
    cargo_toml::Manifest::from_slice(text.as_bytes())
}

/// Relies on `toml::to_string`: the text it writes is one for the document,
/// and whether it fails depends on the document alone.
#[verifier::external_body]
pub(crate) fn serialize_manifest(m: &cargo_toml::Manifest) -> (r: Result<String, toml::ser::Error>)
    ensures
        match r {
            Ok(s) => writes_toml(*m, s@) && !toml_refuses(*m),
            Err(_) => toml_refuses(*m),
        },
{
    toml::to_string(m)
}

/// Relies on iterating the `BTreeMap` of `Manifest::dependencies` (one item
/// per key) and on `Dependency::detail`, which gives the detailed form only.
#[verifier::external_body]
pub(crate) fn dependency_entries(m: &cargo_toml::Manifest) -> (r: Vec<(String, Option<String>)>)
    ensures
        forall|i: int|
            0 <= i < r@.len() ==> #[trigger] dependency_paths(*m).contains_key(r@[i].0@)
                && dependency_table(*m).contains_key(r@[i].0@)
                && dependency_paths(*m)[r@[i].0@] == opt_view(r@[i].1),
        forall|k: Seq<char>|
            dependency_paths(*m).contains_key(k) || dependency_table(*m).contains_key(k) ==> exists|i: int|
                0 <= i < r@.len() && r@[i].0@ == k,
        forall|i: int, j: int|
            0 <= i < j < r@.len() ==> r@[i].0@ != r@[j].0@,
{
    m.dependencies
        .iter()
        .map(|(name, dep)| (name.clone(), dep.detail().and_then(|d| d.path.clone())))
        .collect()
}

/// Relies on `BTreeMap::get_mut` on `Manifest::dependencies`: only the `path`
/// field of the named detailed entry is assigned.
#[verifier::external_body]
pub(crate) fn set_dependency_path(m: &mut cargo_toml::Manifest, name: &String, path: String)
    requires
        dependency_paths(*old(m)).contains_key(name@),
        dependency_paths(*old(m))[name@] is Some,
    ensures
        dependency_paths(*final(m)) == dependency_paths(*old(m)).insert(name@, Some(path@)),
        dependency_table(*final(m)).dom() == dependency_table(*old(m)).dom(),
        dependency_table(*final(m)).remove(name@) == dependency_table(*old(m)).remove(name@),
        manifest_rest(*final(m)) == manifest_rest(*old(m)),
        library_target(*final(m)) == library_target(*old(m)),
        listed_target_count(*final(m)) == listed_target_count(*old(m)),
{
    if let Some(cargo_toml::Dependency::Detailed(d)) = m.dependencies.get_mut(name) {
        d.path = Some(path);
    }
}

/// Relies on the fields of `cargo_toml::Product` and on `Product::default`:
/// the `[lib]` target becomes a default `Product` with the given path and
/// edition.
#[verifier::external_body]
pub(crate) fn set_library_target(m: &mut cargo_toml::Manifest, path: &str, edition: Edition)
    ensures
        library_target(*final(m)) == Some(fresh_target(path@, edition)),
        dependency_paths(*final(m)) == dependency_paths(*old(m)),
        dependency_table(*final(m)) == dependency_table(*old(m)),
        manifest_rest(*final(m)) == manifest_rest(*old(m)),
        listed_target_count(*final(m)) == listed_target_count(*old(m)),
{
    let edition = match edition {
        Edition::E2015 => cargo_toml::Edition::E2015,
        Edition::E2018 => cargo_toml::Edition::E2018,
        Edition::E2021 => cargo_toml::Edition::E2021,
    };
    m.lib = Some(cargo_toml::Product { path: Some(path.to_string()), edition, ..Default::default() });
}

/// Relies on `Vec::clear` on the `bin`, `example`, `test` and `bench` fields
/// of `cargo_toml::Manifest`.
#[verifier::external_body]
pub(crate) fn clear_listed_targets(m: &mut cargo_toml::Manifest)
    ensures
        listed_target_count(*final(m)) == 0,
        library_target(*final(m)) == library_target(*old(m)),
        dependency_paths(*final(m)) == dependency_paths(*old(m)),
        dependency_table(*final(m)) == dependency_table(*old(m)),
        manifest_rest(*final(m)) == manifest_rest(*old(m)),
{
    m.bin.clear();
    m.example.clear();
    m.test.clear();
    m.bench.clear();
}

} // verus!
