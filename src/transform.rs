//! The transformation of a template manifest: every relative path dependency
//! is resolved to an absolute path and the library target is replaced by one
//! that builds the given source file.

use vstd::prelude::*;
use crate::cargo_api::{
    clear_listed_targets, dependency_entries, dependency_paths, dependency_table, fresh_target,
    library_target, listed_target_count, manifest_rest, opt_view, parse_manifest,
    parsed_manifest, serialize_manifest, set_dependency_path, set_library_target, toml_refuses,
    writes_toml, Edition,
};

verus! {

/// Why a manifest could not be prepared.
#[derive(Debug)]
pub enum ManifestError {
    /// The template is not a manifest; holds the parser's diagnostic.
    MalformedTemplate(cargo_toml::Error),
    /// The transformed document could not be written as text.
    SerializationFailure(toml::ser::Error),
}

/// The edition that every prepared library target is built with.
pub const TARGET_EDITION: Edition = Edition::E2018;

/// A dependency path before and after the transformation: an entry without a
/// path keeps none, and a path `p` becomes what `resolve` returned for `p`.
pub open spec fn resolved_by<F: Fn(&str) -> String>(
    resolve: F,
    before: Option<Seq<char>>,
    after: Option<Seq<char>>,
) -> bool {
    match before {
        None => after is None,
        Some(p) => exists|a: &str, q: String|
            a@ == p && call_ensures(resolve, (a,), q) && after == Some(q@),
    }
}

/// Every path dependency of `before` has its path resolved in `after`, and
/// the set of dependency names is kept.
pub open spec fn paths_resolved<F: Fn(&str) -> String>(
    resolve: F,
    before: cargo_toml::Manifest,
    after: cargo_toml::Manifest,
) -> bool {
    &&& dependency_paths(after).dom() == dependency_paths(before).dom()
    &&& dependency_table(after).dom() == dependency_table(before).dom()
    &&& forall|n: Seq<char>| #[trigger] dependency_paths(before).contains_key(n)
        ==> resolved_by(resolve, dependency_paths(before)[n], dependency_paths(after)[n])
}

/// `after` holds all that `before` holds but for the dependency paths and the
/// build targets: the package, every other table, and each dependency entry
/// besides its path.
pub open spec fn rest_kept(before: cargo_toml::Manifest, after: cargo_toml::Manifest) -> bool {
    manifest_rest(after) == manifest_rest(before)
}

/// Every dependency entry without a path is the same in `after` as in `before`.
pub open spec fn path_free_kept(before: cargo_toml::Manifest, after: cargo_toml::Manifest) -> bool {
    forall|n: Seq<char>|
        #[trigger] dependency_paths(before).contains_key(n) && dependency_paths(before)[n] is None
            ==> dependency_table(after).contains_key(n)
            && dependency_table(after)[n] == dependency_table(before)[n]
}

/// The one build target of `m` is a library target that builds `source` with
/// the fixed edition, every other field of it at its default.
pub open spec fn target_is(m: cargo_toml::Manifest, source: Seq<char>) -> bool {
    &&& library_target(m) == Some(fresh_target(source, TARGET_EDITION))
    &&& listed_target_count(m) == 0
}

/// `after` is the transformation of `before` for the source path `source`.
pub open spec fn transformed<F: Fn(&str) -> String>(
    before: cargo_toml::Manifest,
    after: cargo_toml::Manifest,
    source: Seq<char>,
    resolve: F,
) -> bool {
    &&& paths_resolved(resolve, before, after)
    &&& rest_kept(before, after)
    &&& path_free_kept(before, after)
    &&& target_is(after, source)
}

/// `r` is a text of `m` where `toml` can write `m`, and the serialization
/// error where it cannot.
pub open spec fn written_as(m: cargo_toml::Manifest, r: Result<String, ManifestError>) -> bool {
    if toml_refuses(m) {
        r is Err && r->Err_0 is SerializationFailure
    } else {
        r is Ok && writes_toml(m, r->Ok_0@)
    }
}

/// Resolves the path of every detailed dependency with `resolve`, makes a
/// fresh library target for `source_path`, with the fixed edition, the one
/// build target, and keeps the rest of the document.
pub fn rewrite_manifest<F: Fn(&str) -> String>(
    manifest: &mut cargo_toml::Manifest,
    source_path: &str,
    resolve: F,
)
    requires
        forall|a: &str| call_requires(resolve, (a,)),
    ensures
        paths_resolved(resolve, *old(manifest), *final(manifest)),
        rest_kept(*old(manifest), *final(manifest)),
        path_free_kept(*old(manifest), *final(manifest)),
        target_is(*final(manifest), source_path@),
{
    let ghost m0 = *manifest;
    let entries = dependency_entries(manifest);
    assert forall|j: int| 0 <= j < entries@.len() implies #[trigger] dependency_paths(m0).contains_key(entries@[j].0@)
        && dependency_table(m0).contains_key(entries@[j].0@)
        && dependency_paths(m0)[entries@[j].0@] == opt_view(entries@[j].1) by {
        assert(dependency_paths(*manifest).contains_key(entries@[j].0@));
    }
    let mut i: usize = 0;
    while i < entries.len()
        invariant
            0 <= i <= entries@.len(),
            forall|a: &str| call_requires(resolve, (a,)),
            forall|j: int|
                0 <= j < entries@.len() ==> #[trigger] dependency_paths(m0).contains_key(entries@[j].0@)
                    && dependency_table(m0).contains_key(entries@[j].0@)
                    && dependency_paths(m0)[entries@[j].0@] == opt_view(entries@[j].1),
            forall|k: Seq<char>|
                dependency_paths(m0).contains_key(k) || dependency_table(m0).contains_key(k) ==> exists|j: int|
                    0 <= j < entries@.len() && entries@[j].0@ == k,
            forall|j: int, l: int|
                0 <= j < l < entries@.len() ==> entries@[j].0@ != entries@[l].0@,
            dependency_paths(*manifest).dom() == dependency_paths(m0).dom(),
            dependency_table(*manifest).dom() == dependency_table(m0).dom(),
            forall|j: int|
                0 <= j < i ==> resolved_by(
                    resolve,
                    dependency_paths(m0)[#[trigger] entries@[j].0@],
                    dependency_paths(*manifest)[entries@[j].0@],
                ),
            forall|j: int|
                i <= j < entries@.len() ==> dependency_paths(*manifest)[#[trigger] entries@[j].0@]
                    == dependency_paths(m0)[entries@[j].0@],
            path_free_kept(m0, *manifest),
            rest_kept(m0, *manifest),
        decreases entries.len() - i,
    {
        let entry = &entries[i];
        match &entry.1 {
            Some(p) => {
                let q = resolve(p.as_str());
                assert(dependency_paths(m0).contains_key(entries@[i as int].0@));
                assert(dependency_paths(m0)[entry.0@] == Some(p@));
                let ghost before = *manifest;
                set_dependency_path(manifest, &entry.0, q);
                assert(resolved_by(resolve, Some(p@), Some(q@)));
                assert forall|n: Seq<char>|
                    #[trigger] dependency_paths(m0).contains_key(n) && dependency_paths(m0)[n] is None
                        implies dependency_table(*manifest).contains_key(n)
                        && dependency_table(*manifest)[n] == dependency_table(m0)[n] by {
                    assert(n != entry.0@);
                    assert(dependency_table(*manifest).remove(entry.0@)[n] == dependency_table(before).remove(entry.0@)[n]);
                }
                assert forall|j: int| 0 <= j <= i implies resolved_by(
                    resolve,
                    dependency_paths(m0)[#[trigger] entries@[j].0@],
                    dependency_paths(*manifest)[entries@[j].0@],
                ) by {
                    if j < i {
                        assert(entries@[j].0@ != entries@[i as int].0@);
                    }
                }
            },
            None => {
                assert(dependency_paths(m0).contains_key(entries@[i as int].0@));
            },
        }
        i += 1;
    }
    assert forall|n: Seq<char>| #[trigger] dependency_paths(m0).contains_key(n) implies resolved_by(
        resolve,
        dependency_paths(m0)[n],
        dependency_paths(*manifest)[n],
    ) by {
        let j = choose|j: int| 0 <= j < entries@.len() && entries@[j].0@ == n;
    }
    set_library_target(manifest, source_path, TARGET_EDITION);
    clear_listed_targets(manifest);
}

/// Parses the template, transforms it as `rewrite_manifest` does and writes
/// the result as text. Fails with `MalformedTemplate` exactly where the
/// template is not a manifest; otherwise the transformed document is the
/// parsed one with only the dependency paths and the build targets rewritten,
/// and the result is its text, or `SerializationFailure` exactly where `toml`
/// cannot write it.
pub fn generate_manifest<F: Fn(&str) -> String>(
    template: &str,
    source_path: &str,
    rel_to_abs: F,
) -> (r: Result<String, ManifestError>)
    requires
        forall|a: &str| call_requires(rel_to_abs, (a,)),
    ensures
        match parsed_manifest(template@) {
            None => r is Err && r->Err_0 is MalformedTemplate,
            Some(m0) => exists|m1: cargo_toml::Manifest|
                transformed(m0, m1, source_path@, rel_to_abs) && #[trigger] written_as(m1, r),
        },
{
    match parse_manifest(template) {
        Err(e) => Err(ManifestError::MalformedTemplate(e)),
        Ok(manifest) => {
            let ghost m0 = manifest;
            let mut manifest = manifest;
            rewrite_manifest(&mut manifest, source_path, rel_to_abs);
            let r = match serialize_manifest(&manifest) {
                Ok(text) => Ok(text),
                Err(e) => Err(ManifestError::SerializationFailure(e)),
            };
            assert(transformed(m0, manifest, source_path@, rel_to_abs));
            assert(written_as(manifest, r));
            r
        },
    }
}

/// Transforming an already transformed document once more, with a resolver
/// that hands every path back unchanged, leaves what the transformation
/// rewrites as it was: the dependency paths and the library target, with no
/// other build target; the rest of the document stays that of the template.
pub proof fn lemma_transform_twice_stable<F: Fn(&str) -> String, G: Fn(&str) -> String>(
    m0: cargo_toml::Manifest,
    m1: cargo_toml::Manifest,
    m2: cargo_toml::Manifest,
    source: Seq<char>,
    resolve: F,
    identity: G,
)
    requires
        transformed(m0, m1, source, resolve),
        transformed(m1, m2, source, identity),
        forall|a: &str, q: String| call_ensures(identity, (a,), q) ==> q@ == a@,
    ensures
        dependency_paths(m2) == dependency_paths(m1),
        manifest_rest(m2) == manifest_rest(m0),
        library_target(m2) == library_target(m1),
        listed_target_count(m2) == 0,
{
    assert forall|n: Seq<char>| #[trigger] dependency_paths(m1).contains_key(n) implies dependency_paths(m2)[n]
        == dependency_paths(m1)[n] by {
        assert(resolved_by(identity, dependency_paths(m1)[n], dependency_paths(m2)[n]));
    }
    assert(dependency_paths(m2) =~= dependency_paths(m1));
}

} // verus!
