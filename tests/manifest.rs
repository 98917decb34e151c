use cargo_toml::{Dependency, Edition, Manifest, Product};
use macro_harness::transform::{generate_manifest, rewrite_manifest, ManifestError};

const TEMPLATE: &str = r#"[package]
name = "macro-harness-case"
version = "0.1.0"
edition = "2015"

[lib]
path = "src/lib.rs"
edition = "2015"
name = "old_name"

[dependencies]
serde = "1.0"
quote = { version = "1", features = ["full"] }
awesome = { path = "../awesome", version = "0.2", features = ["extra"], default-features = false }
helper = { path = "../../libs/helper" }

[dev-dependencies]
local = { path = "../local" }

[features]
default = ["extra"]
extra = []

[[bin]]
name = "tool"
path = "src/main.rs"

[[example]]
name = "demo"
path = "examples/demo.rs"
"#;

fn parse(text: &str) -> Manifest {
    Manifest::from_str(text).unwrap()
}

fn detail_path(m: &Manifest, name: &str) -> Option<String> {
    m.dependencies[name].detail().and_then(|d| d.path.clone())
}

fn last_segment(rel_path: &str) -> String {
    let rel = String::from(rel_path);
    let name = rel.split('/').last().unwrap();
    format!("/home/macro-harness/projects/{}", name)
}

#[test]
fn test_generate_manifest() {
    let source_path = "/home/macro-harness/projects/awesome/tests/test_macro.rs";
    let text = generate_manifest(TEMPLATE, source_path, |rel_path: &str| last_segment(rel_path)).unwrap();
    let out = parse(&text);
    assert_eq!(detail_path(&out, "awesome"), Some("/home/macro-harness/projects/awesome".to_string()));
    assert_eq!(detail_path(&out, "helper"), Some("/home/macro-harness/projects/helper".to_string()));
    let lib = out.lib.clone().unwrap();
    assert_eq!(lib.path, Some(source_path.to_string()));
    assert_eq!(lib.edition, Edition::E2018);

    let mut expected = parse(TEMPLATE);
    for name in ["awesome", "helper"] {
        if let Some(Dependency::Detailed(d)) = expected.dependencies.get_mut(name) {
            d.path = Some(format!("/home/macro-harness/projects/{}", name));
        }
    }
    expected.lib = Some(Product {
        path: Some(source_path.to_string()),
        edition: Edition::E2018,
        ..Default::default()
    });
    expected.bin.clear();
    expected.example.clear();
    assert_eq!(out, expected);
}

#[test]
fn scenario_relative_dependency_and_old_edition() {
    let template = "[package]\nname = \"case1\"\nversion = \"0.1.0\"\n\n[lib]\npath = \"lib.rs\"\nedition = \"2015\"\n\n[dependencies]\nx = { path = \"../libs/x\" }\n";
    let text = generate_manifest(template, "/proj/tests/case1.src", |rel: &str| {
        if rel == "../libs/x" { "/proj/libs/x".to_string() } else { format!("/proj/template/{}", rel) }
    })
    .unwrap();
    let out = parse(&text);
    let before = parse(template);
    assert_eq!(detail_path(&out, "x"), Some("/proj/libs/x".to_string()));
    let lib = out.lib.unwrap();
    assert_eq!(lib.path, Some("/proj/tests/case1.src".to_string()));
    assert_eq!(lib.edition, Edition::E2018);
    assert_eq!(out.package, before.package);
    assert_eq!(out.dependencies.len(), 1);
}

#[test]
fn entries_without_path_pass_through() {
    let before = parse(TEMPLATE);
    let text = generate_manifest(TEMPLATE, "/src/case.rs", |rel: &str| format!("/base/{}", rel)).unwrap();
    let out = parse(&text);
    assert_eq!(out.dependencies["serde"], before.dependencies["serde"]);
    assert_eq!(out.dependencies["quote"], before.dependencies["quote"]);
    assert!(matches!(out.dependencies["serde"], Dependency::Simple(ref v) if v == "1.0"));
}

#[test]
fn path_rewrite_keeps_other_fields() {
    let before = parse(TEMPLATE);
    let text = generate_manifest(TEMPLATE, "/src/case.rs", |rel: &str| format!("/base/{}", rel)).unwrap();
    let out = parse(&text);
    assert_eq!(detail_path(&out, "awesome"), Some("/base/../awesome".to_string()));
    let mut expected = before.dependencies["awesome"].detail().unwrap().clone();
    expected.path = Some("/base/../awesome".to_string());
    assert_eq!(out.dependencies["awesome"].detail().unwrap(), &expected);
    assert_eq!(out.dependencies.len(), before.dependencies.len());
}

#[test]
fn single_target_replaces_template_target() {
    let text = generate_manifest(TEMPLATE, "/src/case.rs", |rel: &str| rel.to_string()).unwrap();
    let lib = parse(&text).lib.unwrap();
    assert_eq!(lib.path, Some("/src/case.rs".to_string()));
    assert_eq!(lib.edition, Edition::E2018);
    assert_eq!(lib.name, None);
    assert_eq!(lib, Product { path: Some("/src/case.rs".to_string()), edition: Edition::E2018, ..Default::default() });
    let out = parse(&text);
    assert!(out.bin.is_empty());
    assert!(out.example.is_empty());
    assert!(out.test.is_empty());
    assert!(out.bench.is_empty());
}

#[test]
fn other_tables_are_kept() {
    let before = parse(TEMPLATE);
    let text = generate_manifest(TEMPLATE, "/src/case.rs", |rel: &str| format!("/base/{}", rel)).unwrap();
    let out = parse(&text);
    assert_eq!(out.package, before.package);
    assert_eq!(out.dev_dependencies, before.dev_dependencies);
    assert_eq!(out.build_dependencies, before.build_dependencies);
    assert_eq!(out.features, before.features);
    assert_eq!(out.workspace, before.workspace);
    assert_eq!(out.target, before.target);
}

#[test]
fn second_transformation_with_identity_is_stable() {
    let first = generate_manifest(TEMPLATE, "/src/case.rs", |rel: &str| format!("/abs/{}", rel)).unwrap();
    let second = generate_manifest(&first, "/src/case.rs", |rel: &str| rel.to_string()).unwrap();
    let a = parse(&first);
    let b = parse(&second);
    assert_eq!(a.dependencies, b.dependencies);
    assert_eq!(a.lib, b.lib);
    assert_eq!(first, second);
}

#[test]
fn malformed_template_is_refused() {
    let r = generate_manifest("[package\nname = ", "/src/case.rs", |rel: &str| rel.to_string());
    assert!(matches!(r, Err(ManifestError::MalformedTemplate(_))));
}

#[test]
fn template_without_package_name_is_refused() {
    let r = generate_manifest("[dependencies]\nx = \"1\"\n", "/src/case.rs", |rel: &str| rel.to_string());
    assert!(matches!(r, Err(ManifestError::MalformedTemplate(_))));
}

#[test]
fn rewrite_on_parsed_document() {
    let mut m = parse(TEMPLATE);
    rewrite_manifest(&mut m, "/x/y.rs", |rel: &str| format!("/root/{}", rel.len()));
    assert_eq!(detail_path(&m, "awesome"), Some("/root/10".to_string()));
    assert_eq!(detail_path(&m, "helper"), Some("/root/17".to_string()));
    assert_eq!(detail_path(&m, "serde"), None);
    let lib = m.lib.unwrap();
    assert_eq!(lib.path, Some("/x/y.rs".to_string()));
    assert_eq!(lib.edition, Edition::E2018);
}

#[test]
fn template_without_dependencies_gets_target() {
    let template = "[package]\nname = \"bare\"\nversion = \"0.1.0\"\n";
    let text = generate_manifest(template, "/only/file.rs", |rel: &str| rel.to_string()).unwrap();
    let out = parse(&text);
    assert!(out.dependencies.is_empty());
    assert_eq!(out.lib.unwrap().path, Some("/only/file.rs".to_string()));
}
