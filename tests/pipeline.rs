use ccmgen::project::{DirProbe, ProjectDetector, ProjectStructure, ProjectType};
use ccmgen::scan::{EntryKind, ScanEntry, TreeScanner};

fn probe(path: &str, entries: &[&str], cargo: Option<&str>, package: Option<&str>) -> DirProbe {
    DirProbe {
        path: path.to_string(),
        entries: entries.iter().map(|s| s.to_string()).collect(),
        cargo_toml: cargo.map(|s| s.to_string()),
        package_json: package.map(|s| s.to_string()),
    }
}

fn file(name: &str) -> ScanEntry {
    ScanEntry { name: name.to_string(), kind: EntryKind::File, real_path: String::new() }
}

fn dir(name: &str, real: &str) -> ScanEntry {
    ScanEntry { name: name.to_string(), kind: EntryKind::Dir, real_path: real.to_string() }
}

/// Drives a scan over a tree given as (directory path, listing) pairs.
fn scan(root: &str, tree: &[(&str, Vec<ScanEntry>)]) -> (ProjectStructure, Vec<String>) {
    let mut scanner = TreeScanner::new(root.to_string(), root.to_string());
    let mut read = Vec::new();
    while let Some(d) = scanner.next_dir() {
        let listing = tree
            .iter()
            .find(|(p, _)| *p == d)
            .map(|(_, l)| l.clone())
            .unwrap_or_default();
        scanner.feed(&listing);
        read.push(d);
    }
    (scanner.into_structure(), read)
}

#[test]
fn rust_project_with_serde() {
    let p = probe(
        "/work/proj",
        &["Cargo.toml", "src", "tests"],
        Some("[dependencies]\nserde = \"1.0\"\n"),
        None,
    );
    let (structure, _) = scan(
        "/work/proj",
        &[
            ("/work/proj", vec![file("Cargo.toml"), dir("src", "/r/src"), dir("tests", "/r/tests")]),
            ("/work/proj/src", vec![file("lib.rs")]),
            ("/work/proj/tests", vec![file("it_test.rs")]),
        ],
    );
    let ctx = ProjectDetector::create_project_context(&p, structure).expect("a project");
    assert_eq!(ctx.info.project_type, ProjectType::RustNormal);
    assert_eq!(ctx.structure.dependencies.len(), 1);
    assert_eq!(ctx.structure.dependencies.get("serde").map(|s| s.as_str()), Some("1.0"));
    assert_eq!(ctx.structure.test_files, vec!["/work/proj/tests/it_test.rs".to_string()]);
    assert_eq!(ctx.structure.source_files, vec!["/work/proj/src/lib.rs".to_string()]);
    assert_eq!(ctx.structure.entry_points, vec!["/work/proj/src/lib.rs".to_string()]);
    assert_eq!(ctx.structure.config_files, vec!["/work/proj/Cargo.toml".to_string()]);
    assert!(ctx.suggested_commands.contains(&"serialization-helper".to_string()));
    assert_eq!(
        ctx.suggested_commands,
        vec!["run-specific-test", "serialization-helper", "documentation-generator"]
    );
}

#[test]
fn node_project_with_express() {
    let p = probe(
        "/work/api",
        &["package.json", "index.js"],
        None,
        Some("{\"main\": \"index.js\", \"dependencies\": {\"express\": \"^4\"}}"),
    );
    let ctx = ProjectDetector::create_project_context(&p, ProjectStructure::new()).expect("a project");
    assert_eq!(ctx.info.project_type, ProjectType::NodeJs);
    assert_eq!(ctx.info.features, vec!["nodejs", "dependencies"]);
    assert!(ctx.suggested_commands.contains(&"express-route-generator".to_string()));
}

#[test]
fn typescript_project_without_docs() {
    let p = probe("/work/web", &["package.json", "tsconfig.json"], None, Some("{\"name\": \"web\"}"));
    let ctx = ProjectDetector::create_project_context(&p, ProjectStructure::new()).expect("a project");
    assert_eq!(ctx.info.project_type, ProjectType::TypeScript);
    assert_eq!(ctx.info.name, "web");
    assert_eq!(ctx.info.features, vec!["typescript"]);
    assert!(ctx.suggested_commands.contains(&"documentation-generator".to_string()));
}

#[test]
fn empty_directory_is_no_project() {
    let p = probe("/work/empty", &[], None, None);
    assert!(ProjectDetector::detect_project(&p).is_none());
    assert!(ProjectDetector::create_project_context(&p, ProjectStructure::new()).is_none());
}

#[test]
fn wasm_bindgen_dependency_makes_wasm() {
    let p = probe(
        "/w",
        &["Cargo.toml"],
        Some("[package]\nname = \"demo\"\n\n[dependencies]\nwasm-bindgen = \"0.2\"\n"),
        None,
    );
    let info = ProjectDetector::detect_project(&p).expect("a project");
    assert_eq!(info.project_type, ProjectType::RustWasm);
    assert_eq!(info.name, "demo");
    assert_eq!(info.features, vec!["wasm", "dependencies"]);
}

#[test]
fn cargo_manifest_wins_over_package_manifest() {
    let p = probe(
        "/w",
        &["package.json", "Cargo.toml"],
        Some("[package]\nname = \"both\"\n"),
        Some("{\"name\": \"js-side\", \"main\": \"index.js\"}"),
    );
    let info = ProjectDetector::detect_project(&p).expect("a project");
    assert_eq!(info.project_type, ProjectType::RustNormal);
    assert_eq!(info.name, "both");
    assert!(info.features.is_empty());
}

#[test]
fn no_manifest_is_no_project() {
    let p = probe("/w", &["README.md", "src"], None, None);
    assert!(ProjectDetector::detect_project(&p).is_none());
}

#[test]
fn excluded_directories_are_not_entered() {
    let (structure, read) = scan(
        "/w",
        &[
            ("/w", vec![dir("target", "/r/target"), dir("node_modules", "/r/nm"), file("main.rs")]),
            ("/w/target", vec![file("generated.rs")]),
            ("/w/node_modules", vec![file("index.js")]),
        ],
    );
    assert_eq!(read, vec!["/w".to_string()]);
    assert_eq!(structure.source_files, vec!["/w/main.rs".to_string()]);
}

#[test]
fn test_paths_go_to_test_files() {
    let mut s = ProjectStructure::new();
    s.categorize_file("/w/src/mytest_helpers.ts");
    s.categorize_file("/w/src/parser.rs");
    s.categorize_file("/w/src/test_parser.rs");
    assert_eq!(
        s.test_files,
        vec!["/w/src/mytest_helpers.ts".to_string(), "/w/src/test_parser.rs".to_string()]
    );
    assert_eq!(s.source_files, vec!["/w/src/parser.rs".to_string()]);
}

#[test]
fn classification_and_scan_are_repeatable() {
    let p = probe("/w", &["Cargo.toml"], Some("[package]\nname = \"x\"\n[dev-dependencies]\n"), None);
    let a = ProjectDetector::detect_project(&p).expect("a project");
    let b = ProjectDetector::detect_project(&p).expect("a project");
    assert_eq!(a.project_type, b.project_type);
    assert_eq!(a.name, b.name);
    assert_eq!(a.features, b.features);
    assert_eq!(a.features, vec!["dev-dependencies"]);
    let tree = [("/w", vec![file("a.rs"), file("b.md"), dir("src", "/r/src")]), ("/w/src", vec![file("c.rs")])];
    let (s1, _) = scan("/w", &tree);
    let (s2, _) = scan("/w", &tree);
    assert_eq!(s1.source_files, s2.source_files);
    assert_eq!(s1.doc_files, s2.doc_files);
}

#[test]
fn link_cycle_is_read_once() {
    let (_, read) = scan(
        "/w",
        &[
            ("/w", vec![dir("loop", "/w")]),
            ("/w/loop", vec![dir("loop", "/w")]),
        ],
    );
    assert_eq!(read, vec!["/w".to_string()]);
}

#[test]
fn unreadable_cargo_manifest_is_still_rust() {
    let p = probe("/w", &["Cargo.toml"], Some("this is [ not toml"), None);
    let info = ProjectDetector::detect_project(&p).expect("a project");
    assert_eq!(info.project_type, ProjectType::RustNormal);
    assert_eq!(info.name, "unknown");
    let p2 = probe("/w", &["Cargo.toml", "wasm-pack.json"], None, None);
    let info2 = ProjectDetector::detect_project(&p2).expect("a project");
    assert_eq!(info2.project_type, ProjectType::RustWasm);
    assert_eq!(info2.features, vec!["wasm"]);
}

#[test]
fn cdylib_and_wasm_pack_metadata_make_wasm() {
    let cd = probe("/w", &["Cargo.toml"], Some("[lib]\ncrate-type = [\"rlib\", \"cdylib\"]\n"), None);
    assert_eq!(ProjectDetector::detect_project(&cd).unwrap().project_type, ProjectType::RustWasm);
    let rl = probe("/w", &["Cargo.toml"], Some("[lib]\ncrate-type = [\"rlib\"]\n"), None);
    assert_eq!(ProjectDetector::detect_project(&rl).unwrap().project_type, ProjectType::RustNormal);
    let md = probe(
        "/w",
        &["Cargo.toml"],
        Some("[package]\nname = \"m\"\n[package.metadata.wasm-pack]\n"),
        None,
    );
    assert_eq!(ProjectDetector::detect_project(&md).unwrap().project_type, ProjectType::RustWasm);
}

#[test]
fn javascript_without_node_signals() {
    let p = probe(
        "/w",
        &["package.json"],
        None,
        Some("{\"main\": \"lib/index.ts\", \"devDependencies\": {\"jest\": \"29\"}, \"scripts\": {}}"),
    );
    let info = ProjectDetector::detect_project(&p).unwrap();
    assert_eq!(info.project_type, ProjectType::JavaScript);
    assert_eq!(info.features, vec!["devDependencies"]);
    assert_eq!(info.name, "unknown");
    let engines = probe("/w", &["package.json"], None, Some("{\"engines\": {\"node\": \">=18\"}}"));
    assert_eq!(ProjectDetector::detect_project(&engines).unwrap().project_type, ProjectType::NodeJs);
    let module = probe("/w", &["package.json"], None, Some("{\"main\": \"server.mjs\"}"));
    assert_eq!(ProjectDetector::detect_project(&module).unwrap().project_type, ProjectType::NodeJs);
}

#[test]
fn package_metadata_is_extracted() {
    let p = probe(
        "/w",
        &["package.json"],
        None,
        Some(
            "{\"dependencies\": {\"react\": \"18\", \"odd\": 3}, \"devDependencies\": {\"react\": \"17\"}, \"scripts\": {\"test\": \"jest\", \"build\": \"tsc\"}}",
        ),
    );
    let ctx = ProjectDetector::create_project_context(&p, ProjectStructure::new()).unwrap();
    let deps = &ctx.structure.dependencies;
    assert_eq!(deps.len(), 2);
    assert_eq!(deps.get("react").map(|s| s.as_str()), Some("18"));
    assert_eq!(deps.get("dev:react").map(|s| s.as_str()), Some("17"));
    assert!(deps.get("odd").is_none());
    assert_eq!(ctx.structure.scripts.get("test").map(|s| s.as_str()), Some("jest"));
    assert_eq!(
        ctx.suggested_commands,
        vec!["test-coverage-analysis", "react-component-generator", "documentation-generator"]
    );
}

#[test]
fn cargo_metadata_is_extracted() {
    let p = probe(
        "/w",
        &["Cargo.toml"],
        Some(
            "[package]\nname = \"x\"\nbuild = \"build.rs\"\n[dependencies]\ntokio = { version = \"1\", features = [\"full\"] }\nlocal = { path = \"../local\" }\nserde = \"1\"\n",
        ),
        None,
    );
    let ctx = ProjectDetector::create_project_context(&p, ProjectStructure::new()).unwrap();
    let deps = &ctx.structure.dependencies;
    assert_eq!(deps.get("tokio").map(|s| s.as_str()), Some("1"));
    assert_eq!(deps.get("local").map(|s| s.as_str()), Some("*"));
    assert_eq!(deps.get("serde").map(|s| s.as_str()), Some("1"));
    assert_eq!(ctx.structure.scripts.get("build").map(|s| s.as_str()), Some("build.rs"));
    assert_eq!(
        ctx.suggested_commands,
        vec!["async-refactor", "serialization-helper", "documentation-generator"]
    );
}

#[test]
fn wasm_and_container_suggestions() {
    let p = probe("/w", &["Cargo.toml", "wasm-pack.json"], Some("[package]\nname = \"w\"\n"), None);
    let (structure, _) = scan(
        "/w",
        &[("/w", vec![file("webpack.config.js"), file("Dockerfile"), file("README.md")])],
    );
    assert_eq!(structure.config_files, vec!["/w/Dockerfile".to_string()]);
    let ctx = ProjectDetector::create_project_context(&p, structure).unwrap();
    assert_eq!(
        ctx.suggested_commands,
        vec!["wasm-size-analysis", "js-binding-generator", "docker-optimization"]
    );
}

#[test]
fn container_files_recorded_once() {
    let mut s = ProjectStructure::new();
    s.categorize_file("/w/docker-compose.yml");
    s.categorize_file("/w/.dockerignore");
    s.categorize_file("/w/notes.txt");
    s.categorize_file("/w/image.png");
    assert_eq!(s.config_files, vec!["/w/docker-compose.yml".to_string(), "/w/.dockerignore".to_string()]);
    assert_eq!(s.doc_files, vec!["/w/notes.txt".to_string()]);
    assert!(s.should_skip_directory("/w/.git"));
    assert!(!s.should_skip_directory("/w/src"));
}

#[test]
fn node_database_suggestions() {
    let p = probe("/w", &["package.json"], None, Some("{\"dependencies\": {\"koa\": \"2\", \"prisma\": \"5\"}}"));
    let ctx = ProjectDetector::create_project_context(&p, ProjectStructure::new()).unwrap();
    assert_eq!(ctx.info.project_type, ProjectType::NodeJs);
    assert_eq!(ctx.suggested_commands, vec!["database-model-generator", "documentation-generator"]);
}

#[test]
fn unreadable_package_manifest_is_still_javascript() {
    let p = probe("/w", &["package.json"], None, Some("{ not json"));
    let info = ProjectDetector::detect_project(&p).expect("a project");
    assert_eq!(info.project_type, ProjectType::JavaScript);
    assert_eq!(info.name, "unknown");
    assert!(info.features.is_empty());
    let missing = probe("/w", &["package.json", "typescript.json"], None, None);
    assert_eq!(ProjectDetector::detect_project(&missing).unwrap().project_type, ProjectType::TypeScript);
}

#[test]
fn feeding_without_a_directory_changes_nothing() {
    let mut scanner = TreeScanner::new("/w".to_string(), "/w".to_string());
    scanner.feed(&vec![file("lib.rs")]);
    assert!(scanner.structure().source_files.is_empty());
    assert_eq!(scanner.next_dir(), Some("/w".to_string()));
    assert_eq!(scanner.next_dir(), None);
}

#[test]
fn script_spec_files_are_tests() {
    let mut s = ProjectStructure::new();
    s.categorize_file("/w/src/button.spec.tsx");
    s.categorize_file("/w/src/button.tsx");
    s.categorize_file("/w/src/index.ts");
    assert_eq!(s.test_files, vec!["/w/src/button.spec.tsx".to_string()]);
    assert_eq!(s.source_files, vec!["/w/src/button.tsx".to_string(), "/w/src/index.ts".to_string()]);
    assert_eq!(s.entry_points, vec!["/w/src/index.ts".to_string()]);
}
