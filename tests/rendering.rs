use ccmgen::commands::{get_language_templates, legacy_templates_for};
use ccmgen::config::{Config, ConfigManager, DefaultSettings};
use ccmgen::paths::{child_path_of, extension_of, file_name_of};
use ccmgen::project::{DirProbe, ProjectDetector, ProjectInfo, ProjectStructure, ProjectType};
use ccmgen::smart_templates::SmartTemplateManager;
use ccmgen::templates::TemplateManager;
use ccmgen::text::{contains, decimal_string, ends_with, join, starts_with, str_eq};

fn rust_context(cargo: &str) -> ccmgen::project::ProjectContext {
    let probe = DirProbe {
        path: "/w/demo".to_string(),
        entries: vec!["Cargo.toml".to_string()],
        cargo_toml: Some(cargo.to_string()),
        package_json: None,
    };
    let mut scanned = ProjectStructure::new();
    scanned.categorize_file("/w/demo/src/main.rs");
    scanned.categorize_file("/w/demo/src/cli.rs");
    scanned.categorize_file("/w/demo/tests/cli_test.rs");
    scanned.categorize_file("/w/demo/Cargo.toml");
    ProjectDetector::create_project_context(&probe, scanned).expect("a project")
}

#[test]
fn context_summary_text() {
    let ctx = rust_context(
        "[package]\nname = \"demo\"\n[dependencies]\nanyhow = \"1\"\nserde = \"1\"\ntokio = \"1\"\n",
    );
    assert_eq!(
        SmartTemplateManager::build_context_string(&ctx),
        "Project: demo (RustNormal)\nFeatures: dependencies\nFiles: 2 source, 1 tests, 1 configs\nKey dependencies: serde, tokio"
    );
}

#[test]
fn context_summary_limits() {
    let ctx = rust_context(
        "[package]\nname = \"many\"\n[dependencies]\nclap = \"4\"\njs-sys = \"0.3\"\nserde = \"1\"\ntokio = \"1\"\nwasm-bindgen = \"0.2\"\nweb-sys = \"0.3\"\n",
    );
    let text = SmartTemplateManager::build_context_string(&ctx);
    assert!(text.ends_with("Key dependencies: clap, js-sys, serde, tokio, wasm-bindgen"));
    let probe = DirProbe {
        path: "/w/js".to_string(),
        entries: vec!["package.json".to_string()],
        cargo_toml: None,
        package_json: Some(
            "{\"name\": \"js\", \"scripts\": {\"a\": \"1\", \"b\": \"2\", \"c\": \"3\", \"d\": \"4\"}}".to_string(),
        ),
    };
    let js = ProjectDetector::create_project_context(&probe, ProjectStructure::new()).unwrap();
    assert_eq!(
        SmartTemplateManager::build_context_string(&js),
        "Project: js (JavaScript)\nFeatures: scripts\nFiles: 0 source, 0 tests, 0 configs\nAvailable scripts: a, b, c"
    );
}

#[test]
fn command_templates_follow_suggestions() {
    let ctx = rust_context("[package]\nname = \"demo\"\n[dependencies]\nserde = \"1\"\n");
    assert_eq!(
        ctx.suggested_commands,
        vec!["run-specific-test", "serialization-helper", "documentation-generator"]
    );
    let summary = SmartTemplateManager::build_context_string(&ctx);
    let made = SmartTemplateManager::generate_context_specific_templates(&ctx);
    assert_eq!(made.len(), 3);
    assert_eq!(made[1].0, "serialization-helper");
    assert_eq!(
        made[1].1,
        format!(
            "{}\n\nAdd Serde serialization/deserialization support to this Rust struct or enum:",
            summary
        )
    );
    assert!(SmartTemplateManager::create_template_for_command("no-such-command", &ctx).is_none());
    let all = SmartTemplateManager::create_enhanced_init_templates(&ctx);
    assert_eq!(all.len(), 8 + 3);
    assert_eq!(all[0].0, "review-performance");
    assert!(all[0].1.starts_with(&summary));
    assert_eq!(all[8].0, "run-specific-test");
}

#[test]
fn important_dependencies_by_type() {
    assert!(SmartTemplateManager::is_important_dependency("tokio", &ProjectType::RustWasm));
    assert!(!SmartTemplateManager::is_important_dependency("react", &ProjectType::RustNormal));
    assert!(SmartTemplateManager::is_important_dependency("jest", &ProjectType::NodeJs));
    assert!(!SmartTemplateManager::is_important_dependency("lodash", &ProjectType::TypeScript));
}

#[test]
fn base_template_sets() {
    let info = |t| ProjectInfo { project_type: t, name: "p".to_string(), path: "/p".to_string(), features: vec![] };
    assert_eq!(TemplateManager::get_templates_for_project(&info(ProjectType::RustNormal)).len(), 8);
    assert_eq!(TemplateManager::get_templates_for_project(&info(ProjectType::NodeJs)).len(), 9);
    let wasm = TemplateManager::get_templates_for_project(&info(ProjectType::RustWasm));
    assert_eq!(wasm[0].0, "wasm-bindgen-wrapper");
    let ts = TemplateManager::get_templates_for_project(&info(ProjectType::TypeScript));
    assert_eq!(ts[7].0, "tsconfig-optimization");
    assert_eq!(TemplateManager::javascript_templates()[0].0, "add-jsdoc");
    assert!(TemplateManager::get_custom_templates().is_empty());
}

#[test]
fn project_specific_template_header() {
    let with = ProjectInfo {
        project_type: ProjectType::TypeScript,
        name: "site".to_string(),
        path: "/s".to_string(),
        features: vec!["typescript".to_string(), "scripts".to_string()],
    };
    assert_eq!(
        TemplateManager::create_project_specific_template(&with, "x", "Body"),
        "Project: site (TypeScript)\nFeatures: typescript, scripts\n\nBody"
    );
    let without = ProjectInfo { features: vec![], ..with };
    assert_eq!(
        TemplateManager::create_project_specific_template(&without, "x", "Body"),
        "Project: site (TypeScript)\n\n\nBody"
    );
}

#[test]
fn custom_templates_by_language() {
    let mut config = Config::default();
    assert!(config.default_settings.auto_detect && config.default_settings.include_docs);
    ConfigManager::add_custom_template(&mut config, "rust", "lint", "Run lints", "Lint this:");
    ConfigManager::add_custom_template(&mut config, "go", "vet", "Vet", "Vet this:");
    ConfigManager::add_custom_template(&mut config, "rust", "fmt", "Format", "Format this:");
    assert_eq!(config.custom_templates.len(), 2);
    let rust = ConfigManager::get_custom_templates_for_language(&config, "rust");
    assert_eq!(rust.len(), 2);
    assert_eq!(rust[0].name, "lint");
    assert_eq!(rust[1].content, "Format this:");
    assert_eq!(rust[1].language.as_deref(), Some("rust"));
    assert!(rust[1].project_type.is_none());
    assert!(ConfigManager::get_custom_templates_for_language(&config, "zig").is_empty());
    let d = DefaultSettings::default();
    assert!(d.prefer_typescript && d.include_tests);
}

#[test]
fn legacy_language_sets() {
    let table = get_language_templates();
    assert_eq!(table.len(), 2);
    assert_eq!(table[0].0, "rust");
    assert_eq!(table[1].1[3].0, "commit-conventional");
    let rust = legacy_templates_for("rust").expect("rust set");
    assert_eq!(rust.len(), 4);
    assert_eq!(rust[2].0, "summarize-diff");
    assert_eq!(legacy_templates_for("typescript").unwrap()[0].0, "explain-code");
    assert!(legacy_templates_for("go").is_none());
}

#[test]
fn path_helpers() {
    assert_eq!(file_name_of("/a/b/c.tar.gz"), "c.tar.gz");
    assert_eq!(extension_of("/a/b/c.tar.gz").as_deref(), Some("gz"));
    assert_eq!(extension_of("/a/.dockerignore"), None);
    assert_eq!(extension_of("/a/Dockerfile"), None);
    assert_eq!(extension_of("/a/b.d/file"), None);
    assert_eq!(child_path_of("/a", "b"), "/a/b");
    assert_eq!(child_path_of("/a/", "b"), "/a/b");
    assert_eq!(child_path_of("", "b"), "b");
}

#[test]
fn text_helpers() {
    assert_eq!(decimal_string(0), "0");
    assert_eq!(decimal_string(1234), "1234");
    assert_eq!(join(&vec!["a".to_string(), "b".to_string(), "c".to_string()], ", "), "a, b, c");
    assert_eq!(join(&vec![], ", "), "");
    assert!(contains("src/test_x.rs", "test"));
    assert!(!contains("src/x.rs", "test"));
    assert!(starts_with("test_x", "test_"));
    assert!(ends_with("main.mjs", ".mjs"));
    assert!(!ends_with("js", ".mjs"));
    assert!(str_eq("é", "é"));
    assert!(!str_eq("ab", "abc"));
}
