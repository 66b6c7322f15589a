use autonix::dev_flake::generate_dev_flake;
use autonix::engine::{DetectionEngine, DetectionScope};
use autonix::{FileEntry, Language, TaskRunner};

fn dir(path: &str) -> FileEntry {
    FileEntry { path: String::from(path), is_file: false, content: None }
}

fn file(path: &str, content: &str) -> FileEntry {
    FileEntry { path: String::from(path), is_file: true, content: Some(String::from(content)) }
}

fn all_check_contents(flake: &autonix::GeneratedFlake) -> String {
    let mut out = String::new();
    for f in flake.check_files.iter() {
        out.push_str(f.content.as_str());
        out.push('\n');
    }
    out
}

fn language_packages_content(flake: &autonix::GeneratedFlake, language: Language) -> Option<String> {
    flake
        .language_packages
        .iter()
        .find(|p| p.language == language)
        .map(|p| p.content.clone())
}

#[test]
fn test_detection_engine_detect_rust_project() {
    let files = vec![
        dir("proj"),
        file(
            "proj/Cargo.toml",
            "\n[package]\nname = \"test\"\nversion = \"0.1.0\"\nrust-version = \"1.70.0\"\n",
        ),
        file("proj/Cargo.lock", ""),
        dir("proj/src"),
        file("proj/src/main.rs", "fn main() {}"),
    ];
    let engine = DetectionEngine;
    let metadata = engine.detect(&files, "proj");
    assert_eq!(metadata.languages.len(), 1);
    assert_eq!(metadata.languages[0].language, Language::Rust);
    assert_eq!(metadata.versions.len(), 1);
    assert_eq!(metadata.versions[0].versions[0].raw, "1.70.0");
    assert!(!metadata.package_managers.is_empty());
}

#[test]
fn test_detection_engine_detect_go_project() {
    let files = vec![
        dir("proj"),
        file("proj/go.mod", "module example.com\n\ngo 1.21\n"),
        file("proj/go.sum", ""),
        file("proj/main.go", "package main\n\nfunc main() {}"),
    ];
    let engine = DetectionEngine;
    let metadata = engine.detect(&files, "proj");
    assert_eq!(metadata.languages.len(), 1);
    assert_eq!(metadata.languages[0].language, Language::Go);
    assert_eq!(metadata.versions.len(), 1);
    assert_eq!(metadata.versions[0].versions[0].raw, "1.21");
}

#[test]
fn test_detection_engine_detect_python_project() {
    let files = vec![
        dir("proj"),
        file("proj/requirements.txt", "requests==2.28.0"),
        file("proj/.python-version", "3.11.0"),
        file("proj/main.py", "print('hello')"),
    ];
    let engine = DetectionEngine;
    let metadata = engine.detect(&files, "proj");
    assert_eq!(metadata.languages.len(), 1);
    assert_eq!(metadata.languages[0].language, Language::Python);
    assert_eq!(metadata.versions.len(), 1);
    assert_eq!(metadata.versions[0].versions[0].raw, "3.11.0");
}

#[test]
fn test_detection_engine_detect_javascript_project() {
    let files = vec![
        dir("proj"),
        file("proj/package.json", "{\"name\": \"demo\"}"),
        file("proj/pnpm-lock.yaml", ""),
        file("proj/index.js", "console.log('hello')"),
    ];
    let engine = DetectionEngine;
    let metadata = engine.detect(&files, "proj");
    assert_eq!(metadata.languages.len(), 1);
    assert_eq!(metadata.languages[0].language, Language::JavaScript);
    assert!(!metadata.package_managers.is_empty());
}

#[test]
fn test_detection_engine_detect_multi_language_project() {
    let files = vec![
        dir("proj"),
        file("proj/Cargo.toml", "[package]\nname = \"test\"\n"),
        file("proj/package.json", "{\"name\": \"demo\"}"),
        dir("proj/src"),
        file("proj/src/main.rs", "fn main() {}"),
        file("proj/index.js", "console.log('test')"),
    ];
    let engine = DetectionEngine;
    let metadata = engine.detect(&files, "proj");
    assert_eq!(metadata.languages.len(), 2);
    assert!(metadata.languages.iter().any(|l| l.language == Language::Rust));
    assert!(metadata.languages.iter().any(|l| l.language == Language::JavaScript));
}

#[test]
fn test_detection_engine_detect_with_nested_directories() {
    let files = vec![
        dir("proj"),
        dir("proj/backend"),
        dir("proj/frontend"),
        file("proj/backend/go.mod", "module example.com\n\ngo 1.21\n"),
        file("proj/backend/main.go", "package main"),
        file("proj/frontend/package.json", "{\"name\": \"web\"}"),
        file("proj/frontend/index.ts", "console.log('test')"),
    ];
    let engine = DetectionEngine;
    let metadata = engine.detect(&files, "proj");
    assert_eq!(metadata.languages.len(), 2);
}

#[test]
fn test_detection_engine_root_scope_ignores_nested_directories() {
    let files = vec![
        dir("proj"),
        dir("proj/backend"),
        file("proj/backend/go.mod", "module example.com\n\ngo 1.21\n"),
        file("proj/backend/main.go", "package main"),
    ];
    let engine = DetectionEngine;
    let metadata = engine.detect_with_scope(&files, "proj", DetectionScope::Root);
    assert!(metadata.languages.is_empty());
    assert!(metadata.versions.is_empty());
    assert!(metadata.package_managers.is_empty());
    assert!(metadata.task_runners.is_empty());
}

#[test]
fn test_detection_engine_root_scope_detects_root_files_only() {
    let files = vec![
        dir("proj"),
        dir("proj/frontend"),
        file("proj/Cargo.toml", "[package]\nname = \"test\"\n"),
        file("proj/frontend/package.json", "{\"name\": \"web\"}"),
    ];
    let engine = DetectionEngine;
    let metadata = engine.detect_with_scope(&files, "proj", DetectionScope::Root);
    assert_eq!(metadata.languages.len(), 1);
    assert_eq!(metadata.languages[0].language, Language::Rust);
}

#[test]
fn test_detection_engine_detect_task_runners() {
    let files = vec![
        dir("proj"),
        file("proj/Makefile", "test:\n\tcargo test\n\nbuild:\n\tcargo build"),
        file("proj/package.json", "{\"scripts\": {\"test\": \"jest\", \"build\": \"vite build\"}}"),
    ];
    let engine = DetectionEngine;
    let metadata = engine.detect(&files, "proj");
    assert_eq!(metadata.task_runners.len(), 2);
    assert!(metadata.task_runners.iter().any(|t| t.task_runner == TaskRunner::Make));
    assert!(metadata.task_runners.iter().any(|t| t.task_runner == TaskRunner::NpmScripts));
    let make = metadata.task_runners.iter().find(|t| t.task_runner == TaskRunner::Make).unwrap();
    assert_eq!(make.commands.test.len(), 1);
    assert_eq!(make.commands.build.len(), 1);
}

#[test]
fn test_traversal_ignores_node_modules() {
    let files = vec![
        dir("proj"),
        dir("proj/node_modules"),
        dir("proj/node_modules/foo"),
        file("proj/node_modules/foo/package.json", "{\"name\": \"foo\"}"),
    ];
    let engine = DetectionEngine;
    let metadata = engine.detect(&files, "proj");
    assert!(metadata.languages.is_empty());
    assert!(metadata.task_runners.is_empty());
}

#[test]
fn test_traversal_ignores_common_dirs() {
    let files = vec![
        dir("proj"),
        dir("proj/.git"),
        file("proj/.git/config", ""),
        dir("proj/target"),
        file("proj/target/Cargo.toml", "[package]\nname = \"test\"\n"),
        dir("proj/.venv"),
        file("proj/.venv/setup.py", ""),
        dir("proj/dist"),
        file("proj/dist/package.json", "{}"),
    ];
    let engine = DetectionEngine;
    let metadata = engine.detect(&files, "proj");
    assert!(metadata.languages.is_empty());
    assert!(metadata.task_runners.is_empty());
}

#[test]
fn test_detection_runs_identically_twice() {
    let files = vec![
        dir("proj"),
        file("proj/go.mod", "module example.com\n\ngo 1.21\n"),
        file("proj/main.go", "package main"),
        file("proj/package.json", "{\"scripts\": {\"test\": \"jest\"}}"),
    ];
    let engine = DetectionEngine;
    let first = engine.detect(&files, "proj");
    let second = engine.detect(&files, "proj");
    assert_eq!(first.languages.len(), second.languages.len());
    for (a, b) in first.languages.iter().zip(second.languages.iter()) {
        assert_eq!(a.language, b.language);
        assert_eq!(a.sources.len(), b.sources.len());
    }
    assert_eq!(first.versions.len(), second.versions.len());
    for (a, b) in first.versions.iter().zip(second.versions.iter()) {
        assert_eq!(a.language, b.language);
        assert_eq!(a.versions.len(), b.versions.len());
        for (x, y) in a.versions.iter().zip(b.versions.iter()) {
            assert_eq!(x.raw, y.raw);
            assert_eq!(x.path, y.path);
        }
    }
    assert_eq!(first.task_runners.len(), second.task_runners.len());
}

#[test]
fn test_end_to_end_go_module_scenario() {
    let files = vec![
        dir("proj"),
        file("proj/go.mod", "module example.com\n\ngo 1.21\n"),
        file("proj/main.go", "package main\nfunc main(){}\n"),
    ];
    let engine = DetectionEngine;
    let metadata = engine.detect(&files, "proj");
    assert_eq!(metadata.languages.len(), 1);
    assert_eq!(metadata.languages[0].language, Language::Go);
    assert_eq!(metadata.versions.len(), 1);
    let parsed = metadata.versions[0].versions[0].parsed.as_ref().unwrap();
    assert_eq!(parsed.major, Some(1));
    assert_eq!(parsed.minor, Some(21));
    let flake = generate_dev_flake(&metadata, "proj", &files);
    let go_pkgs = language_packages_content(&flake, Language::Go).unwrap();
    assert!(go_pkgs.contains("go_1_21"));
}

#[test]
fn test_end_to_end_pnpm_script_scenario() {
    let files = vec![
        dir("proj"),
        file(
            "proj/package.json",
            "{\n  \"name\": \"demo\",\n  \"packageManager\": \"pnpm@9.0.0\",\n  \"scripts\": { \"test\": \"jest\" }\n }",
        ),
    ];
    let engine = DetectionEngine;
    let metadata = engine.detect(&files, "proj");
    let flake = generate_dev_flake(&metadata, "proj", &files);
    let checks = all_check_contents(&flake);
    assert!(checks.contains("pnpm run test"));
    assert!(checks.contains("jest"));
}

#[test]
fn test_end_to_end_two_ecosystem_scenario() {
    let files = vec![
        dir("proj"),
        file("proj/Cargo.toml", "[package]\nname = \"demo\"\nversion = \"0.1.0\"\n"),
        dir("proj/src"),
        file("proj/src/main.rs", "fn main() {}\n"),
        file("proj/package.json", "{\"name\": \"demo\"}"),
        file("proj/index.js", "console.log('x')\n"),
    ];
    let engine = DetectionEngine;
    let metadata = engine.detect(&files, "proj");
    assert_eq!(metadata.languages.len(), 2);
    let flake = generate_dev_flake(&metadata, "proj", &files);
    let rust_pkgs = language_packages_content(&flake, Language::Rust).unwrap();
    let node_pkgs = language_packages_content(&flake, Language::JavaScript).unwrap();
    assert!(rust_pkgs.contains("rustToolchain"));
    assert!(node_pkgs.contains("nodejs"));
    assert!(!rust_pkgs.contains("nodejsPackages"));
    assert!(!node_pkgs.contains("rustToolchain"));
}

#[test]
fn generates_rust_overlay_when_rust_detected() {
    let files = vec![
        dir("proj"),
        file(
            "proj/Cargo.toml",
            "[package]\nname = \"demo\"\nversion = \"0.1.0\"\nrust-version = \"1.70.0\"\n",
        ),
        dir("proj/src"),
        file("proj/src/main.rs", "fn main() {}\n"),
    ];
    let engine = DetectionEngine;
    let metadata = engine.detect(&files, "proj");
    let flake = generate_dev_flake(&metadata, "proj", &files);
    assert!(flake.main_flake.contains("rust-overlay"));
    assert!(flake.main_flake.contains(".autonix/rust/overlay.nix"));
    assert!(flake.rust_overlay.is_some());
    let rust_pkgs = language_packages_content(&flake, Language::Rust).unwrap();
    assert!(rust_pkgs.contains("rust-bin.stable"));
    assert!(rust_pkgs.contains("rust-analyzer"));
    assert!(rust_pkgs.contains("rust-src"));
}

#[test]
fn resolves_package_manager_from_package_manager_field() {
    let files = vec![
        dir("proj"),
        file(
            "proj/package.json",
            "{\n  \"name\": \"demo\",\n  \"packageManager\": \"pnpm@9.0.0\",\n  \"scripts\": { \"test\": \"jest\" }\n }",
        ),
    ];
    let engine = DetectionEngine;
    let metadata = engine.detect(&files, "proj");
    let flake = generate_dev_flake(&metadata, "proj", &files);
    let checks = all_check_contents(&flake);
    assert!(checks.contains("pnpm run test"));
    assert!(checks.contains("jest"));
}

#[test]
fn resolves_package_manager_from_lockfile_fallback() {
    let files = vec![
        dir("proj"),
        file("proj/package.json", "{\n  \"name\": \"demo\",\n  \"scripts\": { \"test\": \"jest\" }\n }"),
        file("proj/pnpm-lock.yaml", ""),
    ];
    let engine = DetectionEngine;
    let metadata = engine.detect(&files, "proj");
    let flake = generate_dev_flake(&metadata, "proj", &files);
    let checks = all_check_contents(&flake);
    assert!(checks.contains("pnpm run test"));
}

#[test]
fn defaults_to_npm_when_no_package_manager_signal() {
    let files = vec![
        dir("proj"),
        file("proj/package.json", "{\n  \"name\": \"demo\",\n  \"scripts\": { \"test\": \"jest\" }\n }"),
    ];
    let engine = DetectionEngine;
    let metadata = engine.detect(&files, "proj");
    let flake = generate_dev_flake(&metadata, "proj", &files);
    let checks = all_check_contents(&flake);
    assert!(checks.contains("npm run test"));
}

#[test]
fn includes_versioned_go_when_available() {
    let files = vec![
        dir("proj"),
        file("proj/go.mod", "module example.com\n\ngo 1.21\n"),
        file("proj/main.go", "package main\nfunc main(){}\n"),
    ];
    let engine = DetectionEngine;
    let metadata = engine.detect(&files, "proj");
    let flake = generate_dev_flake(&metadata, "proj", &files);
    let go_pkgs = language_packages_content(&flake, Language::Go).unwrap();
    assert!(go_pkgs.contains("go_1_21"));
}

#[test]
fn test_multi_language_project_generates_all_packages() {
    let files = vec![
        dir("proj"),
        file("proj/go.mod", "module example.com\n\ngo 1.21\n"),
        file("proj/main.go", "package main\nfunc main(){}\n"),
        file("proj/package.json", "{\"name\": \"test\", \"scripts\": {\"test\": \"jest\"}}"),
        file("proj/pyproject.toml", "[project]\nname = \"test\"\nrequires-python = \">=3.11\"\n"),
        file("proj/Cargo.toml", "[package]\nname = \"test\"\nversion = \"0.1.0\"\n"),
        dir("proj/src"),
        file("proj/src/main.rs", "fn main() {}\n"),
    ];
    let engine = DetectionEngine;
    let metadata = engine.detect(&files, "proj");
    let flake = generate_dev_flake(&metadata, "proj", &files);
    assert_eq!(flake.language_packages.len(), 4);
    assert!(flake.language_packages.iter().any(|p| p.language == Language::Go));
    assert!(flake.language_packages.iter().any(|p| p.language == Language::Python));
    assert!(flake.language_packages.iter().any(|p| p.language == Language::JavaScript));
    assert!(flake.language_packages.iter().any(|p| p.language == Language::Rust));
    assert!(flake.main_flake.contains("golangPackages"));
    assert!(flake.main_flake.contains("pythonPackages"));
    assert!(flake.main_flake.contains("nodejsPackages"));
    assert!(flake.main_flake.contains("rustPackages"));
}

#[test]
fn test_check_key_deduplication_for_slug_collisions() {
    let files = vec![
        dir("proj"),
        file(
            "proj/package.json",
            "{\"scripts\": {\"test:unit\": \"echo one\", \"test_unit\": \"echo two\"}}",
        ),
    ];
    let engine = DetectionEngine;
    let metadata = engine.detect(&files, "proj");
    let flake = generate_dev_flake(&metadata, "proj", &files);
    let checks = all_check_contents(&flake);
    assert!(checks.contains("\"nodejs-test-npmscripts-test-unit-package-json\""));
    assert!(checks.contains("\"nodejs-test-npmscripts-test-unit-package-json-2\""));
}

#[test]
fn test_nested_package_json_workdir_resolution() {
    let files = vec![
        dir("proj"),
        dir("proj/packages"),
        dir("proj/packages/frontend"),
        file("proj/packages/frontend/package.json", "{\"scripts\": {\"test\": \"vitest\"}}"),
    ];
    let engine = DetectionEngine;
    let metadata = engine.detect(&files, "proj");
    let flake = generate_dev_flake(&metadata, "proj", &files);
    let checks = all_check_contents(&flake);
    assert!(checks.contains("workdir = \"packages/frontend\";"));
}

#[test]
fn test_version_fallback_when_unavailable() {
    let files = vec![
        dir("proj"),
        file("proj/pyproject.toml", "[project]\nrequires-python = \">=3.99\"\n"),
    ];
    let engine = DetectionEngine;
    let metadata = engine.detect(&files, "proj");
    let flake = generate_dev_flake(&metadata, "proj", &files);
    let python_pkgs = language_packages_content(&flake, Language::Python).unwrap();
    assert!(python_pkgs.contains("wantPythonAttr = \"python399\""));
    assert!(python_pkgs.contains("else \"python3\""));
}
