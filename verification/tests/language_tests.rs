use autonix::{Language, LanguageDetection, LanguageDetectionSignal, LanguageDetectionSource};

fn strong(path: &str) -> LanguageDetectionSignal {
    match LanguageDetectionSignal::try_from_path(path) {
        Some(sig) => sig,
        None => panic!("expected a signal"),
    }
}

#[test]
fn test_language_from_go_sources() {
    assert_eq!(LanguageDetectionSource::GoMod.language(), Language::Go);
    assert_eq!(LanguageDetectionSource::GoWork.language(), Language::Go);
    assert_eq!(LanguageDetectionSource::GoSum.language(), Language::Go);
    assert_eq!(LanguageDetectionSource::GoVersionFile.language(), Language::Go);
    assert_eq!(LanguageDetectionSource::GoFile.language(), Language::Go);
}

#[test]
fn test_language_from_rust_sources() {
    assert_eq!(LanguageDetectionSource::CargoToml.language(), Language::Rust);
    assert_eq!(LanguageDetectionSource::CargoLock.language(), Language::Rust);
    assert_eq!(LanguageDetectionSource::RustToolchain.language(), Language::Rust);
    assert_eq!(LanguageDetectionSource::RustToolchainToml.language(), Language::Rust);
    assert_eq!(LanguageDetectionSource::RsFile.language(), Language::Rust);
}

#[test]
fn test_language_from_python_sources() {
    assert_eq!(LanguageDetectionSource::RequirementsTxt.language(), Language::Python);
    assert_eq!(LanguageDetectionSource::PyprojectToml.language(), Language::Python);
    assert_eq!(LanguageDetectionSource::Pipfile.language(), Language::Python);
    assert_eq!(LanguageDetectionSource::PipfileLock.language(), Language::Python);
    assert_eq!(LanguageDetectionSource::PoetryLock.language(), Language::Python);
    assert_eq!(LanguageDetectionSource::SetupPy.language(), Language::Python);
    assert_eq!(LanguageDetectionSource::SetupCfg.language(), Language::Python);
    assert_eq!(LanguageDetectionSource::EnvironmentYml.language(), Language::Python);
    assert_eq!(LanguageDetectionSource::PythonVersionFile.language(), Language::Python);
    assert_eq!(LanguageDetectionSource::PyFile.language(), Language::Python);
}

#[test]
fn test_language_from_javascript_sources() {
    assert_eq!(LanguageDetectionSource::PackageJson.language(), Language::JavaScript);
    assert_eq!(LanguageDetectionSource::PackageLockJson.language(), Language::JavaScript);
    assert_eq!(LanguageDetectionSource::YarnLock.language(), Language::JavaScript);
    assert_eq!(LanguageDetectionSource::PnpmLockYaml.language(), Language::JavaScript);
    assert_eq!(LanguageDetectionSource::BunLock.language(), Language::JavaScript);
    assert_eq!(LanguageDetectionSource::BunLockb.language(), Language::JavaScript);
    assert_eq!(LanguageDetectionSource::DenoLock.language(), Language::JavaScript);
    assert_eq!(LanguageDetectionSource::LockJson.language(), Language::JavaScript);
    assert_eq!(LanguageDetectionSource::DenoJson.language(), Language::JavaScript);
    assert_eq!(LanguageDetectionSource::DenoJsonc.language(), Language::JavaScript);
    assert_eq!(LanguageDetectionSource::TsConfig.language(), Language::JavaScript);
    assert_eq!(LanguageDetectionSource::JsConfig.language(), Language::JavaScript);
    assert_eq!(LanguageDetectionSource::NvmrcFile.language(), Language::JavaScript);
    assert_eq!(LanguageDetectionSource::NodeVersionFile.language(), Language::JavaScript);
    assert_eq!(LanguageDetectionSource::BunVersionFile.language(), Language::JavaScript);
    assert_eq!(LanguageDetectionSource::JsFile.language(), Language::JavaScript);
    assert_eq!(LanguageDetectionSource::MjsFile.language(), Language::JavaScript);
    assert_eq!(LanguageDetectionSource::CjsFile.language(), Language::JavaScript);
    assert_eq!(LanguageDetectionSource::TsFile.language(), Language::JavaScript);
    assert_eq!(LanguageDetectionSource::JsxFile.language(), Language::JavaScript);
    assert_eq!(LanguageDetectionSource::TsxFile.language(), Language::JavaScript);
}

#[test]
fn test_language_from_strong_signal() {
    let signal = strong("go.mod");
    assert_eq!(signal.language(), Language::Go);
}

#[test]
fn test_language_from_weak_signal() {
    let signal = LanguageDetectionSignal::Weak(LanguageDetectionSource::RsFile);
    assert_eq!(signal.language(), Language::Rust);
}

#[test]
fn test_try_from_pathbuf_go_files() {
    for (path, expect_go_mod) in [
        ("go.mod", true),
        ("go.work", false),
        ("go.sum", false),
        (".go-version", false),
    ] {
        match strong(path) {
            LanguageDetectionSignal::Strong { source, .. } => {
                if expect_go_mod {
                    assert!(matches!(source, LanguageDetectionSource::GoMod));
                }
                assert_eq!(source.language(), Language::Go);
            }
            _ => panic!("Expected Strong signal"),
        }
    }
}

#[test]
fn test_try_from_pathbuf_rust_files() {
    for path in ["Cargo.toml", "Cargo.lock", "rust-toolchain", "rust-toolchain.toml"] {
        match strong(path) {
            LanguageDetectionSignal::Strong { source, .. } => {
                assert_eq!(source.language(), Language::Rust);
            }
            _ => panic!("Expected Strong signal"),
        }
    }
}

#[test]
fn test_try_from_pathbuf_python_files() {
    for path in ["requirements.txt", "pyproject.toml", "Pipfile", ".python-version"] {
        match strong(path) {
            LanguageDetectionSignal::Strong { source, .. } => {
                assert_eq!(source.language(), Language::Python);
            }
            _ => panic!("Expected Strong signal"),
        }
    }
}

#[test]
fn test_try_from_pathbuf_javascript_files() {
    for path in ["package.json", "package-lock.json", "yarn.lock", "tsconfig.json", ".nvmrc"] {
        match strong(path) {
            LanguageDetectionSignal::Strong { source, .. } => {
                assert_eq!(source.language(), Language::JavaScript);
            }
            _ => panic!("Expected Strong signal"),
        }
    }
}

#[test]
fn test_try_from_pathbuf_weak_signals() {
    let cases = [
        ("main.go", LanguageDetectionSource::GoFile),
        ("lib.rs", LanguageDetectionSource::RsFile),
        ("app.py", LanguageDetectionSource::PyFile),
        ("index.js", LanguageDetectionSource::JsFile),
        ("module.mjs", LanguageDetectionSource::MjsFile),
        ("common.cjs", LanguageDetectionSource::CjsFile),
        ("types.ts", LanguageDetectionSource::TsFile),
        ("Component.jsx", LanguageDetectionSource::JsxFile),
        ("App.tsx", LanguageDetectionSource::TsxFile),
    ];
    for (path, expected) in cases {
        match strong(path) {
            LanguageDetectionSignal::Weak(source) => assert_eq!(source, expected),
            _ => panic!("Expected Weak signal"),
        }
    }
}

#[test]
fn test_try_from_pathbuf_invalid_files() {
    assert!(LanguageDetectionSignal::try_from_path("README.md").is_none());
    assert!(LanguageDetectionSignal::try_from_path("unknown.txt").is_none());
    assert!(LanguageDetectionSignal::try_from_path(".gitignore").is_none());
}

#[test]
fn test_try_from_pathbuf_with_directory_path() {
    match strong("src/main.rs") {
        LanguageDetectionSignal::Weak(source) => {
            assert!(matches!(source, LanguageDetectionSource::RsFile));
        }
        _ => panic!("Expected Weak signal"),
    }
    match strong("/home/user/project/package.json") {
        LanguageDetectionSignal::Strong { source, .. } => {
            assert!(matches!(source, LanguageDetectionSource::PackageJson));
        }
        _ => panic!("Expected Strong signal"),
    }
}

#[test]
fn test_language_detection_new() {
    let sources = vec![
        LanguageDetectionSignal::Strong {
            path: String::from("go.mod"),
            source: LanguageDetectionSource::GoMod,
        },
        LanguageDetectionSignal::Weak(LanguageDetectionSource::GoFile),
    ];
    let detection = LanguageDetection::new(Language::Go, sources);
    assert_eq!(detection.language, Language::Go);
    assert_eq!(detection.sources.len(), 2);
}

#[test]
fn test_language_detection_deduplicates_weak_signals() {
    let sources = vec![
        LanguageDetectionSignal::Weak(LanguageDetectionSource::PyFile),
        LanguageDetectionSignal::Weak(LanguageDetectionSource::PyFile),
        LanguageDetectionSignal::Weak(LanguageDetectionSource::PyFile),
    ];
    let detection = LanguageDetection::new(Language::Python, sources);
    assert_eq!(detection.language, Language::Python);
    assert_eq!(detection.sources.len(), 1);
}

#[test]
fn test_language_detection_preserves_strong_signals() {
    let sources = vec![
        LanguageDetectionSignal::Strong {
            path: String::from("requirements.txt"),
            source: LanguageDetectionSource::RequirementsTxt,
        },
        LanguageDetectionSignal::Strong {
            path: String::from("setup.py"),
            source: LanguageDetectionSource::SetupPy,
        },
        LanguageDetectionSignal::Strong {
            path: String::from("pyproject.toml"),
            source: LanguageDetectionSource::PyprojectToml,
        },
    ];
    let detection = LanguageDetection::new(Language::Python, sources);
    assert_eq!(detection.language, Language::Python);
    assert_eq!(detection.sources.len(), 3);
}

#[test]
fn test_language_detection_mixed_signals() {
    let sources = vec![
        LanguageDetectionSignal::Strong {
            path: String::from("package.json"),
            source: LanguageDetectionSource::PackageJson,
        },
        LanguageDetectionSignal::Weak(LanguageDetectionSource::JsFile),
        LanguageDetectionSignal::Weak(LanguageDetectionSource::JsFile),
        LanguageDetectionSignal::Weak(LanguageDetectionSource::TsFile),
        LanguageDetectionSignal::Strong {
            path: String::from("tsconfig.json"),
            source: LanguageDetectionSource::TsConfig,
        },
    ];
    let detection = LanguageDetection::new(Language::JavaScript, sources);
    assert_eq!(detection.language, Language::JavaScript);
    assert_eq!(detection.sources.len(), 4);
}

#[test]
fn test_try_from_pathbuf_python_additional_files() {
    for (path, expected) in [
        ("Pipfile.lock", LanguageDetectionSource::PipfileLock),
        ("poetry.lock", LanguageDetectionSource::PoetryLock),
        ("setup.cfg", LanguageDetectionSource::SetupCfg),
        ("environment.yml", LanguageDetectionSource::EnvironmentYml),
    ] {
        match strong(path) {
            LanguageDetectionSignal::Strong { source, .. } => assert_eq!(source, expected),
            _ => panic!("Expected Strong signal"),
        }
    }
}

#[test]
fn test_try_from_pathbuf_javascript_additional_files() {
    for (path, expected) in [
        ("bun.lock", LanguageDetectionSource::BunLock),
        ("bun.lockb", LanguageDetectionSource::BunLockb),
        ("deno.lock", LanguageDetectionSource::DenoLock),
        ("lock.json", LanguageDetectionSource::LockJson),
        ("deno.jsonc", LanguageDetectionSource::DenoJsonc),
        ("jsconfig.json", LanguageDetectionSource::JsConfig),
        (".node-version", LanguageDetectionSource::NodeVersionFile),
        (".bun-version", LanguageDetectionSource::BunVersionFile),
        ("pnpm-lock.yaml", LanguageDetectionSource::PnpmLockYaml),
    ] {
        match strong(path) {
            LanguageDetectionSignal::Strong { source, .. } => assert_eq!(source, expected),
            _ => panic!("Expected Strong signal"),
        }
    }
}

#[test]
fn test_try_from_pathbuf_go_additional_files() {
    match strong("go.work") {
        LanguageDetectionSignal::Strong { source, .. } => {
            assert!(matches!(source, LanguageDetectionSource::GoWork));
        }
        _ => panic!("Expected Strong signal"),
    }
}

#[test]
fn test_try_from_pathbuf_edge_cases() {
    assert!(LanguageDetectionSignal::try_from_path("Makefile").is_none());
    assert!(LanguageDetectionSignal::try_from_path(".gitignore").is_none());
    assert!(LanguageDetectionSignal::try_from_path("script.PY").is_none());
}

#[test]
fn test_try_from_pathbuf_path_without_filename() {
    assert!(LanguageDetectionSignal::try_from_path("/").is_none());
}

#[test]
fn test_language_detection_empty_sources() {
    let detection = LanguageDetection::new(Language::Go, vec![]);
    assert_eq!(detection.language, Language::Go);
    assert_eq!(detection.sources.len(), 0);
}

#[test]
fn test_language_detection_only_weak_signals() {
    let sources = vec![
        LanguageDetectionSignal::Weak(LanguageDetectionSource::PyFile),
        LanguageDetectionSignal::Weak(LanguageDetectionSource::PyFile),
        LanguageDetectionSignal::Weak(LanguageDetectionSource::PyFile),
        LanguageDetectionSignal::Weak(LanguageDetectionSource::PyFile),
    ];
    let detection = LanguageDetection::new(Language::Python, sources);
    assert_eq!(detection.sources.len(), 1);
}

#[test]
fn test_language_detection_multiple_different_weak_signals() {
    let sources = vec![
        LanguageDetectionSignal::Weak(LanguageDetectionSource::JsFile),
        LanguageDetectionSignal::Weak(LanguageDetectionSource::TsFile),
        LanguageDetectionSignal::Weak(LanguageDetectionSource::JsxFile),
        LanguageDetectionSignal::Weak(LanguageDetectionSource::TsxFile),
        LanguageDetectionSignal::Weak(LanguageDetectionSource::MjsFile),
        LanguageDetectionSignal::Weak(LanguageDetectionSource::CjsFile),
    ];
    let detection = LanguageDetection::new(Language::JavaScript, sources);
    assert_eq!(detection.sources.len(), 6);
}

#[test]
fn test_dir_name_mapping() {
    assert_eq!(Language::Go.dir_name(), "golang");
    assert_eq!(Language::Python.dir_name(), "python");
    assert_eq!(Language::JavaScript.dir_name(), "nodejs");
    assert_eq!(Language::Rust.dir_name(), "rust");
}
