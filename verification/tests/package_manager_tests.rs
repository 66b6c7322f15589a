use autonix::package_manager::{
    detect_from_package_json, detect_from_pyproject_toml, managers_for_signal,
};
use autonix::{
    LanguageDetectionSignal, LanguageDetectionSource, PackageManager, PackageManagerSource,
};

fn lockfile_managers(path: &str, source: LanguageDetectionSource) -> Vec<autonix::PackageManagerInfo> {
    let signal = LanguageDetectionSignal::Strong { path: String::from(path), source };
    managers_for_signal(&signal, None)
}

#[test]
fn test_detect_npm() {
    let infos = lockfile_managers("package-lock.json", LanguageDetectionSource::PackageLockJson);
    assert_eq!(infos.len(), 1);
    assert_eq!(infos[0].package_manager, PackageManager::Npm);
    assert!(matches!(infos[0].source, PackageManagerSource::PackageLockJson));
}

#[test]
fn test_detect_yarn() {
    let infos = lockfile_managers("yarn.lock", LanguageDetectionSource::YarnLock);
    assert_eq!(infos.len(), 1);
    assert_eq!(infos[0].package_manager, PackageManager::Yarn);
    assert!(matches!(infos[0].source, PackageManagerSource::YarnLock));
}

#[test]
fn test_detect_pnpm() {
    let infos = lockfile_managers("pnpm-lock.yaml", LanguageDetectionSource::PnpmLockYaml);
    assert_eq!(infos.len(), 1);
    assert_eq!(infos[0].package_manager, PackageManager::Pnpm);
    assert!(matches!(infos[0].source, PackageManagerSource::PnpmLockYaml));
}

#[test]
fn test_detect_bun_lockb() {
    let infos = lockfile_managers("bun.lockb", LanguageDetectionSource::BunLockb);
    assert_eq!(infos.len(), 1);
    assert_eq!(infos[0].package_manager, PackageManager::Bun);
    assert!(matches!(infos[0].source, PackageManagerSource::BunLockb));
}

#[test]
fn test_detect_deno_json() {
    let infos = lockfile_managers("deno.json", LanguageDetectionSource::DenoJson);
    assert_eq!(infos.len(), 1);
    assert_eq!(infos[0].package_manager, PackageManager::Deno);
    assert!(matches!(infos[0].source, PackageManagerSource::DenoJson));
}

#[test]
fn test_detect_lock_json() {
    let infos = lockfile_managers("lock.json", LanguageDetectionSource::LockJson);
    assert_eq!(infos.len(), 1);
    assert_eq!(infos[0].package_manager, PackageManager::Deno);
    assert!(matches!(infos[0].source, PackageManagerSource::LockJson));
}

#[test]
fn test_detect_from_package_json_with_version() {
    let infos = detect_from_package_json("{\"packageManager\": \"pnpm@9.0.0\"}", "package.json");
    assert_eq!(infos.len(), 1);
    assert_eq!(infos[0].package_manager, PackageManager::Pnpm);
    assert!(matches!(infos[0].source, PackageManagerSource::PackageJson));
    assert_eq!(infos[0].version, Some(String::from("9.0.0")));
}

#[test]
fn test_detect_from_package_json_without_version() {
    let infos = detect_from_package_json("{\"packageManager\": \"pnpm\"}", "package.json");
    assert_eq!(infos.len(), 1);
    assert_eq!(infos[0].package_manager, PackageManager::Pnpm);
    assert!(matches!(infos[0].source, PackageManagerSource::PackageJson));
    assert_eq!(infos[0].version, None);
}

#[test]
fn test_detect_from_package_json_missing_field() {
    let infos = detect_from_package_json("{\"name\": \"test\"}", "package.json");
    assert!(infos.is_empty());
}

#[test]
fn test_detect_from_package_json_unknown_manager() {
    let infos = detect_from_package_json("{\"packageManager\": \"unknown@1.0.0\"}", "package.json");
    assert!(infos.is_empty());
}

#[test]
fn test_detect_from_package_json_all_managers() {
    for (decl, pm, ver) in [
        ("npm@10.0.0", PackageManager::Npm, "10.0.0"),
        ("pnpm@9.0.0", PackageManager::Pnpm, "9.0.0"),
        ("yarn@4.0.0", PackageManager::Yarn, "4.0.0"),
        ("bun@1.0.0", PackageManager::Bun, "1.0.0"),
    ] {
        let content = format!("{{\"packageManager\": \"{}\"}}", decl);
        let infos = detect_from_package_json(content.as_str(), "package.json");
        assert_eq!(infos.len(), 1);
        assert_eq!(infos[0].package_manager, pm);
        assert_eq!(infos[0].version, Some(String::from(ver)));
    }
}

#[test]
fn test_detect_pip() {
    let infos = lockfile_managers("requirements.txt", LanguageDetectionSource::RequirementsTxt);
    assert_eq!(infos.len(), 1);
    assert_eq!(infos[0].package_manager, PackageManager::Pip);
    assert!(matches!(infos[0].source, PackageManagerSource::RequirementsTxt));
}

#[test]
fn test_detect_poetry_from_pyproject() {
    let infos = detect_from_pyproject_toml(
        "\n[tool.poetry]\nname = \"test\"\nversion = \"0.1.0\"\n",
        "pyproject.toml",
    );
    assert_eq!(infos.len(), 1);
    assert_eq!(infos[0].package_manager, PackageManager::Poetry);
    assert!(matches!(infos[0].source, PackageManagerSource::PyprojectToml));
}

#[test]
fn test_detect_pdm_from_pyproject() {
    let infos = detect_from_pyproject_toml("\n[tool.pdm]\n", "pyproject.toml");
    assert_eq!(infos.len(), 1);
    assert_eq!(infos[0].package_manager, PackageManager::Pdm);
}

#[test]
fn test_detect_uv_from_pyproject() {
    let infos = detect_from_pyproject_toml("\n[tool.uv]\n", "pyproject.toml");
    assert_eq!(infos.len(), 1);
    assert_eq!(infos[0].package_manager, PackageManager::Uv);
}

#[test]
fn test_detect_pip_from_plain_pyproject() {
    let infos = detect_from_pyproject_toml("\n[project]\nname = \"test\"\n", "pyproject.toml");
    assert_eq!(infos.len(), 1);
    assert_eq!(infos[0].package_manager, PackageManager::Pip);
}

#[test]
fn test_multiple_python_package_managers() {
    let infos = detect_from_pyproject_toml(
        "\n[tool.poetry]\nname = \"test\"\n\n[tool.pdm]\n",
        "pyproject.toml",
    );
    assert_eq!(infos.len(), 2);
    assert!(infos.iter().any(|i| i.package_manager == PackageManager::Poetry));
    assert!(infos.iter().any(|i| i.package_manager == PackageManager::Pdm));
    assert!(infos.iter().all(|i| matches!(i.source, PackageManagerSource::PyprojectToml)));
}

#[test]
fn test_detect_pipenv() {
    let infos = lockfile_managers("Pipfile", LanguageDetectionSource::Pipfile);
    assert_eq!(infos.len(), 1);
    assert_eq!(infos[0].package_manager, PackageManager::Pipenv);
    assert!(matches!(infos[0].source, PackageManagerSource::Pipfile));
}

#[test]
fn test_detect_poetry_from_lock() {
    let infos = lockfile_managers("poetry.lock", LanguageDetectionSource::PoetryLock);
    assert_eq!(infos.len(), 1);
    assert_eq!(infos[0].package_manager, PackageManager::Poetry);
    assert!(matches!(infos[0].source, PackageManagerSource::PoetryLock));
}

#[test]
fn test_detect_cargo_toml() {
    let infos = lockfile_managers("Cargo.toml", LanguageDetectionSource::CargoToml);
    assert_eq!(infos.len(), 1);
    assert_eq!(infos[0].package_manager, PackageManager::Cargo);
    assert!(matches!(infos[0].source, PackageManagerSource::CargoToml));
}

#[test]
fn test_detect_cargo_lock() {
    let infos = lockfile_managers("Cargo.lock", LanguageDetectionSource::CargoLock);
    assert_eq!(infos.len(), 1);
    assert_eq!(infos[0].package_manager, PackageManager::Cargo);
    assert!(matches!(infos[0].source, PackageManagerSource::CargoLock));
}

#[test]
fn test_detect_go_mod() {
    let infos = lockfile_managers("go.mod", LanguageDetectionSource::GoMod);
    assert_eq!(infos.len(), 1);
    assert_eq!(infos[0].package_manager, PackageManager::Go);
    assert!(matches!(infos[0].source, PackageManagerSource::GoMod));
}

#[test]
fn test_detect_go_sum() {
    let infos = lockfile_managers("go.sum", LanguageDetectionSource::GoSum);
    assert_eq!(infos.len(), 1);
    assert_eq!(infos[0].package_manager, PackageManager::Go);
    assert!(matches!(infos[0].source, PackageManagerSource::GoSum));
}

#[test]
fn test_signal_conversion_npm() {
    let signal = LanguageDetectionSignal::Strong {
        path: String::from("package-lock.json"),
        source: LanguageDetectionSource::PackageLockJson,
    };
    let infos = managers_for_signal(&signal, None);
    assert_eq!(infos.len(), 1);
    assert_eq!(infos[0].package_manager, PackageManager::Npm);
    assert_eq!(infos[0].path, "package-lock.json");
}

#[test]
fn package_manager_test_signal_conversion_weak_signal() {
    let signal = LanguageDetectionSignal::Weak(LanguageDetectionSource::JsFile);
    let infos = managers_for_signal(&signal, None);
    assert!(infos.is_empty());
}

#[test]
fn test_package_manager_detection_no_package_managers() {
    let signal = LanguageDetectionSignal::Weak(LanguageDetectionSource::RsFile);
    let infos = managers_for_signal(&signal, None);
    assert!(infos.is_empty());
}

#[test]
fn test_pipfile_detection_via_signal() {
    let signal = LanguageDetectionSignal::Strong {
        path: String::from("Pipfile"),
        source: LanguageDetectionSource::Pipfile,
    };
    let infos = managers_for_signal(&signal, None);
    assert_eq!(infos.len(), 1);
    assert_eq!(infos[0].package_manager, PackageManager::Pipenv);
}

#[test]
fn test_lock_json_detection_via_signal() {
    let signal = LanguageDetectionSignal::Strong {
        path: String::from("lock.json"),
        source: LanguageDetectionSource::LockJson,
    };
    let infos = managers_for_signal(&signal, None);
    assert_eq!(infos.len(), 1);
    assert_eq!(infos[0].package_manager, PackageManager::Deno);
    assert_eq!(infos[0].path, "lock.json");
}

#[test]
fn test_package_json_with_packagemanager_via_signal() {
    let signal = LanguageDetectionSignal::Strong {
        path: String::from("package.json"),
        source: LanguageDetectionSource::PackageJson,
    };
    let content = String::from("{\"packageManager\": \"yarn@3.5.0\"}");
    let infos = managers_for_signal(&signal, Some(&content));
    assert_eq!(infos.len(), 1);
    assert_eq!(infos[0].package_manager, PackageManager::Yarn);
    assert_eq!(infos[0].version, Some(String::from("3.5.0")));
    assert_eq!(infos[0].path, "package.json");
}

#[test]
fn test_run_script_forms() {
    assert_eq!(
        PackageManager::Pnpm.run_script("test"),
        Some(String::from("pnpm run test"))
    );
    assert_eq!(
        PackageManager::Npm.run_script("build"),
        Some(String::from("npm run build"))
    );
    assert_eq!(
        PackageManager::Deno.run_script("check"),
        Some(String::from("deno task check"))
    );
    assert_eq!(PackageManager::Cargo.run_script("test"), None);
}

#[test]
fn test_command_name_forms() {
    assert_eq!(PackageManager::Npm.command_name(), "npm");
    assert_eq!(PackageManager::Go.command_name(), "go");
    assert!(PackageManager::Bun.is_js_package_manager());
    assert!(!PackageManager::Pip.is_js_package_manager());
}
