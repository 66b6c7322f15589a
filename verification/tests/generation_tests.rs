use autonix::dev_flake::{
    best_version_info, build_check_spec, command_first_word, generate_checks_binding,
    generate_devshell_binding, generate_flake_inputs, generate_version_notice, go_attr_from_version,
    go_notice, go_version_sources, infer_check_language, node_attr_from_version,
    node_version_sources, python_attr_from_version, python_notice, resolve_task_command,
    slugify_identifier, CheckCategory, CommandInfo,
};
use autonix::engine::ProjectMetadata;
use autonix::nix_builder::{
    escape_nix_string, write_nix_string_binding, CheckDerivationBuilder, NoticeListBuilder,
};
use autonix::version::{SemanticVersion, VersionDetection, VersionInfo};
use autonix::{
    CommandExecutable, Language, PackageManager, TaskCommand, TaskRunner, VersionConstraint,
    VersionSource,
};

fn semver(major: Option<u32>, minor: Option<u32>, patch: Option<u32>) -> SemanticVersion {
    SemanticVersion {
        major,
        minor,
        patch,
        pre_release: None,
        build: None,
        constraint: VersionConstraint::Exact,
    }
}

#[test]
fn test_nix_escape_quotes() {
    assert_eq!(escape_nix_string("hello \"world\""), "hello \\\"world\\\"");
}

#[test]
fn test_nix_escape_dollar_brace() {
    assert_eq!(escape_nix_string("${foo}"), "\\${foo}");
    assert_eq!(escape_nix_string("$foo"), "$foo");
}

#[test]
fn test_nix_escape_backslash() {
    assert_eq!(escape_nix_string("foo\\bar"), "foo\\\\bar");
}

#[test]
fn test_nix_escape_newlines_tabs() {
    assert_eq!(escape_nix_string("foo\nbar\ttab"), "foo\\nbar\\ttab");
}

#[test]
fn test_nix_escape_combined() {
    assert_eq!(
        escape_nix_string("echo \"${VAR}\" > file\\nend"),
        "echo \\\"\\${VAR}\\\" > file\\\\nend"
    );
}

#[test]
fn test_escape_nix_string_quotes() {
    assert_eq!(escape_nix_string("hello \"world\""), "hello \\\"world\\\"");
}

#[test]
fn test_escape_nix_string_dollar_brace() {
    assert_eq!(escape_nix_string("${foo}"), "\\${foo}");
    assert_eq!(escape_nix_string("$foo"), "$foo");
}

#[test]
fn test_escape_nix_string_backslash() {
    assert_eq!(escape_nix_string("C:\\path\\to\\file"), "C:\\\\path\\\\to\\\\file");
}

#[test]
fn test_escape_nix_string_newlines() {
    assert_eq!(escape_nix_string("line1\nline2\r\nline3"), "line1\\nline2\\r\\nline3");
}

#[test]
fn test_write_nix_string_binding() {
    let mut buf = String::new();
    write_nix_string_binding(&mut buf, "  ", "myVar", "hello world");
    assert_eq!(buf, "  myVar = \"hello world\";\n");
}

#[test]
fn test_write_nix_string_binding_with_escaping() {
    let mut buf = String::new();
    write_nix_string_binding(&mut buf, "", "cmd", "echo \"${VAR}\"");
    assert_eq!(buf, "cmd = \"echo \\\"\\${VAR}\\\"\";\n");
}

#[test]
fn test_notice_list_builder_with_notice() {
    let builder = NoticeListBuilder::new("  ");
    let result = builder.build(Some("Test notice"));
    assert!(result.contains("notices = ["));
    assert!(result.contains("\"Test notice\""));
}

#[test]
fn test_notice_list_builder_empty() {
    let builder = NoticeListBuilder::new("  ");
    let result = builder.build(None);
    assert_eq!(result, "  notices = [];\n");
}

#[test]
fn test_check_derivation_builder() {
    let builder = CheckDerivationBuilder::new(
        String::from("test-key"),
        String::from("check-test-key"),
        String::from("npm run test"),
        String::from("npm"),
        String::from("npm run test"),
        String::from("."),
    );
    let result = builder.build();
    assert!(result.contains("\"test-key\" = let"));
    assert!(result.contains("cmd = \"npm run test\";"));
    assert!(result.contains("requiredExec = \"npm\";"));
    assert!(result.contains("pkgs.runCommand \"check-test-key\""));
}

#[test]
fn test_python_attr_from_version() {
    let version = semver(Some(3), Some(11), None);
    assert_eq!(python_attr_from_version(&version), Some(String::from("python311")));
}

#[test]
fn test_python_attr_from_version_missing_minor() {
    let version = semver(Some(3), None, None);
    assert_eq!(python_attr_from_version(&version), None);
}

#[test]
fn test_node_attr_from_version() {
    let version = semver(Some(20), Some(10), Some(0));
    assert_eq!(node_attr_from_version(&version), Some(String::from("nodejs_20")));
}

#[test]
fn test_go_attr_from_version() {
    let version = semver(Some(1), Some(21), Some(3));
    assert_eq!(go_attr_from_version(&version), Some(String::from("go_1_21")));
}

#[test]
fn test_slugify_identifier() {
    assert_eq!(slugify_identifier("test:build"), "test-build");
    assert_eq!(slugify_identifier("my_test___name"), "my-test-name");
    assert_eq!(slugify_identifier("CamelCase"), "camelcase");
    assert_eq!(slugify_identifier("multiple---dashes"), "multiple-dashes");
}

#[test]
fn test_infer_check_language_from_cargo() {
    let lang = infer_check_language(TaskRunner::Cargo, "cargo", None);
    assert_eq!(lang, Some(Language::Rust));
}

#[test]
fn test_infer_check_language_from_npm_scripts() {
    let lang = infer_check_language(TaskRunner::NpmScripts, "npm", None);
    assert_eq!(lang, Some(Language::JavaScript));
}

#[test]
fn test_infer_check_language_falls_back_to_primary() {
    let lang = infer_check_language(TaskRunner::Make, "make", Some(Language::Python));
    assert_eq!(lang, Some(Language::Python));
}

#[test]
fn test_resolve_task_command_direct() {
    let cmd = TaskCommand {
        name: String::from("test"),
        executable: CommandExecutable::Direct { command: String::from("cargo test") },
        description: None,
    };
    let files: Vec<autonix::FileEntry> = Vec::new();
    let (info, pm) = resolve_task_command(&cmd, "root", &files);
    assert_eq!(info.required_exec, "cargo");
    assert_eq!(info.command, "cargo test");
    assert_eq!(info.workdir, ".");
    assert_eq!(info.display, "cargo test");
    assert!(pm.is_none());
}

#[test]
fn test_resolve_task_command_script_defaults_to_npm() {
    let cmd = TaskCommand {
        name: String::from("test"),
        executable: CommandExecutable::PackageManagerScript {
            script_name: String::from("test"),
            script_body: String::from("jest"),
            package_json_path: String::from("root/package.json"),
        },
        description: None,
    };
    let files = vec![autonix::FileEntry {
        path: String::from("root/package.json"),
        is_file: true,
        content: Some(String::from("{\"scripts\": {\"test\": \"jest\"}}")),
    }];
    let (info, pm) = resolve_task_command(&cmd, "root", &files);
    assert_eq!(info.required_exec, "npm");
    assert_eq!(info.command, "npm run test");
    assert_eq!(info.display, "npm run test  # jest");
    assert_eq!(pm, Some(PackageManager::Npm));
}

#[test]
fn test_build_check_spec_deduplication() {
    let mut key_counts: Vec<(String, u32)> = Vec::new();
    let cmd = TaskCommand {
        name: String::from("test"),
        executable: CommandExecutable::Direct { command: String::from("npm test") },
        description: None,
    };
    let info1 = CommandInfo {
        required_exec: String::from("npm"),
        command: String::from("npm test"),
        workdir: String::from("."),
        display: String::from("npm test"),
    };
    let info2 = CommandInfo {
        required_exec: String::from("npm"),
        command: String::from("npm test"),
        workdir: String::from("."),
        display: String::from("npm test"),
    };
    let spec1 = build_check_spec(
        &cmd,
        info1,
        Some(Language::JavaScript),
        CheckCategory::Test,
        TaskRunner::NpmScripts,
        "root",
        &mut key_counts,
    );
    let spec2 = build_check_spec(
        &cmd,
        info2,
        Some(Language::JavaScript),
        CheckCategory::Test,
        TaskRunner::NpmScripts,
        "root",
        &mut key_counts,
    );
    assert_ne!(spec1.key, spec2.key);
    assert!(spec2.key.ends_with("-2"));
}

#[test]
fn test_go_notice_with_patch_version() {
    let version_info = VersionInfo {
        raw: String::from("1.21.3"),
        source: VersionSource::GoModDirective,
        parsed: Some(SemanticVersion {
            major: Some(1),
            minor: Some(21),
            patch: Some(3),
            pre_release: None,
            build: None,
            constraint: VersionConstraint::Exact,
        }),
        path: String::from("go.mod"),
    };
    let notice = go_notice(Some(&version_info), Some("go_1_21")).unwrap();
    assert!(notice.contains("1.21.3"));
    assert!(notice.contains("go_1_21"));
    assert!(notice.contains("patch may differ"));
}

#[test]
fn test_python_notice_with_constraint() {
    let version_info = VersionInfo {
        raw: String::from(">=3.10"),
        source: VersionSource::PyprojectRequiresPython,
        parsed: Some(SemanticVersion {
            major: Some(3),
            minor: Some(10),
            patch: None,
            pre_release: None,
            build: None,
            constraint: VersionConstraint::GreaterOrEqual,
        }),
        path: String::from("pyproject.toml"),
    };
    let notice = python_notice(Some(&version_info), Some("python310")).unwrap();
    assert!(notice.contains(">=3.10"));
    assert!(notice.contains("patch may differ"));
}

#[test]
fn test_generate_version_notice() {
    let version_info = VersionInfo {
        raw: String::from("1.21.3"),
        source: VersionSource::GoModDirective,
        parsed: Some(semver(Some(1), Some(21), Some(3))),
        path: String::from("go.mod"),
    };
    let notice = generate_version_notice(
        "Go",
        Some(&version_info),
        Some("go_1_21"),
        "go",
        Some("note: test"),
    )
    .unwrap();
    assert!(notice.contains("Go: requested 1.21.3"));
    assert!(notice.contains("go_1_21"));
    assert!(notice.contains("note: test"));
}

#[test]
fn test_generate_flake_inputs_without_rust_overlay() {
    let result = generate_flake_inputs(false);
    assert!(result.contains("nixpkgs.url"));
    assert!(result.contains("flake-utils.url"));
    assert!(!result.contains("rust-overlay"));
}

#[test]
fn test_generate_flake_inputs_with_rust_overlay() {
    let result = generate_flake_inputs(true);
    assert!(result.contains("rust-overlay"));
    assert!(result.contains("oxalica/rust-overlay"));
}

#[test]
fn test_generate_devshell_binding_all_languages() {
    let result = generate_devshell_binding(true, true, true, true);
    assert!(result.contains("golangPackages.go"));
    assert!(result.contains("pythonPackages.python"));
    assert!(result.contains("nodejsPackages.node"));
    assert!(result.contains("rustPackages.rustToolchain"));
}

#[test]
fn test_generate_checks_binding_empty() {
    let files: Vec<autonix::CheckFile> = Vec::new();
    let result = generate_checks_binding(&files);
    assert_eq!(result.trim(), "checks = {};");
}

#[test]
fn test_command_first_word() {
    assert_eq!(command_first_word("npm run test"), Some(String::from("npm")));
    assert_eq!(command_first_word("cargo build --release"), Some(String::from("cargo")));
    assert_eq!(command_first_word("  spaced  "), Some(String::from("spaced")));
    assert_eq!(command_first_word(""), None);
}

#[test]
fn test_best_version_info_prefers_highest_version() {
    let metadata = ProjectMetadata {
        languages: Vec::new(),
        versions: vec![VersionDetection {
            language: Language::Go,
            versions: vec![
                VersionInfo {
                    raw: String::from("1.21"),
                    parsed: Some(semver(Some(1), Some(21), None)),
                    source: VersionSource::GoModDirective,
                    path: String::from("go.mod"),
                },
                VersionInfo {
                    raw: String::from("1.19"),
                    parsed: Some(semver(Some(1), Some(19), None)),
                    source: VersionSource::GoVersionFile,
                    path: String::from(".go-version"),
                },
            ],
        }],
        package_managers: Vec::new(),
        task_runners: Vec::new(),
    };
    let sources = go_version_sources();
    let version = best_version_info(&metadata, Language::Go, &sources).unwrap();
    let parsed = version.parsed.as_ref().unwrap();
    assert_eq!(parsed.major, Some(1));
    assert_eq!(parsed.minor, Some(21));
}

#[test]
fn test_best_version_selection_orders_mixed_sources() {
    let infos = ["1.19", "1.21", "1.20"];
    let minors = [19u32, 21, 20];
    let versions: Vec<VersionInfo> = infos
        .iter()
        .zip(minors.iter())
        .map(|(raw, minor)| VersionInfo {
            raw: String::from(*raw),
            parsed: Some(semver(Some(1), Some(*minor), None)),
            source: VersionSource::GoModDirective,
            path: String::from("go.mod"),
        })
        .collect();
    let metadata = ProjectMetadata {
        languages: Vec::new(),
        versions: vec![VersionDetection { language: Language::Go, versions }],
        package_managers: Vec::new(),
        task_runners: Vec::new(),
    };
    let sources = go_version_sources();
    let best = best_version_info(&metadata, Language::Go, &sources).unwrap();
    let parsed = best.parsed.as_ref().unwrap();
    assert_eq!((parsed.major, parsed.minor, parsed.patch), (Some(1), Some(21), None));
}

#[test]
fn test_best_version_info_filters_by_allowed_sources() {
    let metadata = ProjectMetadata {
        languages: Vec::new(),
        versions: vec![VersionDetection {
            language: Language::JavaScript,
            versions: vec![
                VersionInfo {
                    raw: String::from("18.0.0"),
                    parsed: Some(semver(Some(18), Some(0), Some(0))),
                    source: VersionSource::NodeVersionFile,
                    path: String::from(".node-version"),
                },
                VersionInfo {
                    raw: String::from("999.0.0"),
                    parsed: Some(semver(Some(999), Some(0), Some(0))),
                    source: VersionSource::BunVersionFile,
                    path: String::from(".bun-version"),
                },
            ],
        }],
        package_managers: Vec::new(),
        task_runners: Vec::new(),
    };
    let sources = node_version_sources();
    let version = best_version_info(&metadata, Language::JavaScript, &sources).unwrap();
    assert!(matches!(version.source, VersionSource::NodeVersionFile));
    assert_eq!(version.raw, "18.0.0");
}

#[test]
fn test_best_version_treats_absent_fields_as_zero() {
    let metadata = ProjectMetadata {
        languages: Vec::new(),
        versions: vec![VersionDetection {
            language: Language::Go,
            versions: vec![
                VersionInfo {
                    raw: String::from("1.0.5"),
                    parsed: Some(semver(Some(1), Some(0), Some(5))),
                    source: VersionSource::GoModDirective,
                    path: String::from("go.mod"),
                },
                VersionInfo {
                    raw: String::from("1.x.9"),
                    parsed: Some(semver(Some(1), None, Some(9))),
                    source: VersionSource::GoVersionFile,
                    path: String::from(".go-version"),
                },
            ],
        }],
        package_managers: Vec::new(),
        task_runners: Vec::new(),
    };
    let sources = go_version_sources();
    let best = best_version_info(&metadata, Language::Go, &sources).unwrap();
    assert_eq!(best.raw, "1.x.9");
    let parsed = best.parsed.as_ref().unwrap();
    assert_eq!((parsed.major, parsed.minor, parsed.patch), (Some(1), None, Some(9)));
}
