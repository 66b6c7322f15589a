use autonix::version::{
    parse_constraint, parse_go_mod, parse_package_json, parse_pipfile, parse_semantic_version,
    parse_setup_py, parse_simple_version_file, parse_version_or_expression, versions_for_signal,
};
use autonix::{
    LanguageDetectionSignal, LanguageDetectionSource, VersionConstraint, VersionSource,
};

fn chars_of(s: &str) -> Vec<char> {
    s.chars().collect()
}

fn text_of(v: &Vec<char>) -> String {
    v.iter().collect()
}

#[test]
fn test_exact_constraint() {
    let (c, rest) = parse_constraint(&chars_of("1.2.3"));
    assert!(matches!(c, VersionConstraint::Exact));
    assert_eq!(text_of(&rest), "1.2.3");
    let (c, rest) = parse_constraint(&chars_of("=1.2.3"));
    assert!(matches!(c, VersionConstraint::Exact));
    assert_eq!(text_of(&rest), "1.2.3");
}

#[test]
fn test_greater_or_equal() {
    let (c, rest) = parse_constraint(&chars_of(">=1.2.3"));
    assert!(matches!(c, VersionConstraint::GreaterOrEqual));
    assert_eq!(text_of(&rest), "1.2.3");
}

#[test]
fn test_less_or_equal() {
    let (c, rest) = parse_constraint(&chars_of("<=1.2.3"));
    assert!(matches!(c, VersionConstraint::LessOrEqual));
    assert_eq!(text_of(&rest), "1.2.3");
}

#[test]
fn test_greater_than() {
    let (c, rest) = parse_constraint(&chars_of(">1.2.3"));
    assert!(matches!(c, VersionConstraint::GreaterThan));
    assert_eq!(text_of(&rest), "1.2.3");
}

#[test]
fn test_less_than() {
    let (c, rest) = parse_constraint(&chars_of("<1.2.3"));
    assert!(matches!(c, VersionConstraint::LessThan));
    assert_eq!(text_of(&rest), "1.2.3");
}

#[test]
fn test_caret_constraint() {
    let (c, rest) = parse_constraint(&chars_of("^1.2.3"));
    assert!(matches!(c, VersionConstraint::Caret));
    assert_eq!(text_of(&rest), "1.2.3");
}

#[test]
fn test_tilde_constraint() {
    let (c, rest) = parse_constraint(&chars_of("~1.2.3"));
    assert!(matches!(c, VersionConstraint::Tilde));
    assert_eq!(text_of(&rest), "1.2.3");
}

#[test]
fn test_whitespace_handling() {
    let (c, rest) = parse_constraint(&chars_of(">=  1.2.3  "));
    assert!(matches!(c, VersionConstraint::GreaterOrEqual));
    assert_eq!(text_of(&rest), "1.2.3");
}

#[test]
fn test_empty_string() {
    let (c, rest) = parse_constraint(&chars_of(""));
    assert!(matches!(c, VersionConstraint::Exact));
    assert_eq!(text_of(&rest), "");
}

#[test]
fn test_full_version() {
    let result = parse_semantic_version("1.2.3").unwrap();
    assert_eq!(result.major, Some(1));
    assert_eq!(result.minor, Some(2));
    assert_eq!(result.patch, Some(3));
    assert_eq!(result.pre_release, None);
    assert_eq!(result.build, None);
    assert!(matches!(result.constraint, VersionConstraint::Exact));
}

#[test]
fn test_version_with_v_prefix() {
    let result = parse_semantic_version("v1.2.3").unwrap();
    assert_eq!(result.major, Some(1));
    assert_eq!(result.minor, Some(2));
    assert_eq!(result.patch, Some(3));
}

#[test]
fn test_python_prefix() {
    let result = parse_semantic_version("python-3.9.0").unwrap();
    assert_eq!(result.major, Some(3));
    assert_eq!(result.minor, Some(9));
    assert_eq!(result.patch, Some(0));
}

#[test]
fn test_node_prefix() {
    let result = parse_semantic_version("node-18.0.0").unwrap();
    assert_eq!(result.major, Some(18));
    assert_eq!(result.minor, Some(0));
    assert_eq!(result.patch, Some(0));
}

#[test]
fn test_partial_version_major_minor() {
    let result = parse_semantic_version("1.2").unwrap();
    assert_eq!(result.major, Some(1));
    assert_eq!(result.minor, Some(2));
    assert_eq!(result.patch, None);
}

#[test]
fn test_partial_version_major_only() {
    let result = parse_semantic_version("1").unwrap();
    assert_eq!(result.major, Some(1));
    assert_eq!(result.minor, None);
    assert_eq!(result.patch, None);
}

#[test]
fn test_pre_release_version() {
    let result = parse_semantic_version("1.2.3-alpha").unwrap();
    assert_eq!(result.major, Some(1));
    assert_eq!(result.minor, Some(2));
    assert_eq!(result.patch, Some(3));
    assert_eq!(result.pre_release, Some(String::from("alpha")));
    assert_eq!(result.build, None);
}

#[test]
fn test_pre_release_with_number() {
    let result = parse_semantic_version("1.2.3-beta.1").unwrap();
    assert_eq!(result.pre_release, Some(String::from("beta.1")));
}

#[test]
fn test_build_metadata() {
    let result = parse_semantic_version("1.2.3+build123").unwrap();
    assert_eq!(result.major, Some(1));
    assert_eq!(result.minor, Some(2));
    assert_eq!(result.patch, Some(3));
    assert_eq!(result.pre_release, None);
    assert_eq!(result.build, Some(String::from("build123")));
}

#[test]
fn test_pre_release_and_build() {
    let result = parse_semantic_version("1.2.3-alpha+build").unwrap();
    assert_eq!(result.pre_release, Some(String::from("alpha")));
    assert_eq!(result.build, Some(String::from("build")));
}

#[test]
fn test_wildcard() {
    let result = parse_semantic_version("*").unwrap();
    assert_eq!(result.major, None);
    assert_eq!(result.minor, None);
    assert_eq!(result.patch, None);
    assert!(matches!(result.constraint, VersionConstraint::Wildcard));
}

#[test]
fn test_greater_or_equal_constraint() {
    let result = parse_semantic_version(">=1.2.3").unwrap();
    assert_eq!(result.major, Some(1));
    assert!(matches!(result.constraint, VersionConstraint::GreaterOrEqual));
}

#[test]
fn version_test_caret_constraint() {
    let result = parse_semantic_version("^1.2.3").unwrap();
    assert!(matches!(result.constraint, VersionConstraint::Caret));
}

#[test]
fn version_test_tilde_constraint() {
    let result = parse_semantic_version("~1.2.3").unwrap();
    assert!(matches!(result.constraint, VersionConstraint::Tilde));
}

#[test]
fn test_whitespace() {
    let result = parse_semantic_version("  1.2.3  ").unwrap();
    assert_eq!(result.major, Some(1));
    assert_eq!(result.minor, Some(2));
    assert_eq!(result.patch, Some(3));
}

#[test]
fn version_test_empty_string() {
    assert!(parse_semantic_version("").is_none());
}

#[test]
fn test_invalid_format() {
    assert!(parse_semantic_version("invalid").is_none());
    assert!(parse_semantic_version("a.b.c").is_none());
}

#[test]
fn test_constraint_only() {
    assert!(parse_semantic_version(">=").is_none());
    assert!(parse_semantic_version("^").is_none());
}

#[test]
fn test_single_version() {
    let result = parse_version_or_expression("1.2.3").unwrap();
    assert_eq!(result.major, Some(1));
    assert_eq!(result.minor, Some(2));
    assert_eq!(result.patch, Some(3));
}

#[test]
fn test_or_expression_picks_max() {
    let result = parse_version_or_expression(">=3.8 || >=3.9").unwrap();
    assert_eq!(result.major, Some(3));
    assert_eq!(result.minor, Some(9));
}

#[test]
fn test_or_expression_multiple_versions() {
    let result = parse_version_or_expression("1.0.0 || 2.0.0 || 1.5.0").unwrap();
    assert_eq!(result.major, Some(2));
    assert_eq!(result.minor, Some(0));
    assert_eq!(result.patch, Some(0));
}

#[test]
fn test_or_expression_with_whitespace() {
    let result = parse_version_or_expression("  1.0.0  ||  2.0.0  ").unwrap();
    assert_eq!(result.major, Some(2));
}

#[test]
fn test_or_expression_with_invalid_parts() {
    let result = parse_version_or_expression("invalid || 1.2.3");
    assert!(result.is_some());
}

#[test]
fn test_all_invalid_or_expression() {
    assert!(parse_version_or_expression("invalid || bad").is_none());
}

#[test]
fn test_or_expression_resolves_to_major_eighteen() {
    let result = parse_version_or_expression(">=16.0.0 || >=18.0.0").unwrap();
    assert_eq!(result.major, Some(18));
    assert_eq!(result.minor, Some(0));
    assert_eq!(result.patch, Some(0));
}

#[test]
fn test_parse_go_mod_directive() {
    let infos = parse_go_mod("module example.com\n\ngo 1.21\n", "go.mod");
    assert_eq!(infos.len(), 1);
    assert_eq!(infos[0].raw, "1.21");
    let parsed = infos[0].parsed.as_ref().unwrap();
    assert_eq!(parsed.major, Some(1));
    assert_eq!(parsed.minor, Some(21));
    assert!(matches!(infos[0].source, VersionSource::GoModDirective));
}

#[test]
fn test_parse_go_mod_without_directive() {
    let infos = parse_go_mod("module example.com\n", "go.mod");
    assert_eq!(infos.len(), 0);
}

#[test]
fn test_parse_simple_version_file_trims() {
    let infos = parse_simple_version_file("  3.11.0\n", VersionSource::PythonVersionFile, ".python-version");
    assert_eq!(infos.len(), 1);
    assert_eq!(infos[0].raw, "3.11.0");
}

#[test]
fn test_parse_simple_version_file_empty() {
    let infos = parse_simple_version_file("  \n ", VersionSource::NvmrcFile, ".nvmrc");
    assert_eq!(infos.len(), 0);
}

#[test]
fn test_parse_package_json_engines() {
    let content = "{\"engines\": {\"node\": \">=18.0.0\", \"bun\": \"1.0.0\"}}";
    let infos = parse_package_json(content, "package.json");
    assert_eq!(infos.len(), 2);
    assert_eq!(infos[0].raw, ">=18.0.0");
    assert!(matches!(infos[0].source, VersionSource::PackageJsonEnginesNode));
    assert_eq!(infos[1].raw, "1.0.0");
    assert!(matches!(infos[1].source, VersionSource::PackageJsonEnginesBun));
}

#[test]
fn test_parse_package_json_without_engines() {
    let infos = parse_package_json("{\"name\": \"demo\"}", "package.json");
    assert_eq!(infos.len(), 0);
}

#[test]
fn test_parse_setup_py_scrape() {
    let content = "from setuptools import setup\nsetup(\n    python_requires=\">=3.8\",\n)\n";
    let infos = parse_setup_py(content, "setup.py");
    assert_eq!(infos.len(), 1);
    assert_eq!(infos[0].raw, ">=3.8");
    assert!(matches!(infos[0].source, VersionSource::SetupPyPythonRequires));
}

#[test]
fn test_parse_setup_py_no_match() {
    let infos = parse_setup_py("setup(name='x')\n", "setup.py");
    assert_eq!(infos.len(), 0);
}

#[test]
fn test_parse_pipfile_requires() {
    let content = "[requires]\npython_version = \"3.11\"\n";
    let infos = parse_pipfile(content, "Pipfile");
    assert_eq!(infos.len(), 1);
    assert_eq!(infos[0].raw, "3.11");
}

#[test]
fn version_test_signal_conversion_weak_signal() {
    let signal = LanguageDetectionSignal::Weak(LanguageDetectionSource::GoFile);
    let infos = versions_for_signal(&signal, None);
    assert!(infos.is_empty());
}

#[test]
fn test_version_detection_no_versions() {
    let signal = LanguageDetectionSignal::Strong {
        path: String::from("go.sum"),
        source: LanguageDetectionSource::GoSum,
    };
    let content = String::from("whatever");
    let infos = versions_for_signal(&signal, Some(&content));
    assert!(infos.is_empty());
}

#[test]
fn test_pre_release_spans_later_dashes() {
    let result = parse_semantic_version("1.2.3-rc-1").unwrap();
    assert_eq!(result.pre_release, Some(String::from("rc-1")));
}

#[test]
fn test_or_expression_absent_fields_count_as_zero() {
    let result = parse_version_or_expression("1.0 || 1").unwrap();
    assert_eq!(result.major, Some(1));
    assert_eq!(result.minor, None);
}
