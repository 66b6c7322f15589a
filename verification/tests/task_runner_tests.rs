use autonix::task_runner::{
    classify_command, extract_invoke_commands, extract_invoke_yaml_commands,
    extract_makefile_commands, extract_nox_commands, extract_npm_commands, extract_nx_commands,
    extract_taskfile_commands, extract_tox_commands, extract_turbo_commands, get_rollup_commands,
    get_rspack_commands, get_vite_commands, get_webpack_commands, CommandCategory,
};
use autonix::{CommandExecutable, TaskRunner, TaskRunnerCommands, TaskRunnerDetection,
    TaskRunnerFile, TaskRunnerSource};

fn cat_of(name: &str) -> CommandCategory {
    let v: Vec<char> = name.chars().collect();
    classify_command(&v)
}

fn direct_command(c: &CommandExecutable) -> &str {
    match c {
        CommandExecutable::Direct { command } => command.as_str(),
        _ => panic!("expected a direct command"),
    }
}

#[test]
fn test_task_runner_from_source_makefile() {
    assert_eq!(TaskRunnerSource::Makefile.runner(), TaskRunner::Make);
}

#[test]
fn test_task_runner_from_source_justfile() {
    assert_eq!(TaskRunnerSource::Justfile.runner(), TaskRunner::Just);
}

#[test]
fn test_task_runner_from_source_taskfile() {
    assert_eq!(TaskRunnerSource::TaskfileYml.runner(), TaskRunner::Task);
    assert_eq!(TaskRunnerSource::TaskfileYaml.runner(), TaskRunner::Task);
}

#[test]
fn test_task_runner_from_source_npm() {
    assert_eq!(TaskRunnerSource::PackageJson.runner(), TaskRunner::NpmScripts);
}

#[test]
fn test_task_runner_commands_default() {
    let commands = TaskRunnerCommands::default();
    assert!(commands.test.is_empty());
    assert!(commands.build.is_empty());
    assert!(commands.other.is_empty());
}

#[test]
fn test_try_from_makefile() {
    let file = TaskRunnerFile::try_from_entry(
        "Makefile",
        true,
        Some(String::from("test:\n\techo test")),
    )
    .unwrap();
    assert_eq!(file.task_runner, TaskRunner::Make);
    assert_eq!(file.source, TaskRunnerSource::Makefile);
    assert_eq!(file.path, "Makefile");
    assert!(file.content.is_some());
}

#[test]
fn test_try_from_justfile() {
    let file = TaskRunnerFile::try_from_entry(
        "justfile",
        true,
        Some(String::from("test:\n  echo test")),
    )
    .unwrap();
    assert_eq!(file.task_runner, TaskRunner::Just);
    assert_eq!(file.source, TaskRunnerSource::Justfile);
}

#[test]
fn test_try_from_package_json() {
    let file = TaskRunnerFile::try_from_entry(
        "package.json",
        true,
        Some(String::from("{\"scripts\": {\"test\": \"jest\"}}")),
    )
    .unwrap();
    assert_eq!(file.task_runner, TaskRunner::NpmScripts);
    assert_eq!(file.source, TaskRunnerSource::PackageJson);
}

#[test]
fn test_try_from_nonexistent_file() {
    assert!(TaskRunnerFile::try_from_entry("/nonexistent/path/Makefile", false, None).is_none());
}

#[test]
fn test_try_from_directory() {
    assert!(TaskRunnerFile::try_from_entry("Makefile", false, None).is_none());
}

#[test]
fn test_try_from_unknown_file() {
    assert!(TaskRunnerFile::try_from_entry("unknown.txt", true, Some(String::from("content")))
        .is_none());
}

#[test]
fn test_extract_makefile_commands() {
    let content = "test:\n\tcargo test\n\nbuild:\n\tcargo build\n\n.PHONY: clean\n";
    let commands = extract_makefile_commands(content);
    assert_eq!(commands.test.len(), 1);
    assert_eq!(commands.test[0].name, "test");
    assert_eq!(direct_command(&commands.test[0].executable), "make test");
    assert_eq!(commands.build.len(), 1);
    assert_eq!(direct_command(&commands.build[0].executable), "make build");
}

#[test]
fn test_extract_npm_commands() {
    let content = "{\"scripts\": {\"build\": \"vite build\", \"test\": \"jest\"}}";
    let commands = extract_npm_commands(content, "/test/package.json");
    assert_eq!(commands.test.len(), 1);
    assert_eq!(commands.test[0].name, "test");
    match &commands.test[0].executable {
        CommandExecutable::PackageManagerScript { script_name, script_body, package_json_path } => {
            assert_eq!(script_name, "test");
            assert_eq!(script_body, "jest");
            assert_eq!(package_json_path, "/test/package.json");
        }
        _ => panic!("expected a manifest script"),
    }
    assert_eq!(commands.build.len(), 1);
    assert_eq!(commands.build[0].name, "build");
}

#[test]
fn test_classify_command() {
    assert_eq!(cat_of("test"), CommandCategory::Test);
    assert_eq!(cat_of("unit-test"), CommandCategory::Test);
    assert_eq!(cat_of("build"), CommandCategory::Build);
    assert_eq!(cat_of("compile"), CommandCategory::Build);
    assert_eq!(cat_of("dev"), CommandCategory::Other);
    assert_eq!(cat_of("serve"), CommandCategory::Other);
    assert_eq!(cat_of("lint"), CommandCategory::Other);
    assert_eq!(cat_of("eslint"), CommandCategory::Other);
    assert_eq!(cat_of("format"), CommandCategory::Other);
    assert_eq!(cat_of("fmt"), CommandCategory::Other);
    assert_eq!(cat_of("random"), CommandCategory::Other);
}

#[test]
fn test_extract_vite_commands() {
    let commands = get_vite_commands();
    assert_eq!(commands.build.len(), 1);
    assert_eq!(commands.build[0].name, "build");
    assert_eq!(direct_command(&commands.build[0].executable), "vite build");
    assert_eq!(commands.build[0].description, Some(String::from("Build for production")));
    assert_eq!(commands.other.len(), 2);
    assert_eq!(commands.other[0].name, "dev");
    assert_eq!(direct_command(&commands.other[0].executable), "vite");
    assert_eq!(commands.other[0].description, Some(String::from("Start dev server")));
    assert_eq!(commands.other[1].name, "preview");
    assert_eq!(direct_command(&commands.other[1].executable), "vite preview");
    assert_eq!(commands.other[1].description, Some(String::from("Preview production build")));
}

#[test]
fn test_extract_webpack_commands() {
    let commands = get_webpack_commands();
    assert_eq!(commands.build.len(), 1);
    assert_eq!(commands.build[0].name, "build");
    assert_eq!(direct_command(&commands.build[0].executable), "webpack build");
    assert_eq!(commands.build[0].description, Some(String::from("Build for production")));
    assert_eq!(commands.other[0].name, "serve");
    assert_eq!(direct_command(&commands.other[0].executable), "webpack serve");
    assert_eq!(commands.other[0].description, Some(String::from("Start dev server")));
    assert_eq!(commands.other[1].name, "watch");
    assert_eq!(direct_command(&commands.other[1].executable), "webpack watch");
    assert_eq!(commands.other[1].description, Some(String::from("Watch for file changes")));
}

#[test]
fn test_extract_rspack_commands() {
    let commands = get_rspack_commands();
    assert_eq!(commands.build.len(), 1);
    assert_eq!(commands.build[0].name, "build");
    assert_eq!(direct_command(&commands.build[0].executable), "rspack build");
    assert_eq!(commands.build[0].description, Some(String::from("Build for production")));
    assert_eq!(commands.other[0].name, "dev");
    assert_eq!(direct_command(&commands.other[0].executable), "rspack dev");
    assert_eq!(commands.other[0].description, Some(String::from("Start dev server")));
    assert_eq!(commands.other[1].name, "preview");
    assert_eq!(direct_command(&commands.other[1].executable), "rspack preview");
    assert_eq!(commands.other[1].description, Some(String::from("Preview production build")));
}

#[test]
fn test_extract_rollup_commands() {
    let commands = get_rollup_commands();
    assert_eq!(commands.build.len(), 1);
    assert_eq!(commands.build[0].name, "build");
    assert_eq!(direct_command(&commands.build[0].executable), "rollup -c");
    assert_eq!(commands.build[0].description, Some(String::from("Build bundle")));
    assert_eq!(commands.other.len(), 1);
    assert_eq!(commands.other[0].name, "watch");
    assert_eq!(direct_command(&commands.other[0].executable), "rollup -c -w");
    assert_eq!(commands.other[0].description, Some(String::from("Watch and rebuild on changes")));
}

#[test]
fn test_extract_turbo_commands_v1() {
    let content = "{\"pipeline\": {\"build\": {}, \"test\": {}, \"dev\": {}, \"lint\": {}}}";
    let commands = extract_turbo_commands(content);
    assert!(commands.test.iter().any(|c| c.name == "test"
        && direct_command(&c.executable) == "turbo run test"));
    assert!(commands.build.iter().any(|c| c.name == "build"
        && direct_command(&c.executable) == "turbo run build"));
    assert!(commands.other.iter().any(|c| c.name == "dev"
        && direct_command(&c.executable) == "turbo run dev"));
    assert!(commands.other.iter().any(|c| c.name == "lint"
        && direct_command(&c.executable) == "turbo run lint"));
}

#[test]
fn test_extract_turbo_commands_v2() {
    let content = "{\"tasks\": {\"build\": {}, \"test\": {}, \"dev\": {}}}";
    let commands = extract_turbo_commands(content);
    assert_eq!(commands.test.len(), 1);
    assert_eq!(commands.build.len(), 1);
    assert_eq!(commands.other.len(), 1);
}

#[test]
fn test_extract_turbo_commands_invalid_json() {
    let commands = extract_turbo_commands("not valid json");
    assert!(commands.test.is_empty());
    assert!(commands.build.is_empty());
    assert!(commands.other.is_empty());
}

#[test]
fn test_try_from_turbo_json() {
    let file = TaskRunnerFile::try_from_entry(
        "turbo.json",
        true,
        Some(String::from("{\"pipeline\": {\"build\": {}, \"test\": {}}}")),
    )
    .unwrap();
    assert_eq!(file.task_runner, TaskRunner::Turbo);
    assert_eq!(file.source, TaskRunnerSource::TurboJson);
}

#[test]
fn test_turbo_file_to_detection() {
    let file = TaskRunnerFile::try_from_entry(
        "turbo.json",
        true,
        Some(String::from("{\"pipeline\": {\"build\": {}, \"test\": {}}}")),
    )
    .unwrap();
    let detection = TaskRunnerDetection::from_file(file);
    assert_eq!(detection.task_runner, TaskRunner::Turbo);
    assert_eq!(detection.commands.test.len(), 1);
    assert_eq!(detection.commands.build.len(), 1);
}

#[test]
fn test_extract_nx_commands_target_defaults() {
    let content =
        "{\"targetDefaults\": {\"build\": {}, \"test\": {}, \"lint\": {}, \"e2e\": {}}}";
    let commands = extract_nx_commands(content);
    assert!(commands.test.iter().any(|c| c.name == "test"
        && direct_command(&c.executable) == "nx run test"));
    assert!(commands.build.iter().any(|c| c.name == "build"
        && direct_command(&c.executable) == "nx run build"));
    assert!(commands.other.iter().any(|c| c.name == "lint"));
    assert!(commands.test.iter().any(|c| c.name == "e2e")
        || commands.other.iter().any(|c| c.name == "e2e"));
}

#[test]
fn test_extract_nx_commands_targets() {
    let content = "{\"targets\": {\"build\": {}, \"test\": {}, \"serve\": {}}}";
    let commands = extract_nx_commands(content);
    assert!(commands.test.iter().any(|c| c.name == "test"
        && direct_command(&c.executable) == "nx run test"));
    assert!(commands.build.iter().any(|c| c.name == "build"
        && direct_command(&c.executable) == "nx run build"));
    assert!(commands.other.iter().any(|c| c.name == "serve"
        && direct_command(&c.executable) == "nx run serve"));
}

#[test]
fn test_extract_nx_commands_invalid_json() {
    let commands = extract_nx_commands("not valid json");
    assert!(commands.test.is_empty());
    assert!(commands.build.is_empty());
    assert!(commands.other.is_empty());
}

#[test]
fn test_extract_nx_commands_empty() {
    let commands =
        extract_nx_commands("{\n  \"$schema\": \"./node_modules/nx/schemas/nx-schema.json\"\n}");
    assert!(commands.test.is_empty());
    assert!(commands.build.is_empty());
    assert!(commands.other.is_empty());
}

#[test]
fn test_try_from_nx_json() {
    let file = TaskRunnerFile::try_from_entry(
        "nx.json",
        true,
        Some(String::from("{\"targetDefaults\": {\"build\": {}, \"test\": {}}}")),
    )
    .unwrap();
    assert_eq!(file.task_runner, TaskRunner::Nx);
    assert_eq!(file.source, TaskRunnerSource::NxJson);
}

#[test]
fn test_nx_file_to_detection() {
    let file = TaskRunnerFile::try_from_entry(
        "nx.json",
        true,
        Some(String::from("{\"targetDefaults\": {\"build\": {}, \"test\": {}}}")),
    )
    .unwrap();
    let detection = TaskRunnerDetection::from_file(file);
    assert_eq!(detection.task_runner, TaskRunner::Nx);
    assert_eq!(detection.commands.test.len(), 1);
    assert_eq!(detection.commands.build.len(), 1);
}

#[test]
fn test_extract_tox_commands_basic() {
    let content = "\n[testenv]\ncommands = pytest tests/\n";
    let commands = extract_tox_commands(content);
    assert_eq!(commands.test.len(), 1);
    assert_eq!(commands.test[0].name, "default");
    assert_eq!(direct_command(&commands.test[0].executable), "tox");
    assert_eq!(commands.test[0].description, None);
}

#[test]
fn test_extract_tox_commands_multiple_envs() {
    let content = "\n[testenv:py39]\ncommands = pytest tests/\n\n[testenv:py310]\ncommands = pytest --cov tests/\n\n[testenv:lint]\ncommands =\n    flake8 src/\n    mypy src/\n";
    let commands = extract_tox_commands(content);
    assert_eq!(commands.test.len(), 2);
    assert_eq!(commands.other.len(), 1);
    assert!(commands.test.iter().any(|c| c.name == "py39"
        && direct_command(&c.executable) == "tox -e py39"));
    assert!(commands.test.iter().any(|c| c.name == "py310"
        && direct_command(&c.executable) == "tox -e py310"));
    assert!(commands.other.iter().any(|c| c.name == "lint"
        && direct_command(&c.executable) == "tox -e lint"));
}

#[test]
fn test_extract_tox_commands_multiline() {
    let content =
        "\n[testenv]\ncommands =\n    pytest --verbose\n    coverage report\n    mypy src/\n";
    let commands = extract_tox_commands(content);
    assert_eq!(commands.test.len(), 1);
    assert_eq!(commands.test[0].name, "default");
    assert_eq!(commands.test[0].description, None);
}

#[test]
fn test_extract_tox_commands_empty() {
    let content = "\n[tox]\nenvlist = py39,py310\n\n[testenv]\ndeps = pytest\n";
    let commands = extract_tox_commands(content);
    assert_eq!(commands.test.len(), 1);
    assert_eq!(commands.test[0].name, "default");
    assert_eq!(direct_command(&commands.test[0].executable), "tox");
}

#[test]
fn test_extract_tox_commands_with_comments() {
    let content = "\n# This is a comment\n[testenv:py39]\n# Another comment\ncommands = pytest tests/\n    # Inline comment\n    coverage report\n";
    let commands = extract_tox_commands(content);
    assert_eq!(commands.test.len(), 1);
    assert_eq!(commands.test[0].name, "py39");
    assert_eq!(commands.test[0].description, None);
}

#[test]
fn test_extract_tox_commands_build_env() {
    let content = "\n[testenv:build]\ncommands = python -m build\n\n[testenv:package]\ncommands =\n    python setup.py sdist\n    python setup.py bdist_wheel\n";
    let commands = extract_tox_commands(content);
    assert_eq!(commands.build.len(), 2);
    assert!(commands.build.iter().any(|c| c.name == "build"
        && direct_command(&c.executable) == "tox -e build"));
    assert!(commands.build.iter().any(|c| c.name == "package"
        && direct_command(&c.executable) == "tox -e package"));
}

#[test]
fn test_try_from_tox_ini() {
    let file = TaskRunnerFile::try_from_entry(
        "tox.ini",
        true,
        Some(String::from("\n[testenv]\ncommands = pytest tests/\n")),
    )
    .unwrap();
    assert_eq!(file.task_runner, TaskRunner::Tox);
    assert_eq!(file.source, TaskRunnerSource::ToxIni);
}

#[test]
fn test_tox_file_to_detection() {
    let file = TaskRunnerFile::try_from_entry(
        "tox.ini",
        true,
        Some(String::from(
            "\n[testenv:py39]\ncommands = pytest tests/\n\n[testenv:py310]\ncommands = pytest --cov tests/\n\n[testenv:lint]\ncommands = flake8 src/\n",
        )),
    )
    .unwrap();
    let detection = TaskRunnerDetection::from_file(file);
    assert_eq!(detection.task_runner, TaskRunner::Tox);
    assert_eq!(detection.commands.test.len(), 2);
    assert_eq!(detection.commands.other.len(), 1);
    assert!(detection.commands.test.iter().any(|c| c.name == "py39"
        && direct_command(&c.executable) == "tox -e py39"));
}

#[test]
fn test_extract_nox_commands_basic() {
    let content = "\nimport nox\n\n@nox.session\ndef test(session):\n    session.run(\"pytest\")\n";
    let commands = extract_nox_commands(content);
    assert_eq!(commands.test.len(), 1);
    assert_eq!(commands.test[0].name, "test");
    assert_eq!(direct_command(&commands.test[0].executable), "nox -s test");
}

#[test]
fn test_extract_nox_commands_multiple_sessions() {
    let content = "\nimport nox\n\n@nox.session\ndef test(session):\n    pass\n\n@nox.session\ndef build(session):\n    pass\n\n@nox.session\ndef lint(session):\n    pass\n";
    let commands = extract_nox_commands(content);
    assert!(commands.test.iter().any(|c| c.name == "test"
        && direct_command(&c.executable) == "nox -s test"));
    assert!(commands.build.iter().any(|c| c.name == "build"
        && direct_command(&c.executable) == "nox -s build"));
    assert!(commands.other.iter().any(|c| c.name == "lint"
        && direct_command(&c.executable) == "nox -s lint"));
}

#[test]
fn test_extract_nox_commands_with_explicit_names() {
    let content = "\nimport nox\n\n@nox.session(name=\"unit-tests\")\ndef unit(session):\n    pass\n\n@nox.session(name=\"integration-tests\")\ndef integration(session):\n    pass\n";
    let commands = extract_nox_commands(content);
    assert!(commands.test.iter().any(|c| c.name == "unit-tests"
        && direct_command(&c.executable) == "nox -s unit-tests"));
    assert!(commands.test.iter().any(|c| c.name == "integration-tests"
        && direct_command(&c.executable) == "nox -s integration-tests"));
}

#[test]
fn test_extract_nox_commands_python_versions() {
    let content = "\nimport nox\n\n@nox.session\ndef py39(session):\n    session.run(\"pytest\")\n\n@nox.session\ndef py310(session):\n    session.run(\"pytest\")\n\n@nox.session\ndef py311(session):\n    session.run(\"pytest\")\n";
    let commands = extract_nox_commands(content);
    assert_eq!(commands.test.len(), 3);
    assert!(commands.test.iter().any(|c| c.name == "py39"
        && direct_command(&c.executable) == "nox -s py39"));
    assert!(commands.test.iter().any(|c| c.name == "py310"
        && direct_command(&c.executable) == "nox -s py310"));
    assert!(commands.test.iter().any(|c| c.name == "py311"
        && direct_command(&c.executable) == "nox -s py311"));
}

#[test]
fn test_extract_nox_commands_with_comments() {
    let content = "\nimport nox\n\n# This is a test session\n@nox.session\ndef test(session):\n    \"\"\"Run the test suite.\"\"\"\n    session.run(\"pytest\")\n\n# Linting session\n@nox.session\ndef lint(session):\n    session.run(\"flake8\")\n";
    let commands = extract_nox_commands(content);
    assert_eq!(commands.test.len(), 1);
    assert_eq!(commands.other.len(), 1);
}

#[test]
fn test_extract_nox_commands_empty() {
    let content = "\nimport nox\n\n# No sessions defined yet\n";
    let commands = extract_nox_commands(content);
    assert_eq!(commands.test.len(), 1);
    assert_eq!(commands.test[0].name, "default");
    assert_eq!(direct_command(&commands.test[0].executable), "nox");
}

#[test]
fn test_extract_nox_commands_with_parameters() {
    let content = "\nimport nox\n\n@nox.session(python=[\"3.9\", \"3.10\", \"3.11\"])\ndef tests(session):\n    session.run(\"pytest\")\n\n@nox.session(python=\"3.10\", name=\"coverage\")\ndef run_coverage(session):\n    session.run(\"pytest\", \"--cov\")\n";
    let commands = extract_nox_commands(content);
    assert_eq!(commands.test.len(), 1);
    assert_eq!(commands.other.len(), 1);
    assert!(commands.test.iter().any(|c| c.name == "tests"
        && direct_command(&c.executable) == "nox -s tests"));
    assert!(commands.other.iter().any(|c| c.name == "coverage"
        && direct_command(&c.executable) == "nox -s coverage"));
}

#[test]
fn test_extract_nox_commands_complex_decorator() {
    let content = "\nimport nox\n\n@nox.session(\n    python=[\"3.9\", \"3.10\", \"3.11\"],\n    name=\"test-all\",\n    reuse_venv=True\n)\ndef test_all_pythons(session):\n    session.run(\"pytest\")\n";
    let commands = extract_nox_commands(content);
    assert_eq!(commands.test.len(), 1);
    assert_eq!(commands.test[0].name, "test-all");
    assert_eq!(direct_command(&commands.test[0].executable), "nox -s test-all");
}

#[test]
fn test_extract_invoke_commands_basic() {
    let content = "\nfrom invoke import task\n\n@task\ndef test(c):\n    c.run(\"pytest\")\n";
    let commands = extract_invoke_commands(content);
    assert_eq!(commands.test.len(), 1);
    assert_eq!(commands.test[0].name, "test");
    assert_eq!(direct_command(&commands.test[0].executable), "invoke test");
}

#[test]
fn test_extract_invoke_commands_multiple_tasks() {
    let content = "\nfrom invoke import task\n\n@task\ndef test(c):\n    pass\n\n@task\ndef build(c):\n    pass\n\n@task\ndef deploy(c):\n    pass\n\n@task\ndef clean(c):\n    pass\n";
    let commands = extract_invoke_commands(content);
    assert_eq!(commands.test.len(), 1);
    assert_eq!(commands.build.len(), 1);
    assert_eq!(commands.other.len(), 2);
    assert_eq!(commands.test[0].name, "test");
    assert_eq!(direct_command(&commands.test[0].executable), "invoke test");
}

#[test]
fn test_extract_invoke_commands_empty() {
    let commands = extract_invoke_commands("\nfrom invoke import task\n");
    assert_eq!(commands.test.len(), 0);
    assert_eq!(commands.build.len(), 0);
    assert_eq!(commands.other.len(), 0);
}

#[test]
fn test_extract_invoke_yaml_commands() {
    let content = "tasks:\n  test:\n    desc: run tests\n  build:\n    desc: build it\n  deploy:\n    desc: ship it\n";
    let commands = extract_invoke_yaml_commands(content);
    assert_eq!(commands.test.len(), 1);
    assert_eq!(commands.build.len(), 1);
    assert_eq!(commands.other.len(), 1);
    assert_eq!(commands.test[0].name, "test");
    assert_eq!(direct_command(&commands.test[0].executable), "invoke test");
}

#[test]
fn test_extract_invoke_yaml_commands_empty() {
    let commands = extract_invoke_yaml_commands("other: {}\n");
    assert!(commands.test.is_empty());
    assert!(commands.build.is_empty());
    assert!(commands.other.is_empty());
}

#[test]
fn test_extract_invoke_yaml_commands_invalid() {
    let commands = extract_invoke_yaml_commands(": not valid yaml :::");
    assert!(commands.test.is_empty());
    assert!(commands.build.is_empty());
    assert!(commands.other.is_empty());
}

#[test]
fn test_extract_taskfile_commands() {
    let content = "version: '3'\ntasks:\n  test:\n    cmds:\n      - go test\n  build:\n    cmds:\n      - go build\n";
    let commands = extract_taskfile_commands(content);
    assert_eq!(commands.test.len(), 1);
    assert_eq!(direct_command(&commands.test[0].executable), "task test");
    assert_eq!(commands.build.len(), 1);
    assert_eq!(direct_command(&commands.build[0].executable), "task build");
}
