use vstd::prelude::*;
use crate::paths::{file_name_of, spec_file_name};
use crate::structured::{
    json_has1, json_object_keys1, json_present_at1, json_keys_at1, json_str_entries_at1,
    json_string_entries1, yaml_keys_at1, yaml_mapping_keys1,
};
use crate::text::{
    chars_contains, chars_eq, chars_starts_with, chars_to_string, concat_str_chars, find_char,
    ident_end, skip_ws, spec_contains_seq, spec_find_char, spec_ident_end, spec_lines,
    spec_find_sub, spec_skip_ws, spec_starts_with, spec_to_lower, str_chars, sub_vec, to_lower, trim, spec_trim,
    split_lines,
};

verus! {

/// The bucket a command is classified into.
#[derive(Debug, Clone, Copy, PartialEq, Eq, Structural)]
pub enum CommandCategory {
    Test,
    Build,
    Other,
}

/// How a command is executed: a literal shell invocation, or a named
/// manifest script that the owning package manager must run.
#[derive(Debug, Clone)]
pub enum CommandExecutable {
    Direct { command: String },
    PackageManagerScript { script_name: String, script_body: String, package_json_path: String },
}

pub enum CommandExecutableModel {
    Direct { command: Seq<char> },
    PackageManagerScript {
        script_name: Seq<char>,
        script_body: Seq<char>,
        package_json_path: Seq<char>,
    },
}

impl View for CommandExecutable {
    type V = CommandExecutableModel;

    open spec fn view(&self) -> CommandExecutableModel {
        match self {
            CommandExecutable::Direct { command } => CommandExecutableModel::Direct {
                command: command@,
            },
            CommandExecutable::PackageManagerScript {
                script_name,
                script_body,
                package_json_path,
            } => CommandExecutableModel::PackageManagerScript {
                script_name: script_name@,
                script_body: script_body@,
                package_json_path: package_json_path@,
            },
        }
    }
}

/// A task runner the detector recognises.
#[derive(Debug, Clone, Copy, PartialEq, Eq, Structural)]
pub enum TaskRunner {
    Make,
    Just,
    Task,
    NpmScripts,
    Vite,
    Webpack,
    Rspack,
    Rollup,
    Turbo,
    Nx,
    Tox,
    Nox,
    Invoke,
    Cargo,
    GoTask,
}

/// Which runner-defining file a detection came from.
#[derive(Debug, Clone, Copy, PartialEq, Eq, Structural)]
pub enum TaskRunnerSource {
    Makefile,
    Justfile,
    TaskfileYml,
    TaskfileYaml,
    PackageJson,
    ViteConfigJs,
    ViteConfigTs,
    ViteConfigMjs,
    WebpackConfigJs,
    WebpackConfigTs,
    WebpackConfigMjs,
    WebpackConfigCjs,
    RspackConfigJs,
    RspackConfigTs,
    RspackConfigMjs,
    RspackConfigCjs,
    RollupConfigJs,
    RollupConfigMjs,
    RollupConfigCjs,
    RollupConfigTs,
    TurboJson,
    NxJson,
    ToxIni,
    NoxPy,
    Noxfile,
    TasksPy,
    InvokeYaml,
    CargoToml,
    GoMod,
}

impl TaskRunnerSource {
    /// The runner each source file belongs to; total over the closed
    /// set.
    pub open spec fn spec_runner(&self) -> TaskRunner {
        match self {
            TaskRunnerSource::Makefile => TaskRunner::Make,
            TaskRunnerSource::Justfile => TaskRunner::Just,
            TaskRunnerSource::TaskfileYml | TaskRunnerSource::TaskfileYaml => TaskRunner::Task,
            TaskRunnerSource::PackageJson => TaskRunner::NpmScripts,
            TaskRunnerSource::ViteConfigJs
            | TaskRunnerSource::ViteConfigTs
            | TaskRunnerSource::ViteConfigMjs => TaskRunner::Vite,
            TaskRunnerSource::WebpackConfigJs
            | TaskRunnerSource::WebpackConfigTs
            | TaskRunnerSource::WebpackConfigMjs
            | TaskRunnerSource::WebpackConfigCjs => TaskRunner::Webpack,
            TaskRunnerSource::RspackConfigJs
            | TaskRunnerSource::RspackConfigTs
            | TaskRunnerSource::RspackConfigMjs
            | TaskRunnerSource::RspackConfigCjs => TaskRunner::Rspack,
            TaskRunnerSource::RollupConfigJs
            | TaskRunnerSource::RollupConfigMjs
            | TaskRunnerSource::RollupConfigCjs
            | TaskRunnerSource::RollupConfigTs => TaskRunner::Rollup,
            TaskRunnerSource::TurboJson => TaskRunner::Turbo,
            TaskRunnerSource::NxJson => TaskRunner::Nx,
            TaskRunnerSource::ToxIni => TaskRunner::Tox,
            TaskRunnerSource::NoxPy | TaskRunnerSource::Noxfile => TaskRunner::Nox,
            TaskRunnerSource::TasksPy | TaskRunnerSource::InvokeYaml => TaskRunner::Invoke,
            TaskRunnerSource::CargoToml => TaskRunner::Cargo,
            TaskRunnerSource::GoMod => TaskRunner::GoTask,
        }
    }

    pub fn runner(&self) -> (r: TaskRunner)
        ensures
            r == self.spec_runner(),
    {
        match self {
            TaskRunnerSource::Makefile => TaskRunner::Make,
            TaskRunnerSource::Justfile => TaskRunner::Just,
            TaskRunnerSource::TaskfileYml | TaskRunnerSource::TaskfileYaml => TaskRunner::Task,
            TaskRunnerSource::PackageJson => TaskRunner::NpmScripts,
            TaskRunnerSource::ViteConfigJs
            | TaskRunnerSource::ViteConfigTs
            | TaskRunnerSource::ViteConfigMjs => TaskRunner::Vite,
            TaskRunnerSource::WebpackConfigJs
            | TaskRunnerSource::WebpackConfigTs
            | TaskRunnerSource::WebpackConfigMjs
            | TaskRunnerSource::WebpackConfigCjs => TaskRunner::Webpack,
            TaskRunnerSource::RspackConfigJs
            | TaskRunnerSource::RspackConfigTs
            | TaskRunnerSource::RspackConfigMjs
            | TaskRunnerSource::RspackConfigCjs => TaskRunner::Rspack,
            TaskRunnerSource::RollupConfigJs
            | TaskRunnerSource::RollupConfigMjs
            | TaskRunnerSource::RollupConfigCjs
            | TaskRunnerSource::RollupConfigTs => TaskRunner::Rollup,
            TaskRunnerSource::TurboJson => TaskRunner::Turbo,
            TaskRunnerSource::NxJson => TaskRunner::Nx,
            TaskRunnerSource::ToxIni => TaskRunner::Tox,
            TaskRunnerSource::NoxPy | TaskRunnerSource::Noxfile => TaskRunner::Nox,
            TaskRunnerSource::TasksPy | TaskRunnerSource::InvokeYaml => TaskRunner::Invoke,
            TaskRunnerSource::CargoToml => TaskRunner::Cargo,
            TaskRunnerSource::GoMod => TaskRunner::GoTask,
        }
    }
}

/// One extracted command.
#[derive(Debug, Clone)]
pub struct TaskCommand {
    pub name: String,
    pub executable: CommandExecutable,
    pub description: Option<String>,
}

pub struct TaskCommandModel {
    pub name: Seq<char>,
    pub executable: CommandExecutableModel,
    pub description: Option<Seq<char>>,
}

impl View for TaskCommand {
    type V = TaskCommandModel;

    open spec fn view(&self) -> TaskCommandModel {
        TaskCommandModel {
            name: self.name@,
            executable: self.executable@,
            description: match self.description {
                Some(ref d) => Some(d@),
                None => None,
            },
        }
    }
}

/// A command that runs a literal invocation.
pub open spec fn spec_direct_cmd(
    name: Seq<char>,
    command: Seq<char>,
    description: Option<Seq<char>>,
) -> TaskCommandModel {
    TaskCommandModel {
        name,
        executable: CommandExecutableModel::Direct { command },
        description,
    }
}

/// The extracted commands, bucketed into test, build and other.
#[derive(Debug, Clone)]
pub struct TaskRunnerCommands {
    pub test: Vec<TaskCommand>,
    pub build: Vec<TaskCommand>,
    pub other: Vec<TaskCommand>,
}

pub struct TaskRunnerCommandsModel {
    pub test: Seq<TaskCommandModel>,
    pub build: Seq<TaskCommandModel>,
    pub other: Seq<TaskCommandModel>,
}

impl View for TaskRunnerCommands {
    type V = TaskRunnerCommandsModel;

    open spec fn view(&self) -> TaskRunnerCommandsModel {
        TaskRunnerCommandsModel {
            test: self.test@.map_values(|c: TaskCommand| c@),
            build: self.build@.map_values(|c: TaskCommand| c@),
            other: self.other@.map_values(|c: TaskCommand| c@),
        }
    }
}

impl TaskRunnerCommandsModel {
    pub open spec fn empty() -> TaskRunnerCommandsModel {
        TaskRunnerCommandsModel { test: Seq::empty(), build: Seq::empty(), other: Seq::empty() }
    }

    pub open spec fn add(self, cmd: TaskCommandModel, category: CommandCategory)
        -> TaskRunnerCommandsModel {
        match category {
            CommandCategory::Test => TaskRunnerCommandsModel { test: self.test.push(cmd), ..self },
            CommandCategory::Build => TaskRunnerCommandsModel {
                build: self.build.push(cmd),
                ..self
            },
            CommandCategory::Other => TaskRunnerCommandsModel {
                other: self.other.push(cmd),
                ..self
            },
        }
    }

    pub open spec fn is_empty(self) -> bool {
        self.test.len() == 0 && self.build.len() == 0 && self.other.len() == 0
    }
}

/// The buckets a classified item list folds into, in order.
pub open spec fn spec_bucketed(items: Seq<(TaskCommandModel, CommandCategory)>)
    -> TaskRunnerCommandsModel
    decreases items.len(),
{
    if items.len() == 0 {
        TaskRunnerCommandsModel::empty()
    } else {
        spec_bucketed(items.drop_last()).add(items.last().0, items.last().1)
    }
}

impl Default for TaskRunnerCommands {
    fn default() -> (r: TaskRunnerCommands)
        ensures
            r@ == TaskRunnerCommandsModel::empty(),
    {
        let r = TaskRunnerCommands { test: Vec::new(), build: Vec::new(), other: Vec::new() };
        proof {
            assert(r@.test =~= Seq::<TaskCommandModel>::empty());
            assert(r@.build =~= Seq::<TaskCommandModel>::empty());
            assert(r@.other =~= Seq::<TaskCommandModel>::empty());
        }
        r
    }
}

impl TaskRunnerCommands {
    pub fn new_empty() -> (r: TaskRunnerCommands)
        ensures
            r@ == TaskRunnerCommandsModel::empty(),
    {
        Self::default()
    }

    pub fn add_command(&mut self, cmd: TaskCommand, category: CommandCategory)
        ensures
            final(self)@ == old(self)@.add(cmd@, category),
    {
        match category {
            CommandCategory::Test => {
                let ghost old_map = self.test@.map_values(|c: TaskCommand| c@);
                self.test.push(cmd);
                proof {
                    assert(self.test@.map_values(|c: TaskCommand| c@) =~= old_map.push(cmd@));
                }
            },
            CommandCategory::Build => {
                let ghost old_map = self.build@.map_values(|c: TaskCommand| c@);
                self.build.push(cmd);
                proof {
                    assert(self.build@.map_values(|c: TaskCommand| c@) =~= old_map.push(cmd@));
                }
            },
            CommandCategory::Other => {
                let ghost old_map = self.other@.map_values(|c: TaskCommand| c@);
                self.other.push(cmd);
                proof {
                    assert(self.other@.map_values(|c: TaskCommand| c@) =~= old_map.push(cmd@));
                }
            },
        }
    }

    pub fn is_empty(&self) -> (r: bool)
        ensures
            r == self@.is_empty(),
    {
        self.test.len() == 0 && self.build.len() == 0 && self.other.len() == 0
    }
}

/// A recognised runner-defining file, with its content when readable.
#[derive(Debug, Clone)]
pub struct TaskRunnerFile {
    pub task_runner: TaskRunner,
    pub source: TaskRunnerSource,
    pub path: String,
    pub content: Option<String>,
}

/// A runner detection: the runner, its file, and the extracted
/// commands.
#[derive(Debug)]
pub struct TaskRunnerDetection {
    pub task_runner: TaskRunner,
    pub source: TaskRunnerSource,
    pub path: String,
    pub commands: TaskRunnerCommands,
}

/// The runner-file table: which exact file names define a runner.
pub open spec fn spec_runner_source(name: Seq<char>) -> Option<TaskRunnerSource> {
    if name == "Makefile"@ || name == "makefile"@ || name == "GNUmakefile"@ {
        Some(TaskRunnerSource::Makefile)
    } else if name == "justfile"@ || name == "Justfile"@ {
        Some(TaskRunnerSource::Justfile)
    } else if name == "Taskfile.yml"@ {
        Some(TaskRunnerSource::TaskfileYml)
    } else if name == "Taskfile.yaml"@ {
        Some(TaskRunnerSource::TaskfileYaml)
    } else if name == "package.json"@ {
        Some(TaskRunnerSource::PackageJson)
    } else if name == "vite.config.js"@ {
        Some(TaskRunnerSource::ViteConfigJs)
    } else if name == "vite.config.ts"@ || name == "vite.config.mts"@ {
        Some(TaskRunnerSource::ViteConfigTs)
    } else if name == "vite.config.mjs"@ {
        Some(TaskRunnerSource::ViteConfigMjs)
    } else if name == "webpack.config.js"@ {
        Some(TaskRunnerSource::WebpackConfigJs)
    } else if name == "webpack.config.ts"@ || name == "webpack.config.mts"@ {
        Some(TaskRunnerSource::WebpackConfigTs)
    } else if name == "webpack.config.mjs"@ {
        Some(TaskRunnerSource::WebpackConfigMjs)
    } else if name == "webpack.config.cjs"@ {
        Some(TaskRunnerSource::WebpackConfigCjs)
    } else if name == "rspack.config.js"@ {
        Some(TaskRunnerSource::RspackConfigJs)
    } else if name == "rspack.config.ts"@ || name == "rspack.config.mts"@ {
        Some(TaskRunnerSource::RspackConfigTs)
    } else if name == "rspack.config.mjs"@ {
        Some(TaskRunnerSource::RspackConfigMjs)
    } else if name == "rspack.config.cjs"@ {
        Some(TaskRunnerSource::RspackConfigCjs)
    } else if name == "rollup.config.js"@ {
        Some(TaskRunnerSource::RollupConfigJs)
    } else if name == "rollup.config.mjs"@ {
        Some(TaskRunnerSource::RollupConfigMjs)
    } else if name == "rollup.config.cjs"@ {
        Some(TaskRunnerSource::RollupConfigCjs)
    } else if name == "rollup.config.ts"@ || name == "rollup.config.mts"@ {
        Some(TaskRunnerSource::RollupConfigTs)
    } else if name == "turbo.json"@ {
        Some(TaskRunnerSource::TurboJson)
    } else if name == "nx.json"@ {
        Some(TaskRunnerSource::NxJson)
    } else if name == "tox.ini"@ {
        Some(TaskRunnerSource::ToxIni)
    } else if name == "nox.py"@ {
        Some(TaskRunnerSource::NoxPy)
    } else if name == "noxfile.py"@ {
        Some(TaskRunnerSource::Noxfile)
    } else if name == "tasks.py"@ {
        Some(TaskRunnerSource::TasksPy)
    } else if name == "invoke.yaml"@ || name == "invoke.yml"@ {
        Some(TaskRunnerSource::InvokeYaml)
    } else if name == "Cargo.toml"@ {
        Some(TaskRunnerSource::CargoToml)
    } else if name == "go.mod"@ {
        Some(TaskRunnerSource::GoMod)
    } else {
        None
    }
}

fn runner_source_of(name: &Vec<char>) -> (r: Option<TaskRunnerSource>)
    ensures
        r == spec_runner_source(name@),
{
    if chars_eq(name, "Makefile") || chars_eq(name, "makefile") || chars_eq(name, "GNUmakefile") {
        Some(TaskRunnerSource::Makefile)
    } else if chars_eq(name, "justfile") || chars_eq(name, "Justfile") {
        Some(TaskRunnerSource::Justfile)
    } else if chars_eq(name, "Taskfile.yml") {
        Some(TaskRunnerSource::TaskfileYml)
    } else if chars_eq(name, "Taskfile.yaml") {
        Some(TaskRunnerSource::TaskfileYaml)
    } else if chars_eq(name, "package.json") {
        Some(TaskRunnerSource::PackageJson)
    } else if chars_eq(name, "vite.config.js") {
        Some(TaskRunnerSource::ViteConfigJs)
    } else if chars_eq(name, "vite.config.ts") || chars_eq(name, "vite.config.mts") {
        Some(TaskRunnerSource::ViteConfigTs)
    } else if chars_eq(name, "vite.config.mjs") {
        Some(TaskRunnerSource::ViteConfigMjs)
    } else if chars_eq(name, "webpack.config.js") {
        Some(TaskRunnerSource::WebpackConfigJs)
    } else if chars_eq(name, "webpack.config.ts") || chars_eq(name, "webpack.config.mts") {
        Some(TaskRunnerSource::WebpackConfigTs)
    } else if chars_eq(name, "webpack.config.mjs") {
        Some(TaskRunnerSource::WebpackConfigMjs)
    } else if chars_eq(name, "webpack.config.cjs") {
        Some(TaskRunnerSource::WebpackConfigCjs)
    } else if chars_eq(name, "rspack.config.js") {
        Some(TaskRunnerSource::RspackConfigJs)
    } else if chars_eq(name, "rspack.config.ts") || chars_eq(name, "rspack.config.mts") {
        Some(TaskRunnerSource::RspackConfigTs)
    } else if chars_eq(name, "rspack.config.mjs") {
        Some(TaskRunnerSource::RspackConfigMjs)
    } else if chars_eq(name, "rspack.config.cjs") {
        Some(TaskRunnerSource::RspackConfigCjs)
    } else if chars_eq(name, "rollup.config.js") {
        Some(TaskRunnerSource::RollupConfigJs)
    } else if chars_eq(name, "rollup.config.mjs") {
        Some(TaskRunnerSource::RollupConfigMjs)
    } else if chars_eq(name, "rollup.config.cjs") {
        Some(TaskRunnerSource::RollupConfigCjs)
    } else if chars_eq(name, "rollup.config.ts") || chars_eq(name, "rollup.config.mts") {
        Some(TaskRunnerSource::RollupConfigTs)
    } else if chars_eq(name, "turbo.json") {
        Some(TaskRunnerSource::TurboJson)
    } else if chars_eq(name, "nx.json") {
        Some(TaskRunnerSource::NxJson)
    } else if chars_eq(name, "tox.ini") {
        Some(TaskRunnerSource::ToxIni)
    } else if chars_eq(name, "nox.py") {
        Some(TaskRunnerSource::NoxPy)
    } else if chars_eq(name, "noxfile.py") {
        Some(TaskRunnerSource::Noxfile)
    } else if chars_eq(name, "tasks.py") {
        Some(TaskRunnerSource::TasksPy)
    } else if chars_eq(name, "invoke.yaml") || chars_eq(name, "invoke.yml") {
        Some(TaskRunnerSource::InvokeYaml)
    } else if chars_eq(name, "Cargo.toml") {
        Some(TaskRunnerSource::CargoToml)
    } else if chars_eq(name, "go.mod") {
        Some(TaskRunnerSource::GoMod)
    } else {
        None
    }
}

/// The classification of one tree entry as a runner file: only a
/// regular file with a recognised name qualifies.
pub open spec fn spec_file_runner_source(path: Seq<char>, is_file: bool) -> Option<
    TaskRunnerSource,
> {
    if !is_file {
        None
    } else {
        match spec_file_name(path) {
            Some(name) => spec_runner_source(name),
            None => None,
        }
    }
}

impl TaskRunnerFile {
    /// Classifies one tree entry as a runner-defining file; only a
    /// regular file with a recognised name qualifies.
    pub fn try_from_entry(path: &str, is_file: bool, content: Option<String>) -> (r: Option<
        TaskRunnerFile,
    >)
        ensures
            match r {
                Some(f) => spec_file_runner_source(path@, is_file) == Some(f.source)
                    && f.task_runner == f.source.spec_runner() && f.path@ == path@ && (match (
                    &f.content,
                    content,
                ) {
                    (Some(a), Some(b)) => a@ == b@,
                    (None, None) => true,
                    _ => false,
                }),
                None => spec_file_runner_source(path@, is_file) is None,
            },
    {
        if !is_file {
            return None;
        }
        let pv = str_chars(path);
        let name = match file_name_of(&pv) {
            Some(n) => n,
            None => {
                return None;
            },
        };
        let source = match runner_source_of(&name) {
            Some(s) => s,
            None => {
                return None;
            },
        };
        let task_runner = source.runner();
        Some(TaskRunnerFile { task_runner, source, path: path.to_owned(), content })
    }
}

/// The fixed keyword lists of command classification: test keywords
/// take priority over build keywords; anything else is other.
pub open spec fn spec_classify_name(name: Seq<char>) -> CommandCategory {
    let l = spec_to_lower(name);
    if spec_contains_seq(l, "test"@) || spec_contains_seq(l, "spec"@) || spec_contains_seq(
        l,
        "jest"@,
    ) || spec_contains_seq(l, "mocha"@) || spec_contains_seq(l, "pytest"@) {
        CommandCategory::Test
    } else if spec_contains_seq(l, "build"@) || spec_contains_seq(l, "compile"@)
        || spec_contains_seq(l, "bundle"@) || spec_contains_seq(l, "package"@)
        || spec_contains_seq(l, "dist"@) {
        CommandCategory::Build
    } else {
        CommandCategory::Other
    }
}

/// Classifies a command name by its keywords.
pub fn classify_command(name: &Vec<char>) -> (r: CommandCategory)
    ensures
        r == spec_classify_name(name@),
{
    let l = to_lower(name);
    if chars_contains(&l, "test") || chars_contains(&l, "spec") || chars_contains(&l, "jest")
        || chars_contains(&l, "mocha") || chars_contains(&l, "pytest") {
        CommandCategory::Test
    } else if chars_contains(&l, "build") || chars_contains(&l, "compile") || chars_contains(
        &l,
        "bundle",
    ) || chars_contains(&l, "package") || chars_contains(&l, "dist") {
        CommandCategory::Build
    } else {
        CommandCategory::Other
    }
}


proof fn lemma_bucketed_push(
    items: Seq<(TaskCommandModel, CommandCategory)>,
    item: (TaskCommandModel, CommandCategory),
)
    ensures
        spec_bucketed(items.push(item)) == spec_bucketed(items).add(item.0, item.1),
{
    assert(items.push(item).drop_last() =~= items);
    assert(items.push(item).last() == item);
}

/// The target of a line-anchored rule: a leading identifier run
/// followed by optional whitespace and a colon.
pub open spec fn spec_line_target(line: Seq<char>) -> Option<Seq<char>> {
    let e = spec_ident_end(line, 0);
    if e <= 0 {
        None
    } else {
        let j = spec_skip_ws(line, e);
        if 0 <= j < line.len() && line[j] == ':' {
            Some(line.take(e))
        } else {
            None
        }
    }
}

fn line_target(line: &Vec<char>) -> (r: Option<Vec<char>>)
    ensures
        match r {
            Some(t) => spec_line_target(line@) == Some(t@),
            None => spec_line_target(line@) is None,
        },
{
    let e = ident_end(line, 0);
    if e == 0 {
        return None;
    }
    let j = skip_ws(line, e);
    if j < line.len() && line[j] == ':' {
        Some(sub_vec(line, 0, e))
    } else {
        None
    }
}

/// The items a make-style file yields: one command per target line,
/// invoking `make <target>`.
pub open spec fn spec_makefile_items(lines: Seq<Seq<char>>) -> Seq<
    (TaskCommandModel, CommandCategory),
>
    decreases lines.len(),
{
    if lines.len() == 0 {
        Seq::empty()
    } else {
        let prev = spec_makefile_items(lines.drop_last());
        match spec_line_target(lines.last()) {
            Some(t) => prev.push(
                (spec_direct_cmd(t, "make "@ + t, None), spec_classify_name(t)),
            ),
            None => prev,
        }
    }
}

/// Extracts the targets of a make-style file.
pub fn extract_makefile_commands(content: &str) -> (r: TaskRunnerCommands)
    ensures
        r@ == spec_bucketed(spec_makefile_items(spec_lines(content@))),
{
    let cv = str_chars(content);
    let lines = split_lines(&cv);
    let ghost lv = lines@.map_values(|l: Vec<char>| l@);
    let mut cmds = TaskRunnerCommands::new_empty();
    let mut i: usize = 0;
    proof {
        assert(lv.take(0) =~= Seq::<Seq<char>>::empty());
    }
    while i < lines.len()
        invariant
            i <= lines@.len(),
            lv == lines@.map_values(|l: Vec<char>| l@),
            lv == spec_lines(content@),
            cmds@ == spec_bucketed(spec_makefile_items(lv.take(i as int))),
        decreases lines.len() - i,
    {
        proof {
            assert(lv.take(i + 1).drop_last() =~= lv.take(i as int));
            assert(lv.take(i + 1).last() == lv[i as int]);
            assert(lv[i as int] == lines@[i as int]@);
        }
        if let Some(target) = line_target(&lines[i]) {
            let category = classify_command(&target);
            let command = concat_str_chars("make ", &target);
            let cmd = TaskCommand {
                name: chars_to_string(&target),
                executable: CommandExecutable::Direct { command },
                description: None,
            };
            proof {
                assert(cmd@ == spec_direct_cmd(target@, "make "@ + target@, None));
                lemma_bucketed_push(
                    spec_makefile_items(lv.take(i as int)),
                    (cmd@, category),
                );
                assert(spec_makefile_items(lv.take(i + 1)) == spec_makefile_items(
                    lv.take(i as int),
                ).push((cmd@, category)));
            }
            cmds.add_command(cmd, category);
        }
        i = i + 1;
    }
    proof {
        assert(lv.take(lv.len() as int) =~= lv);
    }
    cmds
}

/// The items a just-style file yields: one command per recipe line,
/// invoking `just <recipe>`.
pub open spec fn spec_justfile_items(lines: Seq<Seq<char>>) -> Seq<
    (TaskCommandModel, CommandCategory),
>
    decreases lines.len(),
{
    if lines.len() == 0 {
        Seq::empty()
    } else {
        let prev = spec_justfile_items(lines.drop_last());
        match spec_line_target(lines.last()) {
            Some(t) => prev.push(
                (spec_direct_cmd(t, "just "@ + t, None), spec_classify_name(t)),
            ),
            None => prev,
        }
    }
}

/// Extracts the recipes of a just-style file.
pub fn extract_justfile_commands(content: &str) -> (r: TaskRunnerCommands)
    ensures
        r@ == spec_bucketed(spec_justfile_items(spec_lines(content@))),
{
    let cv = str_chars(content);
    let lines = split_lines(&cv);
    let ghost lv = lines@.map_values(|l: Vec<char>| l@);
    let mut cmds = TaskRunnerCommands::new_empty();
    let mut i: usize = 0;
    proof {
        assert(lv.take(0) =~= Seq::<Seq<char>>::empty());
    }
    while i < lines.len()
        invariant
            i <= lines@.len(),
            lv == lines@.map_values(|l: Vec<char>| l@),
            lv == spec_lines(content@),
            cmds@ == spec_bucketed(spec_justfile_items(lv.take(i as int))),
        decreases lines.len() - i,
    {
        proof {
            assert(lv.take(i + 1).drop_last() =~= lv.take(i as int));
            assert(lv.take(i + 1).last() == lv[i as int]);
            assert(lv[i as int] == lines@[i as int]@);
        }
        if let Some(target) = line_target(&lines[i]) {
            let category = classify_command(&target);
            let command = concat_str_chars("just ", &target);
            let cmd = TaskCommand {
                name: chars_to_string(&target),
                executable: CommandExecutable::Direct { command },
                description: None,
            };
            proof {
                assert(cmd@ == spec_direct_cmd(target@, "just "@ + target@, None));
                lemma_bucketed_push(
                    spec_justfile_items(lv.take(i as int)),
                    (cmd@, category),
                );
                assert(spec_justfile_items(lv.take(i + 1)) == spec_justfile_items(
                    lv.take(i as int),
                ).push((cmd@, category)));
            }
            cmds.add_command(cmd, category);
        }
        i = i + 1;
    }
    proof {
        assert(lv.take(lv.len() as int) =~= lv);
    }
    cmds
}

/// The items a JavaScript manifest's scripts object yields: one
/// package-manager script per string entry.
pub open spec fn spec_npm_items(entries: Seq<(Seq<char>, Seq<char>)>, path: Seq<char>) -> Seq<
    (TaskCommandModel, CommandCategory),
>
    decreases entries.len(),
{
    if entries.len() == 0 {
        Seq::empty()
    } else {
        let prev = spec_npm_items(entries.drop_last(), path);
        let (name, body) = entries.last();
        prev.push(
            (
                TaskCommandModel {
                    name,
                    executable: CommandExecutableModel::PackageManagerScript {
                        script_name: name,
                        script_body: body,
                        package_json_path: path,
                    },
                    description: None,
                },
                spec_classify_name(name),
            ),
        )
    }
}

/// Extracts the scripts of a JavaScript manifest; each one is a
/// package-manager script bound to its owning manifest.
pub fn extract_npm_commands(content: &str, package_json_path: &str) -> (r: TaskRunnerCommands)
    ensures
        r@ == match json_str_entries_at1(content@, "scripts"@) {
            Some(entries) => spec_bucketed(spec_npm_items(entries, package_json_path@)),
            None => TaskRunnerCommandsModel::empty(),
        },
{
    let mut cmds = TaskRunnerCommands::new_empty();
    let entries = match json_string_entries1(content, "scripts") {
        Some(e) => e,
        None => {
            return cmds;
        },
    };
    let ghost ev = entries@.map_values(|p: (String, String)| (p.0@, p.1@));
    let mut i: usize = 0;
    proof {
        assert(ev.take(0) =~= Seq::<(Seq<char>, Seq<char>)>::empty());
    }
    while i < entries.len()
        invariant
            i <= entries@.len(),
            ev == entries@.map_values(|p: (String, String)| (p.0@, p.1@)),
            json_str_entries_at1(content@, "scripts"@) == Some(ev),
            package_json_path@ == package_json_path@,
            cmds@ == spec_bucketed(spec_npm_items(ev.take(i as int), package_json_path@)),
        decreases entries.len() - i,
    {
        proof {
            assert(ev.take(i + 1).drop_last() =~= ev.take(i as int));
            assert(ev.take(i + 1).last() == ev[i as int]);
            assert(ev[i as int] == (entries@[i as int].0@, entries@[i as int].1@));
        }
        let name = entries[i].0.clone();
        let body = entries[i].1.clone();
        let nv = str_chars(name.as_str());
        let category = classify_command(&nv);
        let cmd = TaskCommand {
            name: name.clone(),
            executable: CommandExecutable::PackageManagerScript {
                script_name: name,
                script_body: body,
                package_json_path: package_json_path.to_owned(),
            },
            description: None,
        };
        proof {
            lemma_bucketed_push(
                spec_npm_items(ev.take(i as int), package_json_path@),
                (cmd@, category),
            );
            assert(spec_npm_items(ev.take(i + 1), package_json_path@) == spec_npm_items(
                ev.take(i as int),
                package_json_path@,
            ).push((cmd@, category)));
        }
        cmds.add_command(cmd, category);
        i = i + 1;
    }
    proof {
        assert(ev.take(ev.len() as int) =~= ev);
    }
    cmds
}

/// The items a named task list yields: one direct command per name,
/// rendered as `<invocation-prefix><name>`.
pub open spec fn spec_named_items(names: Seq<Seq<char>>, prefix: Seq<char>) -> Seq<
    (TaskCommandModel, CommandCategory),
>
    decreases names.len(),
{
    if names.len() == 0 {
        Seq::empty()
    } else {
        let prev = spec_named_items(names.drop_last(), prefix);
        let n = names.last();
        prev.push((spec_direct_cmd(n, prefix + n, None), spec_classify_name(n)))
    }
}

/// Turns a list of task names into bucketed commands, each invoking
/// the runner by `<prefix><name>`.
fn named_commands(names: &Vec<String>, prefix: &str) -> (r: TaskRunnerCommands)
    ensures
        r@ == spec_bucketed(
            spec_named_items(names@.map_values(|s: String| s@), prefix@),
        ),
{
    let ghost nv = names@.map_values(|s: String| s@);
    let mut cmds = TaskRunnerCommands::new_empty();
    let mut i: usize = 0;
    proof {
        assert(nv.take(0) =~= Seq::<Seq<char>>::empty());
    }
    while i < names.len()
        invariant
            i <= names@.len(),
            nv == names@.map_values(|s: String| s@),
            cmds@ == spec_bucketed(spec_named_items(nv.take(i as int), prefix@)),
        decreases names.len() - i,
    {
        proof {
            assert(nv.take(i + 1).drop_last() =~= nv.take(i as int));
            assert(nv.take(i + 1).last() == nv[i as int]);
            assert(nv[i as int] == names@[i as int]@);
        }
        let n = str_chars(names[i].as_str());
        let category = classify_command(&n);
        let command = concat_str_chars(prefix, &n);
        let cmd = TaskCommand {
            name: names[i].clone(),
            executable: CommandExecutable::Direct { command },
            description: None,
        };
        proof {
            assert(cmd@ == spec_direct_cmd(nv[i as int], prefix@ + nv[i as int], None));
            lemma_bucketed_push(
                spec_named_items(nv.take(i as int), prefix@),
                (cmd@, category),
            );
            assert(spec_named_items(nv.take(i + 1), prefix@) == spec_named_items(
                nv.take(i as int),
                prefix@,
            ).push((cmd@, category)));
        }
        cmds.add_command(cmd, category);
        i = i + 1;
    }
    proof {
        assert(nv.take(nv.len() as int) =~= nv);
    }
    cmds
}

/// Extracts the tasks of a task-file: the keys of its `tasks`
/// mapping, each invoking `task <name>`.
pub fn extract_taskfile_commands(content: &str) -> (r: TaskRunnerCommands)
    ensures
        r@ == match yaml_keys_at1(content@, "tasks"@) {
            Some(names) => spec_bucketed(spec_named_items(names, "task "@)),
            None => TaskRunnerCommandsModel::empty(),
        },
{
    match yaml_mapping_keys1(content, "tasks") {
        Some(names) => named_commands(&names, "task "),
        None => TaskRunnerCommands::new_empty(),
    }
}

/// Extracts the tasks of a YAML invoke configuration.
pub fn extract_invoke_yaml_commands(content: &str) -> (r: TaskRunnerCommands)
    ensures
        r@ == match yaml_keys_at1(content@, "tasks"@) {
            Some(names) => spec_bucketed(spec_named_items(names, "invoke "@)),
            None => TaskRunnerCommandsModel::empty(),
        },
{
    match yaml_mapping_keys1(content, "tasks") {
        Some(names) => named_commands(&names, "invoke "),
        None => TaskRunnerCommands::new_empty(),
    }
}

/// Extracts the tasks of a turbo configuration: the keys of its
/// `pipeline` object when that key is present, of `tasks` otherwise.
pub fn extract_turbo_commands(content: &str) -> (r: TaskRunnerCommands)
    ensures
        r@ == ({
            let names = if json_present_at1(content@, "pipeline"@) {
                json_keys_at1(content@, "pipeline"@)
            } else {
                json_keys_at1(content@, "tasks"@)
            };
            match names {
                Some(names) => spec_bucketed(spec_named_items(names, "turbo run "@)),
                None => TaskRunnerCommandsModel::empty(),
            }
        }),
{
    let names = if json_has1(content, "pipeline") {
        json_object_keys1(content, "pipeline")
    } else {
        json_object_keys1(content, "tasks")
    };
    match names {
        Some(names) => named_commands(&names, "turbo run "),
        None => TaskRunnerCommands::new_empty(),
    }
}

/// Extracts the targets of an nx configuration: the keys of
/// `targetDefaults`, falling back to `targets` when that yields
/// nothing.
pub fn extract_nx_commands(content: &str) -> (r: TaskRunnerCommands)
    ensures
        r@ == ({
            let first = match json_keys_at1(content@, "targetDefaults"@) {
                Some(names) => spec_bucketed(spec_named_items(names, "nx run "@)),
                None => TaskRunnerCommandsModel::empty(),
            };
            if first.is_empty() {
                match json_keys_at1(content@, "targets"@) {
                    Some(names) => spec_bucketed(spec_named_items(names, "nx run "@)),
                    None => TaskRunnerCommandsModel::empty(),
                }
            } else {
                first
            }
        }),
{
    let first = match json_object_keys1(content, "targetDefaults") {
        Some(names) => named_commands(&names, "nx run "),
        None => TaskRunnerCommands::new_empty(),
    };
    if first.is_empty() {
        match json_object_keys1(content, "targets") {
            Some(names) => named_commands(&names, "nx run "),
            None => {
                proof {
                    assert(first@.test =~= Seq::<TaskCommandModel>::empty());
                    assert(first@.build =~= Seq::<TaskCommandModel>::empty());
                    assert(first@.other =~= Seq::<TaskCommandModel>::empty());
                }
                first
            },
        }
    } else {
        first
    }
}


fn direct_task(name: &str, command: &str, description: Option<&str>) -> (c: TaskCommand)
    ensures
        c@ == spec_direct_cmd(
            name@,
            command@,
            match description {
                Some(d) => Some(d@),
                None => None,
            },
        ),
{
    TaskCommand {
        name: name.to_owned(),
        executable: CommandExecutable::Direct { command: command.to_owned() },
        description: match description {
            Some(d) => Some(d.to_owned()),
            None => None,
        },
    }
}

/// The fixed command catalogue of a vite configuration.
pub open spec fn spec_vite_commands() -> TaskRunnerCommandsModel {
    TaskRunnerCommandsModel {
        test: Seq::empty(),
        build: seq![spec_direct_cmd("build"@, "vite build"@, Some("Build for production"@))],
        other: seq![
            spec_direct_cmd("dev"@, "vite"@, Some("Start dev server"@)),
            spec_direct_cmd("preview"@, "vite preview"@, Some("Preview production build"@)),
        ],
    }
}

pub fn get_vite_commands() -> (r: TaskRunnerCommands)
    ensures
        r@ == spec_vite_commands(),
{
    let mut cmds = TaskRunnerCommands::new_empty();
    cmds.add_command(direct_task("dev", "vite", Some("Start dev server")), CommandCategory::Other);
    cmds.add_command(
        direct_task("build", "vite build", Some("Build for production")),
        CommandCategory::Build,
    );
    cmds.add_command(
        direct_task("preview", "vite preview", Some("Preview production build")),
        CommandCategory::Other,
    );
    proof {
        assert(cmds@.test =~= spec_vite_commands().test);
        assert(cmds@.build =~= spec_vite_commands().build);
        assert(cmds@.other =~= spec_vite_commands().other);
    }
    cmds
}

/// The fixed command catalogue of a webpack configuration.
pub open spec fn spec_webpack_commands() -> TaskRunnerCommandsModel {
    TaskRunnerCommandsModel {
        test: Seq::empty(),
        build: seq![spec_direct_cmd("build"@, "webpack build"@, Some("Build for production"@))],
        other: seq![
            spec_direct_cmd("serve"@, "webpack serve"@, Some("Start dev server"@)),
            spec_direct_cmd("watch"@, "webpack watch"@, Some("Watch for file changes"@)),
        ],
    }
}

pub fn get_webpack_commands() -> (r: TaskRunnerCommands)
    ensures
        r@ == spec_webpack_commands(),
{
    let mut cmds = TaskRunnerCommands::new_empty();
    cmds.add_command(
        direct_task("build", "webpack build", Some("Build for production")),
        CommandCategory::Build,
    );
    cmds.add_command(
        direct_task("serve", "webpack serve", Some("Start dev server")),
        CommandCategory::Other,
    );
    cmds.add_command(
        direct_task("watch", "webpack watch", Some("Watch for file changes")),
        CommandCategory::Other,
    );
    proof {
        assert(cmds@.test =~= spec_webpack_commands().test);
        assert(cmds@.build =~= spec_webpack_commands().build);
        assert(cmds@.other =~= spec_webpack_commands().other);
    }
    cmds
}

/// The fixed command catalogue of an rspack configuration.
pub open spec fn spec_rspack_commands() -> TaskRunnerCommandsModel {
    TaskRunnerCommandsModel {
        test: Seq::empty(),
        build: seq![spec_direct_cmd("build"@, "rspack build"@, Some("Build for production"@))],
        other: seq![
            spec_direct_cmd("dev"@, "rspack dev"@, Some("Start dev server"@)),
            spec_direct_cmd("preview"@, "rspack preview"@, Some("Preview production build"@)),
        ],
    }
}

pub fn get_rspack_commands() -> (r: TaskRunnerCommands)
    ensures
        r@ == spec_rspack_commands(),
{
    let mut cmds = TaskRunnerCommands::new_empty();
    cmds.add_command(
        direct_task("dev", "rspack dev", Some("Start dev server")),
        CommandCategory::Other,
    );
    cmds.add_command(
        direct_task("build", "rspack build", Some("Build for production")),
        CommandCategory::Build,
    );
    cmds.add_command(
        direct_task("preview", "rspack preview", Some("Preview production build")),
        CommandCategory::Other,
    );
    proof {
        assert(cmds@.test =~= spec_rspack_commands().test);
        assert(cmds@.build =~= spec_rspack_commands().build);
        assert(cmds@.other =~= spec_rspack_commands().other);
    }
    cmds
}

/// The fixed command catalogue of a rollup configuration.
pub open spec fn spec_rollup_commands() -> TaskRunnerCommandsModel {
    TaskRunnerCommandsModel {
        test: Seq::empty(),
        build: seq![spec_direct_cmd("build"@, "rollup -c"@, Some("Build bundle"@))],
        other: seq![
            spec_direct_cmd("watch"@, "rollup -c -w"@, Some("Watch and rebuild on changes"@)),
        ],
    }
}

pub fn get_rollup_commands() -> (r: TaskRunnerCommands)
    ensures
        r@ == spec_rollup_commands(),
{
    let mut cmds = TaskRunnerCommands::new_empty();
    cmds.add_command(
        direct_task("build", "rollup -c", Some("Build bundle")),
        CommandCategory::Build,
    );
    cmds.add_command(
        direct_task("watch", "rollup -c -w", Some("Watch and rebuild on changes")),
        CommandCategory::Other,
    );
    proof {
        assert(cmds@.test =~= spec_rollup_commands().test);
        assert(cmds@.build =~= spec_rollup_commands().build);
        assert(cmds@.other =~= spec_rollup_commands().other);
    }
    cmds
}

/// The fixed command catalogue a Rust manifest implies.
pub open spec fn spec_cargo_commands() -> TaskRunnerCommandsModel {
    TaskRunnerCommandsModel {
        test: seq![spec_direct_cmd("test"@, "cargo test"@, Some("Run tests"@))],
        build: seq![
            spec_direct_cmd("build"@, "cargo build"@, Some("Build project"@)),
            spec_direct_cmd(
                "build-release"@,
                "cargo build --release"@,
                Some("Build optimized release"@),
            ),
        ],
        other: seq![
            spec_direct_cmd("check"@, "cargo check"@, Some("Check without building"@)),
            spec_direct_cmd("clippy"@, "cargo clippy"@, Some("Run linter"@)),
            spec_direct_cmd("fmt"@, "cargo fmt"@, Some("Format code"@)),
        ],
    }
}

pub fn get_cargo_commands() -> (r: TaskRunnerCommands)
    ensures
        r@ == spec_cargo_commands(),
{
    let mut cmds = TaskRunnerCommands::new_empty();
    cmds.add_command(direct_task("test", "cargo test", Some("Run tests")), CommandCategory::Test);
    cmds.add_command(
        direct_task("build", "cargo build", Some("Build project")),
        CommandCategory::Build,
    );
    cmds.add_command(
        direct_task("build-release", "cargo build --release", Some("Build optimized release")),
        CommandCategory::Build,
    );
    cmds.add_command(
        direct_task("check", "cargo check", Some("Check without building")),
        CommandCategory::Other,
    );
    cmds.add_command(
        direct_task("clippy", "cargo clippy", Some("Run linter")),
        CommandCategory::Other,
    );
    cmds.add_command(direct_task("fmt", "cargo fmt", Some("Format code")), CommandCategory::Other);
    proof {
        assert(cmds@.test =~= spec_cargo_commands().test);
        assert(cmds@.build =~= spec_cargo_commands().build);
        assert(cmds@.other =~= spec_cargo_commands().other);
    }
    cmds
}

/// The fixed command catalogue a Go module implies.
pub open spec fn spec_go_commands() -> TaskRunnerCommandsModel {
    TaskRunnerCommandsModel {
        test: seq![spec_direct_cmd("test"@, "go test ./..."@, Some("Run tests"@))],
        build: seq![spec_direct_cmd("build"@, "go build"@, Some("Build project"@))],
        other: seq![
            spec_direct_cmd("run"@, "go run ."@, Some("Run project"@)),
            spec_direct_cmd("fmt"@, "go fmt ./..."@, Some("Format code"@)),
            spec_direct_cmd("vet"@, "go vet ./..."@, Some("Examine code for issues"@)),
        ],
    }
}

pub fn get_go_commands() -> (r: TaskRunnerCommands)
    ensures
        r@ == spec_go_commands(),
{
    let mut cmds = TaskRunnerCommands::new_empty();
    cmds.add_command(
        direct_task("test", "go test ./...", Some("Run tests")),
        CommandCategory::Test,
    );
    cmds.add_command(direct_task("build", "go build", Some("Build project")), CommandCategory::Build);
    cmds.add_command(direct_task("run", "go run .", Some("Run project")), CommandCategory::Other);
    cmds.add_command(direct_task("fmt", "go fmt ./...", Some("Format code")), CommandCategory::Other);
    cmds.add_command(
        direct_task("vet", "go vet ./...", Some("Examine code for issues")),
        CommandCategory::Other,
    );
    proof {
        assert(cmds@.test =~= spec_go_commands().test);
        assert(cmds@.build =~= spec_go_commands().build);
        assert(cmds@.other =~= spec_go_commands().other);
    }
    cmds
}


/// An INI environment header: `[testenv]` for the default
/// environment, `[testenv:NAME]` for a named one; anything after the
/// closing bracket is ignored.
pub open spec fn spec_tox_header(t: Seq<char>) -> Option<Option<Seq<char>>> {
    if !spec_starts_with(t, "[testenv"@) {
        None
    } else {
        let rest = t.skip(8);
        if rest.len() > 0 && rest[0] == ']' {
            Some(None)
        } else if rest.len() > 0 && rest[0] == ':' {
            let e = spec_ident_end(rest, 1);
            if e > 1 && e < rest.len() && rest[e] == ']' {
                Some(Some(rest.subrange(1, e)))
            } else {
                None
            }
        } else {
            None
        }
    }
}

fn tox_header(t: &Vec<char>) -> (r: Option<Option<Vec<char>>>)
    ensures
        match r {
            Some(Some(n)) => spec_tox_header(t@) == Some(Some(n@)),
            Some(None) => spec_tox_header(t@) == Some(None::<Seq<char>>),
            None => spec_tox_header(t@) is None,
        },
{
    proof {
        reveal_strlit("[testenv");
    }
    if !chars_starts_with(t, "[testenv") {
        return None;
    }
    let tl = t.len();
    assert(8 <= tl);
    let rest = sub_vec(t, 8, tl);
    proof {
        assert(rest@ =~= t@.skip(8));
    }
    if rest.len() > 0 && rest[0] == ']' {
        Some(None)
    } else if rest.len() > 0 && rest[0] == ':' {
        let e = ident_end(&rest, 1);
        if e > 1 && e < rest.len() && rest[e] == ']' {
            Some(Some(sub_vec(&rest, 1, e)))
        } else {
            None
        }
    } else {
        None
    }
}

/// The first line after a header, before the next section header,
/// whose trimmed text opens with `commands`.
pub open spec fn spec_tox_find_commands(lines: Seq<Seq<char>>, j: int) -> Option<int>
    decreases lines.len() - j,
{
    if j < 0 || j >= lines.len() {
        None
    } else {
        let t = spec_trim(lines[j]);
        if spec_starts_with(t, "["@) {
            None
        } else if spec_starts_with(t, "commands"@) {
            Some(j)
        } else {
            spec_tox_find_commands(lines, j + 1)
        }
    }
}

fn tox_find_commands(lines: &Vec<Vec<char>>, start: usize) -> (r: Option<usize>)
    requires
        start <= lines@.len(),
    ensures
        match r {
            Some(j) => spec_tox_find_commands(
                lines@.map_values(|l: Vec<char>| l@),
                start as int,
            ) == Some(j as int) && start <= j < lines@.len(),
            None => spec_tox_find_commands(lines@.map_values(|l: Vec<char>| l@), start as int)
                is None,
        },
{
    let ghost lv = lines@.map_values(|l: Vec<char>| l@);
    let mut j: usize = start;
    while j < lines.len()
        invariant
            start <= j <= lines@.len(),
            lv == lines@.map_values(|l: Vec<char>| l@),
            spec_tox_find_commands(lv, start as int) == spec_tox_find_commands(lv, j as int),
        decreases lines.len() - j,
    {
        proof {
            assert(lv[j as int] == lines@[j as int]@);
        }
        let t = trim(&lines[j]);
        if chars_starts_with(&t, "[") {
            return None;
        }
        if chars_starts_with(&t, "commands") {
            return Some(j);
        }
        j = j + 1;
    }
    None
}

/// The inline value of a `commands` assignment: what stands after
/// the `=`, trimmed, when it is not empty.
pub open spec fn spec_tox_inline(line: Seq<char>) -> Seq<Seq<char>> {
    let eq = spec_find_char(line, '=', 0);
    if 0 <= eq < line.len() {
        let v = spec_trim(line.skip(eq + 1));
        if v.len() > 0 {
            seq![v]
        } else {
            Seq::empty()
        }
    } else {
        Seq::empty()
    }
}

/// The indented continuation lines of a `commands` assignment,
/// trimmed, comments and blanks dropped; the block ends at the first
/// unindented line or section header.
pub open spec fn spec_tox_cont(lines: Seq<Seq<char>>, j: int) -> Seq<Seq<char>>
    decreases lines.len() - j,
{
    if j < 0 || j >= lines.len() {
        Seq::empty()
    } else {
        let l = lines[j];
        let t = spec_trim(l);
        if !(l.len() > 0 && (l[0] == ' ' || l[0] == '\t')) || spec_starts_with(t, "["@) {
            Seq::empty()
        } else {
            (if t.len() > 0 && !spec_starts_with(t, "#"@) {
                seq![t]
            } else {
                Seq::empty()
            }) + spec_tox_cont(lines, j + 1)
        }
    }
}

/// Whether a `commands` assignment at line `cj` carries any command,
/// inline or on continuation lines.
pub open spec fn spec_tox_has_cmds(lines: Seq<Seq<char>>, cj: int) -> bool {
    (spec_tox_inline(lines[cj]) + spec_tox_cont(lines, cj + 1)).len() > 0
}

fn tox_has_cmds(lines: &Vec<Vec<char>>, cj: usize) -> (r: bool)
    requires
        cj < lines@.len(),
    ensures
        r == spec_tox_has_cmds(lines@.map_values(|l: Vec<char>| l@), cj as int),
{
    let ghost lv = lines@.map_values(|l: Vec<char>| l@);
    proof {
        assert(lv[cj as int] == lines@[cj as int]@);
    }
    let line = &lines[cj];
    let eq = crate::text::find_char(line, '=', 0);
    if eq < line.len() {
        let after = sub_vec(line, eq + 1, line.len());
        proof {
            assert(after@ =~= lv[cj as int].skip(eq as int + 1));
        }
        let v = trim(&after);
        if v.len() > 0 {
            return true;
        }
    }
    proof {
        assert(spec_tox_inline(lv[cj as int]).len() == 0);
    }
    let ll = lines.len();
    assert(cj < ll);
    let mut j: usize = cj + 1;
    while j < lines.len()
        invariant
            cj + 1 <= j <= lines@.len(),
            lv == lines@.map_values(|l: Vec<char>| l@),
            spec_tox_inline(lv[cj as int]).len() == 0,
            spec_tox_cont(lv, cj as int + 1).len() == spec_tox_cont(lv, j as int).len(),
        decreases lines.len() - j,
    {
        proof {
            assert(lv[j as int] == lines@[j as int]@);
        }
        let l = &lines[j];
        let t = trim(l);
        if !(l.len() > 0 && (l[0] == ' ' || l[0] == '\t')) || chars_starts_with(&t, "[") {
            proof {
                assert(spec_tox_cont(lv, j as int).len() == 0);
            }
            return false;
        }
        if t.len() > 0 && !chars_starts_with(&t, "#") {
            proof {
                assert(spec_tox_cont(lv, j as int).len() > 0);
            }
            return true;
        }
        j = j + 1;
    }
    proof {
        assert(spec_tox_cont(lv, j as int).len() == 0);
    }
    false
}

/// The command one environment contributes.
pub open spec fn spec_tox_env_item(name: Seq<char>) -> (TaskCommandModel, CommandCategory) {
    let command = if name == "default"@ {
        "tox"@
    } else {
        "tox -e "@ + name
    };
    let category = if name == "default"@ || spec_starts_with(name, "py"@) {
        CommandCategory::Test
    } else {
        spec_classify_name(name)
    };
    (spec_direct_cmd(name, command, None), category)
}

/// The classified items of an INI tox file: every environment header
/// whose `commands` assignment carries at least one command.
pub open spec fn spec_tox_items(lines: Seq<Seq<char>>, i: int) -> Seq<
    (TaskCommandModel, CommandCategory),
>
    decreases lines.len() - i,
{
    if i < 0 || i >= lines.len() {
        Seq::empty()
    } else {
        let head: Seq<(TaskCommandModel, CommandCategory)> = match spec_tox_header(
            spec_trim(lines[i]),
        ) {
            None => Seq::empty(),
            Some(name_opt) => {
                let name = match name_opt {
                    None => "default"@,
                    Some(n) => n,
                };
                match spec_tox_find_commands(lines, i + 1) {
                    None => Seq::empty(),
                    Some(cj) => if spec_tox_has_cmds(lines, cj) {
                        seq![spec_tox_env_item(name)]
                    } else {
                        Seq::empty()
                    },
                }
            },
        };
        head + spec_tox_items(lines, i + 1)
    }
}

/// What a tox file yields: its environments' commands, or one
/// synthetic default invocation when none were found.
pub open spec fn spec_tox_commands(content: Seq<char>) -> TaskRunnerCommandsModel {
    let found = spec_bucketed(spec_tox_items(spec_lines(content), 0));
    if found.is_empty() {
        TaskRunnerCommandsModel::empty().add(
            spec_direct_cmd("default"@, "tox"@, Some("Run all tox environments"@)),
            CommandCategory::Test,
        )
    } else {
        found
    }
}

/// Extracts the environments of an INI tox configuration.
pub fn extract_tox_commands(content: &str) -> (r: TaskRunnerCommands)
    ensures
        r@ == spec_tox_commands(content@),
{
    let cv = str_chars(content);
    let lines = split_lines(&cv);
    let ghost lv = lines@.map_values(|l: Vec<char>| l@);
    let mut cmds = TaskRunnerCommands::new_empty();
    let ghost mut done: Seq<(TaskCommandModel, CommandCategory)> = Seq::empty();
    let mut i: usize = 0;
    proof {
        assert(done + spec_tox_items(lv, 0) =~= spec_tox_items(lv, 0));
    }
    while i < lines.len()
        invariant
            i <= lines@.len(),
            lv == lines@.map_values(|l: Vec<char>| l@),
            lv == spec_lines(content@),
            done + spec_tox_items(lv, i as int) == spec_tox_items(lv, 0),
            cmds@ == spec_bucketed(done),
        decreases lines.len() - i,
    {
        proof {
            assert(lv[i as int] == lines@[i as int]@);
        }
        let t = trim(&lines[i]);
        if let Some(name_opt) = tox_header(&t) {
            if let Some(cj) = tox_find_commands(&lines, i + 1) {
                if tox_has_cmds(&lines, cj) {
                    let name: Vec<char> = match name_opt {
                        Some(n) => n,
                        None => str_chars("default"),
                    };
                    proof {
                        reveal_strlit("default");
                    }
                    let is_default = chars_eq(&name, "default");
                    let command: String = if is_default {
                        let c = "tox".to_owned();
                        c
                    } else {
                        concat_str_chars("tox -e ", &name)
                    };
                    let category = if is_default || chars_starts_with(&name, "py") {
                        CommandCategory::Test
                    } else {
                        classify_command(&name)
                    };
                    let cmd = TaskCommand {
                        name: chars_to_string(&name),
                        executable: CommandExecutable::Direct { command },
                        description: None,
                    };
                    proof {
                        assert((cmd@, category) == spec_tox_env_item(name@));
                        assert(spec_tox_items(lv, i as int) =~= seq![spec_tox_env_item(name@)]
                            + spec_tox_items(lv, i + 1));
                        lemma_bucketed_push(done, spec_tox_env_item(name@));
                        assert(done + spec_tox_items(lv, i as int) =~= done.push(
                            spec_tox_env_item(name@),
                        ) + spec_tox_items(lv, i + 1));
                        done = done.push(spec_tox_env_item(name@));
                    }
                    cmds.add_command(cmd, category);
                } else {
                    proof {
                        assert(spec_tox_items(lv, i as int) =~= spec_tox_items(lv, i + 1));
                    }
                }
            } else {
                proof {
                    assert(spec_tox_items(lv, i as int) =~= spec_tox_items(lv, i + 1));
                }
            }
        } else {
            proof {
                assert(spec_tox_items(lv, i as int) =~= spec_tox_items(lv, i + 1));
            }
        }
        i = i + 1;
    }
    proof {
        assert(spec_tox_items(lv, i as int) =~= Seq::<(TaskCommandModel, CommandCategory)>::empty());
        assert(done + spec_tox_items(lv, i as int) =~= done);
    }
    if cmds.is_empty() {
        let cmd = direct_task("default", "tox", Some("Run all tox environments"));
        cmds.add_command(cmd, CommandCategory::Test);
    }
    cmds
}


/// Python identifier characters: letters, digits and underscore.
pub open spec fn spec_is_pyident(c: char) -> bool {
    ('a' <= c && c <= 'z') || ('A' <= c && c <= 'Z') || ('0' <= c && c <= '9') || c == '_'
}

#[verifier::when_used_as_spec(spec_is_pyident)]
fn is_pyident(c: char) -> (r: bool)
    ensures
        r == spec_is_pyident(c),
{
    ('a' <= c && c <= 'z') || ('A' <= c && c <= 'Z') || ('0' <= c && c <= '9') || c == '_'
}

/// The end of the Python-identifier run starting at `from`.
pub open spec fn spec_pyident_end(s: Seq<char>, from: int) -> int
    decreases s.len() - from,
{
    if from < 0 || from >= s.len() {
        s.len() as int
    } else if spec_is_pyident(s[from]) {
        spec_pyident_end(s, from + 1)
    } else {
        from
    }
}

fn pyident_end(s: &Vec<char>, from: usize) -> (r: usize)
    requires
        from <= s@.len(),
    ensures
        r == spec_pyident_end(s@, from as int),
        from <= r <= s@.len(),
{
    let mut i: usize = from;
    while i < s.len()
        invariant
            from <= i <= s@.len(),
            spec_pyident_end(s@, from as int) == spec_pyident_end(s@, i as int),
        decreases s.len() - i,
    {
        if !is_pyident(s[i]) {
            return i;
        }
        i = i + 1;
    }
    i
}

/// The function name a `def` line declares: `def`, whitespace, the
/// name, optional whitespace, and an opening parenthesis.
pub open spec fn spec_def_name(t: Seq<char>) -> Option<Seq<char>> {
    if !spec_starts_with(t, "def"@) {
        None
    } else {
        let a = spec_skip_ws(t, 3);
        if a <= 3 {
            None
        } else {
            let e = spec_pyident_end(t, a);
            if e <= a {
                None
            } else {
                let j = spec_skip_ws(t, e);
                if 0 <= j < t.len() && t[j] == '(' {
                    Some(t.subrange(a, e))
                } else {
                    None
                }
            }
        }
    }
}

fn def_name(t: &Vec<char>) -> (r: Option<Vec<char>>)
    ensures
        match r {
            Some(n) => spec_def_name(t@) == Some(n@),
            None => spec_def_name(t@) is None,
        },
{
    proof {
        reveal_strlit("def");
    }
    if !chars_starts_with(t, "def") {
        return None;
    }
    let tl = t.len();
    assert(3 <= tl);
    let a = skip_ws(t, 3);
    if a <= 3 {
        return None;
    }
    let e = pyident_end(t, a);
    if e <= a {
        return None;
    }
    let j = skip_ws(t, e);
    if j < t.len() && t[j] == '(' {
        Some(sub_vec(t, a, e))
    } else {
        None
    }
}

/// Whether the forward search for a definition line considers a
/// trimmed line at all: decorator lines, blanks, comments and bare
/// closing parentheses are passed over.
pub open spec fn spec_def_candidate(t: Seq<char>) -> bool {
    !spec_starts_with(t, "@"@) && t.len() > 0 && !spec_starts_with(t, "#"@) && (!spec_starts_with(
        t,
        ")"@,
    ) || spec_contains_seq(t, "def "@))
}

/// The next declared function name at or after line `j`.
pub open spec fn spec_next_def_name(lines: Seq<Seq<char>>, j: int) -> Option<Seq<char>>
    decreases lines.len() - j,
{
    if j < 0 || j >= lines.len() {
        None
    } else {
        let t = spec_trim(lines[j]);
        if spec_def_candidate(t) {
            match spec_def_name(t) {
                Some(n) => Some(n),
                None => spec_next_def_name(lines, j + 1),
            }
        } else {
            spec_next_def_name(lines, j + 1)
        }
    }
}

fn next_def_name(lines: &Vec<Vec<char>>, start: usize) -> (r: Option<Vec<char>>)
    requires
        start <= lines@.len(),
    ensures
        match r {
            Some(n) => spec_next_def_name(lines@.map_values(|l: Vec<char>| l@), start as int)
                == Some(n@),
            None => spec_next_def_name(lines@.map_values(|l: Vec<char>| l@), start as int)
                is None,
        },
{
    let ghost lv = lines@.map_values(|l: Vec<char>| l@);
    let mut j: usize = start;
    while j < lines.len()
        invariant
            start <= j <= lines@.len(),
            lv == lines@.map_values(|l: Vec<char>| l@),
            spec_next_def_name(lv, start as int) == spec_next_def_name(lv, j as int),
        decreases lines.len() - j,
    {
        proof {
            assert(lv[j as int] == lines@[j as int]@);
            reveal_strlit("@");
            reveal_strlit("#");
            reveal_strlit(")");
        }
        let t = trim(&lines[j]);
        let candidate = !chars_starts_with(&t, "@") && t.len() > 0 && !chars_starts_with(&t, "#")
            && (!chars_starts_with(&t, ")") || chars_contains(&t, "def "));
        if candidate {
            if let Some(n) = def_name(&t) {
                return Some(n);
            }
        }
        j = j + 1;
    }
    None
}

/// The trimmed lines a decorator's argument list spans: from the
/// decorator line until the first that holds a closing parenthesis,
/// stopping short of any definition line.
pub open spec fn spec_deco_pieces(lines: Seq<Seq<char>>, j: int) -> Seq<Seq<char>>
    decreases lines.len() - j,
{
    if j < 0 || j >= lines.len() {
        Seq::empty()
    } else {
        let t = spec_trim(lines[j]);
        if spec_starts_with(t, "def "@) {
            Seq::empty()
        } else if spec_contains_seq(t, ")"@) {
            seq![t]
        } else {
            seq![t] + spec_deco_pieces(lines, j + 1)
        }
    }
}

/// The pieces joined with single spaces.
pub open spec fn spec_join_space(pieces: Seq<Seq<char>>) -> Seq<char>
    decreases pieces.len(),
{
    if pieces.len() == 0 {
        Seq::empty()
    } else if pieces.len() == 1 {
        pieces[0]
    } else {
        spec_join_space(pieces.drop_last()) + " "@ + pieces.last()
    }
}

fn deco_text(lines: &Vec<Vec<char>>, start: usize) -> (r: Vec<char>)
    requires
        start <= lines@.len(),
    ensures
        r@ == spec_join_space(spec_deco_pieces(lines@.map_values(|l: Vec<char>| l@), start as int)),
{
    let ghost lv = lines@.map_values(|l: Vec<char>| l@);
    let mut text: Vec<char> = Vec::new();
    let ghost mut collected: Seq<Seq<char>> = Seq::empty();
    let mut any = false;
    let mut j: usize = start;
    let mut going = true;
    proof {
        assert(collected + spec_deco_pieces(lv, start as int) =~= spec_deco_pieces(
            lv,
            start as int,
        ));
    }
    while going && j < lines.len()
        invariant
            start <= j <= lines@.len(),
            lv == lines@.map_values(|l: Vec<char>| l@),
            going ==> spec_deco_pieces(lv, start as int) == collected + spec_deco_pieces(
                lv,
                j as int,
            ),
            !going ==> spec_deco_pieces(lv, start as int) == collected,
            text@ == spec_join_space(collected),
            any == (collected.len() > 0),
        decreases lines.len() - j,
    {
        proof {
            assert(lv[j as int] == lines@[j as int]@);
            reveal_strlit("def ");
            reveal_strlit(")");
        }
        let t = trim(&lines[j]);
        if chars_starts_with(&t, "def ") {
            going = false;
            proof {
                assert(spec_deco_pieces(lv, j as int) =~= Seq::<Seq<char>>::empty());
                assert(collected + spec_deco_pieces(lv, j as int) =~= collected);
            }
        } else {
            let closes = chars_contains(&t, ")");
            let ghost old_collected = collected;
            proof {
                collected = collected.push(t@);
                assert(collected.drop_last() =~= old_collected);
                assert(collected.last() == t@);
            }
            if any {
                text.push(' ');
                crate::text::append_vec(&mut text, &t);
                proof {
                    reveal_strlit(" ");
                    assert(" "@ =~= seq![' ']);
                    assert(text@ =~= spec_join_space(old_collected) + " "@ + t@);
                }
            } else {
                let mut fresh: Vec<char> = Vec::new();
                crate::text::append_vec(&mut fresh, &t);
                text = fresh;
                proof {
                    assert(text@ =~= t@);
                }
            }
            any = true;
            if closes {
                going = false;
                proof {
                    assert(spec_deco_pieces(lv, j as int) =~= seq![t@]);
                    assert(old_collected + spec_deco_pieces(lv, j as int) =~= collected);
                }
            } else {
                proof {
                    assert(spec_deco_pieces(lv, j as int) =~= seq![t@] + spec_deco_pieces(
                        lv,
                        j + 1,
                    ));
                    assert(old_collected + spec_deco_pieces(lv, j as int) =~= collected
                        + spec_deco_pieces(lv, j + 1));
                }
            }
        }
        j = j + 1;
    }
    proof {
        if going {
            assert(spec_deco_pieces(lv, j as int) =~= Seq::<Seq<char>>::empty());
            assert(collected + spec_deco_pieces(lv, j as int) =~= collected);
        }
    }
    text
}

/// An explicit `name=` override inside decorator arguments: the text
/// between a quote right after `name=` (leading whitespace allowed)
/// and the next quote of the same kind.
pub open spec fn spec_deco_explicit_name(deco: Seq<char>) -> Option<Seq<char>> {
    let p = spec_find_sub(deco, "name="@, 0);
    if p >= deco.len() {
        None
    } else {
        let a = spec_skip_ws(deco, p + 5);
        if 0 <= a < deco.len() && (deco[a] == '"' || deco[a] == '\'') {
            let e = spec_find_char(deco, deco[a], a + 1);
            if e < deco.len() {
                Some(deco.subrange(a + 1, e))
            } else {
                None
            }
        } else {
            None
        }
    }
}

fn deco_explicit_name(deco: &Vec<char>) -> (r: Option<Vec<char>>)
    ensures
        match r {
            Some(n) => spec_deco_explicit_name(deco@) == Some(n@),
            None => spec_deco_explicit_name(deco@) is None,
        },
{
    proof {
        reveal_strlit("name=");
    }
    let marker = str_chars("name=");
    let p = crate::text::find_sub(deco, &marker, 0);
    if p >= deco.len() {
        return None;
    }
    let dl = deco.len();
    assert(p + 5 <= dl);
    let a = skip_ws(deco, p + 5);
    if a < deco.len() && (deco[a] == '"' || deco[a] == '\'') {
        let q = deco[a];
        let e = find_char(deco, q, a + 1);
        if e < deco.len() {
            Some(sub_vec(deco, a + 1, e))
        } else {
            None
        }
    } else {
        None
    }
}

/// The command one recognised session yields.
pub open spec fn spec_session_item(name: Seq<char>, prefix: Seq<char>, py_is_test: bool) -> (
    TaskCommandModel,
    CommandCategory,
) {
    let category = if py_is_test && spec_starts_with(name, "py"@) {
        CommandCategory::Test
    } else {
        spec_classify_name(name)
    };
    (spec_direct_cmd(name, prefix + name, None), category)
}

/// The classified items of a nox script: every `@nox.session`
/// decorator followed by a definition, named by an explicit override
/// when one is given.
pub open spec fn spec_nox_items(lines: Seq<Seq<char>>, i: int) -> Seq<
    (TaskCommandModel, CommandCategory),
>
    decreases lines.len() - i,
{
    if i < 0 || i >= lines.len() {
        Seq::empty()
    } else {
        let head: Seq<(TaskCommandModel, CommandCategory)> = if spec_starts_with(
            spec_trim(lines[i]),
            "@nox.session"@,
        ) {
            match spec_next_def_name(lines, i) {
                None => Seq::empty(),
                Some(fname) => {
                    let deco = spec_join_space(spec_deco_pieces(lines, i));
                    let name = match spec_deco_explicit_name(deco) {
                        Some(n) => n,
                        None => fname,
                    };
                    seq![spec_session_item(name, "nox -s "@, true)]
                },
            }
        } else {
            Seq::empty()
        };
        head + spec_nox_items(lines, i + 1)
    }
}

/// What a nox script yields: its sessions' commands, or one
/// synthetic default invocation when none were found.
pub open spec fn spec_nox_commands(content: Seq<char>) -> TaskRunnerCommandsModel {
    let found = spec_bucketed(spec_nox_items(spec_lines(content), 0));
    if found.is_empty() {
        TaskRunnerCommandsModel::empty().add(
            spec_direct_cmd("default"@, "nox"@, Some("Run all nox sessions"@)),
            CommandCategory::Test,
        )
    } else {
        found
    }
}

/// Extracts the sessions of a nox script.
pub fn extract_nox_commands(content: &str) -> (r: TaskRunnerCommands)
    ensures
        r@ == spec_nox_commands(content@),
{
    let cv = str_chars(content);
    let lines = split_lines(&cv);
    let ghost lv = lines@.map_values(|l: Vec<char>| l@);
    let mut cmds = TaskRunnerCommands::new_empty();
    let ghost mut done: Seq<(TaskCommandModel, CommandCategory)> = Seq::empty();
    let mut i: usize = 0;
    proof {
        assert(done + spec_nox_items(lv, 0) =~= spec_nox_items(lv, 0));
    }
    while i < lines.len()
        invariant
            i <= lines@.len(),
            lv == lines@.map_values(|l: Vec<char>| l@),
            lv == spec_lines(content@),
            done + spec_nox_items(lv, i as int) == spec_nox_items(lv, 0),
            cmds@ == spec_bucketed(done),
        decreases lines.len() - i,
    {
        proof {
            assert(lv[i as int] == lines@[i as int]@);
            reveal_strlit("@nox.session");
        }
        let t = trim(&lines[i]);
        if chars_starts_with(&t, "@nox.session") {
            if let Some(fname) = next_def_name(&lines, i) {
                let deco = deco_text(&lines, i);
                let name: Vec<char> = match deco_explicit_name(&deco) {
                    Some(n) => n,
                    None => fname,
                };
                let category = if chars_starts_with(&name, "py") {
                    CommandCategory::Test
                } else {
                    classify_command(&name)
                };
                let command = concat_str_chars("nox -s ", &name);
                let cmd = TaskCommand {
                    name: chars_to_string(&name),
                    executable: CommandExecutable::Direct { command },
                    description: None,
                };
                proof {
                    assert((cmd@, category) == spec_session_item(name@, "nox -s "@, true));
                    assert(spec_nox_items(lv, i as int) =~= seq![
                        spec_session_item(name@, "nox -s "@, true),
                    ] + spec_nox_items(lv, i + 1));
                    lemma_bucketed_push(done, spec_session_item(name@, "nox -s "@, true));
                    assert(done + spec_nox_items(lv, i as int) =~= done.push(
                        spec_session_item(name@, "nox -s "@, true),
                    ) + spec_nox_items(lv, i + 1));
                    done = done.push(spec_session_item(name@, "nox -s "@, true));
                }
                cmds.add_command(cmd, category);
            } else {
                proof {
                    assert(spec_nox_items(lv, i as int) =~= spec_nox_items(lv, i + 1));
                }
            }
        } else {
            proof {
                assert(spec_nox_items(lv, i as int) =~= spec_nox_items(lv, i + 1));
            }
        }
        i = i + 1;
    }
    proof {
        assert(spec_nox_items(lv, i as int) =~= Seq::<(TaskCommandModel, CommandCategory)>::empty());
        assert(done + spec_nox_items(lv, i as int) =~= done);
    }
    if cmds.is_empty() {
        let cmd = direct_task("default", "nox", Some("Run all nox sessions"));
        cmds.add_command(cmd, CommandCategory::Test);
    }
    cmds
}

/// Whether a trimmed line opens with a bare `@task` decorator: the
/// marker with nothing of a longer word after it.
pub open spec fn spec_task_decorator(t: Seq<char>) -> bool {
    spec_starts_with(t, "@task"@) && (t.len() == 5 || !spec_is_pyident(t[5]))
}

/// The classified items of an invoke task script: every `@task`
/// decorator followed by a definition.
pub open spec fn spec_invoke_items(lines: Seq<Seq<char>>, i: int) -> Seq<
    (TaskCommandModel, CommandCategory),
>
    decreases lines.len() - i,
{
    if i < 0 || i >= lines.len() {
        Seq::empty()
    } else {
        let head: Seq<(TaskCommandModel, CommandCategory)> = if spec_task_decorator(
            spec_trim(lines[i]),
        ) {
            match spec_next_def_name(lines, i) {
                None => Seq::empty(),
                Some(name) => seq![spec_session_item(name, "invoke "@, false)],
            }
        } else {
            Seq::empty()
        };
        head + spec_invoke_items(lines, i + 1)
    }
}

/// Extracts the tasks of an invoke task script.
pub fn extract_invoke_commands(content: &str) -> (r: TaskRunnerCommands)
    ensures
        r@ == spec_bucketed(spec_invoke_items(spec_lines(content@), 0)),
{
    let cv = str_chars(content);
    let lines = split_lines(&cv);
    let ghost lv = lines@.map_values(|l: Vec<char>| l@);
    let mut cmds = TaskRunnerCommands::new_empty();
    let ghost mut done: Seq<(TaskCommandModel, CommandCategory)> = Seq::empty();
    let mut i: usize = 0;
    proof {
        assert(done + spec_invoke_items(lv, 0) =~= spec_invoke_items(lv, 0));
    }
    while i < lines.len()
        invariant
            i <= lines@.len(),
            lv == lines@.map_values(|l: Vec<char>| l@),
            lv == spec_lines(content@),
            done + spec_invoke_items(lv, i as int) == spec_invoke_items(lv, 0),
            cmds@ == spec_bucketed(done),
        decreases lines.len() - i,
    {
        proof {
            assert(lv[i as int] == lines@[i as int]@);
            reveal_strlit("@task");
        }
        let t = trim(&lines[i]);
        let is_deco = chars_starts_with(&t, "@task") && (t.len() == 5 || !is_pyident(t[5]));
        if is_deco {
            if let Some(name) = next_def_name(&lines, i) {
                let category = classify_command(&name);
                let command = concat_str_chars("invoke ", &name);
                let cmd = TaskCommand {
                    name: chars_to_string(&name),
                    executable: CommandExecutable::Direct { command },
                    description: None,
                };
                proof {
                    assert((cmd@, category) == spec_session_item(name@, "invoke "@, false));
                    assert(spec_invoke_items(lv, i as int) =~= seq![
                        spec_session_item(name@, "invoke "@, false),
                    ] + spec_invoke_items(lv, i + 1));
                    lemma_bucketed_push(done, spec_session_item(name@, "invoke "@, false));
                    assert(done + spec_invoke_items(lv, i as int) =~= done.push(
                        spec_session_item(name@, "invoke "@, false),
                    ) + spec_invoke_items(lv, i + 1));
                    done = done.push(spec_session_item(name@, "invoke "@, false));
                }
                cmds.add_command(cmd, category);
            } else {
                proof {
                    assert(spec_invoke_items(lv, i as int) =~= spec_invoke_items(lv, i + 1));
                }
            }
        } else {
            proof {
                assert(spec_invoke_items(lv, i as int) =~= spec_invoke_items(lv, i + 1));
            }
        }
        i = i + 1;
    }
    proof {
        assert(spec_invoke_items(lv, i as int) =~= Seq::<
            (TaskCommandModel, CommandCategory),
        >::empty());
        assert(done + spec_invoke_items(lv, i as int) =~= done);
    }
    cmds
}


/// What each runner-defining file's content yields: the source's own
/// grammar applied to the text; unreadable content yields nothing.
pub open spec fn spec_extracted_commands(
    source: TaskRunnerSource,
    content: Option<Seq<char>>,
    path: Seq<char>,
) -> TaskRunnerCommandsModel {
    match content {
        None => TaskRunnerCommandsModel::empty(),
        Some(c) => match source {
            TaskRunnerSource::Makefile => spec_bucketed(spec_makefile_items(spec_lines(c))),
            TaskRunnerSource::Justfile => spec_bucketed(spec_justfile_items(spec_lines(c))),
            TaskRunnerSource::PackageJson => match json_str_entries_at1(c, "scripts"@) {
                Some(entries) => spec_bucketed(spec_npm_items(entries, path)),
                None => TaskRunnerCommandsModel::empty(),
            },
            TaskRunnerSource::TaskfileYml | TaskRunnerSource::TaskfileYaml => match yaml_keys_at1(
                c,
                "tasks"@,
            ) {
                Some(names) => spec_bucketed(spec_named_items(names, "task "@)),
                None => TaskRunnerCommandsModel::empty(),
            },
            TaskRunnerSource::ViteConfigJs
            | TaskRunnerSource::ViteConfigTs
            | TaskRunnerSource::ViteConfigMjs => spec_vite_commands(),
            TaskRunnerSource::WebpackConfigJs
            | TaskRunnerSource::WebpackConfigTs
            | TaskRunnerSource::WebpackConfigMjs
            | TaskRunnerSource::WebpackConfigCjs => spec_webpack_commands(),
            TaskRunnerSource::RspackConfigJs
            | TaskRunnerSource::RspackConfigTs
            | TaskRunnerSource::RspackConfigMjs
            | TaskRunnerSource::RspackConfigCjs => spec_rspack_commands(),
            TaskRunnerSource::RollupConfigJs
            | TaskRunnerSource::RollupConfigMjs
            | TaskRunnerSource::RollupConfigCjs
            | TaskRunnerSource::RollupConfigTs => spec_rollup_commands(),
            TaskRunnerSource::TurboJson => {
                let names = if json_present_at1(c, "pipeline"@) {
                    json_keys_at1(c, "pipeline"@)
                } else {
                    json_keys_at1(c, "tasks"@)
                };
                match names {
                    Some(names) => spec_bucketed(spec_named_items(names, "turbo run "@)),
                    None => TaskRunnerCommandsModel::empty(),
                }
            },
            TaskRunnerSource::NxJson => {
                let first = match json_keys_at1(c, "targetDefaults"@) {
                    Some(names) => spec_bucketed(spec_named_items(names, "nx run "@)),
                    None => TaskRunnerCommandsModel::empty(),
                };
                if first.is_empty() {
                    match json_keys_at1(c, "targets"@) {
                        Some(names) => spec_bucketed(spec_named_items(names, "nx run "@)),
                        None => TaskRunnerCommandsModel::empty(),
                    }
                } else {
                    first
                }
            },
            TaskRunnerSource::ToxIni => spec_tox_commands(c),
            TaskRunnerSource::NoxPy | TaskRunnerSource::Noxfile => spec_nox_commands(c),
            TaskRunnerSource::TasksPy => spec_bucketed(spec_invoke_items(spec_lines(c), 0)),
            TaskRunnerSource::InvokeYaml => match yaml_keys_at1(c, "tasks"@) {
                Some(names) => spec_bucketed(spec_named_items(names, "invoke "@)),
                None => TaskRunnerCommandsModel::empty(),
            },
            TaskRunnerSource::CargoToml => spec_cargo_commands(),
            TaskRunnerSource::GoMod => spec_go_commands(),
        },
    }
}

impl TaskRunnerFile {
    /// Extracts the commands of this file by its source's grammar.
    pub fn extract_commands(&self) -> (r: TaskRunnerCommands)
        ensures
            r@ == spec_extracted_commands(
                self.source,
                match self.content {
                    Some(ref c) => Some(c@),
                    None => None,
                },
                self.path@,
            ),
    {
        let content: &str = match &self.content {
            Some(c) => c.as_str(),
            None => {
                return TaskRunnerCommands::new_empty();
            },
        };
        match self.source {
            TaskRunnerSource::Makefile => extract_makefile_commands(content),
            TaskRunnerSource::Justfile => extract_justfile_commands(content),
            TaskRunnerSource::PackageJson => extract_npm_commands(content, self.path.as_str()),
            TaskRunnerSource::TaskfileYml | TaskRunnerSource::TaskfileYaml
                => extract_taskfile_commands(content),
            TaskRunnerSource::ViteConfigJs
            | TaskRunnerSource::ViteConfigTs
            | TaskRunnerSource::ViteConfigMjs => get_vite_commands(),
            TaskRunnerSource::WebpackConfigJs
            | TaskRunnerSource::WebpackConfigTs
            | TaskRunnerSource::WebpackConfigMjs
            | TaskRunnerSource::WebpackConfigCjs => get_webpack_commands(),
            TaskRunnerSource::RspackConfigJs
            | TaskRunnerSource::RspackConfigTs
            | TaskRunnerSource::RspackConfigMjs
            | TaskRunnerSource::RspackConfigCjs => get_rspack_commands(),
            TaskRunnerSource::RollupConfigJs
            | TaskRunnerSource::RollupConfigMjs
            | TaskRunnerSource::RollupConfigCjs
            | TaskRunnerSource::RollupConfigTs => get_rollup_commands(),
            TaskRunnerSource::TurboJson => extract_turbo_commands(content),
            TaskRunnerSource::NxJson => extract_nx_commands(content),
            TaskRunnerSource::ToxIni => extract_tox_commands(content),
            TaskRunnerSource::NoxPy | TaskRunnerSource::Noxfile => extract_nox_commands(content),
            TaskRunnerSource::TasksPy => extract_invoke_commands(content),
            TaskRunnerSource::InvokeYaml => extract_invoke_yaml_commands(content),
            TaskRunnerSource::CargoToml => get_cargo_commands(),
            TaskRunnerSource::GoMod => get_go_commands(),
        }
    }
}

impl TaskRunnerDetection {
    /// Builds a detection out of a classified file: the file's
    /// identity with its extracted commands.
    pub fn from_file(file: TaskRunnerFile) -> (r: TaskRunnerDetection)
        ensures
            r.task_runner == file.task_runner,
            r.source == file.source,
            r.path@ == file.path@,
            r.commands@ == spec_extracted_commands(
                file.source,
                match file.content {
                    Some(ref c) => Some(c@),
                    None => None,
                },
                file.path@,
            ),
    {
        let commands = file.extract_commands();
        TaskRunnerDetection {
            task_runner: file.task_runner,
            source: file.source,
            path: file.path,
            commands,
        }
    }
}

} // verus!
