use vstd::prelude::*;
use crate::language::{Language, LanguageDetectionSignal, LanguageDetectionSource};
use crate::structured::{
    json_lookup_str1, json_str_at1, toml_has1, toml_has2, toml_present_at1, toml_present_at2,
};
use crate::text::{chars_eq, chars_to_string, find_char, spec_find_char, str_chars, sub_vec};

verus! {

/// One of the package managers the resolver recognises.
#[derive(Debug, Clone, Copy, PartialEq, Eq, Structural)]
pub enum PackageManager {
    // JavaScript
    Npm,
    Pnpm,
    Yarn,
    Bun,
    Deno,
    // Python
    Pip,
    Uv,
    Poetry,
    Pdm,
    Pipenv,
    // Rust
    Cargo,
    // Go
    Go,
}

impl PackageManager {
    /// The executable a manager is invoked as.
    pub open spec fn spec_command_name(&self) -> Seq<char> {
        match self {
            PackageManager::Npm => "npm"@,
            PackageManager::Pnpm => "pnpm"@,
            PackageManager::Yarn => "yarn"@,
            PackageManager::Bun => "bun"@,
            PackageManager::Deno => "deno"@,
            PackageManager::Pip => "pip"@,
            PackageManager::Uv => "uv"@,
            PackageManager::Poetry => "poetry"@,
            PackageManager::Pdm => "pdm"@,
            PackageManager::Pipenv => "pipenv"@,
            PackageManager::Cargo => "cargo"@,
            PackageManager::Go => "go"@,
        }
    }

    pub fn command_name(&self) -> (r: &'static str)
        ensures
            r@ == self.spec_command_name(),
    {
        match self {
            PackageManager::Npm => "npm",
            PackageManager::Pnpm => "pnpm",
            PackageManager::Yarn => "yarn",
            PackageManager::Bun => "bun",
            PackageManager::Deno => "deno",
            PackageManager::Pip => "pip",
            PackageManager::Uv => "uv",
            PackageManager::Poetry => "poetry",
            PackageManager::Pdm => "pdm",
            PackageManager::Pipenv => "pipenv",
            PackageManager::Cargo => "cargo",
            PackageManager::Go => "go",
        }
    }

    /// Whether the manager belongs to the JavaScript ecosystem.
    pub open spec fn spec_is_js(&self) -> bool {
        match self {
            PackageManager::Npm
            | PackageManager::Pnpm
            | PackageManager::Yarn
            | PackageManager::Bun
            | PackageManager::Deno => true,
            _ => false,
        }
    }

    pub fn is_js_package_manager(&self) -> (r: bool)
        ensures
            r == self.spec_is_js(),
    {
        match self {
            PackageManager::Npm
            | PackageManager::Pnpm
            | PackageManager::Yarn
            | PackageManager::Bun
            | PackageManager::Deno => true,
            _ => false,
        }
    }

    /// The invocation that runs a named manifest script, for managers
    /// that have one: `<name> run <script>` for the Node family,
    /// `deno task <script>` for Deno.
    pub open spec fn spec_run_script(&self, script: Seq<char>) -> Option<Seq<char>> {
        match self {
            PackageManager::Npm => Some("npm run "@ + script),
            PackageManager::Pnpm => Some("pnpm run "@ + script),
            PackageManager::Yarn => Some("yarn run "@ + script),
            PackageManager::Bun => Some("bun run "@ + script),
            PackageManager::Deno => Some("deno task "@ + script),
            _ => None,
        }
    }

    pub fn run_script(&self, script: &str) -> (r: Option<String>)
        ensures
            match r {
                Some(v) => self.spec_run_script(script@) == Some(v@),
                None => self.spec_run_script(script@) is None,
            },
    {
        let prefix: &'static str = match self {
            PackageManager::Npm => "npm run ",
            PackageManager::Pnpm => "pnpm run ",
            PackageManager::Yarn => "yarn run ",
            PackageManager::Bun => "bun run ",
            PackageManager::Deno => "deno task ",
            _ => {
                return None;
            },
        };
        let mut out = prefix.to_owned();
        out.append(script);
        Some(out)
    }
}

/// Which file or field a package-manager reading came from.
#[derive(Debug, Clone, Copy, PartialEq, Eq, Structural)]
pub enum PackageManagerSource {
    // JavaScript
    PackageJson,
    PackageLockJson,
    YarnLock,
    PnpmLockYaml,
    BunLockb,
    BunLock,
    DenoJson,
    DenoJsonc,
    DenoLock,
    LockJson,
    // Python
    RequirementsTxt,
    PyprojectToml,
    PoetryLock,
    Pipfile,
    PipfileLock,
    // Rust
    CargoToml,
    CargoLock,
    // Go
    GoMod,
    GoSum,
}

/// One package-manager reading: the manager, where it was seen, and
/// a declared version when the manifest pinned one.
#[derive(Debug, Clone)]
pub struct PackageManagerInfo {
    pub package_manager: PackageManager,
    pub source: PackageManagerSource,
    pub path: String,
    pub version: Option<String>,
}

pub struct PackageManagerInfoModel {
    pub package_manager: PackageManager,
    pub source: PackageManagerSource,
    pub path: Seq<char>,
    pub version: Option<Seq<char>>,
}

impl View for PackageManagerInfo {
    type V = PackageManagerInfoModel;

    open spec fn view(&self) -> PackageManagerInfoModel {
        PackageManagerInfoModel {
            package_manager: self.package_manager,
            source: self.source,
            path: self.path@,
            version: match self.version {
                Some(ref v) => Some(v@),
                None => None,
            },
        }
    }
}

/// Every package-manager reading of one ecosystem.
#[derive(Debug)]
pub struct PackageManagerDetection {
    pub language: Language,
    pub package_managers: Vec<PackageManagerInfo>,
}

/// One reading without a declared version.
pub open spec fn spec_pm_entry(
    pm: PackageManager,
    source: PackageManagerSource,
    path: Seq<char>,
) -> PackageManagerInfoModel {
    PackageManagerInfoModel { package_manager: pm, source, path, version: None }
}

fn single_pm(pm: PackageManager, source: PackageManagerSource, path: &str) -> (r: Vec<
    PackageManagerInfo,
>)
    ensures
        r@.map_values(|x: PackageManagerInfo| x@) == seq![spec_pm_entry(pm, source, path@)],
{
    let mut r: Vec<PackageManagerInfo> = Vec::new();
    r.push(PackageManagerInfo { package_manager: pm, source, path: path.to_owned(), version: None });
    proof {
        assert(r@.map_values(|x: PackageManagerInfo| x@) =~= seq![spec_pm_entry(pm, source, path@)]);
    }
    r
}

/// The manager a `name@version` declaration names, when recognised.
pub open spec fn spec_declared_manager(name: Seq<char>) -> Option<PackageManager> {
    if name == "npm"@ {
        Some(PackageManager::Npm)
    } else if name == "pnpm"@ {
        Some(PackageManager::Pnpm)
    } else if name == "yarn"@ {
        Some(PackageManager::Yarn)
    } else if name == "bun"@ {
        Some(PackageManager::Bun)
    } else {
        None
    }
}

/// The name and optional version of a `name@version` declaration,
/// split at the first `@`.
pub open spec fn spec_split_at_sign(s: Seq<char>) -> (Seq<char>, Option<Seq<char>>) {
    let at = spec_find_char(s, '@', 0);
    if 0 <= at < s.len() {
        (s.take(at), Some(s.skip(at + 1)))
    } else {
        (s, None)
    }
}

/// What a JavaScript manifest's declared package-manager field
/// yields: one entry when the name before `@` is recognised.
pub open spec fn spec_package_json_managers(
    field: Option<Seq<char>>,
    path: Seq<char>,
) -> Seq<PackageManagerInfoModel> {
    match field {
        None => Seq::empty(),
        Some(s) => {
            let (name, version) = spec_split_at_sign(s);
            match spec_declared_manager(name) {
                None => Seq::empty(),
                Some(pm) => seq![
                    PackageManagerInfoModel {
                        package_manager: pm,
                        source: PackageManagerSource::PackageJson,
                        path,
                        version,
                    },
                ],
            }
        },
    }
}

/// Reads the declared package-manager field of a JavaScript manifest.
pub fn detect_from_package_json(content: &str, path: &str) -> (r: Vec<PackageManagerInfo>)
    ensures
        r@.map_values(|x: PackageManagerInfo| x@) == spec_package_json_managers(
            json_str_at1(content@, "packageManager"@),
            path@,
        ),
{
    let field = json_lookup_str1(content, "packageManager");
    let empty: Vec<PackageManagerInfo> = Vec::new();
    proof {
        assert(empty@.map_values(|x: PackageManagerInfo| x@) =~= Seq::<
            PackageManagerInfoModel,
        >::empty());
    }
    let s = match field {
        Some(s) => s,
        None => {
            return empty;
        },
    };
    let sv = str_chars(s.as_str());
    let at = find_char(&sv, '@', 0);
    let (name, version): (Vec<char>, Option<String>) = if at < sv.len() {
        let n = sub_vec(&sv, 0, at);
        let v = sub_vec(&sv, at + 1, sv.len());
        proof {
            assert(n@ =~= sv@.take(at as int));
            assert(v@ =~= sv@.skip(at as int + 1));
        }
        (n, Some(chars_to_string(&v)))
    } else {
        let mut n: Vec<char> = Vec::new();
        let mut i: usize = 0;
        while i < sv.len()
            invariant
                i <= sv@.len(),
                n@ == sv@.take(i as int),
            decreases sv.len() - i,
        {
            n.push(sv[i]);
            proof {
                assert(sv@.take(i as int).push(sv@[i as int]) =~= sv@.take(i + 1));
            }
            i = i + 1;
        }
        proof {
            assert(n@ =~= sv@);
        }
        (n, None)
    };
    let pm = if chars_eq(&name, "npm") {
        PackageManager::Npm
    } else if chars_eq(&name, "pnpm") {
        PackageManager::Pnpm
    } else if chars_eq(&name, "yarn") {
        PackageManager::Yarn
    } else if chars_eq(&name, "bun") {
        PackageManager::Bun
    } else {
        return empty;
    };
    let mut r: Vec<PackageManagerInfo> = Vec::new();
    r.push(
        PackageManagerInfo {
            package_manager: pm,
            source: PackageManagerSource::PackageJson,
            path: path.to_owned(),
            version,
        },
    );
    proof {
        assert(r@.map_values(|x: PackageManagerInfo| x@) =~= spec_package_json_managers(
            json_str_at1(content@, "packageManager"@),
            path@,
        ));
    }
    r
}

/// What a Python project manifest yields: one entry per recognised
/// tool table, and a lone pip entry when none is present.
pub open spec fn spec_pyproject_managers(
    has_poetry: bool,
    has_pdm: bool,
    has_uv: bool,
    path: Seq<char>,
) -> Seq<PackageManagerInfoModel> {
    let base = (if has_poetry {
        seq![
            spec_pm_entry(PackageManager::Poetry, PackageManagerSource::PyprojectToml, path),
        ]
    } else {
        Seq::empty()
    }) + (if has_pdm {
        seq![spec_pm_entry(PackageManager::Pdm, PackageManagerSource::PyprojectToml, path)]
    } else {
        Seq::empty()
    }) + (if has_uv {
        seq![spec_pm_entry(PackageManager::Uv, PackageManagerSource::PyprojectToml, path)]
    } else {
        Seq::empty()
    });
    if base.len() == 0 {
        seq![spec_pm_entry(PackageManager::Pip, PackageManagerSource::PyprojectToml, path)]
    } else {
        base
    }
}

/// Probes the tool tables of a Python project manifest: poetry, pdm,
/// and uv (or a dependency-groups table); pip is the fallback.
pub fn detect_from_pyproject_toml(content: &str, path: &str) -> (r: Vec<PackageManagerInfo>)
    ensures
        r@.map_values(|x: PackageManagerInfo| x@) == spec_pyproject_managers(
            toml_present_at2(content@, "tool"@, "poetry"@),
            toml_present_at2(content@, "tool"@, "pdm"@),
            toml_present_at2(content@, "tool"@, "uv"@) || toml_present_at1(
                content@,
                "dependency-groups"@,
            ),
            path@,
        ),
{
    let has_poetry = toml_has2(content, "tool", "poetry");
    let has_pdm = toml_has2(content, "tool", "pdm");
    let has_uv = toml_has2(content, "tool", "uv") || toml_has1(content, "dependency-groups");
    let mut r: Vec<PackageManagerInfo> = Vec::new();
    if has_poetry {
        r.push(
            PackageManagerInfo {
                package_manager: PackageManager::Poetry,
                source: PackageManagerSource::PyprojectToml,
                path: path.to_owned(),
                version: None,
            },
        );
    }
    if has_pdm {
        r.push(
            PackageManagerInfo {
                package_manager: PackageManager::Pdm,
                source: PackageManagerSource::PyprojectToml,
                path: path.to_owned(),
                version: None,
            },
        );
    }
    if has_uv {
        r.push(
            PackageManagerInfo {
                package_manager: PackageManager::Uv,
                source: PackageManagerSource::PyprojectToml,
                path: path.to_owned(),
                version: None,
            },
        );
    }
    if r.len() == 0 {
        r.push(
            PackageManagerInfo {
                package_manager: PackageManager::Pip,
                source: PackageManagerSource::PyprojectToml,
                path: path.to_owned(),
                version: None,
            },
        );
    }
    proof {
        assert(r@.map_values(|x: PackageManagerInfo| x@) =~= spec_pyproject_managers(
            toml_present_at2(content@, "tool"@, "poetry"@),
            toml_present_at2(content@, "tool"@, "pdm"@),
            toml_present_at2(content@, "tool"@, "uv"@) || toml_present_at1(
                content@,
                "dependency-groups"@,
            ),
            path@,
        ));
    }
    r
}

/// The fixed reading each lockfile-style source yields.
pub open spec fn spec_lockfile_manager(source: LanguageDetectionSource) -> Option<
    (PackageManager, PackageManagerSource),
> {
    match source {
        LanguageDetectionSource::PackageLockJson => Some(
            (PackageManager::Npm, PackageManagerSource::PackageLockJson),
        ),
        LanguageDetectionSource::YarnLock => Some(
            (PackageManager::Yarn, PackageManagerSource::YarnLock),
        ),
        LanguageDetectionSource::PnpmLockYaml => Some(
            (PackageManager::Pnpm, PackageManagerSource::PnpmLockYaml),
        ),
        LanguageDetectionSource::BunLockb => Some(
            (PackageManager::Bun, PackageManagerSource::BunLockb),
        ),
        LanguageDetectionSource::BunLock => Some(
            (PackageManager::Bun, PackageManagerSource::BunLock),
        ),
        LanguageDetectionSource::DenoJson => Some(
            (PackageManager::Deno, PackageManagerSource::DenoJson),
        ),
        LanguageDetectionSource::DenoJsonc => Some(
            (PackageManager::Deno, PackageManagerSource::DenoJsonc),
        ),
        LanguageDetectionSource::DenoLock => Some(
            (PackageManager::Deno, PackageManagerSource::DenoLock),
        ),
        LanguageDetectionSource::LockJson => Some(
            (PackageManager::Deno, PackageManagerSource::LockJson),
        ),
        LanguageDetectionSource::RequirementsTxt => Some(
            (PackageManager::Pip, PackageManagerSource::RequirementsTxt),
        ),
        LanguageDetectionSource::PoetryLock => Some(
            (PackageManager::Poetry, PackageManagerSource::PoetryLock),
        ),
        LanguageDetectionSource::Pipfile => Some(
            (PackageManager::Pipenv, PackageManagerSource::Pipfile),
        ),
        LanguageDetectionSource::PipfileLock => Some(
            (PackageManager::Pipenv, PackageManagerSource::PipfileLock),
        ),
        LanguageDetectionSource::CargoToml => Some(
            (PackageManager::Cargo, PackageManagerSource::CargoToml),
        ),
        LanguageDetectionSource::CargoLock => Some(
            (PackageManager::Cargo, PackageManagerSource::CargoLock),
        ),
        LanguageDetectionSource::GoMod => Some((PackageManager::Go, PackageManagerSource::GoMod)),
        LanguageDetectionSource::GoSum => Some((PackageManager::Go, PackageManagerSource::GoSum)),
        _ => None,
    }
}

/// The package-manager readings one signal contributes: nothing for
/// a weak signal; the declared-manager field of a JavaScript
/// manifest; the tool tables of a Python project manifest; and the
/// fixed manager of every lockfile-style source.
pub open spec fn spec_managers_for_signal(
    sig: crate::language::SignalModel,
    content: Option<Seq<char>>,
) -> Seq<PackageManagerInfoModel> {
    match sig {
        crate::language::SignalModel::Weak { .. } => Seq::empty(),
        crate::language::SignalModel::Strong { path, source } => match source {
            LanguageDetectionSource::PackageJson => match content {
                None => Seq::empty(),
                Some(c) => spec_package_json_managers(json_str_at1(c, "packageManager"@), path),
            },
            LanguageDetectionSource::PyprojectToml => match content {
                None => Seq::empty(),
                Some(c) => spec_pyproject_managers(
                    toml_present_at2(c, "tool"@, "poetry"@),
                    toml_present_at2(c, "tool"@, "pdm"@),
                    toml_present_at2(c, "tool"@, "uv"@) || toml_present_at1(
                        c,
                        "dependency-groups"@,
                    ),
                    path,
                ),
            },
            _ => match spec_lockfile_manager(source) {
                Some(pair) => seq![spec_pm_entry(pair.0, pair.1, path)],
                None => Seq::empty(),
            },
        },
    }
}

pub fn managers_for_signal(signal: &LanguageDetectionSignal, content: Option<&String>) -> (r: Vec<
    PackageManagerInfo,
>)
    ensures
        r@.map_values(|x: PackageManagerInfo| x@) == spec_managers_for_signal(
            signal@,
            match content {
                Some(c) => Some(c@),
                None => None,
            },
        ),
{
    let empty: Vec<PackageManagerInfo> = Vec::new();
    proof {
        assert(empty@.map_values(|x: PackageManagerInfo| x@) =~= Seq::<
            PackageManagerInfoModel,
        >::empty());
    }
    match signal {
        LanguageDetectionSignal::Strong { path, source } => {
            match source {
                LanguageDetectionSource::PackageJson => {
                    let c: &str = match content {
                        Some(c) => c.as_str(),
                        None => {
                            return empty;
                        },
                    };
                    detect_from_package_json(c, path.as_str())
                },
                LanguageDetectionSource::PyprojectToml => {
                    let c: &str = match content {
                        Some(c) => c.as_str(),
                        None => {
                            return empty;
                        },
                    };
                    detect_from_pyproject_toml(c, path.as_str())
                },
                LanguageDetectionSource::PackageLockJson => single_pm(
                    PackageManager::Npm,
                    PackageManagerSource::PackageLockJson,
                    path.as_str(),
                ),
                LanguageDetectionSource::YarnLock => single_pm(
                    PackageManager::Yarn,
                    PackageManagerSource::YarnLock,
                    path.as_str(),
                ),
                LanguageDetectionSource::PnpmLockYaml => single_pm(
                    PackageManager::Pnpm,
                    PackageManagerSource::PnpmLockYaml,
                    path.as_str(),
                ),
                LanguageDetectionSource::BunLockb => single_pm(
                    PackageManager::Bun,
                    PackageManagerSource::BunLockb,
                    path.as_str(),
                ),
                LanguageDetectionSource::BunLock => single_pm(
                    PackageManager::Bun,
                    PackageManagerSource::BunLock,
                    path.as_str(),
                ),
                LanguageDetectionSource::DenoJson => single_pm(
                    PackageManager::Deno,
                    PackageManagerSource::DenoJson,
                    path.as_str(),
                ),
                LanguageDetectionSource::DenoJsonc => single_pm(
                    PackageManager::Deno,
                    PackageManagerSource::DenoJsonc,
                    path.as_str(),
                ),
                LanguageDetectionSource::DenoLock => single_pm(
                    PackageManager::Deno,
                    PackageManagerSource::DenoLock,
                    path.as_str(),
                ),
                LanguageDetectionSource::LockJson => single_pm(
                    PackageManager::Deno,
                    PackageManagerSource::LockJson,
                    path.as_str(),
                ),
                LanguageDetectionSource::RequirementsTxt => single_pm(
                    PackageManager::Pip,
                    PackageManagerSource::RequirementsTxt,
                    path.as_str(),
                ),
                LanguageDetectionSource::PoetryLock => single_pm(
                    PackageManager::Poetry,
                    PackageManagerSource::PoetryLock,
                    path.as_str(),
                ),
                LanguageDetectionSource::Pipfile => single_pm(
                    PackageManager::Pipenv,
                    PackageManagerSource::Pipfile,
                    path.as_str(),
                ),
                LanguageDetectionSource::PipfileLock => single_pm(
                    PackageManager::Pipenv,
                    PackageManagerSource::PipfileLock,
                    path.as_str(),
                ),
                LanguageDetectionSource::CargoToml => single_pm(
                    PackageManager::Cargo,
                    PackageManagerSource::CargoToml,
                    path.as_str(),
                ),
                LanguageDetectionSource::CargoLock => single_pm(
                    PackageManager::Cargo,
                    PackageManagerSource::CargoLock,
                    path.as_str(),
                ),
                LanguageDetectionSource::GoMod => single_pm(
                    PackageManager::Go,
                    PackageManagerSource::GoMod,
                    path.as_str(),
                ),
                LanguageDetectionSource::GoSum => single_pm(
                    PackageManager::Go,
                    PackageManagerSource::GoSum,
                    path.as_str(),
                ),
                _ => empty,
            }
        },
        LanguageDetectionSignal::Weak(_) => empty,
    }
}

} // verus!
