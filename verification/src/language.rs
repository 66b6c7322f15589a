use vstd::prelude::*;
use crate::paths::{extension_of, file_name_of, spec_extension, spec_file_name};
use crate::text::{chars_eq, chars_to_string, str_chars};

verus! {

/// One of the ecosystems the detector recognises.
#[derive(Debug, Clone, Copy, PartialEq, Eq, Structural)]
pub enum Language {
    Go,
    Rust,
    Python,
    JavaScript,
}

impl Language {
    /// The canonical directory name used for generated files of this
    /// ecosystem.
    pub open spec fn spec_dir_name(&self) -> Seq<char> {
        match self {
            Language::Go => "golang"@,
            Language::Python => "python"@,
            Language::JavaScript => "nodejs"@,
            Language::Rust => "rust"@,
        }
    }

    pub fn dir_name(&self) -> (r: &'static str)
        ensures
            r@ == self.spec_dir_name(),
    {
        match self {
            Language::Go => "golang",
            Language::Python => "python",
            Language::JavaScript => "nodejs",
            Language::Rust => "rust",
        }
    }
}

/// Which recognised file gave rise to a detection signal.
#[derive(Debug, Clone, Copy, PartialEq, Eq, Structural)]
pub enum LanguageDetectionSource {
    // Go
    GoMod,
    GoWork,
    GoSum,
    GoVersionFile,
    GoFile,
    // Rust
    CargoToml,
    CargoLock,
    RustToolchain,
    RustToolchainToml,
    RsFile,
    // Python
    RequirementsTxt,
    PyprojectToml,
    Pipfile,
    PipfileLock,
    PoetryLock,
    SetupPy,
    SetupCfg,
    EnvironmentYml,
    PythonVersionFile,
    PyFile,
    // JavaScript
    PackageJson,
    PackageLockJson,
    YarnLock,
    PnpmLockYaml,
    BunLock,
    BunLockb,
    DenoLock,
    LockJson,
    DenoJson,
    DenoJsonc,
    TsConfig,
    JsConfig,
    NvmrcFile,
    NodeVersionFile,
    BunVersionFile,
    JsFile,
    MjsFile,
    CjsFile,
    TsFile,
    JsxFile,
    TsxFile,
}

impl LanguageDetectionSource {
    /// The ecosystem a source belongs to; total over the closed set.
    pub open spec fn spec_language(&self) -> Language {
        match self {
            LanguageDetectionSource::GoMod
            | LanguageDetectionSource::GoWork
            | LanguageDetectionSource::GoSum
            | LanguageDetectionSource::GoVersionFile
            | LanguageDetectionSource::GoFile => Language::Go,
            LanguageDetectionSource::CargoToml
            | LanguageDetectionSource::CargoLock
            | LanguageDetectionSource::RustToolchain
            | LanguageDetectionSource::RustToolchainToml
            | LanguageDetectionSource::RsFile => Language::Rust,
            LanguageDetectionSource::RequirementsTxt
            | LanguageDetectionSource::PyprojectToml
            | LanguageDetectionSource::Pipfile
            | LanguageDetectionSource::PipfileLock
            | LanguageDetectionSource::PoetryLock
            | LanguageDetectionSource::SetupPy
            | LanguageDetectionSource::SetupCfg
            | LanguageDetectionSource::EnvironmentYml
            | LanguageDetectionSource::PythonVersionFile
            | LanguageDetectionSource::PyFile => Language::Python,
            LanguageDetectionSource::PackageJson
            | LanguageDetectionSource::PackageLockJson
            | LanguageDetectionSource::YarnLock
            | LanguageDetectionSource::PnpmLockYaml
            | LanguageDetectionSource::BunLock
            | LanguageDetectionSource::BunLockb
            | LanguageDetectionSource::DenoLock
            | LanguageDetectionSource::LockJson
            | LanguageDetectionSource::DenoJson
            | LanguageDetectionSource::DenoJsonc
            | LanguageDetectionSource::TsConfig
            | LanguageDetectionSource::JsConfig
            | LanguageDetectionSource::NvmrcFile
            | LanguageDetectionSource::NodeVersionFile
            | LanguageDetectionSource::BunVersionFile
            | LanguageDetectionSource::JsFile
            | LanguageDetectionSource::MjsFile
            | LanguageDetectionSource::CjsFile
            | LanguageDetectionSource::TsFile
            | LanguageDetectionSource::JsxFile
            | LanguageDetectionSource::TsxFile => Language::JavaScript,
        }
    }

    pub fn language(&self) -> (r: Language)
        ensures
            r == self.spec_language(),
    {
        match self {
            LanguageDetectionSource::GoMod
            | LanguageDetectionSource::GoWork
            | LanguageDetectionSource::GoSum
            | LanguageDetectionSource::GoVersionFile
            | LanguageDetectionSource::GoFile => Language::Go,
            LanguageDetectionSource::CargoToml
            | LanguageDetectionSource::CargoLock
            | LanguageDetectionSource::RustToolchain
            | LanguageDetectionSource::RustToolchainToml
            | LanguageDetectionSource::RsFile => Language::Rust,
            LanguageDetectionSource::RequirementsTxt
            | LanguageDetectionSource::PyprojectToml
            | LanguageDetectionSource::Pipfile
            | LanguageDetectionSource::PipfileLock
            | LanguageDetectionSource::PoetryLock
            | LanguageDetectionSource::SetupPy
            | LanguageDetectionSource::SetupCfg
            | LanguageDetectionSource::EnvironmentYml
            | LanguageDetectionSource::PythonVersionFile
            | LanguageDetectionSource::PyFile => Language::Python,
            LanguageDetectionSource::PackageJson
            | LanguageDetectionSource::PackageLockJson
            | LanguageDetectionSource::YarnLock
            | LanguageDetectionSource::PnpmLockYaml
            | LanguageDetectionSource::BunLock
            | LanguageDetectionSource::BunLockb
            | LanguageDetectionSource::DenoLock
            | LanguageDetectionSource::LockJson
            | LanguageDetectionSource::DenoJson
            | LanguageDetectionSource::DenoJsonc
            | LanguageDetectionSource::TsConfig
            | LanguageDetectionSource::JsConfig
            | LanguageDetectionSource::NvmrcFile
            | LanguageDetectionSource::NodeVersionFile
            | LanguageDetectionSource::BunVersionFile
            | LanguageDetectionSource::JsFile
            | LanguageDetectionSource::MjsFile
            | LanguageDetectionSource::CjsFile
            | LanguageDetectionSource::TsFile
            | LanguageDetectionSource::JsxFile
            | LanguageDetectionSource::TsxFile => Language::JavaScript,
        }
    }
}

/// A detection hit: strong when an exact file name matched (the path
/// is kept), weak when only the extension matched.
#[derive(Debug, Clone)]
pub enum LanguageDetectionSignal {
    Strong { path: String, source: LanguageDetectionSource },
    Weak(LanguageDetectionSource),
}

/// The mathematical shadow of a signal: the path as a character
/// sequence.
pub enum SignalModel {
    Strong { path: Seq<char>, source: LanguageDetectionSource },
    Weak { source: LanguageDetectionSource },
}

impl SignalModel {
    pub open spec fn source(&self) -> LanguageDetectionSource {
        match self {
            SignalModel::Strong { source, .. } => *source,
            SignalModel::Weak { source } => *source,
        }
    }

    pub open spec fn is_strong(&self) -> bool {
        self is Strong
    }
}

impl View for LanguageDetectionSignal {
    type V = SignalModel;

    open spec fn view(&self) -> SignalModel {
        match self {
            LanguageDetectionSignal::Strong { path, source } => SignalModel::Strong {
                path: path@,
                source: *source,
            },
            LanguageDetectionSignal::Weak(source) => SignalModel::Weak { source: *source },
        }
    }
}

impl LanguageDetectionSignal {
    pub fn source(&self) -> (r: LanguageDetectionSource)
        ensures
            r == self@.source(),
    {
        match self {
            LanguageDetectionSignal::Strong { source, .. } => *source,
            LanguageDetectionSignal::Weak(source) => *source,
        }
    }

    pub fn language(&self) -> (r: Language)
        ensures
            r == self@.source().spec_language(),
    {
        self.source().language()
    }
}

/// The strong-match table: which exact file names carry a signal.
pub open spec fn spec_strong_source(name: Seq<char>) -> Option<LanguageDetectionSource> {
    if name == "go.mod"@ {
        Some(LanguageDetectionSource::GoMod)
    } else if name == "go.work"@ {
        Some(LanguageDetectionSource::GoWork)
    } else if name == "go.sum"@ {
        Some(LanguageDetectionSource::GoSum)
    } else if name == ".go-version"@ {
        Some(LanguageDetectionSource::GoVersionFile)
    } else if name == "Cargo.toml"@ {
        Some(LanguageDetectionSource::CargoToml)
    } else if name == "Cargo.lock"@ {
        Some(LanguageDetectionSource::CargoLock)
    } else if name == "rust-toolchain"@ {
        Some(LanguageDetectionSource::RustToolchain)
    } else if name == "rust-toolchain.toml"@ {
        Some(LanguageDetectionSource::RustToolchainToml)
    } else if name == "requirements.txt"@ {
        Some(LanguageDetectionSource::RequirementsTxt)
    } else if name == "pyproject.toml"@ {
        Some(LanguageDetectionSource::PyprojectToml)
    } else if name == "Pipfile"@ {
        Some(LanguageDetectionSource::Pipfile)
    } else if name == "Pipfile.lock"@ {
        Some(LanguageDetectionSource::PipfileLock)
    } else if name == "poetry.lock"@ {
        Some(LanguageDetectionSource::PoetryLock)
    } else if name == "setup.py"@ {
        Some(LanguageDetectionSource::SetupPy)
    } else if name == "setup.cfg"@ {
        Some(LanguageDetectionSource::SetupCfg)
    } else if name == "environment.yml"@ {
        Some(LanguageDetectionSource::EnvironmentYml)
    } else if name == ".python-version"@ {
        Some(LanguageDetectionSource::PythonVersionFile)
    } else if name == "package.json"@ {
        Some(LanguageDetectionSource::PackageJson)
    } else if name == "package-lock.json"@ {
        Some(LanguageDetectionSource::PackageLockJson)
    } else if name == "yarn.lock"@ {
        Some(LanguageDetectionSource::YarnLock)
    } else if name == "pnpm-lock.yaml"@ {
        Some(LanguageDetectionSource::PnpmLockYaml)
    } else if name == "bun.lock"@ {
        Some(LanguageDetectionSource::BunLock)
    } else if name == "bun.lockb"@ {
        Some(LanguageDetectionSource::BunLockb)
    } else if name == "deno.lock"@ {
        Some(LanguageDetectionSource::DenoLock)
    } else if name == "lock.json"@ {
        Some(LanguageDetectionSource::LockJson)
    } else if name == "deno.json"@ {
        Some(LanguageDetectionSource::DenoJson)
    } else if name == "deno.jsonc"@ {
        Some(LanguageDetectionSource::DenoJsonc)
    } else if name == "tsconfig.json"@ {
        Some(LanguageDetectionSource::TsConfig)
    } else if name == "jsconfig.json"@ {
        Some(LanguageDetectionSource::JsConfig)
    } else if name == ".nvmrc"@ {
        Some(LanguageDetectionSource::NvmrcFile)
    } else if name == ".node-version"@ {
        Some(LanguageDetectionSource::NodeVersionFile)
    } else if name == ".bun-version"@ {
        Some(LanguageDetectionSource::BunVersionFile)
    } else {
        None
    }
}

/// The weak-match table: which extensions carry a signal.
pub open spec fn spec_weak_source(ext: Seq<char>) -> Option<LanguageDetectionSource> {
    if ext == "go"@ {
        Some(LanguageDetectionSource::GoFile)
    } else if ext == "rs"@ {
        Some(LanguageDetectionSource::RsFile)
    } else if ext == "py"@ {
        Some(LanguageDetectionSource::PyFile)
    } else if ext == "js"@ {
        Some(LanguageDetectionSource::JsFile)
    } else if ext == "mjs"@ {
        Some(LanguageDetectionSource::MjsFile)
    } else if ext == "cjs"@ {
        Some(LanguageDetectionSource::CjsFile)
    } else if ext == "ts"@ {
        Some(LanguageDetectionSource::TsFile)
    } else if ext == "jsx"@ {
        Some(LanguageDetectionSource::JsxFile)
    } else if ext == "tsx"@ {
        Some(LanguageDetectionSource::TsxFile)
    } else {
        None
    }
}

/// The classification of one path: a strong signal on an exact file
/// name match, else a weak one on an extension match, else nothing.
pub open spec fn spec_classify_path(p: Seq<char>) -> Option<SignalModel> {
    match spec_file_name(p) {
        None => None,
        Some(name) => match spec_strong_source(name) {
            Some(source) => Some(SignalModel::Strong { path: p, source }),
            None => match spec_extension(name) {
                None => None,
                Some(ext) => match spec_weak_source(ext) {
                    Some(source) => Some(SignalModel::Weak { source }),
                    None => None,
                },
            },
        },
    }
}

fn strong_source_of(name: &Vec<char>) -> (r: Option<LanguageDetectionSource>)
    ensures
        r == spec_strong_source(name@),
{
    if chars_eq(name, "go.mod") {
        Some(LanguageDetectionSource::GoMod)
    } else if chars_eq(name, "go.work") {
        Some(LanguageDetectionSource::GoWork)
    } else if chars_eq(name, "go.sum") {
        Some(LanguageDetectionSource::GoSum)
    } else if chars_eq(name, ".go-version") {
        Some(LanguageDetectionSource::GoVersionFile)
    } else if chars_eq(name, "Cargo.toml") {
        Some(LanguageDetectionSource::CargoToml)
    } else if chars_eq(name, "Cargo.lock") {
        Some(LanguageDetectionSource::CargoLock)
    } else if chars_eq(name, "rust-toolchain") {
        Some(LanguageDetectionSource::RustToolchain)
    } else if chars_eq(name, "rust-toolchain.toml") {
        Some(LanguageDetectionSource::RustToolchainToml)
    } else if chars_eq(name, "requirements.txt") {
        Some(LanguageDetectionSource::RequirementsTxt)
    } else if chars_eq(name, "pyproject.toml") {
        Some(LanguageDetectionSource::PyprojectToml)
    } else if chars_eq(name, "Pipfile") {
        Some(LanguageDetectionSource::Pipfile)
    } else if chars_eq(name, "Pipfile.lock") {
        Some(LanguageDetectionSource::PipfileLock)
    } else if chars_eq(name, "poetry.lock") {
        Some(LanguageDetectionSource::PoetryLock)
    } else if chars_eq(name, "setup.py") {
        Some(LanguageDetectionSource::SetupPy)
    } else if chars_eq(name, "setup.cfg") {
        Some(LanguageDetectionSource::SetupCfg)
    } else if chars_eq(name, "environment.yml") {
        Some(LanguageDetectionSource::EnvironmentYml)
    } else if chars_eq(name, ".python-version") {
        Some(LanguageDetectionSource::PythonVersionFile)
    } else if chars_eq(name, "package.json") {
        Some(LanguageDetectionSource::PackageJson)
    } else if chars_eq(name, "package-lock.json") {
        Some(LanguageDetectionSource::PackageLockJson)
    } else if chars_eq(name, "yarn.lock") {
        Some(LanguageDetectionSource::YarnLock)
    } else if chars_eq(name, "pnpm-lock.yaml") {
        Some(LanguageDetectionSource::PnpmLockYaml)
    } else if chars_eq(name, "bun.lock") {
        Some(LanguageDetectionSource::BunLock)
    } else if chars_eq(name, "bun.lockb") {
        Some(LanguageDetectionSource::BunLockb)
    } else if chars_eq(name, "deno.lock") {
        Some(LanguageDetectionSource::DenoLock)
    } else if chars_eq(name, "lock.json") {
        Some(LanguageDetectionSource::LockJson)
    } else if chars_eq(name, "deno.json") {
        Some(LanguageDetectionSource::DenoJson)
    } else if chars_eq(name, "deno.jsonc") {
        Some(LanguageDetectionSource::DenoJsonc)
    } else if chars_eq(name, "tsconfig.json") {
        Some(LanguageDetectionSource::TsConfig)
    } else if chars_eq(name, "jsconfig.json") {
        Some(LanguageDetectionSource::JsConfig)
    } else if chars_eq(name, ".nvmrc") {
        Some(LanguageDetectionSource::NvmrcFile)
    } else if chars_eq(name, ".node-version") {
        Some(LanguageDetectionSource::NodeVersionFile)
    } else if chars_eq(name, ".bun-version") {
        Some(LanguageDetectionSource::BunVersionFile)
    } else {
        None
    }
}

fn weak_source_of(ext: &Vec<char>) -> (r: Option<LanguageDetectionSource>)
    ensures
        r == spec_weak_source(ext@),
{
    if chars_eq(ext, "go") {
        Some(LanguageDetectionSource::GoFile)
    } else if chars_eq(ext, "rs") {
        Some(LanguageDetectionSource::RsFile)
    } else if chars_eq(ext, "py") {
        Some(LanguageDetectionSource::PyFile)
    } else if chars_eq(ext, "js") {
        Some(LanguageDetectionSource::JsFile)
    } else if chars_eq(ext, "mjs") {
        Some(LanguageDetectionSource::MjsFile)
    } else if chars_eq(ext, "cjs") {
        Some(LanguageDetectionSource::CjsFile)
    } else if chars_eq(ext, "ts") {
        Some(LanguageDetectionSource::TsFile)
    } else if chars_eq(ext, "jsx") {
        Some(LanguageDetectionSource::JsxFile)
    } else if chars_eq(ext, "tsx") {
        Some(LanguageDetectionSource::TsxFile)
    } else {
        None
    }
}

impl LanguageDetectionSignal {
    /// Classifies one path into a detection signal, if the name or
    /// extension is recognised.
    pub fn try_from_path(path: &str) -> (r: Option<LanguageDetectionSignal>)
        ensures
            match r {
                Some(sig) => spec_classify_path(path@) == Some(sig@),
                None => spec_classify_path(path@) is None,
            },
    {
        let pv = str_chars(path);
        let name = match file_name_of(&pv) {
            Some(n) => n,
            None => {
                return None;
            },
        };
        match strong_source_of(&name) {
            Some(source) => Some(
                LanguageDetectionSignal::Strong { path: path.to_owned(), source },
            ),
            None => {
                let ext = match extension_of(&name) {
                    Some(e) => e,
                    None => {
                        return None;
                    },
                };
                match weak_source_of(&ext) {
                    Some(source) => Some(LanguageDetectionSignal::Weak(source)),
                    None => None,
                }
            },
        }
    }
}

/// One ecosystem together with its deduplicated signals.
#[derive(Debug)]
pub struct LanguageDetection {
    pub language: Language,
    pub sources: Vec<LanguageDetectionSignal>,
}

/// Keeps every strong signal, and of the weak signals only the first
/// of each source tag not already in `seen`.
pub open spec fn spec_dedup_signals(
    s: Seq<SignalModel>,
    seen: Set<LanguageDetectionSource>,
) -> Seq<SignalModel>
    decreases s.len(),
{
    if s.len() == 0 {
        s
    } else {
        let h = s[0];
        let rest = s.drop_first();
        match h {
            SignalModel::Strong { .. } => seq![h] + spec_dedup_signals(rest, seen),
            SignalModel::Weak { source } => if seen.contains(source) {
                spec_dedup_signals(rest, seen)
            } else {
                seq![h] + spec_dedup_signals(rest, seen.insert(source))
            },
        }
    }
}

impl LanguageDetection {
    /// Builds a detection record, collapsing repeated weak signals of
    /// one source while keeping every strong signal.
    pub fn new(language: Language, sources: Vec<LanguageDetectionSignal>) -> (r:
        LanguageDetection)
        ensures
            r.language == language,
            r.sources@.map_values(|s: LanguageDetectionSignal| s@) == spec_dedup_signals(
                sources@.map_values(|s: LanguageDetectionSignal| s@),
                Set::empty(),
            ),
    {
        let ghost orig = sources@.map_values(|s: LanguageDetectionSignal| s@);
        let mut kept: Vec<LanguageDetectionSignal> = Vec::new();
        let mut seen_weak: Vec<LanguageDetectionSource> = Vec::new();
        let ghost mut seen_set: Set<LanguageDetectionSource> = Set::empty();
        let mut i: usize = 0;
        proof {
            assert(orig.skip(0) =~= orig);
            assert(kept@.map_values(|s: LanguageDetectionSignal| s@) + spec_dedup_signals(
                orig,
                seen_set,
            ) =~= spec_dedup_signals(orig, Set::empty()));
        }
        while i < sources.len()
            invariant
                i <= sources@.len(),
                orig == sources@.map_values(|s: LanguageDetectionSignal| s@),
                seen_set == seen_weak@.to_set(),
                kept@.map_values(|s: LanguageDetectionSignal| s@) + spec_dedup_signals(
                    orig.skip(i as int),
                    seen_set,
                ) == spec_dedup_signals(orig, Set::empty()),
            decreases sources.len() - i,
        {
            proof {
                assert(orig.skip(i as int)[0] == orig[i as int]);
                assert(orig.skip(i as int).drop_first() =~= orig.skip(i + 1));
            }
            let ghost old_kept = kept@.map_values(|s: LanguageDetectionSignal| s@);
            match &sources[i] {
                LanguageDetectionSignal::Strong { path, source } => {
                    let sig = LanguageDetectionSignal::Strong {
                        path: path.clone(),
                        source: *source,
                    };
                    proof {
                        assert(sig@ == orig[i as int]);
                    }
                    kept.push(sig);
                    proof {
                        assert(kept@.map_values(|s: LanguageDetectionSignal| s@) =~= old_kept.push(
                            orig[i as int],
                        ));
                        assert(old_kept.push(orig[i as int]) + spec_dedup_signals(
                            orig.skip(i + 1),
                            seen_set,
                        ) =~= old_kept + (seq![orig[i as int]] + spec_dedup_signals(
                            orig.skip(i + 1),
                            seen_set,
                        )));
                    }
                },
                LanguageDetectionSignal::Weak(source) => {
                    let src = *source;
                    proof {
                        assert(orig[i as int] == SignalModel::Weak { source: src });
                    }
                    let mut found = false;
                    let mut j: usize = 0;
                    while j < seen_weak.len()
                        invariant
                            j <= seen_weak@.len(),
                            found == exists|k: int| 0 <= k < j && seen_weak@[k] == src,
                        decreases seen_weak.len() - j,
                    {
                        if seen_weak[j] == src {
                            found = true;
                            proof {
                                assert(seen_weak@[j as int] == src);
                            }
                        }
                        j = j + 1;
                    }
                    proof {
                        assert(found == seen_weak@.to_set().contains(src)) by {
                            if found {
                                let k = choose|k: int| 0 <= k < seen_weak@.len() && seen_weak@[k]
                                    == src;
                                assert(seen_weak@.to_set().contains(seen_weak@[k]));
                            } else {
                                if seen_weak@.to_set().contains(src) {
                                    assert(seen_weak@.contains(src));
                                }
                            }
                        }
                    }
                    if !found {
                        let ghost old_sw = seen_weak@;
                        kept.push(LanguageDetectionSignal::Weak(src));
                        seen_weak.push(src);
                        proof {
                            assert(seen_weak@.to_set() =~= seen_set.insert(src)) by {
                                assert forall|x: LanguageDetectionSource|
                                    seen_weak@.to_set().contains(x) == seen_set.insert(
                                        src,
                                    ).contains(x) by {
                                    if seen_weak@.contains(x) {
                                        let k = choose|k: int|
                                            0 <= k < seen_weak@.len() && seen_weak@[k] == x;
                                        if k < old_sw.len() {
                                            assert(old_sw[k] == x);
                                        }
                                    }
                                    if old_sw.contains(x) {
                                        let k = choose|k: int|
                                            0 <= k < old_sw.len() && old_sw[k] == x;
                                        assert(seen_weak@[k] == x);
                                    }
                                    if x == src {
                                        assert(seen_weak@[old_sw.len() as int] == x);
                                    }
                                }
                            }
                            seen_set = seen_set.insert(src);
                            assert(kept@.map_values(|s: LanguageDetectionSignal| s@)
                                =~= old_kept.push(orig[i as int]));
                            assert(old_kept.push(orig[i as int]) + spec_dedup_signals(
                                orig.skip(i + 1),
                                seen_set,
                            ) =~= old_kept + (seq![orig[i as int]] + spec_dedup_signals(
                                orig.skip(i + 1),
                                seen_set,
                            )));
                        }
                    }
                },
            }
            i = i + 1;
        }
        proof {
            assert(orig.skip(i as int) =~= Seq::<SignalModel>::empty());
            assert(kept@.map_values(|s: LanguageDetectionSignal| s@) + spec_dedup_signals(
                orig.skip(i as int),
                seen_set,
            ) =~= kept@.map_values(|s: LanguageDetectionSignal| s@));
        }
        LanguageDetection { language, sources: kept }
    }
}

/// In a deduplicated signal list no weak source occurs twice.
pub open spec fn spec_weak_unique(s: Seq<SignalModel>) -> bool {
    forall|i: int, j: int|
        0 <= i < j < s.len() && !s[i].is_strong() && !s[j].is_strong() ==> (#[trigger] s[i].source())
            != (#[trigger] s[j].source())
}

/// Weak-signal deduplication never leaves two weak signals of one
/// source, and keeps every strong signal, in order.
pub proof fn lemma_dedup_signals_sound(s: Seq<SignalModel>, seen: Set<LanguageDetectionSource>)
    ensures
        spec_weak_unique(spec_dedup_signals(s, seen)),
        forall|i: int|
            0 <= i < spec_dedup_signals(s, seen).len() && !(#[trigger] spec_dedup_signals(
                s,
                seen,
            )[i]).is_strong() ==> !seen.contains(spec_dedup_signals(s, seen)[i].source()),
        spec_dedup_signals(s, seen).filter(|m: SignalModel| m.is_strong()) == s.filter(
            |m: SignalModel| m.is_strong(),
        ),
    decreases s.len(),
{
    reveal(Seq::filter);
    if s.len() == 0 {
        assert(s.filter(|m: SignalModel| m.is_strong()) =~= Seq::<SignalModel>::empty());
    } else {
        let h = s[0];
        let rest = s.drop_first();
        assert(s =~= seq![h] + rest);
        lemma_filter_cons(h, rest);
        match h {
            SignalModel::Strong { .. } => {
                lemma_dedup_signals_sound(rest, seen);
                let d = spec_dedup_signals(rest, seen);
                lemma_filter_cons_dedup(h, d, rest, seen);
            },
            SignalModel::Weak { source } => {
                if seen.contains(source) {
                    lemma_dedup_signals_sound(rest, seen);
                    assert(spec_dedup_signals(s, seen).filter(|m: SignalModel| m.is_strong())
                        =~= s.filter(|m: SignalModel| m.is_strong()));
                } else {
                    lemma_dedup_signals_sound(rest, seen.insert(source));
                    let d = spec_dedup_signals(rest, seen.insert(source));
                    lemma_filter_cons_dedup(h, d, rest, seen.insert(source));
                    assert forall|i: int, j: int|
                        0 <= i < j < spec_dedup_signals(s, seen).len() && !spec_dedup_signals(
                            s,
                            seen,
                        )[i].is_strong() && !spec_dedup_signals(s, seen)[j].is_strong() implies (
                    #[trigger] spec_dedup_signals(s, seen)[i].source()) != (
                    #[trigger] spec_dedup_signals(s, seen)[j].source()) by {
                        if i == 0 {
                            assert(spec_dedup_signals(s, seen)[j] == d[j - 1]);
                            assert(!seen.insert(source).contains(d[j - 1].source()));
                        } else {
                            assert(spec_dedup_signals(s, seen)[i] == d[i - 1]);
                            assert(spec_dedup_signals(s, seen)[j] == d[j - 1]);
                        }
                    }
                }
            },
        }
    }
}

proof fn lemma_filter_cons(h: SignalModel, rest: Seq<SignalModel>)
    ensures
        (seq![h] + rest).filter(|m: SignalModel| m.is_strong()) == if h.is_strong() {
            seq![h] + rest.filter(|m: SignalModel| m.is_strong())
        } else {
            rest.filter(|m: SignalModel| m.is_strong())
        },
    decreases rest.len(),
{
    reveal_with_fuel(Seq::filter, 3);
    Seq::filter_distributes_over_add(seq![h], rest, |m: SignalModel| m.is_strong());
    assert(seq![h].drop_last() =~= Seq::<SignalModel>::empty());
    if h.is_strong() {
        assert(seq![h].filter(|m: SignalModel| m.is_strong()) =~= seq![h]);
    } else {
        assert(seq![h].filter(|m: SignalModel| m.is_strong()) =~= Seq::<SignalModel>::empty());
        assert(Seq::<SignalModel>::empty() + rest.filter(|m: SignalModel| m.is_strong())
            =~= rest.filter(|m: SignalModel| m.is_strong()));
    }
}

proof fn lemma_filter_cons_dedup(
    h: SignalModel,
    d: Seq<SignalModel>,
    rest: Seq<SignalModel>,
    seen: Set<LanguageDetectionSource>,
)
    requires
        d == spec_dedup_signals(rest, seen),
        d.filter(|m: SignalModel| m.is_strong()) == rest.filter(|m: SignalModel| m.is_strong()),
    ensures
        (seq![h] + d).filter(|m: SignalModel| m.is_strong()) == if h.is_strong() {
            seq![h] + rest.filter(|m: SignalModel| m.is_strong())
        } else {
            rest.filter(|m: SignalModel| m.is_strong())
        },
{
    lemma_filter_cons(h, d);
}

} // verus!
