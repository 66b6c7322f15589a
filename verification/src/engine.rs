use vstd::prelude::*;
use crate::FileEntry;
use crate::language::{
    Language, LanguageDetection, LanguageDetectionSignal, SignalModel, spec_classify_path,
    spec_dedup_signals,
};
use crate::package_manager::{
    PackageManagerDetection, PackageManagerInfo, PackageManagerInfoModel, managers_for_signal,
    spec_managers_for_signal,
};
use crate::paths::{file_name_of, spec_file_name, spec_relativize, relativize_path};
use crate::task_runner::{
    TaskRunner, TaskRunnerCommandsModel, TaskRunnerDetection, TaskRunnerFile, TaskRunnerSource,
    spec_extracted_commands, spec_file_runner_source,
};
use crate::text::{chars_eq, chars_eq_vec, spec_split, split_char, str_chars};
use crate::version::{
    VersionDetection, VersionInfo, VersionInfoModel, spec_versions_for_signal,
    versions_for_signal,
};

verus! {

/// The mathematical shadow of a tree entry.
pub struct FileEntryModel {
    pub path: Seq<char>,
    pub is_file: bool,
    pub content: Option<Seq<char>>,
}

impl View for FileEntry {
    type V = FileEntryModel;

    open spec fn view(&self) -> FileEntryModel {
        FileEntryModel {
            path: self.path@,
            is_file: self.is_file,
            content: match self.content {
                Some(ref c) => Some(c@),
                None => None,
            },
        }
    }
}

/// How far detection looks: the whole tree, or the root directory
/// alone.
#[derive(Debug, Clone, Copy, PartialEq, Eq, Structural)]
pub enum DetectionScope {
    All,
    Root,
}

impl Default for DetectionScope {
    fn default() -> (r: DetectionScope)
        ensures
            r == DetectionScope::All,
    {
        DetectionScope::All
    }
}

/// Everything detection found in one pass over the tree.
#[derive(Debug)]
pub struct ProjectMetadata {
    pub languages: Vec<LanguageDetection>,
    pub versions: Vec<VersionDetection>,
    pub package_managers: Vec<PackageManagerDetection>,
    pub task_runners: Vec<TaskRunnerDetection>,
}

/// The directory basenames the walk never descends into: version
/// control, dependency caches, build output and editor state.
pub open spec fn spec_is_ignored_dir(name: Seq<char>) -> bool {
    ||| name == ".git"@
    ||| name == ".hg"@
    ||| name == ".svn"@
    ||| name == "node_modules"@
    ||| name == ".yarn"@
    ||| name == ".pnpm-store"@
    ||| name == ".turbo"@
    ||| name == ".nx"@
    ||| name == ".next"@
    ||| name == ".nuxt"@
    ||| name == ".svelte-kit"@
    ||| name == ".parcel-cache"@
    ||| name == "target"@
    ||| name == ".venv"@
    ||| name == "venv"@
    ||| name == "env"@
    ||| name == "__pycache__"@
    ||| name == ".tox"@
    ||| name == ".nox"@
    ||| name == ".pytest_cache"@
    ||| name == ".mypy_cache"@
    ||| name == ".ruff_cache"@
    ||| name == "dist"@
    ||| name == "build"@
    ||| name == "out"@
    ||| name == "coverage"@
    ||| name == ".cache"@
    ||| name == ".direnv"@
    ||| name == ".idea"@
    ||| name == ".vscode"@
    ||| name == "vendor"@
    ||| name == ".terraform"@
}

/// Whether a directory basename is on the fixed ignore list.
pub fn is_ignored_dir_name(name: &str) -> (r: bool)
    ensures
        r == spec_is_ignored_dir(name@),
{
    let nv = str_chars(name);
    chars_eq(&nv, ".git") || chars_eq(&nv, ".hg") || chars_eq(&nv, ".svn") || chars_eq(
        &nv,
        "node_modules",
    ) || chars_eq(&nv, ".yarn") || chars_eq(&nv, ".pnpm-store") || chars_eq(&nv, ".turbo")
        || chars_eq(&nv, ".nx") || chars_eq(&nv, ".next") || chars_eq(&nv, ".nuxt") || chars_eq(
        &nv,
        ".svelte-kit",
    ) || chars_eq(&nv, ".parcel-cache") || chars_eq(&nv, "target") || chars_eq(&nv, ".venv")
        || chars_eq(&nv, "venv") || chars_eq(&nv, "env") || chars_eq(&nv, "__pycache__")
        || chars_eq(&nv, ".tox") || chars_eq(&nv, ".nox") || chars_eq(&nv, ".pytest_cache")
        || chars_eq(&nv, ".mypy_cache") || chars_eq(&nv, ".ruff_cache") || chars_eq(&nv, "dist")
        || chars_eq(&nv, "build") || chars_eq(&nv, "out") || chars_eq(&nv, "coverage") || chars_eq(
        &nv,
        ".cache",
    ) || chars_eq(&nv, ".direnv") || chars_eq(&nv, ".idea") || chars_eq(&nv, ".vscode")
        || chars_eq(&nv, "vendor") || chars_eq(&nv, ".terraform")
}

fn is_ignored_dir_chars(nv: &Vec<char>) -> (r: bool)
    ensures
        r == spec_is_ignored_dir(nv@),
{
    chars_eq(nv, ".git") || chars_eq(nv, ".hg") || chars_eq(nv, ".svn") || chars_eq(
        nv,
        "node_modules",
    ) || chars_eq(nv, ".yarn") || chars_eq(nv, ".pnpm-store") || chars_eq(nv, ".turbo")
        || chars_eq(nv, ".nx") || chars_eq(nv, ".next") || chars_eq(nv, ".nuxt") || chars_eq(
        nv,
        ".svelte-kit",
    ) || chars_eq(nv, ".parcel-cache") || chars_eq(nv, "target") || chars_eq(nv, ".venv")
        || chars_eq(nv, "venv") || chars_eq(nv, "env") || chars_eq(nv, "__pycache__") || chars_eq(
        nv,
        ".tox",
    ) || chars_eq(nv, ".nox") || chars_eq(nv, ".pytest_cache") || chars_eq(nv, ".mypy_cache")
        || chars_eq(nv, ".ruff_cache") || chars_eq(nv, "dist") || chars_eq(nv, "build")
        || chars_eq(nv, "out") || chars_eq(nv, "coverage") || chars_eq(nv, ".cache") || chars_eq(
        nv,
        ".direnv",
    ) || chars_eq(nv, ".idea") || chars_eq(nv, ".vscode") || chars_eq(nv, "vendor") || chars_eq(
        nv,
        ".terraform",
    )
}

/// Whether the root's own basename is on the ignore list, in which
/// case nothing below it is walked.
pub open spec fn spec_root_ignored(root: Seq<char>) -> bool {
    match spec_file_name(root) {
        Some(n) => spec_is_ignored_dir(n),
        None => false,
    }
}

/// Whether a walked path survives pruning under the given scope: the
/// root always does; below an ignored root nothing does; under full
/// scope no ancestor directory of the entry may be ignored; under
/// root scope only direct children remain.
pub open spec fn spec_keep_path(root: Seq<char>, scope: DetectionScope, path: Seq<char>) -> bool {
    if path == root {
        true
    } else if spec_root_ignored(root) {
        false
    } else {
        let comps = spec_split(spec_relativize(root, path), '/');
        match scope {
            DetectionScope::All => forall|j: int|
                0 <= j < comps.len() - 1 ==> !spec_is_ignored_dir(#[trigger] comps[j]),
            DetectionScope::Root => comps.len() == 1,
        }
    }
}

fn keep_path(root: &Vec<char>, scope: DetectionScope, path: &Vec<char>) -> (r: bool)
    ensures
        r == spec_keep_path(root@, scope, path@),
{
    if chars_eq_vec(path, root) {
        return true;
    }
    let root_name = file_name_of(root);
    if let Some(n) = root_name {
        if is_ignored_dir_chars(&n) {
            return false;
        }
    }
    let rel = relativize_path(root, path);
    let comps = split_char(&rel, '/');
    let ghost cv = comps@.map_values(|l: Vec<char>| l@);
    match scope {
        DetectionScope::Root => comps.len() == 1,
        DetectionScope::All => {
            let n = comps.len();
            let mut j: usize = 0;
            while j < n - 1
                invariant
                    1 <= n == cv.len(),
                    j <= cv.len(),
                    cv == comps@.map_values(|l: Vec<char>| l@),
                    cv == spec_split(spec_relativize(root@, path@), '/'),
                    forall|k: int| 0 <= k < j ==> !spec_is_ignored_dir(#[trigger] cv[k]),
                decreases n - j,
            {
                proof {
                    assert(cv[j as int] == comps@[j as int]@);
                }
                if is_ignored_dir_chars(&comps[j]) {
                    proof {
                        assert(spec_is_ignored_dir(cv[j as int]));
                        assert(0 <= j < cv.len() - 1);
                    }
                    return false;
                }
                j = j + 1;
            }
            true
        },
    }
}

/// The entries that survive pruning.
pub open spec fn spec_kept(
    files: Seq<FileEntryModel>,
    root: Seq<char>,
    scope: DetectionScope,
) -> Seq<FileEntryModel> {
    files.filter(|e: FileEntryModel| spec_keep_path(root, scope, e.path))
}

/// The first captured content for a path, if any entry carries it.
pub open spec fn spec_content_of(files: Seq<FileEntryModel>, path: Seq<char>) -> Option<Seq<char>>
    decreases files.len(),
{
    if files.len() == 0 {
        None
    } else if files[0].path == path {
        files[0].content
    } else {
        spec_content_of(files.drop_first(), path)
    }
}

pub fn content_of<'a>(files: &'a Vec<FileEntry>, path: &str) -> (r: Option<&'a String>)
    ensures
        match r {
            Some(c) => spec_content_of(files@.map_values(|e: FileEntry| e@), path@) == Some(c@),
            None => spec_content_of(files@.map_values(|e: FileEntry| e@), path@) is None,
        },
{
    let ghost fv = files@.map_values(|e: FileEntry| e@);
    let pv = str_chars(path);
    let mut i: usize = 0;
    proof {
        assert(fv.skip(0) =~= fv);
    }
    while i < files.len()
        invariant
            i <= files@.len(),
            fv == files@.map_values(|e: FileEntry| e@),
            pv@ == path@,
            spec_content_of(fv, path@) == spec_content_of(fv.skip(i as int), path@),
        decreases files.len() - i,
    {
        proof {
            assert(fv.skip(i as int)[0] == fv[i as int]);
            assert(fv[i as int] == files@[i as int]@);
            assert(fv.skip(i as int).drop_first() =~= fv.skip(i + 1));
        }
        let epv = str_chars(files[i].path.as_str());
        if chars_eq_vec(&epv, &pv) {
            match &files[i].content {
                Some(c) => {
                    return Some(c);
                },
                None => {
                    return None;
                },
            }
        }
        i = i + 1;
    }
    proof {
        assert(fv.skip(i as int) =~= Seq::<FileEntryModel>::empty());
    }
    None
}

/// The signals of one ecosystem among the kept entries, in walk
/// order.
pub open spec fn spec_signals_for(kept: Seq<FileEntryModel>, lang: Language) -> Seq<SignalModel>
    decreases kept.len(),
{
    if kept.len() == 0 {
        Seq::empty()
    } else {
        let prev = spec_signals_for(kept.drop_last(), lang);
        match spec_classify_path(kept.last().path) {
            Some(sig) => if sig.source().spec_language() == lang {
                prev.push(sig)
            } else {
                prev
            },
            None => prev,
        }
    }
}

/// One ecosystem's deduplicated detection, when it has any signal.
pub open spec fn spec_language_detection(kept: Seq<FileEntryModel>, lang: Language) -> Option<
    Seq<SignalModel>,
> {
    let signals = spec_signals_for(kept, lang);
    if signals.len() == 0 {
        None
    } else {
        Some(spec_dedup_signals(signals, Set::empty()))
    }
}

fn signals_for(kept: &Vec<FileEntry>, lang: Language) -> (r: Vec<LanguageDetectionSignal>)
    ensures
        r@.map_values(|s: LanguageDetectionSignal| s@) == spec_signals_for(
            kept@.map_values(|e: FileEntry| e@),
            lang,
        ),
{
    let ghost kv = kept@.map_values(|e: FileEntry| e@);
    let mut r: Vec<LanguageDetectionSignal> = Vec::new();
    let mut i: usize = 0;
    proof {
        assert(kv.take(0) =~= Seq::<FileEntryModel>::empty());
        assert(r@.map_values(|s: LanguageDetectionSignal| s@) =~= Seq::<SignalModel>::empty());
    }
    while i < kept.len()
        invariant
            i <= kept@.len(),
            kv == kept@.map_values(|e: FileEntry| e@),
            r@.map_values(|s: LanguageDetectionSignal| s@) == spec_signals_for(
                kv.take(i as int),
                lang,
            ),
        decreases kept.len() - i,
    {
        proof {
            assert(kv.take(i + 1).drop_last() =~= kv.take(i as int));
            assert(kv.take(i + 1).last() == kv[i as int]);
            assert(kv[i as int] == kept@[i as int]@);
        }
        let ghost old_map = r@.map_values(|s: LanguageDetectionSignal| s@);
        if let Some(sig) = LanguageDetectionSignal::try_from_path(kept[i].path.as_str()) {
            if sig.language() == lang {
                r.push(sig);
                proof {
                    assert(r@.map_values(|s: LanguageDetectionSignal| s@) =~= old_map.push(
                        spec_signals_for(kv.take(i + 1), lang).last(),
                    ));
                }
            }
        }
        i = i + 1;
    }
    proof {
        assert(kv.take(kv.len() as int) =~= kv);
    }
    r
}

/// The engine: one detection pass over a captured tree.
pub struct DetectionEngine;

impl Default for DetectionEngine {
    fn default() -> (r: DetectionEngine) {
        DetectionEngine
    }
}

impl DetectionEngine {
    /// Detects over the whole captured tree.
    pub fn detect(&self, files: &Vec<FileEntry>, root: &str) -> (r: ProjectMetadata)
        ensures
            spec_detect_holds(r, files@.map_values(|e: FileEntry| e@), root@, DetectionScope::All),
    {
        self.detect_with_scope(files, root, DetectionScope::All)
    }

    /// Detects over the captured tree, restricted by scope: every
    /// surviving path is classified; each ecosystem with signals
    /// yields one deduplicated detection; version and
    /// package-manager readings are drawn from each strong signal's
    /// captured content; every recognised runner file yields its
    /// extracted commands.
    pub fn detect_with_scope(&self, files: &Vec<FileEntry>, root: &str, scope: DetectionScope)
        -> (r: ProjectMetadata)
        ensures
            spec_detect_holds(r, files@.map_values(|e: FileEntry| e@), root@, scope),
    {
        let ghost fv = files@.map_values(|e: FileEntry| e@);
        let rootv = str_chars(root);

        // Prune the snapshot by scope and the ignore list.
        let mut kept: Vec<FileEntry> = Vec::new();
        let mut i: usize = 0;
        proof {
            reveal(Seq::filter);
            assert(fv.take(0) =~= Seq::<FileEntryModel>::empty());
            assert(kept@.map_values(|e: FileEntry| e@) =~= fv.take(0).filter(
                |e: FileEntryModel| spec_keep_path(root@, scope, e.path),
            ));
        }
        while i < files.len()
            invariant
                i <= files@.len(),
                fv == files@.map_values(|e: FileEntry| e@),
                rootv@ == root@,
                kept@.map_values(|e: FileEntry| e@) == fv.take(i as int).filter(
                    |e: FileEntryModel| spec_keep_path(root@, scope, e.path),
                ),
            decreases files.len() - i,
        {
            proof {
                reveal(Seq::filter);
                assert(fv.take(i + 1).drop_last() =~= fv.take(i as int));
                assert(fv.take(i + 1).last() == fv[i as int]);
                assert(fv[i as int] == files@[i as int]@);
            }
            let pv = str_chars(files[i].path.as_str());
            let ghost old_map = kept@.map_values(|e: FileEntry| e@);
            if keep_path(&rootv, scope, &pv) {
                let entry = FileEntry {
                    path: files[i].path.clone(),
                    is_file: files[i].is_file,
                    content: match &files[i].content {
                        Some(c) => Some(c.clone()),
                        None => None,
                    },
                };
                proof {
                    assert(entry@ == fv[i as int]);
                }
                kept.push(entry);
                proof {
                    assert(kept@.map_values(|e: FileEntry| e@) =~= old_map.push(fv[i as int]));
                }
            }
            i = i + 1;
        }
        proof {
            assert(fv.take(fv.len() as int) =~= fv);
        }
        let ghost kv = kept@.map_values(|e: FileEntry| e@);

        // One detection per ecosystem that has signals, in a fixed
        // order.
        let mut languages: Vec<LanguageDetection> = Vec::new();
        let lang_order = language_order();
        let mut li: usize = 0;
        while li < lang_order.len()
            invariant
                li <= 4,
                lang_order@.len() == 4,
                lang_order@[0] == Language::Go,
                lang_order@[1] == Language::Rust,
                lang_order@[2] == Language::Python,
                lang_order@[3] == Language::JavaScript,
                kv == kept@.map_values(|e: FileEntry| e@),
                languages@.map_values(|d: LanguageDetection| (d.language, d.sources@.map_values(
                    |s: LanguageDetectionSignal| s@,
                ))) == spec_language_list(kv, lang_order@.take(li as int)),
            decreases lang_order.len() - li,
        {
            proof {
                assert(lang_order@.take(li + 1).drop_last() =~= lang_order@.take(li as int));
            }
            let lang = lang_order[li];
            let signals = signals_for(&kept, lang);
            let ghost old_map = languages@.map_values(
                |d: LanguageDetection| (d.language, d.sources@.map_values(
                    |s: LanguageDetectionSignal| s@,
                )),
            );
            if signals.len() > 0 {
                let detection = LanguageDetection::new(lang, signals);
                languages.push(detection);
                proof {
                    assert(languages@.map_values(
                        |d: LanguageDetection| (d.language, d.sources@.map_values(
                            |s: LanguageDetectionSignal| s@,
                        )),
                    ) =~= old_map.push(
                        (lang, spec_dedup_signals(spec_signals_for(kv, lang), Set::empty())),
                    ));
                }
            }
            li = li + 1;
        }
        proof {
            assert(lang_order@.take(4) =~= lang_order@);
        }

        // Task runners: every kept entry that is a recognised runner
        // file.
        let mut task_runners: Vec<TaskRunnerDetection> = Vec::new();
        let mut ti: usize = 0;
        proof {
            assert(kv.take(0) =~= Seq::<FileEntryModel>::empty());
            assert(task_runners@.map_values(|d: TaskRunnerDetection| spec_runner_model(d))
                =~= spec_runner_list(kv.take(0)));
        }
        while ti < kept.len()
            invariant
                ti <= kept@.len(),
                kv == kept@.map_values(|e: FileEntry| e@),
                task_runners@.map_values(|d: TaskRunnerDetection| spec_runner_model(d))
                    == spec_runner_list(kv.take(ti as int)),
            decreases kept.len() - ti,
        {
            proof {
                assert(kv.take(ti + 1).drop_last() =~= kv.take(ti as int));
                assert(kv.take(ti + 1).last() == kv[ti as int]);
                assert(kv[ti as int] == kept@[ti as int]@);
            }
            let ghost old_map = task_runners@.map_values(
                |d: TaskRunnerDetection| spec_runner_model(d),
            );
            let content_copy: Option<String> = match &kept[ti].content {
                Some(c) => Some(c.clone()),
                None => None,
            };
            if let Some(file) = TaskRunnerFile::try_from_entry(
                kept[ti].path.as_str(),
                kept[ti].is_file,
                content_copy,
            ) {
                let detection = TaskRunnerDetection::from_file(file);
                task_runners.push(detection);
                proof {
                    assert(task_runners@.map_values(
                        |d: TaskRunnerDetection| spec_runner_model(d),
                    ) =~= old_map.push(spec_runner_list(kv.take(ti + 1)).last()));
                }
            }
            ti = ti + 1;
        }
        proof {
            assert(kv.take(kv.len() as int) =~= kv);
        }

        // Versions and package managers, drawn from each ecosystem's
        // deduplicated strong signals and the captured contents.
        let ghost langs_spec = languages@.map_values(
            |d: LanguageDetection| (d.language, d.sources@.map_values(
                |s: LanguageDetectionSignal| s@,
            )),
        );
        let mut versions: Vec<VersionDetection> = Vec::new();
        let mut package_managers: Vec<PackageManagerDetection> = Vec::new();
        let mut di: usize = 0;
        proof {
            assert(langs_spec.take(0) =~= Seq::<(Language, Seq<SignalModel>)>::empty());
            assert(versions@.map_values(
                |d: VersionDetection| (d.language, d.versions@.map_values(|x: VersionInfo| x@)),
            ) =~= spec_version_list(langs_spec.take(0), fv));
            assert(package_managers@.map_values(
                |d: PackageManagerDetection| (d.language, d.package_managers@.map_values(
                    |x: PackageManagerInfo| x@,
                )),
            ) =~= spec_manager_list(langs_spec.take(0), fv));
        }
        while di < languages.len()
            invariant
                di <= languages@.len(),
                fv == files@.map_values(|e: FileEntry| e@),
                langs_spec == languages@.map_values(
                    |d: LanguageDetection| (d.language, d.sources@.map_values(
                        |s: LanguageDetectionSignal| s@,
                    )),
                ),
                versions@.map_values(
                    |d: VersionDetection| (d.language, d.versions@.map_values(
                        |x: VersionInfo| x@,
                    )),
                ) == spec_version_list(langs_spec.take(di as int), fv),
                package_managers@.map_values(
                    |d: PackageManagerDetection| (d.language, d.package_managers@.map_values(
                        |x: PackageManagerInfo| x@,
                    )),
                ) == spec_manager_list(langs_spec.take(di as int), fv),
            decreases languages.len() - di,
        {
            proof {
                assert(langs_spec.take(di + 1).drop_last() =~= langs_spec.take(di as int));
                assert(langs_spec.take(di + 1).last() == langs_spec[di as int]);
            }
            let ghost ssources = langs_spec[di as int].1;
            let lang = languages[di].language;
            proof {
                assert(langs_spec[di as int] == (languages@[di as int].language,
                    languages@[di as int].sources@.map_values(
                        |s: LanguageDetectionSignal| s@,
                    )));
            }
            let mut vs: Vec<VersionInfo> = Vec::new();
            let mut pms: Vec<PackageManagerInfo> = Vec::new();
            let n_signals = languages[di].sources.len();
            let mut si: usize = 0;
            proof {
                assert(ssources.take(0) =~= Seq::<SignalModel>::empty());
                assert(vs@.map_values(|x: VersionInfo| x@) =~= spec_versions_concat(
                    ssources.take(0),
                    fv,
                ));
                assert(pms@.map_values(|x: PackageManagerInfo| x@) =~= spec_managers_concat(
                    ssources.take(0),
                    fv,
                ));
            }
            while si < n_signals
                invariant
                    si <= n_signals,
                    di < languages@.len(),
                    fv == files@.map_values(|e: FileEntry| e@),
                    n_signals == languages@[di as int].sources@.len(),
                    ssources == languages@[di as int].sources@.map_values(
                        |s: LanguageDetectionSignal| s@,
                    ),
                    vs@.map_values(|x: VersionInfo| x@) == spec_versions_concat(
                        ssources.take(si as int),
                        fv,
                    ),
                    pms@.map_values(|x: PackageManagerInfo| x@) == spec_managers_concat(
                        ssources.take(si as int),
                        fv,
                    ),
                decreases n_signals - si,
            {
                proof {
                    assert(ssources.take(si + 1).drop_last() =~= ssources.take(si as int));
                    assert(ssources.take(si + 1).last() == ssources[si as int]);
                    assert(ssources[si as int] == languages@[di as int].sources@[si as int]@);
                }
                let path_opt: Option<String> = match &languages[di].sources[si] {
                    LanguageDetectionSignal::Strong { path, .. } => Some(path.clone()),
                    LanguageDetectionSignal::Weak(_) => None,
                };
                let content: Option<&String> = match &path_opt {
                    Some(p) => content_of(files, p.as_str()),
                    None => None,
                };
                proof {
                    assert(match content {
                        Some(c) => spec_sig_content(fv, ssources[si as int]) == Some(c@),
                        None => spec_sig_content(fv, ssources[si as int]) is None,
                    });
                }
                let ghost old_vs = vs@.map_values(|x: VersionInfo| x@);
                let ghost old_pms = pms@.map_values(|x: PackageManagerInfo| x@);
                let mut new_vs = versions_for_signal(&languages[di].sources[si], content);
                let ghost new_vs_map = new_vs@.map_values(|x: VersionInfo| x@);
                vs.append(&mut new_vs);
                let mut new_pms = managers_for_signal(&languages[di].sources[si], content);
                let ghost new_pms_map = new_pms@.map_values(|x: PackageManagerInfo| x@);
                pms.append(&mut new_pms);
                proof {
                    assert(vs@.map_values(|x: VersionInfo| x@) =~= old_vs + new_vs_map);
                    assert(pms@.map_values(|x: PackageManagerInfo| x@) =~= old_pms + new_pms_map);
                }
                si = si + 1;
            }
            proof {
                assert(ssources.take(n_signals as int) =~= ssources);
            }
            let ghost old_versions = versions@.map_values(
                |d: VersionDetection| (d.language, d.versions@.map_values(|x: VersionInfo| x@)),
            );
            let ghost old_pmds = package_managers@.map_values(
                |d: PackageManagerDetection| (d.language, d.package_managers@.map_values(
                    |x: PackageManagerInfo| x@,
                )),
            );
            if vs.len() > 0 {
                let ghost vs_map = vs@.map_values(|x: VersionInfo| x@);
                versions.push(VersionDetection { language: lang, versions: vs });
                proof {
                    assert(versions@.map_values(
                        |d: VersionDetection| (d.language, d.versions@.map_values(
                            |x: VersionInfo| x@,
                        )),
                    ) =~= old_versions.push((lang, vs_map)));
                }
            } else {
                let _ = vs;
            }
            if pms.len() > 0 {
                let ghost pms_map = pms@.map_values(|x: PackageManagerInfo| x@);
                package_managers.push(
                    PackageManagerDetection { language: lang, package_managers: pms },
                );
                proof {
                    assert(package_managers@.map_values(
                        |d: PackageManagerDetection| (d.language, d.package_managers@.map_values(
                            |x: PackageManagerInfo| x@,
                        )),
                    ) =~= old_pmds.push((lang, pms_map)));
                }
            } else {
                let _ = pms;
            }
            di = di + 1;
        }
        proof {
            assert(langs_spec.take(languages@.len() as int) =~= langs_spec);
            assert(kept@.map_values(|e: FileEntry| e@) =~= spec_kept(fv, root@, scope));
            assert(lang_order@ =~= seq![
                Language::Go,
                Language::Rust,
                Language::Python,
                Language::JavaScript,
            ]);
        }

        ProjectMetadata { languages, versions, package_managers, task_runners }
    }
}

/// The four ecosystems in their fixed detection order.
fn language_order() -> (r: Vec<Language>)
    ensures
        r@.len() == 4,
        r@[0] == Language::Go,
        r@[1] == Language::Rust,
        r@[2] == Language::Python,
        r@[3] == Language::JavaScript,
{
    let mut r: Vec<Language> = Vec::new();
    r.push(Language::Go);
    r.push(Language::Rust);
    r.push(Language::Python);
    r.push(Language::JavaScript);
    r
}

/// The ecosystem detections drawn from the kept entries, per
/// language, in the given order.
pub open spec fn spec_language_list(kept: Seq<FileEntryModel>, order: Seq<Language>) -> Seq<
    (Language, Seq<SignalModel>),
>
    decreases order.len(),
{
    if order.len() == 0 {
        Seq::empty()
    } else {
        let prev = spec_language_list(kept, order.drop_last());
        match spec_language_detection(kept, order.last()) {
            Some(sources) => prev.push((order.last(), sources)),
            None => prev,
        }
    }
}

/// The model of one runner detection.
pub open spec fn spec_runner_model(d: TaskRunnerDetection) -> (
    TaskRunner,
    TaskRunnerSource,
    Seq<char>,
    TaskRunnerCommandsModel,
) {
    (d.task_runner, d.source, d.path@, d.commands@)
}

/// The runner detections the kept entries yield, in walk order.
pub open spec fn spec_runner_list(kept: Seq<FileEntryModel>) -> Seq<
    (TaskRunner, TaskRunnerSource, Seq<char>, TaskRunnerCommandsModel),
>
    decreases kept.len(),
{
    if kept.len() == 0 {
        Seq::empty()
    } else {
        let prev = spec_runner_list(kept.drop_last());
        let e = kept.last();
        match spec_file_runner_source(e.path, e.is_file) {
            Some(source) => prev.push(
                (
                    source.spec_runner(),
                    source,
                    e.path,
                    spec_extracted_commands(source, e.content, e.path),
                ),
            ),
            None => prev,
        }
    }
}


/// The captured content a signal's readings are drawn from: the
/// snapshot entry of a strong signal's path.
pub open spec fn spec_sig_content(files: Seq<FileEntryModel>, sig: SignalModel) -> Option<
    Seq<char>,
> {
    match sig {
        SignalModel::Strong { path, .. } => spec_content_of(files, path),
        SignalModel::Weak { .. } => None,
    }
}

/// The version readings a signal list yields, in order.
pub open spec fn spec_versions_concat(
    sigs: Seq<SignalModel>,
    files: Seq<FileEntryModel>,
) -> Seq<VersionInfoModel>
    decreases sigs.len(),
{
    if sigs.len() == 0 {
        Seq::empty()
    } else {
        spec_versions_concat(sigs.drop_last(), files) + spec_versions_for_signal(
            sigs.last(),
            spec_sig_content(files, sigs.last()),
        )
    }
}

/// The package-manager readings a signal list yields, in order.
pub open spec fn spec_managers_concat(
    sigs: Seq<SignalModel>,
    files: Seq<FileEntryModel>,
) -> Seq<PackageManagerInfoModel>
    decreases sigs.len(),
{
    if sigs.len() == 0 {
        Seq::empty()
    } else {
        spec_managers_concat(sigs.drop_last(), files) + spec_managers_for_signal(
            sigs.last(),
            spec_sig_content(files, sigs.last()),
        )
    }
}

/// The version detections the ecosystem detections yield: one per
/// ecosystem whose signals contribute at least one reading.
pub open spec fn spec_version_list(
    dets: Seq<(Language, Seq<SignalModel>)>,
    files: Seq<FileEntryModel>,
) -> Seq<(Language, Seq<VersionInfoModel>)>
    decreases dets.len(),
{
    if dets.len() == 0 {
        Seq::empty()
    } else {
        let prev = spec_version_list(dets.drop_last(), files);
        let vs = spec_versions_concat(dets.last().1, files);
        if vs.len() > 0 {
            prev.push((dets.last().0, vs))
        } else {
            prev
        }
    }
}

/// The package-manager detections the ecosystem detections yield.
pub open spec fn spec_manager_list(
    dets: Seq<(Language, Seq<SignalModel>)>,
    files: Seq<FileEntryModel>,
) -> Seq<(Language, Seq<PackageManagerInfoModel>)>
    decreases dets.len(),
{
    if dets.len() == 0 {
        Seq::empty()
    } else {
        let prev = spec_manager_list(dets.drop_last(), files);
        let pms = spec_managers_concat(dets.last().1, files);
        if pms.len() > 0 {
            prev.push((dets.last().0, pms))
        } else {
            prev
        }
    }
}

/// What `detect_with_scope` promises of its result: the ecosystem
/// detections are exactly those of the pruned snapshot, in the fixed
/// language order, and the runner detections are exactly those of
/// its recognised runner files, in walk order. The same snapshot
/// always yields the same detections.
pub open spec fn spec_detect_holds(
    r: ProjectMetadata,
    files: Seq<FileEntryModel>,
    root: Seq<char>,
    scope: DetectionScope,
) -> bool {
    let kept = spec_kept(files, root, scope);
    let langs = spec_language_list(
        kept,
        seq![Language::Go, Language::Rust, Language::Python, Language::JavaScript],
    );
    &&& r.languages@.map_values(
        |d: LanguageDetection| (d.language, d.sources@.map_values(
            |s: LanguageDetectionSignal| s@,
        )),
    ) == langs
    &&& r.task_runners@.map_values(|d: TaskRunnerDetection| spec_runner_model(d))
        == spec_runner_list(kept)
    &&& r.versions@.map_values(
        |d: VersionDetection| (d.language, d.versions@.map_values(|x: VersionInfo| x@)),
    ) == spec_version_list(langs, files)
    &&& r.package_managers@.map_values(
        |d: PackageManagerDetection| (d.language, d.package_managers@.map_values(
            |x: PackageManagerInfo| x@,
        )),
    ) == spec_manager_list(langs, files)
}


/// Determinism: two detection results over the same captured tree,
/// root and scope agree in every component — re-running detection
/// over an unchanged snapshot yields identical collections.
pub proof fn lemma_detection_deterministic(
    a: &ProjectMetadata,
    b: &ProjectMetadata,
    files: Seq<FileEntryModel>,
    root: Seq<char>,
    scope: DetectionScope,
)
    requires
        spec_detect_holds(*a, files, root, scope),
        spec_detect_holds(*b, files, root, scope),
    ensures
        a.languages@.map_values(
            |d: LanguageDetection| (d.language, d.sources@.map_values(
                |s: LanguageDetectionSignal| s@,
            )),
        ) == b.languages@.map_values(
            |d: LanguageDetection| (d.language, d.sources@.map_values(
                |s: LanguageDetectionSignal| s@,
            )),
        ),
        a.versions@.map_values(
            |d: VersionDetection| (d.language, d.versions@.map_values(|x: VersionInfo| x@)),
        ) == b.versions@.map_values(
            |d: VersionDetection| (d.language, d.versions@.map_values(|x: VersionInfo| x@)),
        ),
        a.package_managers@.map_values(
            |d: PackageManagerDetection| (d.language, d.package_managers@.map_values(
                |x: PackageManagerInfo| x@,
            )),
        ) == b.package_managers@.map_values(
            |d: PackageManagerDetection| (d.language, d.package_managers@.map_values(
                |x: PackageManagerInfo| x@,
            )),
        ),
        a.task_runners@.map_values(|d: TaskRunnerDetection| spec_runner_model(d))
            == b.task_runners@.map_values(|d: TaskRunnerDetection| spec_runner_model(d)),
{
}

} // verus!
