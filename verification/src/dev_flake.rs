use vstd::prelude::*;
use crate::engine::ProjectMetadata;
use crate::language::Language;
use crate::text::{
    chars_to_string, lower_char, spec_dec, spec_lex_le, spec_lower_char, spec_to_lower,
    spec_trim, spec_ws_end, str_chars, sub_vec, trim, u32_dec_chars, ws_end, chars_lex_le,
};
use crate::version::{
    SemanticVersion, SemanticVersionModel, VersionConstraint, VersionInfo, VersionInfoModel,
    VersionSource, clone_semver, spec_opt_rank, spec_triple_le, triple_le,
};

verus! {

/// The two categories that become generated checks.
#[derive(Debug, Clone, Copy, PartialEq, Eq, Structural)]
pub enum CheckCategory {
    Test,
    Build,
}

/// One generated per-ecosystem package document.
#[derive(Debug)]
pub struct LanguagePackages {
    pub language: Language,
    pub content: String,
}

/// One generated check document and where it lives.
#[derive(Debug)]
pub struct CheckFile {
    pub language: Option<Language>,
    pub category: CheckCategory,
    pub content: String,
    pub relative_path: String,
}

/// The terminal artifact: the assembly document, the shell document,
/// the per-ecosystem package documents, the check documents, and the
/// optional toolchain overlay.
#[derive(Debug)]
pub struct GeneratedFlake {
    pub main_flake: String,
    pub devshell: String,
    pub language_packages: Vec<LanguagePackages>,
    pub check_files: Vec<CheckFile>,
    pub rust_overlay: Option<String>,
}

/// One resolved check before rendering.
#[derive(Debug)]
pub struct CheckSpec {
    pub language: Option<Language>,
    pub category: CheckCategory,
    pub key: String,
    pub derivation_name: String,
    pub display: String,
    pub required_exec: String,
    pub command: String,
    pub workdir: String,
}

pub struct CheckSpecModel {
    pub language: Option<Language>,
    pub category: CheckCategory,
    pub key: Seq<char>,
    pub derivation_name: Seq<char>,
    pub display: Seq<char>,
    pub required_exec: Seq<char>,
    pub command: Seq<char>,
    pub workdir: Seq<char>,
}

impl View for CheckSpec {
    type V = CheckSpecModel;

    open spec fn view(&self) -> CheckSpecModel {
        CheckSpecModel {
            language: self.language,
            category: self.category,
            key: self.key@,
            derivation_name: self.derivation_name@,
            display: self.display@,
            required_exec: self.required_exec@,
            command: self.command@,
            workdir: self.workdir@,
        }
    }
}

/// A command's resolved invocation before it becomes a check.
#[derive(Debug)]
pub struct CommandInfo {
    pub required_exec: String,
    pub command: String,
    pub workdir: String,
    pub display: String,
}

pub struct CommandInfoModel {
    pub required_exec: Seq<char>,
    pub command: Seq<char>,
    pub workdir: Seq<char>,
    pub display: Seq<char>,
}

impl View for CommandInfo {
    type V = CommandInfoModel;

    open spec fn view(&self) -> CommandInfoModel {
        CommandInfoModel {
            required_exec: self.required_exec@,
            command: self.command@,
            workdir: self.workdir@,
            display: self.display@,
        }
    }
}

impl VersionSource {
    /// The tag's name, as notices spell it.
    pub open spec fn spec_name(&self) -> Seq<char> {
        match self {
            VersionSource::GoModDirective => "GoModDirective"@,
            VersionSource::GoVersionFile => "GoVersionFile"@,
            VersionSource::RustToolchainFile => "RustToolchainFile"@,
            VersionSource::RustToolchainToml => "RustToolchainToml"@,
            VersionSource::CargoTomlRustVersion => "CargoTomlRustVersion"@,
            VersionSource::PyprojectRequiresPython => "PyprojectRequiresPython"@,
            VersionSource::PythonVersionFile => "PythonVersionFile"@,
            VersionSource::PipfilePythonVersion => "PipfilePythonVersion"@,
            VersionSource::SetupPyPythonRequires => "SetupPyPythonRequires"@,
            VersionSource::PackageJsonEnginesNode => "PackageJsonEnginesNode"@,
            VersionSource::NvmrcFile => "NvmrcFile"@,
            VersionSource::NodeVersionFile => "NodeVersionFile"@,
            VersionSource::BunVersionFile => "BunVersionFile"@,
            VersionSource::PackageJsonEnginesBun => "PackageJsonEnginesBun"@,
        }
    }

    pub fn name(&self) -> (r: &'static str)
        ensures
            r@ == self.spec_name(),
    {
        match self {
            VersionSource::GoModDirective => "GoModDirective",
            VersionSource::GoVersionFile => "GoVersionFile",
            VersionSource::RustToolchainFile => "RustToolchainFile",
            VersionSource::RustToolchainToml => "RustToolchainToml",
            VersionSource::CargoTomlRustVersion => "CargoTomlRustVersion",
            VersionSource::PyprojectRequiresPython => "PyprojectRequiresPython",
            VersionSource::PythonVersionFile => "PythonVersionFile",
            VersionSource::PipfilePythonVersion => "PipfilePythonVersion",
            VersionSource::SetupPyPythonRequires => "SetupPyPythonRequires",
            VersionSource::PackageJsonEnginesNode => "PackageJsonEnginesNode",
            VersionSource::NvmrcFile => "NvmrcFile",
            VersionSource::NodeVersionFile => "NodeVersionFile",
            VersionSource::BunVersionFile => "BunVersionFile",
            VersionSource::PackageJsonEnginesBun => "PackageJsonEnginesBun",
        }
    }




}

/// The version sources a Go toolchain may be selected from.
pub fn go_version_sources() -> (r: Vec<VersionSource>)
    ensures
        r@ =~= seq![VersionSource::GoModDirective, VersionSource::GoVersionFile],
{
    let mut r: Vec<VersionSource> = Vec::new();
    r.push(VersionSource::GoModDirective);
    r.push(VersionSource::GoVersionFile);
    r
}

/// The version sources a Python toolchain may be selected from.
pub fn python_version_sources() -> (r: Vec<VersionSource>)
    ensures
        r@ =~= seq![
            VersionSource::PyprojectRequiresPython,
            VersionSource::PythonVersionFile,
            VersionSource::PipfilePythonVersion,
            VersionSource::SetupPyPythonRequires,
        ],
{
    let mut r: Vec<VersionSource> = Vec::new();
    r.push(VersionSource::PyprojectRequiresPython);
    r.push(VersionSource::PythonVersionFile);
    r.push(VersionSource::PipfilePythonVersion);
    r.push(VersionSource::SetupPyPythonRequires);
    r
}

/// The version sources a Node toolchain may be selected from.
pub fn node_version_sources() -> (r: Vec<VersionSource>)
    ensures
        r@ =~= seq![
            VersionSource::PackageJsonEnginesNode,
            VersionSource::NvmrcFile,
            VersionSource::NodeVersionFile,
        ],
{
    let mut r: Vec<VersionSource> = Vec::new();
    r.push(VersionSource::PackageJsonEnginesNode);
    r.push(VersionSource::NvmrcFile);
    r.push(VersionSource::NodeVersionFile);
    r
}

/// The version sources a Rust toolchain may be selected from.
pub fn rust_version_sources() -> (r: Vec<VersionSource>)
    ensures
        r@ =~= seq![
            VersionSource::RustToolchainFile,
            VersionSource::RustToolchainToml,
            VersionSource::CargoTomlRustVersion,
        ],
{
    let mut r: Vec<VersionSource> = Vec::new();
    r.push(VersionSource::RustToolchainFile);
    r.push(VersionSource::RustToolchainToml);
    r.push(VersionSource::CargoTomlRustVersion);
    r
}

/// The version readings recorded for one ecosystem.
pub open spec fn spec_versions_of(metadata: &ProjectMetadata, language: Language) -> Option<
    Seq<VersionInfoModel>,
>
    decreases metadata.versions@.len(),
{
    spec_versions_of_list(
        metadata.versions@.map_values(
            |d: crate::version::VersionDetection| (d.language, d.versions@.map_values(
                |x: VersionInfo| x@,
            )),
        ),
        language,
    )
}

pub open spec fn spec_versions_of_list(
    dets: Seq<(Language, Seq<VersionInfoModel>)>,
    language: Language,
) -> Option<Seq<VersionInfoModel>>
    decreases dets.len(),
{
    if dets.len() == 0 {
        None
    } else if dets[0].0 == language {
        Some(dets[0].1)
    } else {
        spec_versions_of_list(dets.drop_first(), language)
    }
}

/// Whether one reading is eligible: its source allowed and its text
/// parsed.
pub open spec fn spec_eligible(v: VersionInfoModel, allowed: Seq<VersionSource>) -> bool {
    allowed.contains(v.source) && v.parsed is Some
}

/// The best reading of a list: the eligible one with the greatest
/// (major, minor, patch) triple, the latest of equals winning.
pub open spec fn spec_best_info(
    infos: Seq<VersionInfoModel>,
    allowed: Seq<VersionSource>,
) -> Option<VersionInfoModel>
    decreases infos.len(),
{
    if infos.len() == 0 {
        None
    } else {
        let prev = spec_best_info(infos.drop_last(), allowed);
        let last = infos.last();
        if spec_eligible(last, allowed) {
            match prev {
                None => Some(last),
                Some(b) => if spec_triple_le(b.parsed->0, last.parsed->0) {
                    Some(last)
                } else {
                    Some(b)
                },
            }
        } else {
            prev
        }
    }
}

/// The triple order is total.
proof fn lemma_triple_le_total(a: SemanticVersionModel, b: SemanticVersionModel)
    ensures
        spec_triple_le(a, b) || spec_triple_le(b, a),
{
}

/// The triple order is transitive.
proof fn lemma_triple_le_trans(
    a: SemanticVersionModel,
    b: SemanticVersionModel,
    c: SemanticVersionModel,
)
    ensures
        spec_triple_le(a, b) && spec_triple_le(b, c) ==> spec_triple_le(a, c),
{
}

/// Whatever the best selection returns beats every eligible reading:
/// version selection picks a maximal (major, minor, patch) triple.
#[verifier::rlimit(60)]
pub proof fn lemma_best_info_is_max(infos: Seq<VersionInfoModel>, allowed: Seq<VersionSource>)
    ensures
        match spec_best_info(infos, allowed) {
            Some(b) => spec_eligible(b, allowed),
            None => true,
        },
        match spec_best_info(infos, allowed) {
            Some(b) => forall|i: int|
                0 <= i < infos.len() && spec_eligible(#[trigger] infos[i], allowed)
                    ==> spec_triple_le(infos[i].parsed->0, b.parsed->0),
            None => true,
        },
        match spec_best_info(infos, allowed) {
            Some(b) => true,
            None => forall|i: int|
                0 <= i < infos.len() ==> !spec_eligible(#[trigger] infos[i], allowed),
        },
    decreases infos.len(),
{
    if infos.len() > 0 {
        lemma_best_info_is_max(infos.drop_last(), allowed);
        let last = infos.last();
        if spec_eligible(last, allowed) {
            match spec_best_info(infos.drop_last(), allowed) {
                None => {
                    assert forall|i: int|
                        0 <= i < infos.len() && spec_eligible(
                            #[trigger] infos[i],
                            allowed,
                        ) implies spec_triple_le(infos[i].parsed->0, last.parsed->0) by {
                        if i < infos.len() - 1 {
                            assert(infos.drop_last()[i] == infos[i]);
                            assert(!spec_eligible(infos.drop_last()[i], allowed));
                        }
                    }
                },
                Some(b) => {
                    if spec_triple_le(b.parsed->0, last.parsed->0) {
                        assert forall|i: int|
                            0 <= i < infos.len() && spec_eligible(
                                #[trigger] infos[i],
                                allowed,
                            ) implies spec_triple_le(infos[i].parsed->0, last.parsed->0) by {
                            if i < infos.len() - 1 {
                                assert(infos.drop_last()[i] == infos[i]);
                                assert(spec_triple_le(infos[i].parsed->0, b.parsed->0));
                                lemma_triple_le_trans(
                                    infos[i].parsed->0,
                                    b.parsed->0,
                                    last.parsed->0,
                                );
                            }
                        }
                    } else {
                        lemma_triple_le_total(b.parsed->0, last.parsed->0);
                        assert(spec_triple_le(last.parsed->0, b.parsed->0));
                        assert forall|i: int|
                            0 <= i < infos.len() && spec_eligible(
                                #[trigger] infos[i],
                                allowed,
                            ) implies spec_triple_le(infos[i].parsed->0, b.parsed->0) by {
                            if i < infos.len() - 1 {
                                assert(infos.drop_last()[i] == infos[i]);
                            }
                        }
                    }
                },
            }
        } else {
            match spec_best_info(infos.drop_last(), allowed) {
                None => {
                    assert forall|i: int|
                        0 <= i < infos.len() implies !spec_eligible(
                        #[trigger] infos[i],
                        allowed,
                    ) by {
                        if i < infos.len() - 1 {
                            assert(infos.drop_last()[i] == infos[i]);
                        }
                    }
                },
                Some(b) => {
                    assert forall|i: int|
                        0 <= i < infos.len() && spec_eligible(
                            #[trigger] infos[i],
                            allowed,
                        ) implies spec_triple_le(infos[i].parsed->0, b.parsed->0) by {
                        if i < infos.len() - 1 {
                            assert(infos.drop_last()[i] == infos[i]);
                        }
                    }
                },
            }
        }
    }
}

fn find_versions_of<'a>(metadata: &'a ProjectMetadata, language: Language) -> (r: Option<
    &'a Vec<VersionInfo>,
>)
    ensures
        match r {
            Some(vs) => spec_versions_of(metadata, language) == Some(
                vs@.map_values(|x: VersionInfo| x@),
            ),
            None => spec_versions_of(metadata, language) is None,
        },
{
    let ghost dv = metadata.versions@.map_values(
        |d: crate::version::VersionDetection| (d.language, d.versions@.map_values(
            |x: VersionInfo| x@,
        )),
    );
    let mut i: usize = 0;
    proof {
        assert(dv.skip(0) =~= dv);
    }
    while i < metadata.versions.len()
        invariant
            i <= metadata.versions@.len(),
            dv == metadata.versions@.map_values(
                |d: crate::version::VersionDetection| (d.language, d.versions@.map_values(
                    |x: VersionInfo| x@,
                )),
            ),
            spec_versions_of_list(dv, language) == spec_versions_of_list(
                dv.skip(i as int),
                language,
            ),
        decreases metadata.versions.len() - i,
    {
        proof {
            assert(dv.skip(i as int)[0] == dv[i as int]);
            assert(dv[i as int] == (metadata.versions@[i as int].language,
                metadata.versions@[i as int].versions@.map_values(|x: VersionInfo| x@)));
            assert(dv.skip(i as int).drop_first() =~= dv.skip(i + 1));
        }
        if metadata.versions[i].language == language {
            return Some(&metadata.versions[i].versions);
        }
        i = i + 1;
    }
    proof {
        assert(dv.skip(i as int) =~= Seq::<(Language, Seq<VersionInfoModel>)>::empty());
    }
    None
}

fn clone_version_info(v: &VersionInfo) -> (r: VersionInfo)
    ensures
        r@ == v@,
{
    VersionInfo {
        raw: v.raw.clone(),
        parsed: match &v.parsed {
            Some(p) => Some(clone_semver(p)),
            None => None,
        },
        source: v.source,
        path: v.path.clone(),
    }
}

fn source_in(allowed: &Vec<VersionSource>, s: VersionSource) -> (r: bool)
    ensures
        r == allowed@.contains(s),
{
    let mut i: usize = 0;
    while i < allowed.len()
        invariant
            i <= allowed@.len(),
            forall|j: int| 0 <= j < i ==> allowed@[j] != s,
        decreases allowed.len() - i,
    {
        if allowed[i] == s {
            proof {
                assert(allowed@[i as int] == s);
            }
            return true;
        }
        i = i + 1;
    }
    false
}

/// Selects the best version reading for an ecosystem among the
/// allowed sources, by the maximum-triple rule.
pub fn best_version_info(
    metadata: &ProjectMetadata,
    language: Language,
    allowed_sources: &Vec<VersionSource>,
) -> (r: Option<VersionInfo>)
    ensures
        match r {
            Some(v) => spec_versions_of(metadata, language) matches Some(infos) && spec_best_info(
                infos,
                allowed_sources@,
            ) == Some(v@),
            None => match spec_versions_of(metadata, language) {
                Some(infos) => spec_best_info(infos, allowed_sources@) is None,
                None => true,
            },
        },
{
    let versions = match find_versions_of(metadata, language) {
        Some(vs) => vs,
        None => {
            return None;
        },
    };
    let ghost infos = versions@.map_values(|x: VersionInfo| x@);
    let mut best: Option<&VersionInfo> = None;
    let mut i: usize = 0;
    proof {
        assert(infos.take(0) =~= Seq::<VersionInfoModel>::empty());
    }
    while i < versions.len()
        invariant
            i <= versions@.len(),
            infos == versions@.map_values(|x: VersionInfo| x@),
            match best {
                Some(b) => spec_best_info(infos.take(i as int), allowed_sources@) == Some(b@)
                    && b@.parsed is Some,
                None => spec_best_info(infos.take(i as int), allowed_sources@) is None,
            },
        decreases versions.len() - i,
    {
        proof {
            assert(infos.take(i + 1).drop_last() =~= infos.take(i as int));
            assert(infos.take(i + 1).last() == infos[i as int]);
            assert(infos[i as int] == versions@[i as int]@);
        }
        let eligible = source_in(allowed_sources, versions[i].source) && versions[i].parsed.is_some();
        if eligible {
            match best {
                None => {
                    best = Some(&versions[i]);
                },
                Some(b) => {
                    let bp = match &b.parsed {
                        Some(p) => p,
                        None => {
                            proof {
                                assert(false);
                            }
                            return None;
                        },
                    };
                    let vp = match &versions[i].parsed {
                        Some(p) => p,
                        None => {
                            proof {
                                assert(false);
                            }
                            return None;
                        },
                    };
                    if triple_le(bp, vp) {
                        best = Some(&versions[i]);
                    }
                },
            }
        }
        i = i + 1;
    }
    proof {
        assert(infos.take(infos.len() as int) =~= infos);
    }
    match best {
        Some(b) => Some(clone_version_info(b)),
        None => None,
    }
}


/// Lower-case alphanumeric characters survive slugging.
pub open spec fn spec_is_slug_char(c: char) -> bool {
    ('a' <= c && c <= 'z') || ('0' <= c && c <= '9')
}

#[verifier::when_used_as_spec(spec_is_slug_char)]
fn is_slug_char(c: char) -> (r: bool)
    ensures
        r == spec_is_slug_char(c),
{
    ('a' <= c && c <= 'z') || ('0' <= c && c <= '9')
}

/// The raw slug of a name: lower-cased, every run of other
/// characters collapsed to one dash.
pub open spec fn spec_slug_from(s: Seq<char>, i: int, prev_dash: bool) -> Seq<char>
    decreases s.len() - i,
{
    if i < 0 || i >= s.len() {
        Seq::empty()
    } else {
        let lower = spec_lower_char(s[i]);
        if spec_is_slug_char(lower) {
            seq![lower] + spec_slug_from(s, i + 1, false)
        } else if !prev_dash {
            seq!['-'] + spec_slug_from(s, i + 1, true)
        } else {
            spec_slug_from(s, i + 1, true)
        }
    }
}

/// A slug with its boundary dashes removed.
pub open spec fn spec_trim_dashes(s: Seq<char>) -> Seq<char>
    decreases s.len(),
{
    if s.len() == 0 {
        s
    } else if s[0] == '-' {
        spec_trim_dashes(s.drop_first())
    } else if s[s.len() - 1] == '-' {
        spec_trim_dashes(s.drop_last())
    } else {
        s
    }
}

/// The slug of a command or path name.
pub open spec fn spec_slugify(s: Seq<char>) -> Seq<char> {
    spec_trim_dashes(spec_slug_from(s, 0, false))
}

/// Slugs a name: lower-cased alphanumerics kept, every other run
/// collapsed to one dash, boundary dashes removed.
pub fn slugify_identifier(input: &str) -> (r: String)
    ensures
        r@ == spec_slugify(input@),
{
    let s = str_chars(input);
    let mut out: Vec<char> = Vec::new();
    let mut prev_dash = false;
    let mut i: usize = 0;
    proof {
        assert(out@ + spec_slug_from(s@, 0, false) =~= spec_slug_from(s@, 0, false));
    }
    while i < s.len()
        invariant
            i <= s@.len(),
            s@ == input@,
            out@ + spec_slug_from(s@, i as int, prev_dash) == spec_slug_from(s@, 0, false),
        decreases s.len() - i,
    {
        let ghost old_out = out@;
        let lower = lower_char(s[i]);
        if is_slug_char(lower) {
            out.push(lower);
            prev_dash = false;
            proof {
                assert(out@ =~= old_out + seq![lower]);
                assert(out@ + spec_slug_from(s@, i + 1, false) =~= old_out + spec_slug_from(
                    s@,
                    i as int,
                    prev_dash,
                ));
            }
        } else if !prev_dash {
            out.push('-');
            prev_dash = true;
            proof {
                assert(out@ =~= old_out + seq!['-']);
                assert(out@ + spec_slug_from(s@, i + 1, true) =~= old_out + spec_slug_from(
                    s@,
                    i as int,
                    false,
                ));
            }
        }
        i = i + 1;
    }
    proof {
        assert(spec_slug_from(s@, i as int, prev_dash) =~= Seq::<char>::empty());
        assert(out@ + spec_slug_from(s@, i as int, prev_dash) =~= out@);
    }
    let mut lo: usize = 0;
    let mut hi: usize = out.len();
    proof {
        assert(out@.subrange(0, out@.len() as int) =~= out@);
    }
    while lo < hi && out[lo] == '-'
        invariant
            lo <= hi <= out@.len(),
            spec_trim_dashes(out@) == spec_trim_dashes(out@.subrange(lo as int, hi as int)),
        decreases hi - lo,
    {
        proof {
            assert(out@.subrange(lo as int, hi as int).drop_first() =~= out@.subrange(
                lo + 1,
                hi as int,
            ));
        }
        lo = lo + 1;
    }
    while lo < hi && out[hi - 1] == '-'
        invariant
            lo <= hi <= out@.len(),
            spec_trim_dashes(out@) == spec_trim_dashes(out@.subrange(lo as int, hi as int)),
            lo < hi ==> out@[lo as int] != '-',
        decreases hi - lo,
    {
        proof {
            assert(out@.subrange(lo as int, hi as int).drop_last() =~= out@.subrange(
                lo as int,
                hi - 1,
            ));
        }
        hi = hi - 1;
    }
    let kept = sub_vec(&out, lo, hi);
    proof {
        if lo == hi {
            assert(out@.subrange(lo as int, hi as int) =~= Seq::<char>::empty());
        }
        assert(spec_trim_dashes(out@.subrange(lo as int, hi as int)) == out@.subrange(
            lo as int,
            hi as int,
        ));
    }
    chars_to_string(&kept)
}

/// The first whitespace-delimited word of a command, if any.
pub open spec fn spec_first_word(s: Seq<char>) -> Option<Seq<char>> {
    let a = crate::text::spec_skip_ws(s, 0);
    if a >= s.len() {
        None
    } else {
        Some(s.subrange(a, spec_ws_end(s, a)))
    }
}

/// The required executable of a direct command: its first word.
pub fn command_first_word(command: &str) -> (r: Option<String>)
    ensures
        match r {
            Some(w) => spec_first_word(command@) == Some(w@),
            None => spec_first_word(command@) is None,
        },
{
    let s = str_chars(command);
    let a = crate::text::skip_ws(&s, 0);
    if a >= s.len() {
        return None;
    }
    let e = ws_end(&s, a);
    let w = sub_vec(&s, a, e);
    Some(chars_to_string(&w))
}

/// The toolchain attribute a Go version selects: major and minor.
pub open spec fn spec_go_attr(v: SemanticVersionModel) -> Option<Seq<char>> {
    match (v.major, v.minor) {
        (Some(ma), Some(mi)) => Some("go_"@ + spec_dec(ma as int) + "_"@ + spec_dec(mi as int)),
        _ => None,
    }
}

pub fn go_attr_from_version(v: &SemanticVersion) -> (r: Option<String>)
    ensures
        match r {
            Some(a) => spec_go_attr(v@) == Some(a@),
            None => spec_go_attr(v@) is None,
        },
{
    let ma = match v.major {
        Some(m) => m,
        None => {
            return None;
        },
    };
    let mi = match v.minor {
        Some(m) => m,
        None => {
            return None;
        },
    };
    let mut out = "go_".to_owned();
    crate::text::append_chars(&mut out, &u32_dec_chars(ma));
    out.append("_");
    crate::text::append_chars(&mut out, &u32_dec_chars(mi));
    Some(out)
}

/// The toolchain attribute a Python version selects: major and minor
/// run together.
pub open spec fn spec_python_attr(v: SemanticVersionModel) -> Option<Seq<char>> {
    match (v.major, v.minor) {
        (Some(ma), Some(mi)) => Some("python"@ + spec_dec(ma as int) + spec_dec(mi as int)),
        _ => None,
    }
}

pub fn python_attr_from_version(v: &SemanticVersion) -> (r: Option<String>)
    ensures
        match r {
            Some(a) => spec_python_attr(v@) == Some(a@),
            None => spec_python_attr(v@) is None,
        },
{
    let ma = match v.major {
        Some(m) => m,
        None => {
            return None;
        },
    };
    let mi = match v.minor {
        Some(m) => m,
        None => {
            return None;
        },
    };
    let mut out = "python".to_owned();
    crate::text::append_chars(&mut out, &u32_dec_chars(ma));
    crate::text::append_chars(&mut out, &u32_dec_chars(mi));
    Some(out)
}

/// The toolchain attribute a Node version selects: the major alone.
pub open spec fn spec_node_attr(v: SemanticVersionModel) -> Option<Seq<char>> {
    match v.major {
        Some(ma) => Some("nodejs_"@ + spec_dec(ma as int)),
        None => None,
    }
}

pub fn node_attr_from_version(v: &SemanticVersion) -> (r: Option<String>)
    ensures
        match r {
            Some(a) => spec_node_attr(v@) == Some(a@),
            None => spec_node_attr(v@) is None,
        },
{
    let ma = match v.major {
        Some(m) => m,
        None => {
            return None;
        },
    };
    let mut out = "nodejs_".to_owned();
    crate::text::append_chars(&mut out, &u32_dec_chars(ma));
    Some(out)
}

/// The version string an exact Rust pin selects: all three fields.
pub open spec fn spec_rust_version_string(v: SemanticVersionModel) -> Option<Seq<char>> {
    match (v.major, v.minor, v.patch) {
        (Some(ma), Some(mi), Some(pa)) => Some(
            spec_dec(ma as int) + "."@ + spec_dec(mi as int) + "."@ + spec_dec(pa as int),
        ),
        _ => None,
    }
}

pub fn rust_version_string_from_version(v: &SemanticVersion) -> (r: Option<String>)
    ensures
        match r {
            Some(a) => spec_rust_version_string(v@) == Some(a@),
            None => spec_rust_version_string(v@) is None,
        },
{
    let ma = match v.major {
        Some(m) => m,
        None => {
            return None;
        },
    };
    let mi = match v.minor {
        Some(m) => m,
        None => {
            return None;
        },
    };
    let pa = match v.patch {
        Some(m) => m,
        None => {
            return None;
        },
    };
    let mut out = String::new();
    crate::text::append_chars(&mut out, &u32_dec_chars(ma));
    out.append(".");
    crate::text::append_chars(&mut out, &u32_dec_chars(mi));
    out.append(".");
    crate::text::append_chars(&mut out, &u32_dec_chars(pa));
    Some(out)
}

/// The notice a version selection leaves: the requested version and
/// its source, the attribute that was wanted (or the fallback), and
/// an optional caveat; trailing whitespace trimmed.
#[verifier::opaque]
pub open spec fn spec_version_notice(
    language_name: Seq<char>,
    version_info: Option<VersionInfoModel>,
    selected_attr: Option<Seq<char>>,
    default_fallback: Seq<char>,
    note: Option<Seq<char>>,
) -> Option<Seq<char>> {
    match version_info {
        None => None,
        Some(v) => match v.parsed {
            None => None,
            Some(_) => {
                let selected = match selected_attr {
                    Some(a) => a,
                    None => default_fallback,
                };
                let note_text = match note {
                    Some(n) => n,
                    None => Seq::empty(),
                };
                Some(
                    spec_trim(
                        language_name + ": requested "@ + v.raw + " (from "@ + v.source.spec_name()
                            + ") -> want "@ + selected + " "@ + note_text,
                    ),
                )
            },
        },
    }
}

/// Builds a selection notice, as `spec_version_notice` describes.
pub fn generate_version_notice(
    language_name: &str,
    version_info: Option<&VersionInfo>,
    selected_attr: Option<&str>,
    default_fallback: &str,
    note: Option<&str>,
) -> (r: Option<String>)
    ensures
        ({
            let vi = match version_info {
                Some(v) => Some(v@),
                None => None,
            };
            let sel = match selected_attr {
                Some(a) => Some(a@),
                None => None,
            };
            let nt = match note {
                Some(n) => Some(n@),
                None => None,
            };
            match r {
                Some(text) => spec_version_notice(language_name@, vi, sel, default_fallback@, nt)
                    == Some(text@),
                None => spec_version_notice(language_name@, vi, sel, default_fallback@, nt)
                    is None,
            }
        }),
{
    proof {
        reveal(spec_version_notice);
    }
    let v = match version_info {
        Some(v) => v,
        None => {
            return None;
        },
    };
    if v.parsed.is_none() {
        return None;
    }
    let mut text = language_name.to_owned();
    text.append(": requested ");
    text.append(v.raw.as_str());
    text.append(" (from ");
    text.append(v.source.name());
    text.append(") -> want ");
    match selected_attr {
        Some(a) => text.append(a),
        None => text.append(default_fallback),
    };
    text.append(" ");
    match note {
        Some(n) => text.append(n),
        None => (),
    };
    let tv = str_chars(text.as_str());
    let trimmed = trim(&tv);
    proof {
        if note is None {
            assert(text@ + Seq::<char>::empty() =~= text@);
        }
    }
    Some(chars_to_string(&trimmed))
}


/// Which of the generic task-runner tools are required, and which
/// Python-side runners.
#[derive(Debug, Clone, Copy, PartialEq, Eq, Structural)]
pub struct RunnerToolSet {
    pub gnumake: bool,
    pub go_task: bool,
    pub just: bool,
    pub tox: bool,
    pub nox: bool,
    pub invoke: bool,
}

/// Which bundler executables are required on the Node side, in the
/// order the package document lists them.
#[derive(Debug, Clone, Copy, PartialEq, Eq, Structural)]
pub struct NodeToolSet {
    pub nx: bool,
    pub rollup: bool,
    pub rspack: bool,
    pub turbo: bool,
    pub vite: bool,
    pub webpack: bool,
}

/// Which package managers were seen anywhere in the metadata.
#[derive(Debug, Clone, Copy, PartialEq, Eq, Structural)]
pub struct ManagerSet {
    pub npm: bool,
    pub pnpm: bool,
    pub yarn: bool,
    pub bun: bool,
    pub deno: bool,
    pub pip: bool,
    pub uv: bool,
    pub poetry: bool,
    pub pdm: bool,
    pub pipenv: bool,
    pub cargo: bool,
    pub go: bool,
}

/// The fixed file-header of every generated document.
pub open spec fn spec_file_header(description: Seq<char>) -> Seq<char> {
    "# Generated by autonix\n# "@ + description + "\n"@
}

pub fn generate_file_header(description: &str) -> (r: String)
    ensures
        r@ == spec_file_header(description@),
{
    let mut out = "# Generated by autonix\n# ".to_owned();
    out.append(description);
    out.append("\n");
    out
}

/// The assembly document's leading comment.
pub open spec fn spec_main_flake_header() -> Seq<char> {
    "# Generated by autonix\n#\n# This flake uses a multi-file structure:\n#   .autonix/devShell.nix              - Development shell\n#   .autonix/{language}/packages.nix   - Language toolchains and tools\n#   .autonix/{language}/*-checks.nix   - Build and test checks\n#\n"@
}

pub fn generate_main_flake_header() -> (r: String)
    ensures
        r@ == spec_main_flake_header(),
{
    proof {
        reveal(spec_main_flake);
    }
    "# Generated by autonix\n#\n# This flake uses a multi-file structure:\n#   .autonix/devShell.nix              - Development shell\n#   .autonix/{language}/packages.nix   - Language toolchains and tools\n#   .autonix/{language}/*-checks.nix   - Build and test checks\n#\n".to_owned()
}

/// The input table of the assembly document; the overlay input is
/// present exactly when a pinned Rust toolchain is in play.
#[verifier::opaque]
pub open spec fn spec_flake_inputs(uses_rust_overlay: bool) -> Seq<char> {
    "  inputs = {\n    nixpkgs.url = \"github:NixOS/nixpkgs/nixos-unstable\";\n    flake-utils.url = \"github:numtide/flake-utils\";\n"@
        + (if uses_rust_overlay {
        "    rust-overlay = {\n      url = \"github:oxalica/rust-overlay\";\n      inputs.nixpkgs.follows = \"nixpkgs\";\n    };\n"@
    } else {
        Seq::<char>::empty()
    }) + "  };\n\n"@
}

pub fn generate_flake_inputs(uses_rust_overlay: bool) -> (r: String)
    ensures
        r@ == spec_flake_inputs(uses_rust_overlay),
{
    proof {
        reveal(spec_flake_inputs);
    }
    let mut out =
        "  inputs = {\n    nixpkgs.url = \"github:NixOS/nixpkgs/nixos-unstable\";\n    flake-utils.url = \"github:numtide/flake-utils\";\n".to_owned();
    if uses_rust_overlay {
        out.append(
            "    rust-overlay = {\n      url = \"github:oxalica/rust-overlay\";\n      inputs.nixpkgs.follows = \"nixpkgs\";\n    };\n",
        );
    } else {
        proof {
            assert(out@ + Seq::<char>::empty() =~= out@);
        }
    }
    out.append("  };\n\n");
    out
}

/// The shared shell document; its text is fixed.
#[verifier::opaque]
pub open spec fn spec_devshell_nix() -> Seq<char> {
    spec_file_header("Development shell configuration"@)
        + "{ pkgs, lib, devPackages, notices ? []\n, go ? null, goAttr ? null, wantGoAttr ? null\n, python ? null, pythonAttr ? null, wantPythonAttr ? null\n, node ? null, nodeAttr ? null, wantNodeAttr ? null\n, rustToolchain ? null\n}:\n\npkgs.mkShell {\n  packages = devPackages;\n\n  shellHook = ''\n    echo \"autonix: generated devShell (best-effort)\"\n\n    ${lib.optionalString (go != null) ''\n      echo \"autonix: Go attr: ${goAttr} (requested ${wantGoAttr})\"\n      if [ \"${goAttr}\" != \"${wantGoAttr}\" ]; then\n        echo \"autonix: NOTE: ${wantGoAttr} not found; using ${goAttr}\"\n      fi\n    ''}\n\n    ${lib.optionalString (python != null) ''\n      echo \"autonix: Python attr: ${pythonAttr} (requested ${wantPythonAttr})\"\n      if [ \"${pythonAttr}\" != \"${wantPythonAttr}\" ]; then\n        echo \"autonix: NOTE: ${wantPythonAttr} not found; using ${pythonAttr}\"\n      fi\n    ''}\n\n    ${lib.optionalString (node != null) ''\n      echo \"autonix: Node attr: ${nodeAttr} (requested ${wantNodeAttr})\"\n      if [ \"${nodeAttr}\" != \"${wantNodeAttr}\" ]; then\n        echo \"autonix: NOTE: ${wantNodeAttr} not found; using ${nodeAttr}\"\n      fi\n    ''}\n\n    ${lib.optionalString (rustToolchain != null) ''\n      echo \"autonix: Rust toolchain enabled (rust-overlay)\"\n    ''}\n\n    ${lib.concatMapStringsSep \"\\n\" (msg: \"echo ${lib.escapeShellArg msg}\") notices}\n  '';\n}\n"@
}

pub fn generate_devshell_nix() -> (r: String)
    ensures
        r@ == spec_devshell_nix(),
{
    proof {
        reveal(spec_devshell_nix);
    }
    let mut out = generate_file_header("Development shell configuration");
    out.append(
        "{ pkgs, lib, devPackages, notices ? []\n, go ? null, goAttr ? null, wantGoAttr ? null\n, python ? null, pythonAttr ? null, wantPythonAttr ? null\n, node ? null, nodeAttr ? null, wantNodeAttr ? null\n, rustToolchain ? null\n}:\n\npkgs.mkShell {\n  packages = devPackages;\n\n  shellHook = ''\n    echo \"autonix: generated devShell (best-effort)\"\n\n    ${lib.optionalString (go != null) ''\n      echo \"autonix: Go attr: ${goAttr} (requested ${wantGoAttr})\"\n      if [ \"${goAttr}\" != \"${wantGoAttr}\" ]; then\n        echo \"autonix: NOTE: ${wantGoAttr} not found; using ${goAttr}\"\n      fi\n    ''}\n\n    ${lib.optionalString (python != null) ''\n      echo \"autonix: Python attr: ${pythonAttr} (requested ${wantPythonAttr})\"\n      if [ \"${pythonAttr}\" != \"${wantPythonAttr}\" ]; then\n        echo \"autonix: NOTE: ${wantPythonAttr} not found; using ${pythonAttr}\"\n      fi\n    ''}\n\n    ${lib.optionalString (node != null) ''\n      echo \"autonix: Node attr: ${nodeAttr} (requested ${wantNodeAttr})\"\n      if [ \"${nodeAttr}\" != \"${wantNodeAttr}\" ]; then\n        echo \"autonix: NOTE: ${wantNodeAttr} not found; using ${nodeAttr}\"\n      fi\n    ''}\n\n    ${lib.optionalString (rustToolchain != null) ''\n      echo \"autonix: Rust toolchain enabled (rust-overlay)\"\n    ''}\n\n    ${lib.concatMapStringsSep \"\\n\" (msg: \"echo ${lib.escapeShellArg msg}\") notices}\n  '';\n}\n",
    );
    out
}

/// The toolchain-overlay document; its text is fixed.
#[verifier::opaque]
pub open spec fn spec_rust_overlay_nix() -> Seq<char> {
    spec_file_header("Rust overlay (oxalica/rust-overlay)"@)
        + "{ rust-overlay }: import rust-overlay\n"@
}

pub fn generate_rust_overlay_nix() -> (r: String)
    ensures
        r@ == spec_rust_overlay_nix(),
{
    proof {
        reveal(spec_rust_overlay_nix);
    }
    let mut out = generate_file_header("Rust overlay (oxalica/rust-overlay)");
    out.append("{ rust-overlay }: import rust-overlay\n");
    out
}

/// An optional text segment.
pub open spec fn spec_opt_seg(cond: bool, seg: Seq<char>) -> Seq<char> {
    if cond {
        seg
    } else {
        Seq::empty()
    }
}

/// The Go package document.
#[verifier::opaque]
pub open spec fn spec_golang_packages(want_go_attr: Seq<char>, notice: Option<Seq<char>>)
    -> Seq<char> {
    spec_file_header("Go toolchain and development tools"@) + "{ pkgs, lib }:\n\nlet\n"@
        + crate::nix_builder::spec_string_binding("  "@, "wantGoAttr"@, want_go_attr)
        + crate::nix_builder::spec_attr_with_fallback(
        "  "@,
        "goAttr"@,
        "wantGoAttr"@,
        "pkgs"@,
        "go"@,
    ) + "  go = pkgs.${goAttr};\n\n"@ + crate::nix_builder::spec_notice_list("  "@, notice)
        + "in\n{\n  inherit go goAttr wantGoAttr notices;\n\n  packages = [\n    go\n    pkgs.gopls\n  ];\n}\n"@
}

pub fn generate_golang_packages_nix(want_go_attr: &str, notice: Option<&str>) -> (r: String)
    ensures
        r@ == spec_golang_packages(
            want_go_attr@,
            match notice {
                Some(n) => Some(n@),
                None => None,
            },
        ),
{
    proof {
        reveal(spec_golang_packages);
    }
    let mut out = generate_file_header("Go toolchain and development tools");
    out.append("{ pkgs, lib }:\n\nlet\n");
    crate::nix_builder::write_nix_string_binding(&mut out, "  ", "wantGoAttr", want_go_attr);
    crate::nix_builder::write_attr_with_fallback(&mut out, "  ", "goAttr", "wantGoAttr", "pkgs", "go");
    out.append("  go = pkgs.${goAttr};\n\n");
    let notices = crate::nix_builder::NoticeListBuilder::new("  ").build(notice);
    out.append(notices.as_str());
    out.append(
        "in\n{\n  inherit go goAttr wantGoAttr notices;\n\n  packages = [\n    go\n    pkgs.gopls\n  ];\n}\n",
    );
    out
}

/// One python-side tool lookup inside the package set.
pub open spec fn spec_pytool_lookup(tool: Seq<char>) -> Seq<char> {
    "  "@ + tool + " = if builtins.hasAttr \""@ + tool
        + "\" pythonPackages then pythonPackages."@ + tool + " else null;\n"@
}

/// One top-level tool lookup inside the package set.
pub open spec fn spec_pkgs_lookup(tool: Seq<char>) -> Seq<char> {
    "  "@ + tool + " = if builtins.hasAttr \""@ + tool + "\" pkgs then pkgs."@ + tool
        + " else null;\n"@
}

/// One optional-package inclusion line.
pub open spec fn spec_opt_pkg(tool: Seq<char>) -> Seq<char> {
    "\n    ++ lib.optional ("@ + tool + " != null) "@ + tool
}

fn append_pytool_lookup(out: &mut String, tool: &str)
    ensures
        final(out)@ == old(out)@ + spec_pytool_lookup(tool@),
{
    out.append("  ");
    out.append(tool);
    out.append(" = if builtins.hasAttr \"");
    out.append(tool);
    out.append("\" pythonPackages then pythonPackages.");
    out.append(tool);
    out.append(" else null;\n");
}

fn append_pkgs_lookup(out: &mut String, tool: &str)
    ensures
        final(out)@ == old(out)@ + spec_pkgs_lookup(tool@),
{
    out.append("  ");
    out.append(tool);
    out.append(" = if builtins.hasAttr \"");
    out.append(tool);
    out.append("\" pkgs then pkgs.");
    out.append(tool);
    out.append(" else null;\n");
}

fn append_opt_pkg(out: &mut String, tool: &str)
    ensures
        final(out)@ == old(out)@ + spec_opt_pkg(tool@),
{
    out.append("\n    ++ lib.optional (");
    out.append(tool);
    out.append(" != null) ");
    out.append(tool);
}

/// The Python package document.
#[verifier::opaque]
pub open spec fn spec_python_packages(
    want_python_attr: Seq<char>,
    notice: Option<Seq<char>>,
    managers: ManagerSet,
    tools: RunnerToolSet,
) -> Seq<char> {
    spec_file_header("Python toolchain and development tools"@) + "{ pkgs, lib }:\n\nlet\n"@
        + crate::nix_builder::spec_string_binding("  "@, "wantPythonAttr"@, want_python_attr)
        + crate::nix_builder::spec_attr_with_fallback(
        "  "@,
        "pythonAttr"@,
        "wantPythonAttr"@,
        "pkgs"@,
        "python3"@,
    )
        + "  python = pkgs.${pythonAttr};\n  wantPythonPackagesAttr = \"${pythonAttr}Packages\";\n  pythonPackages = if builtins.hasAttr wantPythonPackagesAttr pkgs then pkgs.${wantPythonPackagesAttr} else pkgs.python3Packages;\n\n"@
        + spec_opt_seg(tools.tox, spec_pytool_lookup("tox"@)) + spec_opt_seg(
        tools.nox,
        spec_pytool_lookup("nox"@),
    ) + spec_opt_seg(tools.invoke, spec_pytool_lookup("invoke"@)) + spec_opt_seg(
        managers.poetry,
        spec_pkgs_lookup("poetry"@),
    ) + spec_opt_seg(managers.uv, spec_pkgs_lookup("uv"@)) + spec_opt_seg(
        managers.pdm,
        spec_pkgs_lookup("pdm"@),
    ) + spec_opt_seg(managers.pipenv, spec_pkgs_lookup("pipenv"@))
        + "  pyright = if builtins.hasAttr \"pyright\" pkgs then pkgs.pyright\n    else if builtins.hasAttr \"pyright\" pkgs.nodePackages then pkgs.nodePackages.pyright\n    else null;\n\n"@
        + crate::nix_builder::spec_notice_list("  "@, notice)
        + "in\n{\n  inherit python pythonPackages pythonAttr wantPythonAttr notices;\n\n  packages = [ python ]"@
        + spec_opt_seg(tools.tox, spec_opt_pkg("tox"@)) + spec_opt_seg(
        tools.nox,
        spec_opt_pkg("nox"@),
    ) + spec_opt_seg(tools.invoke, spec_opt_pkg("invoke"@)) + spec_opt_seg(
        managers.poetry,
        spec_opt_pkg("poetry"@),
    ) + spec_opt_seg(managers.uv, spec_opt_pkg("uv"@)) + spec_opt_seg(
        managers.pdm,
        spec_opt_pkg("pdm"@),
    ) + spec_opt_seg(managers.pipenv, spec_opt_pkg("pipenv"@)) + spec_opt_pkg("pyright"@)
        + ";\n}\n"@
}

#[verifier::rlimit(100)]
pub fn generate_python_packages_nix(
    want_python_attr: &str,
    notice: Option<&str>,
    managers: &ManagerSet,
    tools: &RunnerToolSet,
) -> (r: String)
    ensures
        r@ == spec_python_packages(
            want_python_attr@,
            match notice {
                Some(n) => Some(n@),
                None => None,
            },
            *managers,
            *tools,
        ),
{
    proof {
        reveal(spec_python_packages);
    }
    let mut out = generate_file_header("Python toolchain and development tools");
    out.append("{ pkgs, lib }:\n\nlet\n");
    crate::nix_builder::write_nix_string_binding(&mut out, "  ", "wantPythonAttr", want_python_attr);
    crate::nix_builder::write_attr_with_fallback(
        &mut out,
        "  ",
        "pythonAttr",
        "wantPythonAttr",
        "pkgs",
        "python3",
    );
    out.append(
        "  python = pkgs.${pythonAttr};\n  wantPythonPackagesAttr = \"${pythonAttr}Packages\";\n  pythonPackages = if builtins.hasAttr wantPythonPackagesAttr pkgs then pkgs.${wantPythonPackagesAttr} else pkgs.python3Packages;\n\n",
    );
    if tools.tox {
        append_pytool_lookup(&mut out, "tox");
    }
    if tools.nox {
        append_pytool_lookup(&mut out, "nox");
    }
    if tools.invoke {
        append_pytool_lookup(&mut out, "invoke");
    }
    if managers.poetry {
        append_pkgs_lookup(&mut out, "poetry");
    }
    if managers.uv {
        append_pkgs_lookup(&mut out, "uv");
    }
    if managers.pdm {
        append_pkgs_lookup(&mut out, "pdm");
    }
    if managers.pipenv {
        append_pkgs_lookup(&mut out, "pipenv");
    }
    out.append(
        "  pyright = if builtins.hasAttr \"pyright\" pkgs then pkgs.pyright\n    else if builtins.hasAttr \"pyright\" pkgs.nodePackages then pkgs.nodePackages.pyright\n    else null;\n\n",
    );
    let notices = crate::nix_builder::NoticeListBuilder::new("  ").build(notice);
    out.append(notices.as_str());
    out.append(
        "in\n{\n  inherit python pythonPackages pythonAttr wantPythonAttr notices;\n\n  packages = [ python ]",
    );
    if tools.tox {
        append_opt_pkg(&mut out, "tox");
    }
    if tools.nox {
        append_opt_pkg(&mut out, "nox");
    }
    if tools.invoke {
        append_opt_pkg(&mut out, "invoke");
    }
    if managers.poetry {
        append_opt_pkg(&mut out, "poetry");
    }
    if managers.uv {
        append_opt_pkg(&mut out, "uv");
    }
    if managers.pdm {
        append_opt_pkg(&mut out, "pdm");
    }
    if managers.pipenv {
        append_opt_pkg(&mut out, "pipenv");
    }
    append_opt_pkg(&mut out, "pyright");
    out.append(";\n}\n");
    proof {
        lemma_opt_seg_empty();
    }
    out
}

/// An omitted segment adds nothing.
proof fn lemma_opt_seg_empty()
    ensures
        forall|s: Seq<char>, seg: Seq<char>| #[trigger] (s + spec_opt_seg(false, seg)) == s,
        forall|s: Seq<char>, seg: Seq<char>| #[trigger] (s + spec_opt_seg(true, seg)) == s + seg,
{
    assert forall|s: Seq<char>, seg: Seq<char>| #[trigger] (s + spec_opt_seg(false, seg)) == s by {
        assert(s + spec_opt_seg(false, seg) =~= s);
    }
}

/// One bundler lookup line in the Node package set.
pub open spec fn spec_nodetool_lookup(tool: Seq<char>) -> Seq<char> {
    "  "@ + tool + " = if builtins.hasAttr \""@ + tool
        + "\" pkgs.nodePackages then pkgs.nodePackages."@ + tool + " else null;\n"@
}

fn append_nodetool_lookup(out: &mut String, tool: &str)
    ensures
        final(out)@ == old(out)@ + spec_nodetool_lookup(tool@),
{
    out.append("  ");
    out.append(tool);
    out.append(" = if builtins.hasAttr \"");
    out.append(tool);
    out.append("\" pkgs.nodePackages then pkgs.nodePackages.");
    out.append(tool);
    out.append(" else null;\n");
}

/// The Node package document.
#[verifier::opaque]
pub open spec fn spec_nodejs_packages(
    want_node_attr: Seq<char>,
    notice: Option<Seq<char>>,
    managers: ManagerSet,
    tools: NodeToolSet,
) -> Seq<char> {
    spec_file_header("Node.js toolchain and development tools"@) + "{ pkgs, lib }:\n\nlet\n"@
        + crate::nix_builder::spec_string_binding("  "@, "wantNodeAttr"@, want_node_attr)
        + crate::nix_builder::spec_attr_with_fallback(
        "  "@,
        "nodeAttr"@,
        "wantNodeAttr"@,
        "pkgs"@,
        "nodejs"@,
    ) + "  node = pkgs.${nodeAttr};\n\n"@ + spec_opt_seg(
        managers.pnpm,
        spec_nodetool_lookup("pnpm"@),
    ) + spec_opt_seg(managers.yarn, spec_pkgs_lookup("yarn"@)) + spec_opt_seg(
        managers.bun,
        spec_pkgs_lookup("bun"@),
    ) + spec_opt_seg(managers.deno, spec_pkgs_lookup("deno"@)) + spec_opt_seg(
        tools.nx,
        spec_nodetool_lookup("nx"@),
    ) + spec_opt_seg(tools.rollup, spec_nodetool_lookup("rollup"@)) + spec_opt_seg(
        tools.rspack,
        spec_nodetool_lookup("rspack"@),
    ) + spec_opt_seg(tools.turbo, spec_nodetool_lookup("turbo"@)) + spec_opt_seg(
        tools.vite,
        spec_nodetool_lookup("vite"@),
    ) + spec_opt_seg(tools.webpack, spec_nodetool_lookup("webpack"@)) + "\n"@
        + crate::nix_builder::spec_notice_list("  "@, notice)
        + "in\n{\n  inherit node nodeAttr wantNodeAttr notices;\n\n  packages =\n    [\n      node\n      pkgs.nodePackages.typescript\n      pkgs.nodePackages.typescript-language-server\n    ]"@
        + spec_opt_seg(managers.pnpm, spec_opt_pkg("pnpm"@)) + spec_opt_seg(
        managers.yarn,
        spec_opt_pkg("yarn"@),
    ) + spec_opt_seg(managers.bun, spec_opt_pkg("bun"@)) + spec_opt_seg(
        managers.deno,
        spec_opt_pkg("deno"@),
    ) + spec_opt_seg(tools.nx, spec_opt_pkg("nx"@)) + spec_opt_seg(
        tools.rollup,
        spec_opt_pkg("rollup"@),
    ) + spec_opt_seg(tools.rspack, spec_opt_pkg("rspack"@)) + spec_opt_seg(
        tools.turbo,
        spec_opt_pkg("turbo"@),
    ) + spec_opt_seg(tools.vite, spec_opt_pkg("vite"@)) + spec_opt_seg(
        tools.webpack,
        spec_opt_pkg("webpack"@),
    ) + ";\n}\n"@
}

#[verifier::rlimit(100)]
pub fn generate_nodejs_packages_nix(
    want_node_attr: &str,
    notice: Option<&str>,
    managers: &ManagerSet,
    tools: &NodeToolSet,
) -> (r: String)
    ensures
        r@ == spec_nodejs_packages(
            want_node_attr@,
            match notice {
                Some(n) => Some(n@),
                None => None,
            },
            *managers,
            *tools,
        ),
{
    proof {
        reveal(spec_nodejs_packages);
    }
    let mut out = generate_file_header("Node.js toolchain and development tools");
    out.append("{ pkgs, lib }:\n\nlet\n");
    crate::nix_builder::write_nix_string_binding(&mut out, "  ", "wantNodeAttr", want_node_attr);
    crate::nix_builder::write_attr_with_fallback(
        &mut out,
        "  ",
        "nodeAttr",
        "wantNodeAttr",
        "pkgs",
        "nodejs",
    );
    out.append("  node = pkgs.${nodeAttr};\n\n");
    if managers.pnpm {
        append_nodetool_lookup(&mut out, "pnpm");
    }
    if managers.yarn {
        append_pkgs_lookup(&mut out, "yarn");
    }
    if managers.bun {
        append_pkgs_lookup(&mut out, "bun");
    }
    if managers.deno {
        append_pkgs_lookup(&mut out, "deno");
    }
    if tools.nx {
        append_nodetool_lookup(&mut out, "nx");
    }
    if tools.rollup {
        append_nodetool_lookup(&mut out, "rollup");
    }
    if tools.rspack {
        append_nodetool_lookup(&mut out, "rspack");
    }
    if tools.turbo {
        append_nodetool_lookup(&mut out, "turbo");
    }
    if tools.vite {
        append_nodetool_lookup(&mut out, "vite");
    }
    if tools.webpack {
        append_nodetool_lookup(&mut out, "webpack");
    }
    out.append("\n");
    let notices = crate::nix_builder::NoticeListBuilder::new("  ").build(notice);
    out.append(notices.as_str());
    out.append(
        "in\n{\n  inherit node nodeAttr wantNodeAttr notices;\n\n  packages =\n    [\n      node\n      pkgs.nodePackages.typescript\n      pkgs.nodePackages.typescript-language-server\n    ]",
    );
    if managers.pnpm {
        append_opt_pkg(&mut out, "pnpm");
    }
    if managers.yarn {
        append_opt_pkg(&mut out, "yarn");
    }
    if managers.bun {
        append_opt_pkg(&mut out, "bun");
    }
    if managers.deno {
        append_opt_pkg(&mut out, "deno");
    }
    if tools.nx {
        append_opt_pkg(&mut out, "nx");
    }
    if tools.rollup {
        append_opt_pkg(&mut out, "rollup");
    }
    if tools.rspack {
        append_opt_pkg(&mut out, "rspack");
    }
    if tools.turbo {
        append_opt_pkg(&mut out, "turbo");
    }
    if tools.vite {
        append_opt_pkg(&mut out, "vite");
    }
    if tools.webpack {
        append_opt_pkg(&mut out, "webpack");
    }
    out.append(";\n}\n");
    proof {
        lemma_opt_seg_empty();
    }
    out
}

/// The Rust package document.
#[verifier::opaque]
pub open spec fn spec_rust_packages(
    want_rust_version: Option<Seq<char>>,
    notice: Option<Seq<char>>,
) -> Seq<char> {
    spec_file_header("Rust toolchain and development tools"@) + "{ pkgs, lib }:\n\nlet\n"@ + (
    match want_rust_version {
        Some(want) => crate::nix_builder::spec_string_binding("  "@, "wantRustVersion"@, want)
            + "  rustToolchainBase = if builtins.hasAttr wantRustVersion pkgs.rust-bin.stable\n    then pkgs.rust-bin.stable.${wantRustVersion}.default\n    else pkgs.rust-bin.stable.latest.default;\n"@,
        None => "  rustToolchainBase = pkgs.rust-bin.stable.latest.default;\n"@,
    })
        + "\n  rustToolchain = rustToolchainBase.override {\n    extensions = [ \"rust-src\" \"rust-analyzer\" ];\n  };\n\n"@
        + crate::nix_builder::spec_notice_list("  "@, notice)
        + "in\n{\n  inherit rustToolchain notices;\n\n  packages = [ rustToolchain ];\n}\n"@
}

pub fn generate_rust_packages_nix(want_rust_version: Option<&str>, notice: Option<&str>) -> (r:
    String)
    ensures
        r@ == spec_rust_packages(
            match want_rust_version {
                Some(w) => Some(w@),
                None => None,
            },
            match notice {
                Some(n) => Some(n@),
                None => None,
            },
        ),
{
    proof {
        reveal(spec_rust_packages);
    }
    let mut out = generate_file_header("Rust toolchain and development tools");
    out.append("{ pkgs, lib }:\n\nlet\n");
    match want_rust_version {
        Some(want) => {
            crate::nix_builder::write_nix_string_binding(&mut out, "  ", "wantRustVersion", want);
            out.append(
                "  rustToolchainBase = if builtins.hasAttr wantRustVersion pkgs.rust-bin.stable\n    then pkgs.rust-bin.stable.${wantRustVersion}.default\n    else pkgs.rust-bin.stable.latest.default;\n",
            );
        },
        None => {
            out.append("  rustToolchainBase = pkgs.rust-bin.stable.latest.default;\n");
        },
    }
    out.append(
        "\n  rustToolchain = rustToolchainBase.override {\n    extensions = [ \"rust-src\" \"rust-analyzer\" ];\n  };\n\n",
    );
    let notices = crate::nix_builder::NoticeListBuilder::new("  ").build(notice);
    out.append(notices.as_str());
    out.append(
        "in\n{\n  inherit rustToolchain notices;\n\n  packages = [ rustToolchain ];\n}\n",
    );
    out
}


/// The directory a check file is placed under: the ecosystem's
/// canonical name, or `generic`.
pub open spec fn spec_lang_dir(lang: Option<Language>) -> Seq<char> {
    match lang {
        Some(l) => l.spec_dir_name(),
        None => "generic"@,
    }
}

pub fn language_dir_name(lang: Option<&Language>) -> (r: &'static str)
    ensures
        r@ == spec_lang_dir(
            match lang {
                Some(l) => Some(*l),
                None => None,
            },
        ),
{
    match lang {
        Some(l) => l.dir_name(),
        None => "generic",
    }
}

/// The human-readable name of a check file's ecosystem.
pub open spec fn spec_lang_display(lang: Option<Language>) -> Seq<char> {
    match lang {
        Some(Language::Go) => "Go"@,
        Some(Language::Python) => "Python"@,
        Some(Language::JavaScript) => "Node.js"@,
        Some(Language::Rust) => "Rust"@,
        None => "Generic"@,
    }
}

pub fn language_display_name(lang: Option<&Language>) -> (r: &'static str)
    ensures
        r@ == spec_lang_display(
            match lang {
                Some(l) => Some(*l),
                None => None,
            },
        ),
{
    match lang {
        Some(Language::Go) => "Go",
        Some(Language::Python) => "Python",
        Some(Language::JavaScript) => "Node.js",
        Some(Language::Rust) => "Rust",
        None => "Generic",
    }
}

/// The category's name in keys and descriptions.
pub open spec fn spec_category_name(category: CheckCategory) -> Seq<char> {
    match category {
        CheckCategory::Test => "test"@,
        CheckCategory::Build => "build"@,
    }
}

pub fn category_name(category: CheckCategory) -> (r: &'static str)
    ensures
        r@ == spec_category_name(category),
{
    match category {
        CheckCategory::Test => "test",
        CheckCategory::Build => "build",
    }
}

/// The file each category's checks are written to.
pub open spec fn spec_category_file_name(category: CheckCategory) -> Seq<char> {
    match category {
        CheckCategory::Test => "test-checks.nix"@,
        CheckCategory::Build => "build-checks.nix"@,
    }
}

pub fn category_file_name(category: CheckCategory) -> (r: &'static str)
    ensures
        r@ == spec_category_file_name(category),
{
    match category {
        CheckCategory::Test => "test-checks.nix",
        CheckCategory::Build => "build-checks.nix",
    }
}

/// The runner's name as keys spell it, lower-cased.
pub open spec fn spec_runner_key_name(runner: crate::task_runner::TaskRunner) -> Seq<char> {
    match runner {
        crate::task_runner::TaskRunner::Make => "make"@,
        crate::task_runner::TaskRunner::Just => "just"@,
        crate::task_runner::TaskRunner::Task => "task"@,
        crate::task_runner::TaskRunner::NpmScripts => "npmscripts"@,
        crate::task_runner::TaskRunner::Vite => "vite"@,
        crate::task_runner::TaskRunner::Webpack => "webpack"@,
        crate::task_runner::TaskRunner::Rspack => "rspack"@,
        crate::task_runner::TaskRunner::Rollup => "rollup"@,
        crate::task_runner::TaskRunner::Turbo => "turbo"@,
        crate::task_runner::TaskRunner::Nx => "nx"@,
        crate::task_runner::TaskRunner::Tox => "tox"@,
        crate::task_runner::TaskRunner::Nox => "nox"@,
        crate::task_runner::TaskRunner::Invoke => "invoke"@,
        crate::task_runner::TaskRunner::Cargo => "cargo"@,
        crate::task_runner::TaskRunner::GoTask => "gotask"@,
    }
}

pub fn runner_key_name(runner: crate::task_runner::TaskRunner) -> (r: &'static str)
    ensures
        r@ == spec_runner_key_name(runner),
{
    match runner {
        crate::task_runner::TaskRunner::Make => "make",
        crate::task_runner::TaskRunner::Just => "just",
        crate::task_runner::TaskRunner::Task => "task",
        crate::task_runner::TaskRunner::NpmScripts => "npmscripts",
        crate::task_runner::TaskRunner::Vite => "vite",
        crate::task_runner::TaskRunner::Webpack => "webpack",
        crate::task_runner::TaskRunner::Rspack => "rspack",
        crate::task_runner::TaskRunner::Rollup => "rollup",
        crate::task_runner::TaskRunner::Turbo => "turbo",
        crate::task_runner::TaskRunner::Nx => "nx",
        crate::task_runner::TaskRunner::Tox => "tox",
        crate::task_runner::TaskRunner::Nox => "nox",
        crate::task_runner::TaskRunner::Invoke => "invoke",
        crate::task_runner::TaskRunner::Cargo => "cargo",
        crate::task_runner::TaskRunner::GoTask => "gotask",
    }
}

/// The ecosystem a check belongs to: the runner's own where it has
/// one; otherwise the required executable decides; otherwise the
/// tree's sole detected ecosystem, if there is exactly one.
pub open spec fn spec_infer_check_language(
    runner: crate::task_runner::TaskRunner,
    required_exec: Seq<char>,
    primary: Option<Language>,
) -> Option<Language> {
    match runner {
        crate::task_runner::TaskRunner::Cargo => Some(Language::Rust),
        crate::task_runner::TaskRunner::GoTask => Some(Language::Go),
        crate::task_runner::TaskRunner::NpmScripts
        | crate::task_runner::TaskRunner::Vite
        | crate::task_runner::TaskRunner::Webpack
        | crate::task_runner::TaskRunner::Rspack
        | crate::task_runner::TaskRunner::Rollup
        | crate::task_runner::TaskRunner::Turbo
        | crate::task_runner::TaskRunner::Nx => Some(Language::JavaScript),
        crate::task_runner::TaskRunner::Tox
        | crate::task_runner::TaskRunner::Nox
        | crate::task_runner::TaskRunner::Invoke => Some(Language::Python),
        crate::task_runner::TaskRunner::Make
        | crate::task_runner::TaskRunner::Just
        | crate::task_runner::TaskRunner::Task => {
            if required_exec == "cargo"@ {
                Some(Language::Rust)
            } else if required_exec == "go"@ {
                Some(Language::Go)
            } else if required_exec == "npm"@ || required_exec == "pnpm"@ || required_exec
                == "yarn"@ || required_exec == "bun"@ || required_exec == "node"@ {
                Some(Language::JavaScript)
            } else if required_exec == "python"@ || required_exec == "python3"@ || required_exec
                == "tox"@ || required_exec == "nox"@ || required_exec == "invoke"@ {
                Some(Language::Python)
            } else {
                primary
            }
        },
    }
}

pub fn infer_check_language(
    runner: crate::task_runner::TaskRunner,
    required_exec: &str,
    primary: Option<Language>,
) -> (r: Option<Language>)
    ensures
        r == spec_infer_check_language(runner, required_exec@, primary),
{
    match runner {
        crate::task_runner::TaskRunner::Cargo => Some(Language::Rust),
        crate::task_runner::TaskRunner::GoTask => Some(Language::Go),
        crate::task_runner::TaskRunner::NpmScripts
        | crate::task_runner::TaskRunner::Vite
        | crate::task_runner::TaskRunner::Webpack
        | crate::task_runner::TaskRunner::Rspack
        | crate::task_runner::TaskRunner::Rollup
        | crate::task_runner::TaskRunner::Turbo
        | crate::task_runner::TaskRunner::Nx => Some(Language::JavaScript),
        crate::task_runner::TaskRunner::Tox
        | crate::task_runner::TaskRunner::Nox
        | crate::task_runner::TaskRunner::Invoke => Some(Language::Python),
        crate::task_runner::TaskRunner::Make
        | crate::task_runner::TaskRunner::Just
        | crate::task_runner::TaskRunner::Task => {
            let e = str_chars(required_exec);
            if crate::text::chars_eq(&e, "cargo") {
                Some(Language::Rust)
            } else if crate::text::chars_eq(&e, "go") {
                Some(Language::Go)
            } else if crate::text::chars_eq(&e, "npm") || crate::text::chars_eq(&e, "pnpm")
                || crate::text::chars_eq(&e, "yarn") || crate::text::chars_eq(&e, "bun")
                || crate::text::chars_eq(&e, "node") {
                Some(Language::JavaScript)
            } else if crate::text::chars_eq(&e, "python") || crate::text::chars_eq(&e, "python3")
                || crate::text::chars_eq(&e, "tox") || crate::text::chars_eq(&e, "nox")
                || crate::text::chars_eq(&e, "invoke") {
                Some(Language::Python)
            } else {
                primary
            }
        },
    }
}

/// Whether any snapshot entry has the given path.
pub open spec fn spec_path_exists(
    files: Seq<crate::engine::FileEntryModel>,
    path: Seq<char>,
) -> bool
    decreases files.len(),
{
    if files.len() == 0 {
        false
    } else if files[0].path == path {
        true
    } else {
        spec_path_exists(files.drop_first(), path)
    }
}

fn path_exists(files: &Vec<crate::FileEntry>, path: &Vec<char>) -> (r: bool)
    ensures
        r == spec_path_exists(files@.map_values(|e: crate::FileEntry| e@), path@),
{
    let ghost fv = files@.map_values(|e: crate::FileEntry| e@);
    let mut i: usize = 0;
    proof {
        assert(fv.skip(0) =~= fv);
    }
    while i < files.len()
        invariant
            i <= files@.len(),
            fv == files@.map_values(|e: crate::FileEntry| e@),
            spec_path_exists(fv, path@) == spec_path_exists(fv.skip(i as int), path@),
        decreases files.len() - i,
    {
        proof {
            assert(fv.skip(i as int)[0] == fv[i as int]);
            assert(fv[i as int] == files@[i as int]@);
            assert(fv.skip(i as int).drop_first() =~= fv.skip(i + 1));
        }
        let epv = str_chars(files[i].path.as_str());
        if crate::text::chars_eq_vec(&epv, path) {
            return true;
        }
        i = i + 1;
    }
    proof {
        assert(fv.skip(i as int) =~= Seq::<crate::engine::FileEntryModel>::empty());
    }
    false
}

/// The manager a manifest's declared field names, when recognised.
pub open spec fn spec_declared_pm_of_content(content: Seq<char>) -> Option<
    crate::package_manager::PackageManager,
> {
    match crate::structured::json_str_at1(content, "packageManager"@) {
        None => None,
        Some(s) => {
            let at = crate::text::spec_find_char(s, '@', 0);
            let name = if 0 <= at < s.len() {
                s.take(at)
            } else {
                s
            };
            crate::package_manager::spec_declared_manager(name)
        },
    }
}

/// The manager that owns a manifest: the declared field first, then a
/// lockfile beside the manifest, then the conventional default.
pub open spec fn spec_resolve_js_pm(
    files: Seq<crate::engine::FileEntryModel>,
    package_json_path: Seq<char>,
) -> crate::package_manager::PackageManager {
    let declared = match crate::engine::spec_content_of(files, package_json_path) {
        Some(content) => spec_declared_pm_of_content(content),
        None => None,
    };
    match declared {
        Some(pm) => pm,
        None => {
            let dir = crate::paths::spec_parent_dir(package_json_path);
            if spec_path_exists(files, crate::paths::spec_join(dir, "bun.lockb"@))
                || spec_path_exists(files, crate::paths::spec_join(dir, "bun.lock"@)) {
                crate::package_manager::PackageManager::Bun
            } else if spec_path_exists(files, crate::paths::spec_join(dir, "pnpm-lock.yaml"@)) {
                crate::package_manager::PackageManager::Pnpm
            } else if spec_path_exists(files, crate::paths::spec_join(dir, "yarn.lock"@)) {
                crate::package_manager::PackageManager::Yarn
            } else if spec_path_exists(files, crate::paths::spec_join(dir, "package-lock.json"@)) {
                crate::package_manager::PackageManager::Npm
            } else {
                crate::package_manager::PackageManager::Npm
            }
        },
    }
}

/// Resolves the manager that runs a manifest's scripts.
pub fn resolve_js_package_manager(
    files: &Vec<crate::FileEntry>,
    package_json_path: &str,
) -> (r: crate::package_manager::PackageManager)
    ensures
        r == spec_resolve_js_pm(
            files@.map_values(|e: crate::FileEntry| e@),
            package_json_path@,
        ),
{
    let pv = str_chars(package_json_path);
    let declared: Option<crate::package_manager::PackageManager> = match crate::engine::content_of(
        files,
        package_json_path,
    ) {
        Some(content) => {
            match crate::structured::json_lookup_str1(content.as_str(), "packageManager") {
                Some(s) => {
                    let sv = str_chars(s.as_str());
                    let at = crate::text::find_char(&sv, '@', 0);
                    let name = if at < sv.len() {
                        sub_vec(&sv, 0, at)
                    } else {
                        sub_vec(&sv, 0, sv.len())
                    };
                    proof {
                        if at < sv@.len() {
                            assert(name@ =~= sv@.take(at as int));
                        } else {
                            assert(name@ =~= sv@);
                        }
                    }
                    if crate::text::chars_eq(&name, "npm") {
                        Some(crate::package_manager::PackageManager::Npm)
                    } else if crate::text::chars_eq(&name, "pnpm") {
                        Some(crate::package_manager::PackageManager::Pnpm)
                    } else if crate::text::chars_eq(&name, "yarn") {
                        Some(crate::package_manager::PackageManager::Yarn)
                    } else if crate::text::chars_eq(&name, "bun") {
                        Some(crate::package_manager::PackageManager::Bun)
                    } else {
                        None
                    }
                },
                None => None,
            }
        },
        None => None,
    };
    match declared {
        Some(pm) => pm,
        None => {
            let dir = crate::paths::parent_dir(&pv);
            let bun_lockb = crate::paths::join_path(&dir, "bun.lockb");
            let bun_lock = crate::paths::join_path(&dir, "bun.lock");
            let pnpm_lock = crate::paths::join_path(&dir, "pnpm-lock.yaml");
            let yarn_lock = crate::paths::join_path(&dir, "yarn.lock");
            let npm_lock = crate::paths::join_path(&dir, "package-lock.json");
            if path_exists(files, &bun_lockb) || path_exists(files, &bun_lock) {
                crate::package_manager::PackageManager::Bun
            } else if path_exists(files, &pnpm_lock) {
                crate::package_manager::PackageManager::Pnpm
            } else if path_exists(files, &yarn_lock) {
                crate::package_manager::PackageManager::Yarn
            } else if path_exists(files, &npm_lock) {
                crate::package_manager::PackageManager::Npm
            } else {
                crate::package_manager::PackageManager::Npm
            }
        },
    }
}

/// What one command resolves to: direct commands keep their text and
/// run at the root; manifest scripts run through their owning
/// manager, in the manifest's directory, with the script body kept as
/// a display comment.
pub open spec fn spec_resolve_task_command(
    cmd: crate::task_runner::TaskCommandModel,
    root: Seq<char>,
    files: Seq<crate::engine::FileEntryModel>,
) -> (CommandInfoModel, Option<crate::package_manager::PackageManager>) {
    match cmd.executable {
        crate::task_runner::CommandExecutableModel::Direct { command } => {
            let required_exec = match spec_first_word(command) {
                Some(w) => w,
                None => Seq::empty(),
            };
            (
                CommandInfoModel {
                    required_exec,
                    command,
                    workdir: "."@,
                    display: command,
                },
                None,
            )
        },
        crate::task_runner::CommandExecutableModel::PackageManagerScript {
            script_name,
            script_body,
            package_json_path,
        } => {
            let pm = spec_resolve_js_pm(files, package_json_path);
            let run_command = match pm.spec_run_script(script_name) {
                Some(c) => c,
                None => "npm run "@ + script_name,
            };
            let workdir = if crate::paths::spec_rfind(package_json_path, '/') < 0 {
                "."@
            } else {
                crate::paths::spec_relativize(
                    root,
                    crate::paths::spec_parent_dir(package_json_path),
                )
            };
            (
                CommandInfoModel {
                    required_exec: pm.spec_command_name(),
                    command: run_command,
                    workdir,
                    display: run_command + "  # "@ + script_body,
                },
                Some(pm),
            )
        },
    }
}

/// Resolves one command, as `spec_resolve_task_command` describes.
pub fn resolve_task_command(
    cmd: &crate::task_runner::TaskCommand,
    root: &str,
    files: &Vec<crate::FileEntry>,
) -> (r: (CommandInfo, Option<crate::package_manager::PackageManager>))
    ensures
        (r.0@, r.1) == spec_resolve_task_command(
            cmd@,
            root@,
            files@.map_values(|e: crate::FileEntry| e@),
        ),
{
    match &cmd.executable {
        crate::task_runner::CommandExecutable::Direct { command } => {
            let required_exec: String = match command_first_word(command.as_str()) {
                Some(w) => w,
                None => String::new(),
            };
            let info = CommandInfo {
                required_exec,
                command: command.clone(),
                workdir: ".".to_owned(),
                display: command.clone(),
            };
            (info, None)
        },
        crate::task_runner::CommandExecutable::PackageManagerScript {
            script_name,
            script_body,
            package_json_path,
        } => {
            let pm = resolve_js_package_manager(files, package_json_path.as_str());
            let run_command: String = match pm.run_script(script_name.as_str()) {
                Some(c) => c,
                None => {
                    let mut c = "npm run ".to_owned();
                    c.append(script_name.as_str());
                    c
                },
            };
            let pv = str_chars(package_json_path.as_str());
            let workdir: String = match crate::paths::rfind_slash(&pv) {
                false => ".".to_owned(),
                true => {
                    let parent = crate::paths::parent_dir(&pv);
                    let rootv = str_chars(root);
                    let rel = crate::paths::relativize_path(&rootv, &parent);
                    chars_to_string(&rel)
                },
            };
            let mut display = run_command.clone();
            display.append("  # ");
            display.append(script_body.as_str());
            let info = CommandInfo {
                required_exec: pm.command_name().to_owned(),
                command: run_command,
                workdir,
                display,
            };
            (info, Some(pm))
        },
    }
}


/// The count a key has accumulated so far.
pub open spec fn spec_count_get(counts: Seq<(Seq<char>, int)>, key: Seq<char>) -> int
    decreases counts.len(),
{
    if counts.len() == 0 {
        0
    } else if counts[0].0 == key {
        counts[0].1
    } else {
        spec_count_get(counts.drop_first(), key)
    }
}

/// The counts with one key set.
pub open spec fn spec_count_set(counts: Seq<(Seq<char>, int)>, key: Seq<char>, v: int) -> Seq<
    (Seq<char>, int),
>
    decreases counts.len(),
{
    if counts.len() == 0 {
        seq![(key, v)]
    } else if counts[0].0 == key {
        seq![(key, v)] + counts.drop_first()
    } else {
        seq![counts[0]] + spec_count_set(counts.drop_first(), key, v)
    }
}

/// A count one higher, stopping at the counter's ceiling.
pub open spec fn spec_bump(n: int) -> int {
    if n < u32::MAX {
        n + 1
    } else {
        n
    }
}

/// The key the n-th occurrence of a base gets: the base itself first,
/// a numeric suffix afterwards.
pub open spec fn spec_next_key(base: Seq<char>, n: int) -> Seq<char> {
    if n > 1 {
        base + seq!['-'] + spec_dec(n)
    } else {
        base
    }
}

/// Check-key collision: of two commands whose names slug to one base,
/// the first keeps the bare key and the second gets `-2`; the two
/// keys differ.
pub proof fn lemma_check_key_collision(base: Seq<char>)
    ensures
        spec_next_key(base, spec_bump(0)) == base,
        spec_next_key(base, spec_bump(spec_bump(0))) == base + seq!['-', '2'],
        spec_next_key(base, spec_bump(0)) != spec_next_key(base, spec_bump(spec_bump(0))),
{
    assert(spec_dec(2) =~= seq!['2']);
    assert(base + seq!['-'] + spec_dec(2) =~= base + seq!['-', '2']);
    assert((base + seq!['-', '2']).len() == base.len() + 2);
}

/// Bumps a key's count, returning the new count.
fn bump_count(counts: &mut Vec<(String, u32)>, key: &String) -> (n: u32)
    ensures
        n as int == spec_bump(
            spec_count_get(
                old(counts)@.map_values(|p: (String, u32)| (p.0@, p.1 as int)),
                key@,
            ),
        ),
        final(counts)@.map_values(|p: (String, u32)| (p.0@, p.1 as int)) == spec_count_set(
            old(counts)@.map_values(|p: (String, u32)| (p.0@, p.1 as int)),
            key@,
            n as int,
        ),
{
    let ghost cv = counts@.map_values(|p: (String, u32)| (p.0@, p.1 as int));
    let kv = str_chars(key.as_str());
    let mut i: usize = 0;
    while i < counts.len()
        invariant
            i <= counts@.len(),
            kv@ == key@,
            counts@ == old(counts)@,
            cv == counts@.map_values(|p: (String, u32)| (p.0@, p.1 as int)),
            forall|j: int| 0 <= j < i ==> (#[trigger] cv[j]).0 != key@,
        decreases counts.len() - i,
    {
        proof {
            assert(cv[i as int] == (counts@[i as int].0@, counts@[i as int].1 as int));
        }
        let epv = str_chars(counts[i].0.as_str());
        if crate::text::chars_eq_vec(&epv, &kv) {
            let old_n = counts[i].1;
            let n = if old_n < 0xFFFF_FFFFu32 {
                old_n + 1
            } else {
                old_n
            };
            counts[i].1 = n;
            proof {
                lemma_count_ops(cv, key@, i as int, n as int);
                assert(counts@.map_values(|p: (String, u32)| (p.0@, p.1 as int))
                    =~= cv.update(i as int, (key@, n as int)));
            }
            return n;
        }
        i = i + 1;
    }
    let ghost old_cv = cv;
    counts.push((key.clone(), 1));
    proof {
        lemma_count_absent(old_cv, key@);
        assert(counts@.map_values(|p: (String, u32)| (p.0@, p.1 as int)) =~= old_cv.push(
            (key@, 1int),
        ));
        lemma_count_set_absent(old_cv, key@, 1int);
    }
    1
}

/// Looking a present key up and setting it touches one slot.
proof fn lemma_count_ops(cv: Seq<(Seq<char>, int)>, key: Seq<char>, i: int, n: int)
    requires
        0 <= i < cv.len(),
        cv[i].0 == key,
        forall|j: int| 0 <= j < i ==> (#[trigger] cv[j]).0 != key,
    ensures
        spec_count_get(cv, key) == cv[i].1,
        spec_count_set(cv, key, n) == cv.update(i, (key, n)),
    decreases i,
{
    if i == 0 {
        assert(spec_count_set(cv, key, n) =~= cv.update(0, (key, n)));
    } else {
        assert(cv.drop_first()[i - 1] == cv[i]);
        assert(forall|j: int|
            0 <= j < i - 1 ==> (#[trigger] cv.drop_first()[j]).0 != key);
        lemma_count_ops(cv.drop_first(), key, i - 1, n);
        assert(seq![cv[0]] + cv.drop_first().update(i - 1, (key, n)) =~= cv.update(i, (key, n)));
    }
}

/// An absent key counts zero.
proof fn lemma_count_absent(cv: Seq<(Seq<char>, int)>, key: Seq<char>)
    requires
        forall|j: int| 0 <= j < cv.len() ==> (#[trigger] cv[j]).0 != key,
    ensures
        spec_count_get(cv, key) == 0,
    decreases cv.len(),
{
    if cv.len() > 0 {
        assert(forall|j: int|
            0 <= j < cv.len() - 1 ==> (#[trigger] cv.drop_first()[j]).0 != key);
        lemma_count_absent(cv.drop_first(), key);
    }
}

/// Setting an absent key appends it.
proof fn lemma_count_set_absent(cv: Seq<(Seq<char>, int)>, key: Seq<char>, n: int)
    requires
        forall|j: int| 0 <= j < cv.len() ==> (#[trigger] cv[j]).0 != key,
    ensures
        spec_count_set(cv, key, n) == cv.push((key, n)),
    decreases cv.len(),
{
    if cv.len() == 0 {
        assert(spec_count_set(cv, key, n) =~= cv.push((key, n)));
    } else {
        assert(forall|j: int|
            0 <= j < cv.len() - 1 ==> (#[trigger] cv.drop_first()[j]).0 != key);
        lemma_count_set_absent(cv.drop_first(), key, n);
        assert(seq![cv[0]] + cv.drop_first().push((key, n)) =~= cv.push((key, n)));
    }
}

/// The base of a check's key: ecosystem directory, category, runner,
/// the slugged command name and the slugged source path, dashed.
pub open spec fn spec_check_key_base(
    language: Option<Language>,
    category: CheckCategory,
    runner: crate::task_runner::TaskRunner,
    cmd_name: Seq<char>,
    runner_slug: Seq<char>,
) -> Seq<char> {
    spec_lang_dir(language) + seq!['-'] + spec_category_name(category) + seq!['-']
        + spec_runner_key_name(runner) + seq!['-'] + spec_slugify(cmd_name) + seq!['-']
        + runner_slug
}

/// The check one resolved command becomes, given the counts seen so
/// far.
pub open spec fn spec_built_check(
    cmd_name: Seq<char>,
    info: CommandInfoModel,
    language: Option<Language>,
    category: CheckCategory,
    runner: crate::task_runner::TaskRunner,
    runner_slug: Seq<char>,
    counts: Seq<(Seq<char>, int)>,
) -> (CheckSpecModel, Seq<(Seq<char>, int)>) {
    let base = spec_check_key_base(language, category, runner, cmd_name, runner_slug);
    let n = spec_bump(spec_count_get(counts, base));
    let key = spec_next_key(base, n);
    (
        CheckSpecModel {
            language,
            category,
            key,
            derivation_name: "check-"@ + key,
            display: info.display,
            required_exec: info.required_exec,
            command: info.command,
            workdir: info.workdir,
        },
        spec_count_set(counts, base, n),
    )
}

/// Builds one check, deduplicating its key against the counts.
pub fn build_check_spec(
    cmd: &crate::task_runner::TaskCommand,
    cmd_info: CommandInfo,
    language: Option<Language>,
    category: CheckCategory,
    task_runner: crate::task_runner::TaskRunner,
    runner_slug: &str,
    key_counts: &mut Vec<(String, u32)>,
) -> (r: CheckSpec)
    ensures
        ({
            let (check, counts2) = spec_built_check(
                cmd@.name,
                cmd_info@,
                language,
                category,
                task_runner,
                runner_slug@,
                old(key_counts)@.map_values(|p: (String, u32)| (p.0@, p.1 as int)),
            );
            r@ == check && final(key_counts)@.map_values(|p: (String, u32)| (p.0@, p.1 as int))
                == counts2
        }),
{
    let mut base = language_dir_name(language.as_ref()).to_owned();
    crate::text::push_char(&mut base, '-');
    base.append(category_name(category));
    crate::text::push_char(&mut base, '-');
    base.append(runner_key_name(task_runner));
    crate::text::push_char(&mut base, '-');
    let slug = slugify_identifier(cmd.name.as_str());
    base.append(slug.as_str());
    crate::text::push_char(&mut base, '-');
    base.append(runner_slug);
    proof {
        assert(base@ == spec_check_key_base(
            language,
            category,
            task_runner,
            cmd@.name,
            runner_slug@,
        ));
    }
    let ghost base_view = base@;
    let n = bump_count(key_counts, &base);
    let key: String = if n > 1 {
        let mut k = base.clone();
        crate::text::push_char(&mut k, '-');
        crate::text::append_chars(&mut k, &u32_dec_chars(n));
        proof {
            assert(k@ =~= base_view + seq!['-'] + spec_dec(n as int));
        }
        k
    } else {
        base
    };
    proof {
        assert(key@ == spec_next_key(base_view, n as int));
    }
    let mut derivation_name = "check-".to_owned();
    derivation_name.append(key.as_str());
    CheckSpec {
        language,
        category,
        key,
        derivation_name,
        display: cmd_info.display,
        required_exec: cmd_info.required_exec,
        command: cmd_info.command,
        workdir: cmd_info.workdir,
    }
}


/// The running state of check collection: the checks made so far, the
/// key counts, the package managers seen, and the ecosystems that
/// resolved commands have implied.
pub struct CollectState {
    pub checks: Seq<CheckSpecModel>,
    pub counts: Seq<(Seq<char>, int)>,
    pub managers: ManagerSet,
    pub need_node: bool,
    pub need_python: bool,
}

/// The set with one more manager.
pub open spec fn spec_manager_insert(
    ms: ManagerSet,
    pm: crate::package_manager::PackageManager,
) -> ManagerSet {
    match pm {
        crate::package_manager::PackageManager::Npm => ManagerSet { npm: true, ..ms },
        crate::package_manager::PackageManager::Pnpm => ManagerSet { pnpm: true, ..ms },
        crate::package_manager::PackageManager::Yarn => ManagerSet { yarn: true, ..ms },
        crate::package_manager::PackageManager::Bun => ManagerSet { bun: true, ..ms },
        crate::package_manager::PackageManager::Deno => ManagerSet { deno: true, ..ms },
        crate::package_manager::PackageManager::Pip => ManagerSet { pip: true, ..ms },
        crate::package_manager::PackageManager::Uv => ManagerSet { uv: true, ..ms },
        crate::package_manager::PackageManager::Poetry => ManagerSet { poetry: true, ..ms },
        crate::package_manager::PackageManager::Pdm => ManagerSet { pdm: true, ..ms },
        crate::package_manager::PackageManager::Pipenv => ManagerSet { pipenv: true, ..ms },
        crate::package_manager::PackageManager::Cargo => ManagerSet { cargo: true, ..ms },
        crate::package_manager::PackageManager::Go => ManagerSet { go: true, ..ms },
    }
}

#[verifier::rlimit(50)]
fn manager_insert(ms: &mut ManagerSet, pm: crate::package_manager::PackageManager)
    ensures
        *final(ms) == spec_manager_insert(*old(ms), pm),
{
    match pm {
        crate::package_manager::PackageManager::Npm => ms.npm = true,
        crate::package_manager::PackageManager::Pnpm => ms.pnpm = true,
        crate::package_manager::PackageManager::Yarn => ms.yarn = true,
        crate::package_manager::PackageManager::Bun => ms.bun = true,
        crate::package_manager::PackageManager::Deno => ms.deno = true,
        crate::package_manager::PackageManager::Pip => ms.pip = true,
        crate::package_manager::PackageManager::Uv => ms.uv = true,
        crate::package_manager::PackageManager::Poetry => ms.poetry = true,
        crate::package_manager::PackageManager::Pdm => ms.pdm = true,
        crate::package_manager::PackageManager::Pipenv => ms.pipenv = true,
        crate::package_manager::PackageManager::Cargo => ms.cargo = true,
        crate::package_manager::PackageManager::Go => ms.go = true,
    }
}

/// One command folded into the collection state.
pub open spec fn spec_collect_step(
    st: CollectState,
    runner: crate::task_runner::TaskRunner,
    runner_slug: Seq<char>,
    category: CheckCategory,
    cmd: crate::task_runner::TaskCommandModel,
    root: Seq<char>,
    files: Seq<crate::engine::FileEntryModel>,
    primary: Option<Language>,
) -> CollectState {
    let (info, pm_used) = spec_resolve_task_command(cmd, root, files);
    let managers = match pm_used {
        Some(pm) => spec_manager_insert(st.managers, pm),
        None => st.managers,
    };
    let need_node = st.need_node || (match pm_used {
        Some(pm) => pm.spec_is_js(),
        None => false,
    });
    let need_python = st.need_python || info.required_exec == "tox"@ || info.required_exec
        == "nox"@ || info.required_exec == "invoke"@;
    let language = spec_infer_check_language(runner, info.required_exec, primary);
    let (check, counts) = spec_built_check(
        cmd.name,
        info,
        language,
        category,
        runner,
        runner_slug,
        st.counts,
    );
    CollectState { checks: st.checks.push(check), counts, managers, need_node, need_python }
}

/// A command list folded left to right.
pub open spec fn spec_collect_cmds(
    st: CollectState,
    cmds: Seq<crate::task_runner::TaskCommandModel>,
    runner: crate::task_runner::TaskRunner,
    runner_slug: Seq<char>,
    category: CheckCategory,
    root: Seq<char>,
    files: Seq<crate::engine::FileEntryModel>,
    primary: Option<Language>,
) -> CollectState
    decreases cmds.len(),
{
    if cmds.len() == 0 {
        st
    } else {
        spec_collect_step(
            spec_collect_cmds(st, cmds.drop_last(), runner, runner_slug, category, root, files, primary),
            runner,
            runner_slug,
            category,
            cmds.last(),
            root,
            files,
            primary,
        )
    }
}

/// One runner detection folded: its test commands, then its build
/// commands.
pub open spec fn spec_collect_runner(
    st: CollectState,
    d: (crate::task_runner::TaskRunner, crate::task_runner::TaskRunnerSource, Seq<char>,
        crate::task_runner::TaskRunnerCommandsModel),
    root: Seq<char>,
    files: Seq<crate::engine::FileEntryModel>,
    primary: Option<Language>,
) -> CollectState {
    let runner_slug = spec_slugify(crate::paths::spec_relativize(root, d.2));
    let st1 = spec_collect_cmds(
        st,
        d.3.test,
        d.0,
        runner_slug,
        CheckCategory::Test,
        root,
        files,
        primary,
    );
    spec_collect_cmds(st1, d.3.build, d.0, runner_slug, CheckCategory::Build, root, files, primary)
}

/// Every runner detection folded, in order.
pub open spec fn spec_collect_all(
    st: CollectState,
    dets: Seq<
        (crate::task_runner::TaskRunner, crate::task_runner::TaskRunnerSource, Seq<char>,
            crate::task_runner::TaskRunnerCommandsModel),
    >,
    root: Seq<char>,
    files: Seq<crate::engine::FileEntryModel>,
    primary: Option<Language>,
) -> CollectState
    decreases dets.len(),
{
    if dets.len() == 0 {
        st
    } else {
        spec_collect_runner(
            spec_collect_all(st, dets.drop_last(), root, files, primary),
            dets.last(),
            root,
            files,
            primary,
        )
    }
}

fn clone_task_command(c: &crate::task_runner::TaskCommand) -> (r: crate::task_runner::TaskCommand)
    ensures
        r@ == c@,
{
    crate::task_runner::TaskCommand {
        name: c.name.clone(),
        executable: match &c.executable {
            crate::task_runner::CommandExecutable::Direct { command } =>
                crate::task_runner::CommandExecutable::Direct { command: command.clone() },
            crate::task_runner::CommandExecutable::PackageManagerScript {
                script_name,
                script_body,
                package_json_path,
            } => crate::task_runner::CommandExecutable::PackageManagerScript {
                script_name: script_name.clone(),
                script_body: script_body.clone(),
                package_json_path: package_json_path.clone(),
            },
        },
        description: match &c.description {
            Some(d) => Some(d.clone()),
            None => None,
        },
    }
}

fn collect_command(
    cmd: &crate::task_runner::TaskCommand,
    runner: crate::task_runner::TaskRunner,
    runner_slug: &str,
    category: CheckCategory,
    root: &str,
    files: &Vec<crate::FileEntry>,
    primary: Option<Language>,
    counts: &mut Vec<(String, u32)>,
    managers: &mut ManagerSet,
    need_node: &mut bool,
    need_python: &mut bool,
    checks: &mut Vec<CheckSpec>,
)
    ensures
        ({
            let st0 = CollectState {
                checks: old(checks)@.map_values(|c: CheckSpec| c@),
                counts: old(counts)@.map_values(|p: (String, u32)| (p.0@, p.1 as int)),
                managers: *old(managers),
                need_node: *old(need_node),
                need_python: *old(need_python),
            };
            let st1 = spec_collect_step(
                st0,
                runner,
                runner_slug@,
                category,
                cmd@,
                root@,
                files@.map_values(|e: crate::FileEntry| e@),
                primary,
            );
            &&& final(checks)@.map_values(|c: CheckSpec| c@) == st1.checks
            &&& final(counts)@.map_values(|p: (String, u32)| (p.0@, p.1 as int)) == st1.counts
            &&& *final(managers) == st1.managers
            &&& *final(need_node) == st1.need_node
            &&& *final(need_python) == st1.need_python
        }),
{
    let (cmd_info, pm_used) = resolve_task_command(cmd, root, files);
    match pm_used {
        Some(pm) => {
            manager_insert(managers, pm);
            if pm.is_js_package_manager() {
                *need_node = true;
            }
        },
        None => (),
    }
    let ev = str_chars(cmd_info.required_exec.as_str());
    if crate::text::chars_eq(&ev, "tox") || crate::text::chars_eq(&ev, "nox")
        || crate::text::chars_eq(&ev, "invoke") {
        *need_python = true;
    }
    let language = infer_check_language(runner, cmd_info.required_exec.as_str(), primary);
    let ghost old_checks = checks@.map_values(|c: CheckSpec| c@);
    let check = build_check_spec(cmd, cmd_info, language, category, runner, runner_slug, counts);
    checks.push(check);
    proof {
        assert(checks@.map_values(|c: CheckSpec| c@) =~= old_checks.push(
            checks@.last()@,
        ));
    }
}

/// Collects one resolved check per test or build command of every
/// detected runner, as the fold describes.
pub fn collect_checks(
    task_runners: &Vec<crate::task_runner::TaskRunnerDetection>,
    root: &str,
    files: &Vec<crate::FileEntry>,
    primary: Option<Language>,
    managers: &mut ManagerSet,
    need_node: &mut bool,
    need_python: &mut bool,
) -> (r: Vec<CheckSpec>)
    ensures
        ({
            let st0 = CollectState {
                checks: Seq::empty(),
                counts: Seq::empty(),
                managers: *old(managers),
                need_node: *old(need_node),
                need_python: *old(need_python),
            };
            let st1 = spec_collect_all(
                st0,
                task_runners@.map_values(
                    |d: crate::task_runner::TaskRunnerDetection| crate::engine::spec_runner_model(
                        d,
                    ),
                ),
                root@,
                files@.map_values(|e: crate::FileEntry| e@),
                primary,
            );
            r@.map_values(|c: CheckSpec| c@) == st1.checks && *final(managers) == st1.managers
                && *final(need_node) == st1.need_node && *final(need_python) == st1.need_python
        }),
{
    let ghost dv = task_runners@.map_values(
        |d: crate::task_runner::TaskRunnerDetection| crate::engine::spec_runner_model(d),
    );
    let ghost fv = files@.map_values(|e: crate::FileEntry| e@);
    let mut checks: Vec<CheckSpec> = Vec::new();
    let mut counts: Vec<(String, u32)> = Vec::new();
    let mut ti: usize = 0;
    proof {
        assert(dv.take(0) =~= Seq::<
            (crate::task_runner::TaskRunner, crate::task_runner::TaskRunnerSource, Seq<char>,
                crate::task_runner::TaskRunnerCommandsModel),
        >::empty());
        assert(checks@.map_values(|c: CheckSpec| c@) =~= Seq::<CheckSpecModel>::empty());
        assert(counts@.map_values(|p: (String, u32)| (p.0@, p.1 as int)) =~= Seq::<
            (Seq<char>, int),
        >::empty());
    }
    while ti < task_runners.len()
        invariant
            ti <= task_runners@.len(),
            dv == task_runners@.map_values(
                |d: crate::task_runner::TaskRunnerDetection| crate::engine::spec_runner_model(d),
            ),
            fv == files@.map_values(|e: crate::FileEntry| e@),
            ({
                let st0 = CollectState {
                    checks: Seq::empty(),
                    counts: Seq::empty(),
                    managers: *old(managers),
                    need_node: *old(need_node),
                    need_python: *old(need_python),
                };
                let st = spec_collect_all(st0, dv.take(ti as int), root@, fv, primary);
                checks@.map_values(|c: CheckSpec| c@) == st.checks && counts@.map_values(
                    |p: (String, u32)| (p.0@, p.1 as int),
                ) == st.counts && *managers == st.managers && *need_node == st.need_node
                    && *need_python == st.need_python
            }),
        decreases task_runners.len() - ti,
    {
        proof {
            assert(dv.take(ti + 1).drop_last() =~= dv.take(ti as int));
            assert(dv.take(ti + 1).last() == dv[ti as int]);
            assert(dv[ti as int] == crate::engine::spec_runner_model(
                task_runners@[ti as int],
            ));
        }
        let rootv = str_chars(root);
        let pathv = str_chars(task_runners[ti].path.as_str());
        let rel = crate::paths::relativize_path(&rootv, &pathv);
        let rel_str = chars_to_string(&rel);
        let runner_slug = slugify_identifier(rel_str.as_str());
        let runner = task_runners[ti].task_runner;
        let ghost d = dv[ti as int];
        let ghost st_before = spec_collect_all(
            CollectState {
                checks: Seq::empty(),
                counts: Seq::empty(),
                managers: *old(managers),
                need_node: *old(need_node),
                need_python: *old(need_python),
            },
            dv.take(ti as int),
            root@,
            fv,
            primary,
        );
        let n_test = task_runners[ti].commands.test.len();
        let mut ci: usize = 0;
        proof {
            assert(d.3.test.take(0) =~= Seq::<crate::task_runner::TaskCommandModel>::empty());
        }
        while ci < n_test
            invariant
                ci <= n_test,
                ti < task_runners@.len(),
                n_test == task_runners@[ti as int].commands.test@.len(),
                d == crate::engine::spec_runner_model(task_runners@[ti as int]),
                fv == files@.map_values(|e: crate::FileEntry| e@),
                runner == d.0,
                runner_slug@ == spec_slugify(crate::paths::spec_relativize(root@, d.2)),
                ({
                    let st = spec_collect_cmds(
                        st_before,
                        d.3.test.take(ci as int),
                        d.0,
                        runner_slug@,
                        CheckCategory::Test,
                        root@,
                        fv,
                        primary,
                    );
                    checks@.map_values(|c: CheckSpec| c@) == st.checks && counts@.map_values(
                        |p: (String, u32)| (p.0@, p.1 as int),
                    ) == st.counts && *managers == st.managers && *need_node == st.need_node
                        && *need_python == st.need_python
                }),
            decreases n_test - ci,
        {
            proof {
                assert(d.3.test.take(ci + 1).drop_last() =~= d.3.test.take(ci as int));
                assert(d.3.test.take(ci + 1).last() == d.3.test[ci as int]);
                assert(d.3.test[ci as int] == task_runners@[ti as int].commands.test@[ci as int]@);
            }
            collect_command(
                &task_runners[ti].commands.test[ci],
                runner,
                runner_slug.as_str(),
                CheckCategory::Test,
                root,
                files,
                primary,
                &mut counts,
                managers,
                need_node,
                need_python,
                &mut checks,
            );
            ci = ci + 1;
        }
        proof {
            assert(d.3.test.take(n_test as int) =~= d.3.test);
        }
        let ghost st_mid = spec_collect_cmds(
            st_before,
            d.3.test,
            d.0,
            runner_slug@,
            CheckCategory::Test,
            root@,
            fv,
            primary,
        );
        let n_build = task_runners[ti].commands.build.len();
        let mut bi: usize = 0;
        proof {
            assert(d.3.build.take(0) =~= Seq::<crate::task_runner::TaskCommandModel>::empty());
        }
        while bi < n_build
            invariant
                bi <= n_build,
                ti < task_runners@.len(),
                n_build == task_runners@[ti as int].commands.build@.len(),
                d == crate::engine::spec_runner_model(task_runners@[ti as int]),
                fv == files@.map_values(|e: crate::FileEntry| e@),
                runner == d.0,
                runner_slug@ == spec_slugify(crate::paths::spec_relativize(root@, d.2)),
                ({
                    let st = spec_collect_cmds(
                        st_mid,
                        d.3.build.take(bi as int),
                        d.0,
                        runner_slug@,
                        CheckCategory::Build,
                        root@,
                        fv,
                        primary,
                    );
                    checks@.map_values(|c: CheckSpec| c@) == st.checks && counts@.map_values(
                        |p: (String, u32)| (p.0@, p.1 as int),
                    ) == st.counts && *managers == st.managers && *need_node == st.need_node
                        && *need_python == st.need_python
                }),
            decreases n_build - bi,
        {
            proof {
                assert(d.3.build.take(bi + 1).drop_last() =~= d.3.build.take(bi as int));
                assert(d.3.build.take(bi + 1).last() == d.3.build[bi as int]);
                assert(d.3.build[bi as int] == task_runners@[ti as int].commands.build@[
                    bi as int]@);
            }
            collect_command(
                &task_runners[ti].commands.build[bi],
                runner,
                runner_slug.as_str(),
                CheckCategory::Build,
                root,
                files,
                primary,
                &mut counts,
                managers,
                need_node,
                need_python,
                &mut checks,
            );
            bi = bi + 1;
        }
        proof {
            assert(d.3.build.take(n_build as int) =~= d.3.build);
        }
        ti = ti + 1;
    }
    proof {
        assert(dv.take(dv.len() as int) =~= dv);
    }
    checks
}


fn clone_check_spec(c: &CheckSpec) -> (r: CheckSpec)
    ensures
        r@ == c@,
{
    CheckSpec {
        language: c.language,
        category: c.category,
        key: c.key.clone(),
        derivation_name: c.derivation_name.clone(),
        display: c.display.clone(),
        required_exec: c.required_exec.clone(),
        command: c.command.clone(),
        workdir: c.workdir.clone(),
    }
}

/// One check inserted into a key-sorted list, after every check whose
/// key is not above it: a stable insertion.
pub open spec fn spec_insert_by_key(x: CheckSpecModel, s: Seq<CheckSpecModel>) -> Seq<
    CheckSpecModel,
>
    decreases s.len(),
{
    if s.len() == 0 {
        seq![x]
    } else if spec_lex_le(s.last().key, x.key) {
        s.push(x)
    } else {
        spec_insert_by_key(x, s.drop_last()).push(s.last())
    }
}

/// A check list stably sorted by key.
pub open spec fn spec_sort_by_key(s: Seq<CheckSpecModel>) -> Seq<CheckSpecModel>
    decreases s.len(),
{
    if s.len() == 0 {
        Seq::empty()
    } else {
        spec_insert_by_key(s.last(), spec_sort_by_key(s.drop_last()))
    }
}

fn insert_by_key(sorted: &mut Vec<CheckSpec>, x: CheckSpec)
    ensures
        final(sorted)@.map_values(|c: CheckSpec| c@) == spec_insert_by_key(
            x@,
            old(sorted)@.map_values(|c: CheckSpec| c@),
        ),
{
    let ghost sv = sorted@.map_values(|c: CheckSpec| c@);
    let xk = str_chars(x.key.as_str());
    let mut pos: usize = sorted.len();
    let mut stop = false;
    proof {
        assert(sv.take(sv.len() as int) =~= sv);
        assert(sv.skip(sv.len() as int) =~= Seq::<CheckSpecModel>::empty());
        assert(spec_insert_by_key(x@, sv) + Seq::<CheckSpecModel>::empty() =~= spec_insert_by_key(
            x@,
            sv,
        ));
    }
    while pos > 0 && !stop
        invariant
            pos <= sv.len(),
            sv == sorted@.map_values(|c: CheckSpec| c@),
            xk@ == x@.key,
            stop ==> 0 < pos && spec_lex_le(sv[pos - 1].key, x@.key),
            spec_insert_by_key(x@, sv) == spec_insert_by_key(x@, sv.take(pos as int)) + sv.skip(
                pos as int,
            ),
        decreases pos + (if stop { 0int } else { 1int }),
    {
        proof {
            assert(sv.take(pos as int).drop_last() =~= sv.take(pos - 1));
            assert(sv.take(pos as int).last() == sv[pos - 1]);
            assert(sv[pos - 1] == sorted@[pos - 1]@);
        }
        let prev_key = str_chars(sorted[pos - 1].key.as_str());
        if chars_lex_le(&prev_key, &xk) {
            stop = true;
        } else {
            proof {
                assert(spec_insert_by_key(x@, sv.take(pos as int)) =~= spec_insert_by_key(
                    x@,
                    sv.take(pos - 1),
                ).push(sv[pos - 1]));
                assert(spec_insert_by_key(x@, sv.take(pos - 1)).push(sv[pos - 1]) + sv.skip(
                    pos as int,
                ) =~= spec_insert_by_key(x@, sv.take(pos - 1)) + sv.skip(pos - 1));
            }
            pos = pos - 1;
        }
    }
    proof {
        if pos > 0 {
            assert(sv.take(pos as int).last() == sv[pos - 1]);
            assert(spec_insert_by_key(x@, sv.take(pos as int)) =~= sv.take(pos as int).push(x@));
        } else {
            assert(sv.take(0) =~= Seq::<CheckSpecModel>::empty());
            assert(spec_insert_by_key(x@, sv.take(0)) =~= seq![x@]);
            assert(seq![x@] =~= sv.take(0).push(x@));
        }
    }
    sorted.insert(pos, x);
    proof {
        assert(sorted@.map_values(|c: CheckSpec| c@) =~= sv.take(pos as int).push(x@) + sv.skip(
            pos as int,
        ));
    }
}

/// Sorts checks stably by key.
pub fn sort_checks_by_key(checks: &Vec<CheckSpec>) -> (r: Vec<CheckSpec>)
    ensures
        r@.map_values(|c: CheckSpec| c@) == spec_sort_by_key(
            checks@.map_values(|c: CheckSpec| c@),
        ),
{
    let ghost cv = checks@.map_values(|c: CheckSpec| c@);
    let mut sorted: Vec<CheckSpec> = Vec::new();
    let mut i: usize = 0;
    proof {
        assert(cv.take(0) =~= Seq::<CheckSpecModel>::empty());
        assert(sorted@.map_values(|c: CheckSpec| c@) =~= spec_sort_by_key(cv.take(0)));
    }
    while i < checks.len()
        invariant
            i <= checks@.len(),
            cv == checks@.map_values(|c: CheckSpec| c@),
            sorted@.map_values(|c: CheckSpec| c@) == spec_sort_by_key(cv.take(i as int)),
        decreases checks.len() - i,
    {
        proof {
            assert(cv.take(i + 1).drop_last() =~= cv.take(i as int));
            assert(cv.take(i + 1).last() == cv[i as int]);
            assert(cv[i as int] == checks@[i as int]@);
        }
        let x = clone_check_spec(&checks[i]);
        insert_by_key(&mut sorted, x);
        i = i + 1;
    }
    proof {
        assert(cv.take(cv.len() as int) =~= cv);
    }
    sorted
}

/// The checks of one ecosystem and category, in collection order.
pub open spec fn spec_checks_of(
    checks: Seq<CheckSpecModel>,
    language: Option<Language>,
    category: CheckCategory,
) -> Seq<CheckSpecModel> {
    checks.filter(|c: CheckSpecModel| c.language == language && c.category == category)
}

fn checks_of(checks: &Vec<CheckSpec>, language: Option<Language>, category: CheckCategory) -> (r:
    Vec<CheckSpec>)
    ensures
        r@.map_values(|c: CheckSpec| c@) == spec_checks_of(
            checks@.map_values(|c: CheckSpec| c@),
            language,
            category,
        ),
{
    let ghost cv = checks@.map_values(|c: CheckSpec| c@);
    let mut r: Vec<CheckSpec> = Vec::new();
    let mut i: usize = 0;
    proof {
        reveal(Seq::filter);
        assert(cv.take(0) =~= Seq::<CheckSpecModel>::empty());
        assert(r@.map_values(|c: CheckSpec| c@) =~= cv.take(0).filter(
            |c: CheckSpecModel| c.language == language && c.category == category,
        ));
    }
    while i < checks.len()
        invariant
            i <= checks@.len(),
            cv == checks@.map_values(|c: CheckSpec| c@),
            r@.map_values(|c: CheckSpec| c@) == cv.take(i as int).filter(
                |c: CheckSpecModel| c.language == language && c.category == category,
            ),
        decreases checks.len() - i,
    {
        proof {
            reveal(Seq::filter);
            assert(cv.take(i + 1).drop_last() =~= cv.take(i as int));
            assert(cv.take(i + 1).last() == cv[i as int]);
            assert(cv[i as int] == checks@[i as int]@);
        }
        let keep = match (checks[i].language, language) {
            (Some(a), Some(b)) => a == b,
            (None, None) => true,
            _ => false,
        } && checks[i].category == category;
        proof {
            assert(keep == (cv[i as int].language == language && cv[i as int].category
                == category));
        }
        if keep {
            let ghost old_map = r@.map_values(|c: CheckSpec| c@);
            r.push(clone_check_spec(&checks[i]));
            proof {
                assert(r@.map_values(|c: CheckSpec| c@) =~= old_map.push(cv[i as int]));
            }
        }
        i = i + 1;
    }
    proof {
        assert(cv.take(cv.len() as int) =~= cv);
    }
    r
}

/// The concatenated renderings of a check list.
pub open spec fn spec_rendered_checks(checks: Seq<CheckSpecModel>) -> Seq<char>
    decreases checks.len(),
{
    if checks.len() == 0 {
        Seq::empty()
    } else {
        spec_rendered_checks(checks.drop_last()) + ({
            let c = checks.last();
            crate::nix_builder::spec_check_derivation(
                c.key,
                c.derivation_name,
                c.display,
                c.required_exec,
                c.command,
                c.workdir,
            )
        })
    }
}

/// One check document: its header, the argument set, and every check
/// rendered in order.
#[verifier::opaque]
pub open spec fn spec_check_file_content(
    description: Seq<char>,
    checks: Seq<CheckSpecModel>,
) -> Seq<char> {
    spec_file_header(description) + "{ pkgs, lib, devPackages, projectRoot }:\n\n{\n"@
        + spec_rendered_checks(checks) + "}\n"@
}

/// Renders one check document.
pub fn generate_check_file_content(description: &str, checks: &Vec<CheckSpec>) -> (r: String)
    ensures
        r@ == spec_check_file_content(description@, checks@.map_values(|c: CheckSpec| c@)),
{
    proof {
        reveal(spec_check_file_content);
    }
    let ghost cv = checks@.map_values(|c: CheckSpec| c@);
    let mut out = generate_file_header(description);
    out.append("{ pkgs, lib, devPackages, projectRoot }:\n\n{\n");
    let ghost prefix = out@;
    let mut i: usize = 0;
    proof {
        assert(cv.take(0) =~= Seq::<CheckSpecModel>::empty());
        assert(out@ =~= prefix + spec_rendered_checks(cv.take(0)));
    }
    while i < checks.len()
        invariant
            i <= checks@.len(),
            cv == checks@.map_values(|c: CheckSpec| c@),
            out@ == prefix + spec_rendered_checks(cv.take(i as int)),
        decreases checks.len() - i,
    {
        proof {
            assert(cv.take(i + 1).drop_last() =~= cv.take(i as int));
            assert(cv.take(i + 1).last() == cv[i as int]);
            assert(cv[i as int] == checks@[i as int]@);
        }
        let builder = crate::nix_builder::CheckDerivationBuilder::new(
            checks[i].key.clone(),
            checks[i].derivation_name.clone(),
            checks[i].display.clone(),
            checks[i].required_exec.clone(),
            checks[i].command.clone(),
            checks[i].workdir.clone(),
        );
        let rendered = builder.build();
        out.append(rendered.as_str());
        proof {
            assert(out@ =~= prefix + spec_rendered_checks(cv.take(i + 1)));
        }
        i = i + 1;
    }
    proof {
        assert(cv.take(cv.len() as int) =~= cv);
    }
    out.append("}\n");
    out
}


/// The ecosystems the metadata detected.
pub open spec fn spec_has_language(metadata: &ProjectMetadata, lang: Language) -> bool {
    metadata.languages@.map_values(|d: crate::language::LanguageDetection| d.language).contains(
        lang,
    )
}

fn has_language(metadata: &ProjectMetadata, lang: Language) -> (r: bool)
    ensures
        r == spec_has_language(metadata, lang),
{
    let ghost lv = metadata.languages@.map_values(
        |d: crate::language::LanguageDetection| d.language,
    );
    let mut i: usize = 0;
    while i < metadata.languages.len()
        invariant
            i <= metadata.languages@.len(),
            lv == metadata.languages@.map_values(
                |d: crate::language::LanguageDetection| d.language,
            ),
            forall|j: int| 0 <= j < i ==> lv[j] != lang,
        decreases metadata.languages.len() - i,
    {
        proof {
            assert(lv[i as int] == metadata.languages@[i as int].language);
        }
        if metadata.languages[i].language == lang {
            proof {
                assert(lv[i as int] == lang);
            }
            return true;
        }
        i = i + 1;
    }
    proof {
        if lv.contains(lang) {
            let j = choose|j: int| 0 <= j < lv.len() && lv[j] == lang;
        }
    }
    false
}

/// The runners the metadata detected.
pub open spec fn spec_has_runner(
    metadata: &ProjectMetadata,
    runner: crate::task_runner::TaskRunner,
) -> bool {
    metadata.task_runners@.map_values(
        |d: crate::task_runner::TaskRunnerDetection| d.task_runner,
    ).contains(runner)
}

fn has_runner(metadata: &ProjectMetadata, runner: crate::task_runner::TaskRunner) -> (r: bool)
    ensures
        r == spec_has_runner(metadata, runner),
{
    let ghost rv = metadata.task_runners@.map_values(
        |d: crate::task_runner::TaskRunnerDetection| d.task_runner,
    );
    let mut i: usize = 0;
    while i < metadata.task_runners.len()
        invariant
            i <= metadata.task_runners@.len(),
            rv == metadata.task_runners@.map_values(
                |d: crate::task_runner::TaskRunnerDetection| d.task_runner,
            ),
            forall|j: int| 0 <= j < i ==> rv[j] != runner,
        decreases metadata.task_runners.len() - i,
    {
        proof {
            assert(rv[i as int] == metadata.task_runners@[i as int].task_runner);
        }
        if metadata.task_runners[i].task_runner == runner {
            proof {
                assert(rv[i as int] == runner);
            }
            return true;
        }
        i = i + 1;
    }
    proof {
        if rv.contains(runner) {
            let j = choose|j: int| 0 <= j < rv.len() && rv[j] == runner;
        }
    }
    false
}

/// Whether the Node ecosystem is needed before command resolution:
/// detected directly, or implied by a JavaScript-side runner.
pub open spec fn spec_base_need_node(metadata: &ProjectMetadata) -> bool {
    ||| spec_has_language(metadata, Language::JavaScript)
    ||| spec_has_runner(metadata, crate::task_runner::TaskRunner::NpmScripts)
    ||| spec_has_runner(metadata, crate::task_runner::TaskRunner::Vite)
    ||| spec_has_runner(metadata, crate::task_runner::TaskRunner::Webpack)
    ||| spec_has_runner(metadata, crate::task_runner::TaskRunner::Rspack)
    ||| spec_has_runner(metadata, crate::task_runner::TaskRunner::Rollup)
    ||| spec_has_runner(metadata, crate::task_runner::TaskRunner::Turbo)
    ||| spec_has_runner(metadata, crate::task_runner::TaskRunner::Nx)
}

/// Whether the Python ecosystem is needed before command resolution.
pub open spec fn spec_base_need_python(metadata: &ProjectMetadata) -> bool {
    ||| spec_has_language(metadata, Language::Python)
    ||| spec_has_runner(metadata, crate::task_runner::TaskRunner::Tox)
    ||| spec_has_runner(metadata, crate::task_runner::TaskRunner::Nox)
    ||| spec_has_runner(metadata, crate::task_runner::TaskRunner::Invoke)
}

/// Whether the Go ecosystem is needed.
pub open spec fn spec_need_go(metadata: &ProjectMetadata) -> bool {
    spec_has_language(metadata, Language::Go) || spec_has_runner(
        metadata,
        crate::task_runner::TaskRunner::GoTask,
    )
}

/// Whether the Rust ecosystem is needed.
pub open spec fn spec_need_rust(metadata: &ProjectMetadata) -> bool {
    spec_has_language(metadata, Language::Rust) || spec_has_runner(
        metadata,
        crate::task_runner::TaskRunner::Cargo,
    )
}

/// The sole detected ecosystem, when there is exactly one detection.
pub open spec fn spec_primary_language(metadata: &ProjectMetadata) -> Option<Language> {
    if metadata.languages@.len() == 1 {
        Some(metadata.languages@[0].language)
    } else {
        None
    }
}

pub fn primary_language(metadata: &ProjectMetadata) -> (r: Option<Language>)
    ensures
        r == spec_primary_language(metadata),
{
    if metadata.languages.len() == 1 {
        Some(metadata.languages[0].language)
    } else {
        None
    }
}

/// The package managers the metadata recorded, folded into a set.
pub open spec fn spec_detected_managers_fold(
    infos: Seq<crate::package_manager::PackageManagerInfoModel>,
    ms: ManagerSet,
) -> ManagerSet
    decreases infos.len(),
{
    if infos.len() == 0 {
        ms
    } else {
        spec_manager_insert(
            spec_detected_managers_fold(infos.drop_last(), ms),
            infos.last().package_manager,
        )
    }
}

pub open spec fn spec_detected_managers_all(
    dets: Seq<Seq<crate::package_manager::PackageManagerInfoModel>>,
    ms: ManagerSet,
) -> ManagerSet
    decreases dets.len(),
{
    if dets.len() == 0 {
        ms
    } else {
        spec_detected_managers_fold(
            dets.last(),
            spec_detected_managers_all(dets.drop_last(), ms),
        )
    }
}

/// The empty manager set.
pub open spec fn spec_no_managers() -> ManagerSet {
    ManagerSet {
        npm: false,
        pnpm: false,
        yarn: false,
        bun: false,
        deno: false,
        pip: false,
        uv: false,
        poetry: false,
        pdm: false,
        pipenv: false,
        cargo: false,
        go: false,
    }
}

/// The managers the metadata's detections name.
pub open spec fn spec_detected_managers(metadata: &ProjectMetadata) -> ManagerSet {
    spec_detected_managers_all(
        metadata.package_managers@.map_values(
            |d: crate::package_manager::PackageManagerDetection| d.package_managers@.map_values(
                |x: crate::package_manager::PackageManagerInfo| x@,
            ),
        ),
        spec_no_managers(),
    )
}

fn detected_package_managers(metadata: &ProjectMetadata) -> (r: ManagerSet)
    ensures
        r == spec_detected_managers(metadata),
{
    let ghost dv = metadata.package_managers@.map_values(
        |d: crate::package_manager::PackageManagerDetection| d.package_managers@.map_values(
            |x: crate::package_manager::PackageManagerInfo| x@,
        ),
    );
    let mut ms = ManagerSet {
        npm: false,
        pnpm: false,
        yarn: false,
        bun: false,
        deno: false,
        pip: false,
        uv: false,
        poetry: false,
        pdm: false,
        pipenv: false,
        cargo: false,
        go: false,
    };
    let mut i: usize = 0;
    proof {
        assert(dv.take(0) =~= Seq::<
            Seq<crate::package_manager::PackageManagerInfoModel>,
        >::empty());
    }
    while i < metadata.package_managers.len()
        invariant
            i <= metadata.package_managers@.len(),
            dv == metadata.package_managers@.map_values(
                |d: crate::package_manager::PackageManagerDetection| d.package_managers@.map_values(
                    |x: crate::package_manager::PackageManagerInfo| x@,
                ),
            ),
            ms == spec_detected_managers_all(dv.take(i as int), spec_no_managers()),
        decreases metadata.package_managers.len() - i,
    {
        proof {
            assert(dv.take(i + 1).drop_last() =~= dv.take(i as int));
            assert(dv.take(i + 1).last() == dv[i as int]);
            assert(dv[i as int] == metadata.package_managers@[i as int].package_managers@
                .map_values(|x: crate::package_manager::PackageManagerInfo| x@));
        }
        let ghost inner = dv[i as int];
        let n = metadata.package_managers[i].package_managers.len();
        let mut j: usize = 0;
        proof {
            assert(inner.take(0) =~= Seq::<
                crate::package_manager::PackageManagerInfoModel,
            >::empty());
        }
        while j < n
            invariant
                j <= n,
                i < metadata.package_managers@.len(),
                n == metadata.package_managers@[i as int].package_managers@.len(),
                inner == metadata.package_managers@[i as int].package_managers@.map_values(
                    |x: crate::package_manager::PackageManagerInfo| x@,
                ),
                ms == spec_detected_managers_fold(
                    inner.take(j as int),
                    spec_detected_managers_all(dv.take(i as int), spec_no_managers()),
                ),
            decreases n - j,
        {
            proof {
                assert(inner.take(j + 1).drop_last() =~= inner.take(j as int));
                assert(inner.take(j + 1).last() == inner[j as int]);
                assert(inner[j as int] == metadata.package_managers@[i as int].package_managers@[
                    j as int]@);
            }
            manager_insert(
                &mut ms,
                metadata.package_managers[i].package_managers[j].package_manager,
            );
            j = j + 1;
        }
        proof {
            assert(inner.take(n as int) =~= inner);
        }
        i = i + 1;
    }
    proof {
        assert(dv.take(dv.len() as int) =~= dv);
    }
    ms
}

/// The note Go selections carry when a patch level was requested.
pub open spec fn spec_go_notice(
    v: Option<VersionInfoModel>,
    attr: Option<Seq<char>>,
) -> Option<Seq<char>> {
    let patch_note: Option<Seq<char>> = match v {
        Some(vi) => match vi.parsed {
            Some(p) => if p.patch is Some {
                Some("note: nixpkgs provides Go by major/minor (patch may differ)"@)
            } else {
                None
            },
            None => None,
        },
        None => None,
    };
    spec_version_notice("Go"@, v, attr, "go (unversioned; go_* not inferred)"@, patch_note)
}

/// The Go selection notice.
pub fn go_notice(go_version: Option<&VersionInfo>, go_want_attr: Option<&str>) -> (r: Option<
    String,
>)
    ensures
        ({
            let vi = match go_version {
                Some(v) => Some(v@),
                None => None,
            };
            let at = match go_want_attr {
                Some(a) => Some(a@),
                None => None,
            };
            match r {
                Some(t) => spec_go_notice(vi, at) == Some(t@),
                None => spec_go_notice(vi, at) is None,
            }
        }),
{
    let patch_note: Option<&str> = match go_version {
        Some(v) => match &v.parsed {
            Some(p) => if p.patch.is_some() {
                Some("note: nixpkgs provides Go by major/minor (patch may differ)")
            } else {
                None
            },
            None => None,
        },
        None => None,
    };
    generate_version_notice(
        "Go",
        go_version,
        go_want_attr,
        "go (unversioned; go_* not inferred)",
        patch_note,
    )
}

/// The note Python selections carry when a patch level or an inexact
/// constraint was requested.
pub open spec fn spec_python_notice(
    v: Option<VersionInfoModel>,
    attr: Option<Seq<char>>,
) -> Option<Seq<char>> {
    let patch_note: Option<Seq<char>> = match v {
        Some(vi) => match vi.parsed {
            Some(p) => if p.patch is Some || p.constraint != VersionConstraint::Exact {
                Some("note: nixpkgs provides Python by major/minor (patch may differ)"@)
            } else {
                None
            },
            None => None,
        },
        None => None,
    };
    spec_version_notice(
        "Python"@,
        v,
        attr,
        "python3 (unversioned; pythonXY not inferred)"@,
        patch_note,
    )
}

/// The Python selection notice.
pub fn python_notice(python_version: Option<&VersionInfo>, python_want_attr: Option<&str>) -> (r:
    Option<String>)
    ensures
        ({
            let vi = match python_version {
                Some(v) => Some(v@),
                None => None,
            };
            let at = match python_want_attr {
                Some(a) => Some(a@),
                None => None,
            };
            match r {
                Some(t) => spec_python_notice(vi, at) == Some(t@),
                None => spec_python_notice(vi, at) is None,
            }
        }),
{
    let patch_note: Option<&str> = match python_version {
        Some(v) => match &v.parsed {
            Some(p) => if p.patch.is_some() || !matches!(p.constraint, VersionConstraint::Exact) {
                Some("note: nixpkgs provides Python by major/minor (patch may differ)")
            } else {
                None
            },
            None => None,
        },
        None => None,
    };
    generate_version_notice(
        "Python",
        python_version,
        python_want_attr,
        "python3 (unversioned; pythonXY not inferred)",
        patch_note,
    )
}

/// The note Node selections carry when more than a major was
/// requested.
pub open spec fn spec_node_notice(
    v: Option<VersionInfoModel>,
    attr: Option<Seq<char>>,
) -> Option<Seq<char>> {
    let patch_note: Option<Seq<char>> = match v {
        Some(vi) => match vi.parsed {
            Some(p) => if p.minor is Some || p.patch is Some {
                Some("note: nixpkgs provides Node.js by major (minor/patch may differ)"@)
            } else {
                None
            },
            None => None,
        },
        None => None,
    };
    spec_version_notice(
        "Node"@,
        v,
        attr,
        "nodejs (unversioned; nodejs_* not inferred)"@,
        patch_note,
    )
}

/// The Node selection notice.
pub fn node_notice(node_version: Option<&VersionInfo>, node_want_attr: Option<&str>) -> (r: Option<
    String,
>)
    ensures
        ({
            let vi = match node_version {
                Some(v) => Some(v@),
                None => None,
            };
            let at = match node_want_attr {
                Some(a) => Some(a@),
                None => None,
            };
            match r {
                Some(t) => spec_node_notice(vi, at) == Some(t@),
                None => spec_node_notice(vi, at) is None,
            }
        }),
{
    let patch_note: Option<&str> = match node_version {
        Some(v) => match &v.parsed {
            Some(p) => if p.minor.is_some() || p.patch.is_some() {
                Some("note: nixpkgs provides Node.js by major (minor/patch may differ)")
            } else {
                None
            },
            None => None,
        },
        None => None,
    };
    generate_version_notice(
        "Node",
        node_version,
        node_want_attr,
        "nodejs (unversioned; nodejs_* not inferred)",
        patch_note,
    )
}

/// The requested-version fragment of the Rust notice.
pub open spec fn spec_rust_requested(v: Option<VersionInfoModel>) -> Seq<char> {
    match v {
        Some(vi) => vi.raw + " (from "@ + vi.source.spec_name() + ")"@,
        None => "(unknown)"@,
    }
}

/// The Rust selection notice: an exact pin tries the pinned
/// toolchain, anything else reports the latest-stable fallback.
pub open spec fn spec_rust_notice(
    need_rust: bool,
    v: Option<VersionInfoModel>,
    want: Option<Seq<char>>,
) -> Option<Seq<char>> {
    if !need_rust {
        None
    } else {
        match want {
            Some(w) => Some(
                "Rust: requested "@ + spec_rust_requested(v) + " -> try rust-bin.stable."@ + w
                    + " (fallback latest)"@,
            ),
            None => match v {
                Some(vi) => Some(
                    "Rust: detected "@ + vi.raw + " (from "@ + vi.source.spec_name()
                        + ") -> using rust-bin.stable.latest (not exact pin)"@,
                ),
                None => None,
            },
        }
    }
}

pub fn rust_notice(
    need_rust: bool,
    rust_version: Option<&VersionInfo>,
    rust_want_version: Option<&str>,
) -> (r: Option<String>)
    ensures
        ({
            let vi = match rust_version {
                Some(v) => Some(v@),
                None => None,
            };
            let wa = match rust_want_version {
                Some(w) => Some(w@),
                None => None,
            };
            match r {
                Some(t) => spec_rust_notice(need_rust, vi, wa) == Some(t@),
                None => spec_rust_notice(need_rust, vi, wa) is None,
            }
        }),
{
    if !need_rust {
        return None;
    }
    match rust_want_version {
        Some(w) => {
            let mut t = "Rust: requested ".to_owned();
            match rust_version {
                Some(vi) => {
                    t.append(vi.raw.as_str());
                    t.append(" (from ");
                    t.append(vi.source.name());
                    t.append(")");
                },
                None => {
                    t.append("(unknown)");
                },
            }
            t.append(" -> try rust-bin.stable.");
            t.append(w);
            t.append(" (fallback latest)");
            Some(t)
        },
        None => match rust_version {
            Some(vi) => {
                let mut t = "Rust: detected ".to_owned();
                t.append(vi.raw.as_str());
                t.append(" (from ");
                t.append(vi.source.name());
                t.append(") -> using rust-bin.stable.latest (not exact pin)");
                Some(t)
            },
            None => None,
        },
    }
}



/// Appends a segment only when its condition holds.
fn append_seg_if(out: &mut String, cond: bool, seg: &str)
    ensures
        final(out)@ == old(out)@ + spec_opt_seg(cond, seg@),
{
    if cond {
        out.append(seg);
    } else {
        proof {
            assert(old(out)@ + spec_opt_seg(false, seg@) =~= old(out)@);
        }
    }
}

/// The opening of the let bindings: the package-set imports.
pub open spec fn spec_let_head(
    uses_rust_overlay: bool,
    need_go: bool,
    need_python: bool,
    need_node: bool,
    need_rust: bool,
) -> Seq<char> {
    "      let\n"@ + (if uses_rust_overlay {
        "        overlays = [ (import .autonix/rust/overlay.nix { inherit rust-overlay; }) ];\n        pkgs = import nixpkgs { inherit system overlays; };\n"@
    } else {
        "        pkgs = import nixpkgs { inherit system; };\n"@
    }) + "        lib = pkgs.lib;\n\n"@ + spec_opt_seg(
        need_go,
        "        golangPackages = import .autonix/golang/packages.nix { inherit pkgs lib; };\n"@,
    ) + spec_opt_seg(
        need_python,
        "        pythonPackages = import .autonix/python/packages.nix { inherit pkgs lib; };\n"@,
    ) + spec_opt_seg(
        need_node,
        "        nodejsPackages = import .autonix/nodejs/packages.nix { inherit pkgs lib; };\n"@,
    ) + spec_opt_seg(
        need_rust,
        "        rustPackages = import .autonix/rust/packages.nix { inherit pkgs lib; };\n"@,
    ) + spec_opt_seg(need_go || need_python || need_node || need_rust, "\n"@)
}

fn let_head(
    uses_rust_overlay: bool,
    need_go: bool,
    need_python: bool,
    need_node: bool,
    need_rust: bool,
) -> (r: String)
    ensures
        r@ == spec_let_head(uses_rust_overlay, need_go, need_python, need_node, need_rust),
{
    let mut out = "      let\n".to_owned();
    if uses_rust_overlay {
        out.append(
            "        overlays = [ (import .autonix/rust/overlay.nix { inherit rust-overlay; }) ];\n        pkgs = import nixpkgs { inherit system overlays; };\n",
        );
    } else {
        out.append("        pkgs = import nixpkgs { inherit system; };\n");
    }
    out.append("        lib = pkgs.lib;\n\n");
    append_seg_if(
        &mut out,
        need_go,
        "        golangPackages = import .autonix/golang/packages.nix { inherit pkgs lib; };\n",
    );
    append_seg_if(
        &mut out,
        need_python,
        "        pythonPackages = import .autonix/python/packages.nix { inherit pkgs lib; };\n",
    );
    append_seg_if(
        &mut out,
        need_node,
        "        nodejsPackages = import .autonix/nodejs/packages.nix { inherit pkgs lib; };\n",
    );
    append_seg_if(
        &mut out,
        need_rust,
        "        rustPackages = import .autonix/rust/packages.nix { inherit pkgs lib; };\n",
    );
    append_seg_if(&mut out, need_go || need_python || need_node || need_rust, "\n");
    out
}

/// The generic-tools block of the let bindings.
pub open spec fn spec_let_generic(tools: RunnerToolSet) -> Seq<char> {
    if tools.gnumake || tools.go_task || tools.just {
        "        genericPackages = [\n"@ + spec_opt_seg(tools.gnumake, "          pkgs.gnumake\n"@)
            + spec_opt_seg(tools.go_task, "          pkgs.go-task\n"@) + spec_opt_seg(
            tools.just,
            "          pkgs.just\n"@,
        ) + "        ];\n\n"@
    } else {
        Seq::<char>::empty()
    }
}

fn let_generic(tools: &RunnerToolSet) -> (r: String)
    ensures
        r@ == spec_let_generic(*tools),
{
    if tools.gnumake || tools.go_task || tools.just {
        let mut out = "        genericPackages = [\n".to_owned();
        append_seg_if(&mut out, tools.gnumake, "          pkgs.gnumake\n");
        append_seg_if(&mut out, tools.go_task, "          pkgs.go-task\n");
        append_seg_if(&mut out, tools.just, "          pkgs.just\n");
        out.append("        ];\n\n");
        out
    } else {
        let out = String::new();
        proof {
            assert(out@ =~= spec_let_generic(*tools));
        }
        out
    }
}

/// The development-package list of the let bindings.
pub open spec fn spec_let_dev(
    include_generic: bool,
    need_go: bool,
    need_python: bool,
    need_node: bool,
    need_rust: bool,
) -> Seq<char> {
    "        devPackages = []"@ + spec_opt_seg(include_generic, "\n          ++ genericPackages"@)
        + spec_opt_seg(need_go, "\n          ++ golangPackages.packages"@) + spec_opt_seg(
        need_python,
        "\n          ++ pythonPackages.packages"@,
    ) + spec_opt_seg(need_node, "\n          ++ nodejsPackages.packages"@) + spec_opt_seg(
        need_rust,
        "\n          ++ rustPackages.packages"@,
    ) + ";\n\n"@
}

fn let_dev(
    include_generic: bool,
    need_go: bool,
    need_python: bool,
    need_node: bool,
    need_rust: bool,
) -> (r: String)
    ensures
        r@ == spec_let_dev(include_generic, need_go, need_python, need_node, need_rust),
{
    let mut out = "        devPackages = []".to_owned();
    append_seg_if(&mut out, include_generic, "\n          ++ genericPackages");
    append_seg_if(&mut out, need_go, "\n          ++ golangPackages.packages");
    append_seg_if(&mut out, need_python, "\n          ++ pythonPackages.packages");
    append_seg_if(&mut out, need_node, "\n          ++ nodejsPackages.packages");
    append_seg_if(&mut out, need_rust, "\n          ++ rustPackages.packages");
    out.append(";\n\n");
    out
}

/// The notice list of the let bindings.
pub open spec fn spec_let_notices(
    need_go: bool,
    need_python: bool,
    need_node: bool,
    need_rust: bool,
) -> Seq<char> {
    "        notices = []"@ + spec_opt_seg(need_go, "\n          ++ golangPackages.notices"@)
        + spec_opt_seg(need_python, "\n          ++ pythonPackages.notices"@) + spec_opt_seg(
        need_node,
        "\n          ++ nodejsPackages.notices"@,
    ) + spec_opt_seg(need_rust, "\n          ++ rustPackages.notices"@) + ";\n\n"@
}

fn let_notices(need_go: bool, need_python: bool, need_node: bool, need_rust: bool) -> (r: String)
    ensures
        r@ == spec_let_notices(need_go, need_python, need_node, need_rust),
{
    let mut out = "        notices = []".to_owned();
    append_seg_if(&mut out, need_go, "\n          ++ golangPackages.notices");
    append_seg_if(&mut out, need_python, "\n          ++ pythonPackages.notices");
    append_seg_if(&mut out, need_node, "\n          ++ nodejsPackages.notices");
    append_seg_if(&mut out, need_rust, "\n          ++ rustPackages.notices");
    out.append(";\n\n");
    out
}

/// The let bindings of the assembly document.
#[verifier::opaque]
pub open spec fn spec_flake_let_bindings(
    uses_rust_overlay: bool,
    need_go: bool,
    need_python: bool,
    need_node: bool,
    need_rust: bool,
    tools: RunnerToolSet,
) -> Seq<char> {
    spec_let_head(uses_rust_overlay, need_go, need_python, need_node, need_rust)
        + spec_let_generic(tools) + spec_let_dev(
        tools.gnumake || tools.go_task || tools.just,
        need_go,
        need_python,
        need_node,
        need_rust,
    ) + spec_let_notices(need_go, need_python, need_node, need_rust)
}

pub fn generate_flake_let_bindings(
    uses_rust_overlay: bool,
    need_go: bool,
    need_python: bool,
    need_node: bool,
    need_rust: bool,
    tools: &RunnerToolSet,
) -> (r: String)
    ensures
        r@ == spec_flake_let_bindings(
            uses_rust_overlay,
            need_go,
            need_python,
            need_node,
            need_rust,
            *tools,
        ),
{
    proof {
        reveal(spec_flake_let_bindings);
    }
    let mut out = let_head(uses_rust_overlay, need_go, need_python, need_node, need_rust);
    let generic = let_generic(tools);
    out.append(generic.as_str());
    let include_generic = tools.gnumake || tools.go_task || tools.just;
    let dev = let_dev(include_generic, need_go, need_python, need_node, need_rust);
    out.append(dev.as_str());
    let notices = let_notices(need_go, need_python, need_node, need_rust);
    out.append(notices.as_str());
    out
}

/// The shell binding of the assembly document.
#[verifier::opaque]
pub open spec fn spec_devshell_binding(
    need_go: bool,
    need_python: bool,
    need_node: bool,
    need_rust: bool,
) -> Seq<char> {
    "        devShells.default = import .autonix/devShell.nix {\n          inherit pkgs lib devPackages notices;\n"@
        + spec_opt_seg(
        need_go,
        "          go = golangPackages.go or null;\n          goAttr = golangPackages.goAttr or null;\n          wantGoAttr = golangPackages.wantGoAttr or null;\n"@,
    ) + spec_opt_seg(
        need_python,
        "          python = pythonPackages.python or null;\n          pythonAttr = pythonPackages.pythonAttr or null;\n          wantPythonAttr = pythonPackages.wantPythonAttr or null;\n"@,
    ) + spec_opt_seg(
        need_node,
        "          node = nodejsPackages.node or null;\n          nodeAttr = nodejsPackages.nodeAttr or null;\n          wantNodeAttr = nodejsPackages.wantNodeAttr or null;\n"@,
    ) + spec_opt_seg(
        need_rust,
        "          rustToolchain = rustPackages.rustToolchain or null;\n"@,
    ) + "        };\n\n"@
}

pub fn generate_devshell_binding(
    need_go: bool,
    need_python: bool,
    need_node: bool,
    need_rust: bool,
) -> (r: String)
    ensures
        r@ == spec_devshell_binding(need_go, need_python, need_node, need_rust),
{
    proof {
        reveal(spec_devshell_binding);
    }
    proof {
        lemma_opt_seg_empty();
    }
    let mut out =
        "        devShells.default = import .autonix/devShell.nix {\n          inherit pkgs lib devPackages notices;\n".to_owned();
    if need_go {
        out.append(
            "          go = golangPackages.go or null;\n          goAttr = golangPackages.goAttr or null;\n          wantGoAttr = golangPackages.wantGoAttr or null;\n",
        );
    }
    if need_python {
        out.append(
            "          python = pythonPackages.python or null;\n          pythonAttr = pythonPackages.pythonAttr or null;\n          wantPythonAttr = pythonPackages.wantPythonAttr or null;\n",
        );
    }
    if need_node {
        out.append(
            "          node = nodejsPackages.node or null;\n          nodeAttr = nodejsPackages.nodeAttr or null;\n          wantNodeAttr = nodejsPackages.wantNodeAttr or null;\n",
        );
    }
    if need_rust {
        out.append("          rustToolchain = rustPackages.rustToolchain or null;\n");
    }
    out.append("        };\n\n");
    out
}

/// The import lines of the checks binding.
pub open spec fn spec_check_imports(paths: Seq<Seq<char>>) -> Seq<char>
    decreases paths.len(),
{
    if paths.len() == 0 {
        Seq::empty()
    } else {
        spec_check_imports(paths.drop_last()) + "          // (import .autonix/"@
            + paths.last() + " { inherit pkgs lib devPackages projectRoot; })\n"@
    }
}

/// The checks binding of the assembly document.
#[verifier::opaque]
pub open spec fn spec_checks_binding(paths: Seq<Seq<char>>) -> Seq<char> {
    if paths.len() == 0 {
        "        checks = {};\n"@
    } else {
        "        checks = {}\n"@ + spec_check_imports(paths) + "          ;\n"@
    }
}

pub fn generate_checks_binding(check_files: &Vec<CheckFile>) -> (r: String)
    ensures
        r@ == spec_checks_binding(
            check_files@.map_values(|f: CheckFile| f.relative_path@),
        ),
{
    proof {
        reveal(spec_checks_binding);
    }
    let ghost pv = check_files@.map_values(|f: CheckFile| f.relative_path@);
    if check_files.len() == 0 {
        return "        checks = {};\n".to_owned();
    }
    let mut out = "        checks = {}\n".to_owned();
    let ghost prefix = out@;
    let mut i: usize = 0;
    proof {
        assert(pv.take(0) =~= Seq::<Seq<char>>::empty());
        assert(out@ =~= prefix + spec_check_imports(pv.take(0)));
    }
    while i < check_files.len()
        invariant
            i <= check_files@.len(),
            pv == check_files@.map_values(|f: CheckFile| f.relative_path@),
            out@ == prefix + spec_check_imports(pv.take(i as int)),
        decreases check_files.len() - i,
    {
        proof {
            assert(pv.take(i + 1).drop_last() =~= pv.take(i as int));
            assert(pv.take(i + 1).last() == pv[i as int]);
            assert(pv[i as int] == check_files@[i as int].relative_path@);
        }
        out.append("          // (import .autonix/");
        out.append(check_files[i].relative_path.as_str());
        out.append(" { inherit pkgs lib devPackages projectRoot; })\n");
        proof {
            assert(out@ =~= prefix + spec_check_imports(pv.take(i + 1)));
        }
        i = i + 1;
    }
    proof {
        assert(pv.take(pv.len() as int) =~= pv);
    }
    out.append("          ;\n");
    out
}

/// The assembly document.
#[verifier::opaque]
pub open spec fn spec_main_flake(
    need_go: bool,
    need_python: bool,
    need_node: bool,
    need_rust: bool,
    uses_rust_overlay: bool,
    check_paths: Seq<Seq<char>>,
    tools: RunnerToolSet,
) -> Seq<char> {
    spec_main_flake_header()
        + "{\n  description = \"Generated by autonix (devShells.default + checks)\";\n\n"@
        + spec_flake_inputs(uses_rust_overlay) + "  outputs = { self, nixpkgs, flake-utils"@
        + spec_opt_seg(uses_rust_overlay, ", rust-overlay"@)
        + " }:\n    flake-utils.lib.eachDefaultSystem (system:\n"@ + spec_flake_let_bindings(
        uses_rust_overlay,
        need_go,
        need_python,
        need_node,
        need_rust,
        tools,
    ) + spec_opt_seg(check_paths.len() > 0, "        projectRoot = ./.;\n\n"@)
        + "      in\n      {\n"@ + spec_devshell_binding(
        need_go,
        need_python,
        need_node,
        need_rust,
    ) + spec_checks_binding(check_paths) + "      });\n}\n"@
}

pub fn generate_main_flake(
    need_go: bool,
    need_python: bool,
    need_node: bool,
    need_rust: bool,
    uses_rust_overlay: bool,
    check_files: &Vec<CheckFile>,
    tools: &RunnerToolSet,
) -> (r: String)
    ensures
        r@ == spec_main_flake(
            need_go,
            need_python,
            need_node,
            need_rust,
            uses_rust_overlay,
            check_files@.map_values(|f: CheckFile| f.relative_path@),
            *tools,
        ),
{
    proof {
        reveal(spec_main_flake);
        lemma_opt_seg_empty();
    }
    let mut out = generate_main_flake_header();
    out.append("{\n  description = \"Generated by autonix (devShells.default + checks)\";\n\n");
    let inputs = generate_flake_inputs(uses_rust_overlay);
    out.append(inputs.as_str());
    out.append("  outputs = { self, nixpkgs, flake-utils");
    if uses_rust_overlay {
        out.append(", rust-overlay");
    }
    out.append(" }:\n    flake-utils.lib.eachDefaultSystem (system:\n");
    let lets = generate_flake_let_bindings(
        uses_rust_overlay,
        need_go,
        need_python,
        need_node,
        need_rust,
        tools,
    );
    out.append(lets.as_str());
    if check_files.len() > 0 {
        out.append("        projectRoot = ./.;\n\n");
    }
    out.append("      in\n      {\n");
    let shell = generate_devshell_binding(need_go, need_python, need_node, need_rust);
    out.append(shell.as_str());
    let checks = generate_checks_binding(check_files);
    out.append(checks.as_str());
    out.append("      });\n}\n");
    out
}


/// The description heading one check file carries.
pub open spec fn spec_check_file_desc(lang: Option<Language>, category: CheckCategory) -> Seq<
    char,
> {
    spec_lang_display(lang) + " "@ + spec_category_name(category) + " checks"@
}

/// The path one check file is written to, relative to the output
/// directory.
pub open spec fn spec_check_file_path(lang: Option<Language>, category: CheckCategory) -> Seq<
    char,
> {
    spec_lang_dir(lang) + "/"@ + spec_category_file_name(category)
}

/// One check file's model: its ecosystem, category, content and path.
pub open spec fn spec_check_file_entry(
    checks: Seq<CheckSpecModel>,
    lang: Option<Language>,
    category: CheckCategory,
) -> Seq<(Option<Language>, CheckCategory, Seq<char>, Seq<char>)> {
    let selected = spec_sort_by_key(spec_checks_of(checks, lang, category));
    if selected.len() == 0 {
        Seq::empty()
    } else {
        seq![
            (
                lang,
                category,
                spec_check_file_content(spec_check_file_desc(lang, category), selected),
                spec_check_file_path(lang, category),
            ),
        ]
    }
}

/// Every check file, in the fixed ecosystem and category order.
#[verifier::opaque]
pub open spec fn spec_check_files(checks: Seq<CheckSpecModel>) -> Seq<
    (Option<Language>, CheckCategory, Seq<char>, Seq<char>),
> {
    spec_check_file_entry(checks, None, CheckCategory::Test) + spec_check_file_entry(
        checks,
        None,
        CheckCategory::Build,
    ) + spec_check_file_entry(checks, Some(Language::Go), CheckCategory::Test)
        + spec_check_file_entry(checks, Some(Language::Go), CheckCategory::Build)
        + spec_check_file_entry(checks, Some(Language::Python), CheckCategory::Test)
        + spec_check_file_entry(checks, Some(Language::Python), CheckCategory::Build)
        + spec_check_file_entry(checks, Some(Language::JavaScript), CheckCategory::Test)
        + spec_check_file_entry(checks, Some(Language::JavaScript), CheckCategory::Build)
        + spec_check_file_entry(checks, Some(Language::Rust), CheckCategory::Test)
        + spec_check_file_entry(checks, Some(Language::Rust), CheckCategory::Build)
}

fn push_check_file(
    out: &mut Vec<CheckFile>,
    checks: &Vec<CheckSpec>,
    lang: Option<Language>,
    category: CheckCategory,
)
    ensures
        final(out)@.map_values(
            |f: CheckFile| (f.language, f.category, f.content@, f.relative_path@),
        ) == old(out)@.map_values(
            |f: CheckFile| (f.language, f.category, f.content@, f.relative_path@),
        ) + spec_check_file_entry(checks@.map_values(|c: CheckSpec| c@), lang, category),
{
    let ghost old_map = out@.map_values(
        |f: CheckFile| (f.language, f.category, f.content@, f.relative_path@),
    );
    let filtered = checks_of(checks, lang, category);
    let selected = sort_checks_by_key(&filtered);
    if selected.len() == 0 {
        proof {
            assert(old_map + spec_check_file_entry(
                checks@.map_values(|c: CheckSpec| c@),
                lang,
                category,
            ) =~= old_map);
        }
        return;
    }
    let mut desc = language_display_name(lang.as_ref()).to_owned();
    desc.append(" ");
    desc.append(category_name(category));
    desc.append(" checks");
    let content = generate_check_file_content(desc.as_str(), &selected);
    let mut relative_path = language_dir_name(lang.as_ref()).to_owned();
    relative_path.append("/");
    relative_path.append(category_file_name(category));
    out.push(CheckFile { language: lang, category, content, relative_path });
    proof {
        assert(out@.map_values(
            |f: CheckFile| (f.language, f.category, f.content@, f.relative_path@),
        ) =~= old_map + spec_check_file_entry(
            checks@.map_values(|c: CheckSpec| c@),
            lang,
            category,
        ));
    }
}

/// Renders one check document per (ecosystem, category) pair that has
/// at least one check, each file's checks sorted by key.
pub fn generate_check_files(checks: &Vec<CheckSpec>) -> (r: Vec<CheckFile>)
    ensures
        r@.map_values(|f: CheckFile| (f.language, f.category, f.content@, f.relative_path@))
            == spec_check_files(checks@.map_values(|c: CheckSpec| c@)),
        r@.map_values(|f: CheckFile| f.relative_path@) == spec_check_files(
            checks@.map_values(|c: CheckSpec| c@),
        ).map_values(|e: (Option<Language>, CheckCategory, Seq<char>, Seq<char>)| e.3),
{
    proof {
        reveal(spec_check_files);
    }
    let mut out: Vec<CheckFile> = Vec::new();
    proof {
        assert(out@.map_values(
            |f: CheckFile| (f.language, f.category, f.content@, f.relative_path@),
        ) =~= Seq::<(Option<Language>, CheckCategory, Seq<char>, Seq<char>)>::empty());
    }
    push_check_file(&mut out, checks, None, CheckCategory::Test);
    push_check_file(&mut out, checks, None, CheckCategory::Build);
    push_check_file(&mut out, checks, Some(Language::Go), CheckCategory::Test);
    push_check_file(&mut out, checks, Some(Language::Go), CheckCategory::Build);
    push_check_file(&mut out, checks, Some(Language::Python), CheckCategory::Test);
    push_check_file(&mut out, checks, Some(Language::Python), CheckCategory::Build);
    push_check_file(&mut out, checks, Some(Language::JavaScript), CheckCategory::Test);
    push_check_file(&mut out, checks, Some(Language::JavaScript), CheckCategory::Build);
    push_check_file(&mut out, checks, Some(Language::Rust), CheckCategory::Test);
    push_check_file(&mut out, checks, Some(Language::Rust), CheckCategory::Build);
    proof {
        let cv = checks@.map_values(|c: CheckSpec| c@);
        assert(out@.map_values(
            |f: CheckFile| (f.language, f.category, f.content@, f.relative_path@),
        ) =~= spec_check_files(cv));
        assert(out@.map_values(|f: CheckFile| f.relative_path@) =~= spec_check_files(
            cv,
        ).map_values(|e: (Option<Language>, CheckCategory, Seq<char>, Seq<char>)| e.3));
    }
    out
}


/// The best Go reading of the metadata.
#[verifier::opaque]
pub open spec fn spec_go_best(metadata: &ProjectMetadata) -> Option<VersionInfoModel> {
    match spec_versions_of(metadata, Language::Go) {
        Some(infos) => spec_best_info(
            infos,
            seq![VersionSource::GoModDirective, VersionSource::GoVersionFile],
        ),
        None => None,
    }
}

/// The best Python reading of the metadata.
#[verifier::opaque]
pub open spec fn spec_python_best(metadata: &ProjectMetadata) -> Option<VersionInfoModel> {
    match spec_versions_of(metadata, Language::Python) {
        Some(infos) => spec_best_info(
            infos,
            seq![
                VersionSource::PyprojectRequiresPython,
                VersionSource::PythonVersionFile,
                VersionSource::PipfilePythonVersion,
                VersionSource::SetupPyPythonRequires,
            ],
        ),
        None => None,
    }
}

/// The best Node reading of the metadata.
#[verifier::opaque]
pub open spec fn spec_node_best(metadata: &ProjectMetadata) -> Option<VersionInfoModel> {
    match spec_versions_of(metadata, Language::JavaScript) {
        Some(infos) => spec_best_info(
            infos,
            seq![
                VersionSource::PackageJsonEnginesNode,
                VersionSource::NvmrcFile,
                VersionSource::NodeVersionFile,
            ],
        ),
        None => None,
    }
}

/// The best Rust reading of the metadata.
#[verifier::opaque]
pub open spec fn spec_rust_best(metadata: &ProjectMetadata) -> Option<VersionInfoModel> {
    match spec_versions_of(metadata, Language::Rust) {
        Some(infos) => spec_best_info(
            infos,
            seq![
                VersionSource::RustToolchainFile,
                VersionSource::RustToolchainToml,
                VersionSource::CargoTomlRustVersion,
            ],
        ),
        None => None,
    }
}

/// The attribute a best reading selects.
pub open spec fn spec_attr_of(
    best: Option<VersionInfoModel>,
    f: spec_fn(SemanticVersionModel) -> Option<Seq<char>>,
) -> Option<Seq<char>> {
    match best {
        Some(v) => match v.parsed {
            Some(p) => f(p),
            None => None,
        },
        None => None,
    }
}

/// The exact Rust pin a best reading selects, when its constraint is
/// exact.
pub open spec fn spec_rust_want(best: Option<VersionInfoModel>) -> Option<Seq<char>> {
    match best {
        Some(v) => match v.parsed {
            Some(p) => if p.constraint == VersionConstraint::Exact {
                spec_rust_version_string(p)
            } else {
                None
            },
            None => None,
        },
        None => None,
    }
}

/// The generic and Python-side runner tools the metadata requires.
pub open spec fn spec_runner_tools(metadata: &ProjectMetadata) -> RunnerToolSet {
    RunnerToolSet {
        gnumake: spec_has_runner(metadata, crate::task_runner::TaskRunner::Make),
        go_task: spec_has_runner(metadata, crate::task_runner::TaskRunner::Task),
        just: spec_has_runner(metadata, crate::task_runner::TaskRunner::Just),
        tox: spec_has_runner(metadata, crate::task_runner::TaskRunner::Tox),
        nox: spec_has_runner(metadata, crate::task_runner::TaskRunner::Nox),
        invoke: spec_has_runner(metadata, crate::task_runner::TaskRunner::Invoke),
    }
}

/// The bundler executables the metadata requires.
pub open spec fn spec_node_tools(metadata: &ProjectMetadata) -> NodeToolSet {
    NodeToolSet {
        nx: spec_has_runner(metadata, crate::task_runner::TaskRunner::Nx),
        rollup: spec_has_runner(metadata, crate::task_runner::TaskRunner::Rollup),
        rspack: spec_has_runner(metadata, crate::task_runner::TaskRunner::Rspack),
        turbo: spec_has_runner(metadata, crate::task_runner::TaskRunner::Turbo),
        vite: spec_has_runner(metadata, crate::task_runner::TaskRunner::Vite),
        webpack: spec_has_runner(metadata, crate::task_runner::TaskRunner::Webpack),
    }
}

/// The state check collection ends in, starting from the detected
/// managers and the base ecosystem needs.
#[verifier::opaque]
pub open spec fn spec_collect_state(
    metadata: &ProjectMetadata,
    root: Seq<char>,
    files: Seq<crate::engine::FileEntryModel>,
) -> CollectState {
    spec_collect_all(
        CollectState {
            checks: Seq::empty(),
            counts: Seq::empty(),
            managers: spec_detected_managers(metadata),
            need_node: spec_base_need_node(metadata),
            need_python: spec_base_need_python(metadata),
        },
        metadata.task_runners@.map_values(
            |d: crate::task_runner::TaskRunnerDetection| crate::engine::spec_runner_model(d),
        ),
        root,
        files,
        spec_primary_language(metadata),
    )
}

/// What the generator promises: the shell and overlay documents are
/// the fixed texts; one package document per needed ecosystem, in
/// fixed order, each rendered from the selected attribute, the
/// selection notice, and the managers and tools in play; the check
/// files and the assembly document rendered from the collected
/// checks.
pub open spec fn spec_generated_flake(
    r: &GeneratedFlake,
    metadata: &ProjectMetadata,
    root: Seq<char>,
    files: Seq<crate::engine::FileEntryModel>,
) -> bool {
    let need_go = spec_need_go(metadata);
    let need_rust = spec_need_rust(metadata);
    let go_best = spec_go_best(metadata);
    let python_best = spec_python_best(metadata);
    let node_best = spec_node_best(metadata);
    let rust_best = spec_rust_best(metadata);
    let st = spec_collect_state(metadata, root, files);
    let need_node = st.need_node;
    let need_python = st.need_python;
    let tools = spec_runner_tools(metadata);
    let node_tools = spec_node_tools(metadata);
    &&& r.devshell@ == spec_devshell_nix()
    &&& (match &r.rust_overlay {
        Some(o) => need_rust && o@ == spec_rust_overlay_nix(),
        None => !need_rust,
    })
    &&& r.language_packages@.map_values(
        |p: LanguagePackages| (p.language, p.content@),
    ) == spec_language_packages_of(
        need_go,
        need_python,
        need_node,
        need_rust,
        go_best,
        python_best,
        node_best,
        rust_best,
        st.managers,
        tools,
        node_tools,
    )
    &&& r.check_files@.map_values(
        |f: CheckFile| (f.language, f.category, f.content@, f.relative_path@),
    ) == spec_check_files(st.checks)
    &&& r.main_flake@ == spec_main_flake(
        need_go,
        need_python,
        need_node,
        need_rust,
        need_rust,
        spec_check_files(st.checks).map_values(
            |e: (Option<Language>, CheckCategory, Seq<char>, Seq<char>)| e.3,
        ),
        tools,
    )
}

/// An optional package-document entry.
pub open spec fn spec_opt_entries(cond: bool, e: (Language, Seq<char>)) -> Seq<
    (Language, Seq<char>),
> {
    if cond {
        seq![e]
    } else {
        Seq::empty()
    }
}


/// The best Go reading, under the Go source allow-list.
pub fn go_best_version(metadata: &ProjectMetadata) -> (r: Option<VersionInfo>)
    ensures
        match &r {
            Some(v) => spec_go_best(metadata) == Some(v@),
            None => spec_go_best(metadata) is None,
        },
{
    let sources = go_version_sources();
    let r = best_version_info(metadata, Language::Go, &sources);
    proof {
        reveal(spec_go_best);
    }
    r
}

/// The best Python reading, under the Python source allow-list.
pub fn python_best_version(metadata: &ProjectMetadata) -> (r: Option<VersionInfo>)
    ensures
        match &r {
            Some(v) => spec_python_best(metadata) == Some(v@),
            None => spec_python_best(metadata) is None,
        },
{
    let sources = python_version_sources();
    let r = best_version_info(metadata, Language::Python, &sources);
    proof {
        reveal(spec_python_best);
    }
    r
}

/// The best Node reading, under the Node source allow-list.
pub fn node_best_version(metadata: &ProjectMetadata) -> (r: Option<VersionInfo>)
    ensures
        match &r {
            Some(v) => spec_node_best(metadata) == Some(v@),
            None => spec_node_best(metadata) is None,
        },
{
    let sources = node_version_sources();
    let r = best_version_info(metadata, Language::JavaScript, &sources);
    proof {
        reveal(spec_node_best);
    }
    r
}

/// The best Rust reading, under the Rust source allow-list.
pub fn rust_best_version(metadata: &ProjectMetadata) -> (r: Option<VersionInfo>)
    ensures
        match &r {
            Some(v) => spec_rust_best(metadata) == Some(v@),
            None => spec_rust_best(metadata) is None,
        },
{
    let sources = rust_version_sources();
    let r = best_version_info(metadata, Language::Rust, &sources);
    proof {
        reveal(spec_rust_best);
    }
    r
}

/// Runs check collection from the detected managers and the base
/// ecosystem needs.
pub fn collect_state(metadata: &ProjectMetadata, root: &str, files: &Vec<crate::FileEntry>) -> (r:
    (Vec<CheckSpec>, ManagerSet, bool, bool))
    ensures
        ({
            let st = spec_collect_state(
                metadata,
                root@,
                files@.map_values(|e: crate::FileEntry| e@),
            );
            r.0@.map_values(|c: CheckSpec| c@) == st.checks && r.1 == st.managers && r.2
                == st.need_node && r.3 == st.need_python
        }),
{
    let mut managers = detected_package_managers(metadata);
    let mut need_node = has_language(metadata, Language::JavaScript) || has_runner(
        metadata,
        crate::task_runner::TaskRunner::NpmScripts,
    ) || has_runner(metadata, crate::task_runner::TaskRunner::Vite) || has_runner(
        metadata,
        crate::task_runner::TaskRunner::Webpack,
    ) || has_runner(metadata, crate::task_runner::TaskRunner::Rspack) || has_runner(
        metadata,
        crate::task_runner::TaskRunner::Rollup,
    ) || has_runner(metadata, crate::task_runner::TaskRunner::Turbo) || has_runner(
        metadata,
        crate::task_runner::TaskRunner::Nx,
    );
    let mut need_python = has_language(metadata, Language::Python) || has_runner(
        metadata,
        crate::task_runner::TaskRunner::Tox,
    ) || has_runner(metadata, crate::task_runner::TaskRunner::Nox) || has_runner(
        metadata,
        crate::task_runner::TaskRunner::Invoke,
    );
    let primary = primary_language(metadata);
    let checks = collect_checks(
        &metadata.task_runners,
        root,
        files,
        primary,
        &mut managers,
        &mut need_node,
        &mut need_python,
    );
    proof {
        reveal(spec_collect_state);
    }
    (checks, managers, need_node, need_python)
}


/// The package-document list the needed ecosystems produce, in the
/// fixed order: Go, Python, Node, Rust.
#[verifier::opaque]
pub open spec fn spec_language_packages_of(
    need_go: bool,
    need_python: bool,
    need_node: bool,
    need_rust: bool,
    go_best: Option<VersionInfoModel>,
    python_best: Option<VersionInfoModel>,
    node_best: Option<VersionInfoModel>,
    rust_best: Option<VersionInfoModel>,
    managers: ManagerSet,
    tools: RunnerToolSet,
    node_tools: NodeToolSet,
) -> Seq<(Language, Seq<char>)> {
    let go_attr = spec_attr_of(go_best, |p: SemanticVersionModel| spec_go_attr(p));
    let python_attr = spec_attr_of(python_best, |p: SemanticVersionModel| spec_python_attr(p));
    let node_attr = spec_attr_of(node_best, |p: SemanticVersionModel| spec_node_attr(p));
    let rust_want = spec_rust_want(rust_best);
    let go_attr_or = match go_attr {
        Some(a) => a,
        None => "go"@,
    };
    let python_attr_or = match python_attr {
        Some(a) => a,
        None => "python3"@,
    };
    let node_attr_or = match node_attr {
        Some(a) => a,
        None => "nodejs"@,
    };
    spec_opt_entries(
        need_go,
        (Language::Go, spec_golang_packages(go_attr_or, spec_go_notice(go_best, go_attr))),
    ) + spec_opt_entries(
        need_python,
        (
            Language::Python,
            spec_python_packages(
                python_attr_or,
                spec_python_notice(python_best, python_attr),
                managers,
                tools,
            ),
        ),
    ) + spec_opt_entries(
        need_node,
        (
            Language::JavaScript,
            spec_nodejs_packages(
                node_attr_or,
                spec_node_notice(node_best, node_attr),
                managers,
                node_tools,
            ),
        ),
    ) + spec_opt_entries(
        need_rust,
        (
            Language::Rust,
            spec_rust_packages(rust_want, spec_rust_notice(need_rust, rust_best, rust_want)),
        ),
    )
}

/// Renders the package documents of the needed ecosystems.
#[verifier::rlimit(100)]
pub fn render_language_packages(
    need_go: bool,
    need_python: bool,
    need_node: bool,
    need_rust: bool,
    go_version: &Option<VersionInfo>,
    python_version: &Option<VersionInfo>,
    node_version: &Option<VersionInfo>,
    rust_version: &Option<VersionInfo>,
    managers: &ManagerSet,
    runner_tools: &RunnerToolSet,
    node_tools: &NodeToolSet,
) -> (r: Vec<LanguagePackages>)
    ensures
        r@.map_values(|p: LanguagePackages| (p.language, p.content@))
            == spec_language_packages_of(
            need_go,
            need_python,
            need_node,
            need_rust,
            match go_version {
                Some(v) => Some(v@),
                None => None,
            },
            match python_version {
                Some(v) => Some(v@),
                None => None,
            },
            match node_version {
                Some(v) => Some(v@),
                None => None,
            },
            match rust_version {
                Some(v) => Some(v@),
                None => None,
            },
            *managers,
            *runner_tools,
            *node_tools,
        ),
{
    proof {
        reveal(spec_language_packages_of);
    }
    let go_want_attr: Option<String> = match go_version {
        Some(v) => match &v.parsed {
            Some(p) => go_attr_from_version(p),
            None => None,
        },
        None => None,
    };
    let python_want_attr: Option<String> = match python_version {
        Some(v) => match &v.parsed {
            Some(p) => python_attr_from_version(p),
            None => None,
        },
        None => None,
    };
    let node_want_attr: Option<String> = match node_version {
        Some(v) => match &v.parsed {
            Some(p) => node_attr_from_version(p),
            None => None,
        },
        None => None,
    };
    let rust_want_version: Option<String> = match rust_version {
        Some(v) => match &v.parsed {
            Some(p) => if matches!(p.constraint, VersionConstraint::Exact) {
                rust_version_string_from_version(p)
            } else {
                None
            },
            None => None,
        },
        None => None,
    };
    let go_notice_text = go_notice(
        go_version.as_ref(),
        match &go_want_attr {
            Some(a) => Some(a.as_str()),
            None => None,
        },
    );
    let python_notice_text = python_notice(
        python_version.as_ref(),
        match &python_want_attr {
            Some(a) => Some(a.as_str()),
            None => None,
        },
    );
    let node_notice_text = node_notice(
        node_version.as_ref(),
        match &node_want_attr {
            Some(a) => Some(a.as_str()),
            None => None,
        },
    );
    let rust_notice_text = rust_notice(
        need_rust,
        rust_version.as_ref(),
        match &rust_want_version {
            Some(w) => Some(w.as_str()),
            None => None,
        },
    );
    let mut language_packages: Vec<LanguagePackages> = Vec::new();
    proof {
        assert(language_packages@.map_values(|p: LanguagePackages| (p.language, p.content@))
            =~= Seq::<(Language, Seq<char>)>::empty());
    }
    let ghost mut lp_so_far: Seq<(Language, Seq<char>)> = Seq::empty();
    if need_go {
        let want: &str = match &go_want_attr {
            Some(a) => a.as_str(),
            None => "go",
        };
        let content = generate_golang_packages_nix(
            want,
            match &go_notice_text {
                Some(n) => Some(n.as_str()),
                None => None,
            },
        );
        let ghost entry = (Language::Go, content@);
        language_packages.push(LanguagePackages { language: Language::Go, content });
        proof {
            assert(language_packages@.map_values(
                |p: LanguagePackages| (p.language, p.content@),
            ) =~= lp_so_far.push(entry));
            assert(lp_so_far.push(entry) =~= lp_so_far + seq![entry]);
            lp_so_far = lp_so_far.push(entry);
        }
    }
    if need_python {
        let want: &str = match &python_want_attr {
            Some(a) => a.as_str(),
            None => "python3",
        };
        let content = generate_python_packages_nix(
            want,
            match &python_notice_text {
                Some(n) => Some(n.as_str()),
                None => None,
            },
            managers,
            runner_tools,
        );
        let ghost entry = (Language::Python, content@);
        language_packages.push(LanguagePackages { language: Language::Python, content });
        proof {
            assert(language_packages@.map_values(
                |p: LanguagePackages| (p.language, p.content@),
            ) =~= lp_so_far.push(entry));
            assert(lp_so_far.push(entry) =~= lp_so_far + seq![entry]);
            lp_so_far = lp_so_far.push(entry);
        }
    }
    if need_node {
        let want: &str = match &node_want_attr {
            Some(a) => a.as_str(),
            None => "nodejs",
        };
        let content = generate_nodejs_packages_nix(
            want,
            match &node_notice_text {
                Some(n) => Some(n.as_str()),
                None => None,
            },
            managers,
            node_tools,
        );
        let ghost entry = (Language::JavaScript, content@);
        language_packages.push(LanguagePackages { language: Language::JavaScript, content });
        proof {
            assert(language_packages@.map_values(
                |p: LanguagePackages| (p.language, p.content@),
            ) =~= lp_so_far.push(entry));
            assert(lp_so_far.push(entry) =~= lp_so_far + seq![entry]);
            lp_so_far = lp_so_far.push(entry);
        }
    }
    if need_rust {
        let content = generate_rust_packages_nix(
            match &rust_want_version {
                Some(w) => Some(w.as_str()),
                None => None,
            },
            match &rust_notice_text {
                Some(n) => Some(n.as_str()),
                None => None,
            },
        );
        let ghost entry = (Language::Rust, content@);
        language_packages.push(LanguagePackages { language: Language::Rust, content });
        proof {
            assert(language_packages@.map_values(
                |p: LanguagePackages| (p.language, p.content@),
            ) =~= lp_so_far.push(entry));
            assert(lp_so_far.push(entry) =~= lp_so_far + seq![entry]);
            lp_so_far = lp_so_far.push(entry);
        }
    }
    language_packages
}


/// The tool sets the detected runners require.
pub fn runner_tool_sets(metadata: &ProjectMetadata) -> (r: (RunnerToolSet, NodeToolSet))
    ensures
        r.0 == spec_runner_tools(metadata),
        r.1 == spec_node_tools(metadata),
{
    let runner_tools = RunnerToolSet {
        gnumake: has_runner(metadata, crate::task_runner::TaskRunner::Make),
        go_task: has_runner(metadata, crate::task_runner::TaskRunner::Task),
        just: has_runner(metadata, crate::task_runner::TaskRunner::Just),
        tox: has_runner(metadata, crate::task_runner::TaskRunner::Tox),
        nox: has_runner(metadata, crate::task_runner::TaskRunner::Nox),
        invoke: has_runner(metadata, crate::task_runner::TaskRunner::Invoke),
    };
    let node_tools = NodeToolSet {
        nx: has_runner(metadata, crate::task_runner::TaskRunner::Nx),
        rollup: has_runner(metadata, crate::task_runner::TaskRunner::Rollup),
        rspack: has_runner(metadata, crate::task_runner::TaskRunner::Rspack),
        turbo: has_runner(metadata, crate::task_runner::TaskRunner::Turbo),
        vite: has_runner(metadata, crate::task_runner::TaskRunner::Vite),
        webpack: has_runner(metadata, crate::task_runner::TaskRunner::Webpack),
    };
    (runner_tools, node_tools)
}

/// Whether the Go and Rust ecosystems are needed.
pub fn go_rust_needs(metadata: &ProjectMetadata) -> (r: (bool, bool))
    ensures
        r.0 == spec_need_go(metadata),
        r.1 == spec_need_rust(metadata),
{
    let need_go = has_language(metadata, Language::Go) || has_runner(
        metadata,
        crate::task_runner::TaskRunner::GoTask,
    );
    let need_rust = has_language(metadata, Language::Rust) || has_runner(
        metadata,
        crate::task_runner::TaskRunner::Cargo,
    );
    (need_go, need_rust)
}

/// Compiles the detection result into the generated specification:
/// toolchain selections with fallback notices, one package document
/// per needed ecosystem, one check per detected test or build
/// command, and the assembly wiring them together.
#[verifier::rlimit(100)]
pub fn generate_dev_flake(
    metadata: &ProjectMetadata,
    root: &str,
    files: &Vec<crate::FileEntry>,
) -> (r: GeneratedFlake)
    ensures
        spec_generated_flake(&r, metadata, root@, files@.map_values(|e: crate::FileEntry| e@)),
{
    let needs = go_rust_needs(metadata);
    let need_go = needs.0;
    let need_rust = needs.1;

    let go_version = go_best_version(metadata);
    let python_version = python_best_version(metadata);
    let node_version = node_best_version(metadata);
    let rust_version = rust_best_version(metadata);

    let collected = collect_state(metadata, root, files);
    let checks = collected.0;
    let required_package_managers = collected.1;
    let need_node = collected.2;
    let need_python = collected.3;

    let tool_sets = runner_tool_sets(metadata);
    let runner_tools = tool_sets.0;
    let node_tools = tool_sets.1;
    let uses_rust_overlay = need_rust;

    let language_packages = render_language_packages(
        need_go,
        need_python,
        need_node,
        need_rust,
        &go_version,
        &python_version,
        &node_version,
        &rust_version,
        &required_package_managers,
        &runner_tools,
        &node_tools,
    );

    let rust_overlay: Option<String> = if uses_rust_overlay {
        Some(generate_rust_overlay_nix())
    } else {
        None
    };
    let devshell = generate_devshell_nix();
    let check_files = generate_check_files(&checks);
    let main_flake = generate_main_flake(
        need_go,
        need_python,
        need_node,
        need_rust,
        uses_rust_overlay,
        &check_files,
        &runner_tools,
    );
    GeneratedFlake { main_flake, devshell, language_packages, check_files, rust_overlay }
}


/// No cross-contamination: the generator emits exactly one package
/// document per needed ecosystem and none for any other, each
/// ecosystem at most once, in the fixed Go, Python, Node, Rust
/// order. In particular a tree needing exactly the Rust and
/// JavaScript ecosystems yields exactly those two documents.
pub proof fn lemma_packages_match_needs(
    need_go: bool,
    need_python: bool,
    need_node: bool,
    need_rust: bool,
    go_best: Option<VersionInfoModel>,
    python_best: Option<VersionInfoModel>,
    node_best: Option<VersionInfoModel>,
    rust_best: Option<VersionInfoModel>,
    managers: ManagerSet,
    tools: RunnerToolSet,
    node_tools: NodeToolSet,
)
    ensures
        ({
            let l = spec_language_packages_of(
                need_go,
                need_python,
                need_node,
                need_rust,
                go_best,
                python_best,
                node_best,
                rust_best,
                managers,
                tools,
                node_tools,
            );
            &&& l.len() == (if need_go { 1int } else { 0int }) + (if need_python { 1int } else { 0int })
                + (if need_node { 1int } else { 0int }) + (if need_rust { 1int } else { 0int })
            &&& forall|i: int|
                0 <= i < l.len() ==> (match (#[trigger] l[i]).0 {
                    Language::Go => need_go,
                    Language::Python => need_python,
                    Language::JavaScript => need_node,
                    Language::Rust => need_rust,
                })
            &&& forall|i: int, j: int| 0 <= i < j < l.len() ==> (#[trigger] l[i]).0 != (#[trigger] l[j]).0
        }),
{
    reveal(spec_language_packages_of);
}

} // verus!
