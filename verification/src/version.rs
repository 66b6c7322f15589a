use vstd::prelude::*;
use crate::language::{LanguageDetection, LanguageDetectionSignal, Language, SignalModel,
    LanguageDetectionSource};
use crate::text::{
    before_char, before_either, find_either, spec_find_either, chars_contains, chars_starts_with, chars_to_string, parse_u32,
    spec_before_char, spec_before_either, spec_contains_seq, spec_lines, spec_match_at,
    spec_parse_u32, spec_skip_ws, spec_split, spec_split_sub, spec_starts_with,
    spec_strip_prefix_all, spec_trim, split_char, split_lines, split_sub, skip_ws, starts_with_at,
    str_chars, strip_prefix_all, sub_vec, trim,
};
use crate::structured::{
    toml_lookup_str1, toml_lookup_str2, toml_has2, toml_str_at1, toml_str_at2, toml_present_at2,
    json_lookup_str2, json_str_at2,
};

verus! {

/// Which file or field a version string was read from.
#[derive(Debug, Clone, Copy, PartialEq, Eq, Structural)]
pub enum VersionSource {
    GoModDirective,
    GoVersionFile,
    RustToolchainFile,
    RustToolchainToml,
    CargoTomlRustVersion,
    PyprojectRequiresPython,
    PythonVersionFile,
    PipfilePythonVersion,
    SetupPyPythonRequires,
    PackageJsonEnginesNode,
    NvmrcFile,
    NodeVersionFile,
    BunVersionFile,
    PackageJsonEnginesBun,
}

/// The comparison operator prefixing a version expression.
#[derive(Debug, Clone, Copy, PartialEq, Eq, Structural)]
pub enum VersionConstraint {
    Exact,
    GreaterOrEqual,
    LessOrEqual,
    GreaterThan,
    LessThan,
    Caret,
    Tilde,
    Wildcard,
}

/// A parsed version: each numeric field may be absent, pre-release
/// and build metadata are kept verbatim.
#[derive(Debug, Clone)]
pub struct SemanticVersion {
    pub major: Option<u32>,
    pub minor: Option<u32>,
    pub patch: Option<u32>,
    pub pre_release: Option<String>,
    pub build: Option<String>,
    pub constraint: VersionConstraint,
}

/// The mathematical shadow of a `SemanticVersion`.
pub struct SemanticVersionModel {
    pub major: Option<u32>,
    pub minor: Option<u32>,
    pub patch: Option<u32>,
    pub pre_release: Option<Seq<char>>,
    pub build: Option<Seq<char>>,
    pub constraint: VersionConstraint,
}

impl View for SemanticVersion {
    type V = SemanticVersionModel;

    open spec fn view(&self) -> SemanticVersionModel {
        SemanticVersionModel {
            major: self.major,
            minor: self.minor,
            patch: self.patch,
            pre_release: match self.pre_release {
                Some(ref s) => Some(s@),
                None => None,
            },
            build: match self.build {
                Some(ref s) => Some(s@),
                None => None,
            },
            constraint: self.constraint,
        }
    }
}

/// One version reading: the raw text, its parse if any, and where it
/// came from.
#[derive(Debug, Clone)]
pub struct VersionInfo {
    pub raw: String,
    pub parsed: Option<SemanticVersion>,
    pub source: VersionSource,
    pub path: String,
}

pub struct VersionInfoModel {
    pub raw: Seq<char>,
    pub parsed: Option<SemanticVersionModel>,
    pub source: VersionSource,
    pub path: Seq<char>,
}

impl View for VersionInfo {
    type V = VersionInfoModel;

    open spec fn view(&self) -> VersionInfoModel {
        VersionInfoModel {
            raw: self.raw@,
            parsed: match self.parsed {
                Some(ref p) => Some(p@),
                None => None,
            },
            source: self.source,
            path: self.path@,
        }
    }
}

/// Every version reading of one ecosystem.
#[derive(Debug)]
pub struct VersionDetection {
    pub language: Language,
    pub versions: Vec<VersionInfo>,
}

/// The leading constraint operator of a version expression, longest
/// match first, and the rest with surrounding whitespace removed; no
/// operator leaves the text untouched.
pub open spec fn spec_parse_constraint(s: Seq<char>) -> (VersionConstraint, Seq<char>) {
    if spec_starts_with(s, ">="@) {
        (VersionConstraint::GreaterOrEqual, spec_trim(s.skip(2)))
    } else if spec_starts_with(s, "<="@) {
        (VersionConstraint::LessOrEqual, spec_trim(s.skip(2)))
    } else if spec_starts_with(s, ">"@) {
        (VersionConstraint::GreaterThan, spec_trim(s.skip(1)))
    } else if spec_starts_with(s, "<"@) {
        (VersionConstraint::LessThan, spec_trim(s.skip(1)))
    } else if spec_starts_with(s, "^"@) {
        (VersionConstraint::Caret, spec_trim(s.skip(1)))
    } else if spec_starts_with(s, "~"@) {
        (VersionConstraint::Tilde, spec_trim(s.skip(1)))
    } else if spec_starts_with(s, "="@) {
        (VersionConstraint::Exact, spec_trim(s.skip(1)))
    } else {
        (VersionConstraint::Exact, s)
    }
}

/// Parses the leading constraint operator; the remainder is returned
/// trimmed when an operator was found.
pub fn parse_constraint(s: &Vec<char>) -> (r: (VersionConstraint, Vec<char>))
    ensures
        (r.0, r.1@) == spec_parse_constraint(s@),
{
    if chars_starts_with(s, ">=") {
        proof {
            reveal_strlit(">=");
        }
        let rest = sub_vec(s, 2, s.len());
        proof {
            assert(rest@ =~= s@.skip(2));
        }
        (VersionConstraint::GreaterOrEqual, trim(&rest))
    } else if chars_starts_with(s, "<=") {
        proof {
            reveal_strlit("<=");
        }
        let rest = sub_vec(s, 2, s.len());
        proof {
            assert(rest@ =~= s@.skip(2));
        }
        (VersionConstraint::LessOrEqual, trim(&rest))
    } else if chars_starts_with(s, ">") {
        proof {
            reveal_strlit(">");
        }
        let rest = sub_vec(s, 1, s.len());
        proof {
            assert(rest@ =~= s@.skip(1));
        }
        (VersionConstraint::GreaterThan, trim(&rest))
    } else if chars_starts_with(s, "<") {
        proof {
            reveal_strlit("<");
        }
        let rest = sub_vec(s, 1, s.len());
        proof {
            assert(rest@ =~= s@.skip(1));
        }
        (VersionConstraint::LessThan, trim(&rest))
    } else if chars_starts_with(s, "^") {
        proof {
            reveal_strlit("^");
        }
        let rest = sub_vec(s, 1, s.len());
        proof {
            assert(rest@ =~= s@.skip(1));
        }
        (VersionConstraint::Caret, trim(&rest))
    } else if chars_starts_with(s, "~") {
        proof {
            reveal_strlit("~");
        }
        let rest = sub_vec(s, 1, s.len());
        proof {
            assert(rest@ =~= s@.skip(1));
        }
        (VersionConstraint::Tilde, trim(&rest))
    } else if chars_starts_with(s, "=") {
        proof {
            reveal_strlit("=");
        }
        let rest = sub_vec(s, 1, s.len());
        proof {
            assert(rest@ =~= s@.skip(1));
        }
        (VersionConstraint::Exact, trim(&rest))
    } else {
        let mut copy: Vec<char> = Vec::new();
        let mut i: usize = 0;
        while i < s.len()
            invariant
                i <= s@.len(),
                copy@ == s@.take(i as int),
            decreases s.len() - i,
        {
            copy.push(s[i]);
            proof {
                assert(s@.take(i as int).push(s@[i as int]) =~= s@.take(i + 1));
            }
            i = i + 1;
        }
        proof {
            assert(copy@ =~= s@);
        }
        (VersionConstraint::Exact, copy)
    }
}

/// The text a raw version is reduced to before parsing: trimmed, then
/// stripped of leading `v`, `python-` and `node-` markers.
pub open spec fn spec_version_core(raw: Seq<char>) -> Seq<char> {
    spec_strip_prefix_all(
        spec_strip_prefix_all(spec_strip_prefix_all(spec_trim(raw), "v"@), "python-"@),
        "node-"@,
    )
}

/// The semantic-version grammar: a constraint operator, dotted
/// major/minor/patch parsed left to right, pre-release the text
/// after the first `-` up to any `+`, build metadata between the
/// first and second `+`. A bare
/// `*` is the wildcard. A missing or unparsable major field fails.
pub open spec fn spec_parse_semver(raw: Seq<char>) -> Option<SemanticVersionModel> {
    let t = spec_version_core(raw);
    if t == "*"@ {
        Some(
            SemanticVersionModel {
                major: None,
                minor: None,
                patch: None,
                pre_release: None,
                build: None,
                constraint: VersionConstraint::Wildcard,
            },
        )
    } else {
        let (constraint, vs) = spec_parse_constraint(t);
        if vs.len() == 0 {
            None
        } else {
            let parts = spec_split(vs, '.');
            match spec_parse_u32(parts[0]) {
                None => None,
                Some(major) => {
                    let minor = if parts.len() > 1 {
                        spec_parse_u32(parts[1])
                    } else {
                        None
                    };
                    let patch = if parts.len() > 2 {
                        spec_parse_u32(spec_before_either(parts[2], '-', '+'))
                    } else {
                        None
                    };
                    let d = crate::text::spec_find_char(vs, '-', 0);
                    let pre_release = if 0 <= d < vs.len() {
                        Some(spec_before_char(vs.skip(d + 1), '+'))
                    } else {
                        None
                    };
                    let plus_parts = spec_split(vs, '+');
                    let build = if plus_parts.len() > 1 {
                        Some(plus_parts[1])
                    } else {
                        None
                    };
                    Some(
                        SemanticVersionModel {
                            major: Some(major),
                            minor,
                            patch,
                            pre_release,
                            build,
                            constraint,
                        },
                    )
                },
            }
        }
    }
}

/// Parses one version expression, as `spec_parse_semver` describes.
pub fn parse_semantic_version(raw: &str) -> (r: Option<SemanticVersion>)
    ensures
        match r {
            Some(v) => spec_parse_semver(raw@) == Some(v@),
            None => spec_parse_semver(raw@) is None,
        },
{
    let rv = str_chars(raw);
    parse_semantic_version_chars(&rv)
}

pub fn parse_semantic_version_chars(rv: &Vec<char>) -> (r: Option<SemanticVersion>)
    ensures
        match r {
            Some(v) => spec_parse_semver(rv@) == Some(v@),
            None => spec_parse_semver(rv@) is None,
        },
{
    let t0 = trim(rv);
    let t1 = strip_prefix_all(&t0, "v");
    let t2 = strip_prefix_all(&t1, "python-");
    let t = strip_prefix_all(&t2, "node-");
    if t.len() == 1 && t[0] == '*' {
        proof {
            assert(t@ =~= "*"@) by {
                reveal_strlit("*");
            }
        }
        return Some(
            SemanticVersion {
                major: None,
                minor: None,
                patch: None,
                pre_release: None,
                build: None,
                constraint: VersionConstraint::Wildcard,
            },
        );
    }
    proof {
        reveal_strlit("*");
        assert(t@.len() == 1 && t@[0] == '*' ==> t@ =~= "*"@);
        assert(t@ != "*"@);
    }
    let (constraint, vs) = parse_constraint(&t);
    if vs.len() == 0 {
        return None;
    }
    let parts = split_char(&vs, '.');
    proof {
        assert(parts@.map_values(|l: Vec<char>| l@)[0] == parts@[0]@);
    }
    let major = match parse_u32(&parts[0]) {
        Some(m) => m,
        None => {
            return None;
        },
    };
    let minor = if parts.len() > 1 {
        proof {
            assert(parts@.map_values(|l: Vec<char>| l@)[1] == parts@[1]@);
        }
        parse_u32(&parts[1])
    } else {
        None
    };
    let patch = if parts.len() > 2 {
        proof {
            assert(parts@.map_values(|l: Vec<char>| l@)[2] == parts@[2]@);
        }
        let head = before_either(&parts[2], '-', '+');
        parse_u32(&head)
    } else {
        None
    };
    let d = crate::text::find_char(&vs, '-', 0);
    let pre_release = if d < vs.len() {
        let after = sub_vec(&vs, d + 1, vs.len());
        proof {
            assert(after@ =~= vs@.skip(d as int + 1));
        }
        let piece = before_char(&after, '+');
        Some(chars_to_string(&piece))
    } else {
        None
    };
    let plus_parts = split_char(&vs, '+');
    let build = if plus_parts.len() > 1 {
        proof {
            assert(plus_parts@.map_values(|l: Vec<char>| l@)[1] == plus_parts@[1]@);
        }
        Some(chars_to_string(&plus_parts[1]))
    } else {
        None
    };
    Some(SemanticVersion { major: Some(major), minor, patch, pre_release, build, constraint })
}

/// The rank of an optional number: an absent field compares as zero.
pub open spec fn spec_opt_rank(o: Option<u32>) -> int {
    match o {
        None => 0,
        Some(v) => v as int,
    }
}

/// Whether `a`'s (major, minor, patch) triple is at most `b`'s, in
/// lexicographic order, absent fields treated as zero.
pub open spec fn spec_triple_le(a: SemanticVersionModel, b: SemanticVersionModel) -> bool {
    spec_opt_rank(a.major) < spec_opt_rank(b.major) || (spec_opt_rank(a.major) == spec_opt_rank(
        b.major,
    ) && (spec_opt_rank(a.minor) < spec_opt_rank(b.minor) || (spec_opt_rank(a.minor)
        == spec_opt_rank(b.minor) && spec_opt_rank(a.patch) <= spec_opt_rank(b.patch))))
}

fn opt_rank_le(a: &Option<u32>, b: &Option<u32>) -> (r: bool)
    ensures
        r == (spec_opt_rank(*a) <= spec_opt_rank(*b)),
{
    match (a, b) {
        (Option::None, Option::None) => true,
        (Option::None, Option::Some(_)) => true,
        (Option::Some(x), Option::None) => *x == 0,
        (Option::Some(x), Option::Some(y)) => *x <= *y,
    }
}

fn opt_rank_eq(a: &Option<u32>, b: &Option<u32>) -> (r: bool)
    ensures
        r == (spec_opt_rank(*a) == spec_opt_rank(*b)),
{
    match (a, b) {
        (Option::None, Option::None) => true,
        (Option::None, Option::Some(y)) => *y == 0,
        (Option::Some(x), Option::None) => *x == 0,
        (Option::Some(x), Option::Some(y)) => *x == *y,
    }
}

pub fn triple_le(a: &SemanticVersion, b: &SemanticVersion) -> (r: bool)
    ensures
        r == spec_triple_le(a@, b@),
{
    if opt_rank_eq(&a.major, &b.major) {
        if opt_rank_eq(&a.minor, &b.minor) {
            opt_rank_le(&a.patch, &b.patch)
        } else {
            opt_rank_le(&a.minor, &b.minor)
        }
    } else {
        opt_rank_le(&a.major, &b.major)
    }
}

/// Copies a version value.
pub fn clone_semver(v: &SemanticVersion) -> (r: SemanticVersion)
    ensures
        r@ == v@,
{
    SemanticVersion {
        major: v.major,
        minor: v.minor,
        patch: v.patch,
        pre_release: match &v.pre_release {
            Some(s) => Some(s.clone()),
            None => None,
        },
        build: match &v.build {
            Some(s) => Some(s.clone()),
            None => None,
        },
        constraint: v.constraint,
    }
}

/// The greatest version of a list by (major, minor, patch), the
/// latest of equals winning, as a left fold keeps it.
pub open spec fn spec_best_semver(vs: Seq<SemanticVersionModel>) -> Option<SemanticVersionModel>
    decreases vs.len(),
{
    if vs.len() == 0 {
        None
    } else {
        match spec_best_semver(vs.drop_last()) {
            None => Some(vs.last()),
            Some(b) => if spec_triple_le(b, vs.last()) {
                Some(vs.last())
            } else {
                Some(b)
            },
        }
    }
}

/// The versions that parse, of an `||`-joined expression's pieces.
pub open spec fn spec_parsed_alternatives(pieces: Seq<Seq<char>>) -> Seq<SemanticVersionModel>
    decreases pieces.len(),
{
    if pieces.len() == 0 {
        Seq::empty()
    } else {
        let prev = spec_parsed_alternatives(pieces.drop_last());
        match spec_parse_semver(spec_trim(pieces.last())) {
            Some(m) => prev.push(m),
            None => prev,
        }
    }
}

/// An `||`-joined expression resolves to its numerically greatest
/// alternative; an expression without `||` parses directly.
pub open spec fn spec_parse_or_expr(raw: Seq<char>) -> Option<SemanticVersionModel> {
    if !spec_contains_seq(raw, "||"@) {
        spec_parse_semver(raw)
    } else {
        spec_best_semver(spec_parsed_alternatives(spec_split_sub(raw, "||"@)))
    }
}

/// Parses an `||`-joined version expression, keeping the alternative
/// with the greatest (major, minor, patch) triple.
pub fn parse_version_or_expression(raw: &str) -> (r: Option<SemanticVersion>)
    ensures
        match r {
            Some(v) => spec_parse_or_expr(raw@) == Some(v@),
            None => spec_parse_or_expr(raw@) is None,
        },
{
    let rv = str_chars(raw);
    if !chars_contains(&rv, "||") {
        return parse_semantic_version_chars(&rv);
    }
    proof {
        reveal_strlit("||");
    }
    let pieces = split_sub(&rv, "||");
    let ghost pieces_view = pieces@.map_values(|l: Vec<char>| l@);
    let mut best: Option<SemanticVersion> = None;
    let mut i: usize = 0;
    proof {
        assert(spec_parsed_alternatives(pieces_view.take(0)) =~= Seq::<
            SemanticVersionModel,
        >::empty());
    }
    while i < pieces.len()
        invariant
            i <= pieces@.len(),
            pieces_view == pieces@.map_values(|l: Vec<char>| l@),
            match best {
                Some(ref b) => spec_best_semver(spec_parsed_alternatives(pieces_view.take(i as int)))
                    == Some(b@),
                None => spec_best_semver(spec_parsed_alternatives(pieces_view.take(i as int)))
                    is None,
            },
        decreases pieces.len() - i,
    {
        proof {
            assert(pieces_view.take(i + 1).drop_last() =~= pieces_view.take(i as int));
            assert(pieces_view.take(i + 1).last() == pieces_view[i as int]);
            assert(pieces_view[i as int] == pieces@[i as int]@);
        }
        let piece = trim(&pieces[i]);
        match parse_semantic_version_chars(&piece) {
            Some(v) => {
                let ghost prev = spec_parsed_alternatives(pieces_view.take(i as int));
                proof {
                    assert(spec_parsed_alternatives(pieces_view.take(i + 1)) == prev.push(v@));
                    assert(prev.push(v@).drop_last() =~= prev);
                    assert(prev.push(v@).last() == v@);
                }
                match &best {
                    Some(b) => {
                        if triple_le(b, &v) {
                            best = Some(v);
                        }
                    },
                    None => {
                        best = Some(v);
                    },
                }
            },
            None => {
                proof {
                    assert(spec_parsed_alternatives(pieces_view.take(i + 1))
                        == spec_parsed_alternatives(pieces_view.take(i as int)));
                }
            },
        }
        i = i + 1;
    }
    proof {
        assert(pieces_view.take(pieces_view.len() as int) =~= pieces_view);
    }
    best
}


/// One version reading as a model value.
pub open spec fn spec_version_info(
    raw: Seq<char>,
    parsed: Option<SemanticVersionModel>,
    source: VersionSource,
    path: Seq<char>,
) -> VersionInfoModel {
    VersionInfoModel { raw, parsed, source, path }
}

/// Builds one version reading from raw text already parsed.
fn make_info(raw: &Vec<char>, parsed: Option<SemanticVersion>, source: VersionSource, path: &str)
    -> (r: VersionInfo)
    ensures
        r@.raw == raw@,
        r@.parsed == match parsed {
            Some(p) => Some(p@),
            None => None::<SemanticVersionModel>,
        },
        r@.source == source,
        r@.path == path@,
{
    VersionInfo { raw: chars_to_string(raw), parsed, source, path: path.to_owned() }
}

/// The `go` directive of a module file: the first line whose trimmed
/// text opens with `go `, with that marker stripped.
pub open spec fn spec_go_mod_version(lines: Seq<Seq<char>>) -> Option<Seq<char>>
    decreases lines.len(),
{
    if lines.len() == 0 {
        None
    } else {
        let t = spec_trim(lines[0]);
        if spec_starts_with(t, "go "@) {
            Some(spec_trim(spec_strip_prefix_all(t, "go "@)))
        } else {
            spec_go_mod_version(lines.drop_first())
        }
    }
}

/// What a Go module file contributes.
pub open spec fn spec_go_mod_infos(content: Seq<char>, path: Seq<char>) -> Seq<VersionInfoModel> {
    match spec_go_mod_version(spec_lines(content)) {
        Some(ver) => seq![
            spec_version_info(ver, spec_parse_semver(ver), VersionSource::GoModDirective, path),
        ],
        None => Seq::empty(),
    }
}

/// Reads the `go` directive out of a Go module file's text.
pub fn parse_go_mod(content: &str, path: &str) -> (r: Vec<VersionInfo>)
    ensures
        r@.map_values(|x: VersionInfo| x@) == spec_go_mod_infos(content@, path@),
{
    let cv = str_chars(content);
    let lines = split_lines(&cv);
    let ghost lv = lines@.map_values(|l: Vec<char>| l@);
    let mut i: usize = 0;
    proof {
        assert(lv.skip(0) =~= lv);
    }
    while i < lines.len()
        invariant
            i <= lines@.len(),
            lv == lines@.map_values(|l: Vec<char>| l@),
            lv == spec_lines(content@),
            spec_go_mod_version(lv) == spec_go_mod_version(lv.skip(i as int)),
        decreases lines.len() - i,
    {
        proof {
            assert(lv.skip(i as int)[0] == lv[i as int]);
            assert(lv[i as int] == lines@[i as int]@);
            assert(lv.skip(i as int).drop_first() =~= lv.skip(i + 1));
        }
        let t = trim(&lines[i]);
        if chars_starts_with(&t, "go ") {
            let stripped = strip_prefix_all(&t, "go ");
            let ver = trim(&stripped);
            let parsed = parse_semantic_version_chars(&ver);
            let info = make_info(&ver, parsed, VersionSource::GoModDirective, path);
            let mut r: Vec<VersionInfo> = Vec::new();
            r.push(info);
            proof {
                assert(r@.map_values(|x: VersionInfo| x@) =~= seq![info@]);
            }
            return r;
        }
        i = i + 1;
    }
    proof {
        assert(lv.skip(i as int) =~= Seq::<Seq<char>>::empty());
    }
    let r: Vec<VersionInfo> = Vec::new();
    proof {
        assert(r@.map_values(|x: VersionInfo| x@) =~= Seq::<VersionInfoModel>::empty());
    }
    r
}

/// What a plain one-line version file contributes: its trimmed text,
/// when not empty.
pub open spec fn spec_simple_infos(
    content: Seq<char>,
    source: VersionSource,
    path: Seq<char>,
) -> Seq<VersionInfoModel> {
    let ver = spec_trim(content);
    if ver.len() == 0 {
        Seq::empty()
    } else {
        seq![spec_version_info(ver, spec_parse_semver(ver), source, path)]
    }
}

/// Reads a file that holds one version string alone, trimmed; an
/// empty file yields nothing.
pub fn parse_simple_version_file(content: &str, source: VersionSource, path: &str) -> (r: Vec<
    VersionInfo,
>)
    ensures
        r@.map_values(|x: VersionInfo| x@) == spec_simple_infos(content@, source, path@),
{
    let cv = str_chars(content);
    let ver = trim(&cv);
    if ver.len() == 0 {
        let r: Vec<VersionInfo> = Vec::new();
        proof {
            assert(r@.map_values(|x: VersionInfo| x@) =~= Seq::<VersionInfoModel>::empty());
        }
        return r;
    }
    let parsed = parse_semantic_version_chars(&ver);
    let info = make_info(&ver, parsed, source, path);
    let mut r: Vec<VersionInfo> = Vec::new();
    r.push(info);
    proof {
        assert(r@.map_values(|x: VersionInfo| x@) =~= seq![info@]);
    }
    r
}

/// What a structured-field lookup contributes: one reading when the
/// string stands there, nothing otherwise.
pub open spec fn spec_field_infos(
    found: Option<Seq<char>>,
    source: VersionSource,
    path: Seq<char>,
) -> Seq<VersionInfoModel> {
    match found {
        Some(ver) => seq![spec_version_info(ver, spec_parse_semver(ver), source, path)],
        None => Seq::empty(),
    }
}

fn toml_field_infos(found: Option<String>, source: VersionSource, path: &str) -> (r: Vec<
    VersionInfo,
>)
    ensures
        r@.map_values(|x: VersionInfo| x@) == spec_field_infos(
            match found {
                Some(ref v) => Some(v@),
                None => None,
            },
            source,
            path@,
        ),
{
    match found {
        Some(v) => {
            let ver = str_chars(v.as_str());
            let parsed = parse_semantic_version_chars(&ver);
            let info = make_info(&ver, parsed, source, path);
            let mut r: Vec<VersionInfo> = Vec::new();
            r.push(info);
            proof {
                assert(r@.map_values(|x: VersionInfo| x@) =~= seq![info@]);
            }
            r
        },
        None => {
            let r: Vec<VersionInfo> = Vec::new();
            proof {
                assert(r@.map_values(|x: VersionInfo| x@) =~= Seq::<VersionInfoModel>::empty());
            }
            r
        },
    }
}

/// The `rust-version` field of a Cargo manifest.
pub fn parse_cargo_toml_rust_version(content: &str, path: &str) -> (r: Vec<VersionInfo>)
    ensures
        r@.map_values(|x: VersionInfo| x@) == spec_field_infos(
            toml_str_at2(content@, "package"@, "rust-version"@),
            VersionSource::CargoTomlRustVersion,
            path@,
        ),
{
    let found = toml_lookup_str2(content, "package", "rust-version");
    toml_field_infos(found, VersionSource::CargoTomlRustVersion, path)
}

/// The channel of a structured toolchain file: `toolchain.channel`
/// when that table is present, the top-level `channel` otherwise.
pub open spec fn spec_toolchain_channel(content: Seq<char>) -> Option<Seq<char>> {
    if toml_present_at2(content, "toolchain"@, "channel"@) {
        toml_str_at2(content, "toolchain"@, "channel"@)
    } else {
        toml_str_at1(content, "channel"@)
    }
}

pub fn parse_rust_toolchain_toml(content: &str, path: &str) -> (r: Vec<VersionInfo>)
    ensures
        r@.map_values(|x: VersionInfo| x@) == spec_field_infos(
            spec_toolchain_channel(content@),
            VersionSource::RustToolchainToml,
            path@,
        ),
{
    let found = if toml_has2(content, "toolchain", "channel") {
        toml_lookup_str2(content, "toolchain", "channel")
    } else {
        toml_lookup_str1(content, "channel")
    };
    toml_field_infos(found, VersionSource::RustToolchainToml, path)
}

/// The `requires-python` field of a Python project manifest.
pub fn parse_pyproject_toml(content: &str, path: &str) -> (r: Vec<VersionInfo>)
    ensures
        r@.map_values(|x: VersionInfo| x@) == spec_field_infos(
            toml_str_at2(content@, "project"@, "requires-python"@),
            VersionSource::PyprojectRequiresPython,
            path@,
        ),
{
    let found = toml_lookup_str2(content, "project", "requires-python");
    toml_field_infos(found, VersionSource::PyprojectRequiresPython, path)
}

/// The `requires.python_version` field of a Pipfile.
pub fn parse_pipfile(content: &str, path: &str) -> (r: Vec<VersionInfo>)
    ensures
        r@.map_values(|x: VersionInfo| x@) == spec_field_infos(
            toml_str_at2(content@, "requires"@, "python_version"@),
            VersionSource::PipfilePythonVersion,
            path@,
        ),
{
    let found = toml_lookup_str2(content, "requires", "python_version");
    toml_field_infos(found, VersionSource::PipfilePythonVersion, path)
}

/// Whether the `python_requires` assignment grammar matches at
/// position `i`: the marker, optional whitespace, `=`, optional
/// whitespace, a quote, at least one character that is no quote, and
/// a closing quote of either kind; the capture is that middle run.
pub open spec fn spec_python_requires_at(s: Seq<char>, i: int) -> Option<Seq<char>> {
    if !spec_match_at(s, i, "python_requires"@) {
        None
    } else {
        let a = spec_skip_ws(s, i + "python_requires"@.len());
        if !(a < s.len() && s[a] == '=') {
            None
        } else {
            let b = spec_skip_ws(s, a + 1);
            if !(b < s.len() && (s[b] == '"' || s[b] == '\'')) {
                None
            } else {
                let e = spec_find_either(s, '"', '\'', b + 1);
                if e < s.len() && e > b + 1 {
                    Some(s.subrange(b + 1, e))
                } else {
                    None
                }
            }
        }
    }
}

/// The first position at or after `i` where the grammar matches.
pub open spec fn spec_python_requires_scan(s: Seq<char>, i: int) -> Option<Seq<char>>
    decreases s.len() - i,
{
    if i < 0 || i >= s.len() {
        None
    } else {
        match spec_python_requires_at(s, i) {
            Some(v) => Some(v),
            None => spec_python_requires_scan(s, i + 1),
        }
    }
}

/// What a setup script contributes.
pub open spec fn spec_setup_py_infos(content: Seq<char>, path: Seq<char>) -> Seq<
    VersionInfoModel,
> {
    match spec_python_requires_scan(content, 0) {
        Some(ver) => seq![
            spec_version_info(
                ver,
                spec_parse_semver(ver),
                VersionSource::SetupPyPythonRequires,
                path,
            ),
        ],
        None => Seq::empty(),
    }
}

/// Scrapes the `python_requires` assignment out of a setup script.
pub fn parse_setup_py(content: &str, path: &str) -> (r: Vec<VersionInfo>)
    ensures
        r@.map_values(|x: VersionInfo| x@) == spec_setup_py_infos(content@, path@),
{
    let cv = str_chars(content);
    let marker = str_chars("python_requires");
    proof {
        reveal_strlit("python_requires");
    }
    let mut i: usize = 0;
    while i < cv.len()
        invariant
            i <= cv@.len(),
            cv@ == content@,
            marker@ == "python_requires"@,
            spec_python_requires_scan(content@, 0) == spec_python_requires_scan(
                content@,
                i as int,
            ),
        decreases cv.len() - i,
    {
        if let Some(ver) = python_requires_at(&cv, &marker, i) {
            let parsed = parse_semantic_version_chars(&ver);
            let info = make_info(&ver, parsed, VersionSource::SetupPyPythonRequires, path);
            let mut r: Vec<VersionInfo> = Vec::new();
            r.push(info);
            proof {
                assert(r@.map_values(|x: VersionInfo| x@) =~= seq![info@]);
            }
            return r;
        }
        i = i + 1;
    }
    let r: Vec<VersionInfo> = Vec::new();
    proof {
        assert(r@.map_values(|x: VersionInfo| x@) =~= Seq::<VersionInfoModel>::empty());
    }
    r
}

fn python_requires_at(s: &Vec<char>, marker: &Vec<char>, i: usize) -> (r: Option<Vec<char>>)
    requires
        i <= s@.len(),
        marker@ == "python_requires"@,
    ensures
        match r {
            Some(v) => spec_python_requires_at(s@, i as int) == Some(v@),
            None => spec_python_requires_at(s@, i as int) is None,
        },
{
    if !starts_with_at(s, i, marker) {
        return None;
    }
    proof {
        reveal_strlit("python_requires");
        assert(marker@.len() == 15);
    }
    let sl = s.len();
    assert(i + 15 <= sl);
    let a = skip_ws(s, i + 15);
    if !(a < s.len() && s[a] == '=') {
        return None;
    }
    let b = skip_ws(s, a + 1);
    if !(b < s.len() && (s[b] == '"' || s[b] == '\'')) {
        return None;
    }
    let e = find_either(s, '"', '\'', b + 1);
    if e < s.len() && e > b + 1 {
        Some(sub_vec(s, b + 1, e))
    } else {
        None
    }
}

/// What a JavaScript manifest's engines fields contribute: the node
/// and bun entries, each parsed as an `||`-joined expression.
pub open spec fn spec_package_json_infos(content: Seq<char>, path: Seq<char>) -> Seq<
    VersionInfoModel,
> {
    let node_part: Seq<VersionInfoModel> = match json_str_at2(content, "engines"@, "node"@) {
        Some(ver) => seq![
            spec_version_info(
                ver,
                spec_parse_or_expr(ver),
                VersionSource::PackageJsonEnginesNode,
                path,
            ),
        ],
        None => Seq::empty(),
    };
    let bun_part: Seq<VersionInfoModel> = match json_str_at2(content, "engines"@, "bun"@) {
        Some(ver) => seq![
            spec_version_info(
                ver,
                spec_parse_or_expr(ver),
                VersionSource::PackageJsonEnginesBun,
                path,
            ),
        ],
        None => Seq::empty(),
    };
    node_part + bun_part
}

/// The `engines` fields of a JavaScript manifest: the `node` and
/// `bun` entries, each parsed as an `||`-joined expression.
pub fn parse_package_json(content: &str, path: &str) -> (r: Vec<VersionInfo>)
    ensures
        r@.map_values(|x: VersionInfo| x@) == spec_package_json_infos(content@, path@),
{
    let mut r: Vec<VersionInfo> = Vec::new();
    let node = json_lookup_str2(content, "engines", "node");
    if let Some(v) = node {
        let ver = str_chars(v.as_str());
        let parsed = parse_version_or_expression(v.as_str());
        let info = make_info(&ver, parsed, VersionSource::PackageJsonEnginesNode, path);
        r.push(info);
    }
    let bun = json_lookup_str2(content, "engines", "bun");
    if let Some(v) = bun {
        let ver = str_chars(v.as_str());
        let parsed = parse_version_or_expression(v.as_str());
        let info = make_info(&ver, parsed, VersionSource::PackageJsonEnginesBun, path);
        r.push(info);
    }
    proof {
        assert(r@.map_values(|x: VersionInfo| x@) =~= spec_package_json_infos(content@, path@));
    }
    r
}

/// The version readings one signal contributes: nothing for a weak
/// signal or an unread file, and each version-bearing source's own
/// grammar otherwise.
pub open spec fn spec_versions_for_signal(sig: SignalModel, content: Option<Seq<char>>) -> Seq<
    VersionInfoModel,
> {
    match sig {
        SignalModel::Weak { .. } => Seq::empty(),
        SignalModel::Strong { path, source } => match content {
            None => Seq::empty(),
            Some(c) => match source {
                LanguageDetectionSource::GoMod => spec_go_mod_infos(c, path),
                LanguageDetectionSource::GoVersionFile => spec_simple_infos(
                    c,
                    VersionSource::GoVersionFile,
                    path,
                ),
                LanguageDetectionSource::CargoToml => spec_field_infos(
                    toml_str_at2(c, "package"@, "rust-version"@),
                    VersionSource::CargoTomlRustVersion,
                    path,
                ),
                LanguageDetectionSource::RustToolchain => spec_simple_infos(
                    c,
                    VersionSource::RustToolchainFile,
                    path,
                ),
                LanguageDetectionSource::RustToolchainToml => spec_field_infos(
                    spec_toolchain_channel(c),
                    VersionSource::RustToolchainToml,
                    path,
                ),
                LanguageDetectionSource::PyprojectToml => spec_field_infos(
                    toml_str_at2(c, "project"@, "requires-python"@),
                    VersionSource::PyprojectRequiresPython,
                    path,
                ),
                LanguageDetectionSource::PythonVersionFile => spec_simple_infos(
                    c,
                    VersionSource::PythonVersionFile,
                    path,
                ),
                LanguageDetectionSource::Pipfile => spec_field_infos(
                    toml_str_at2(c, "requires"@, "python_version"@),
                    VersionSource::PipfilePythonVersion,
                    path,
                ),
                LanguageDetectionSource::SetupPy => spec_setup_py_infos(c, path),
                LanguageDetectionSource::PackageJson => spec_package_json_infos(c, path),
                LanguageDetectionSource::NvmrcFile => spec_simple_infos(
                    c,
                    VersionSource::NvmrcFile,
                    path,
                ),
                LanguageDetectionSource::NodeVersionFile => spec_simple_infos(
                    c,
                    VersionSource::NodeVersionFile,
                    path,
                ),
                LanguageDetectionSource::BunVersionFile => spec_simple_infos(
                    c,
                    VersionSource::BunVersionFile,
                    path,
                ),
                _ => Seq::empty(),
            },
        },
    }
}

/// The version readings one strong signal contributes, given the
/// file's content as captured in the tree snapshot.
pub fn versions_for_signal(signal: &LanguageDetectionSignal, content: Option<&String>) -> (r: Vec<
    VersionInfo,
>)
    ensures
        r@.map_values(|x: VersionInfo| x@) == spec_versions_for_signal(
            signal@,
            match content {
                Some(c) => Some(c@),
                None => None,
            },
        ),
{
    match signal {
        LanguageDetectionSignal::Strong { path, source } => {
            let c: &str = match content {
                Some(c) => c.as_str(),
                None => {
                    let r: Vec<VersionInfo> = Vec::new();
                    proof {
                        assert(r@.map_values(|x: VersionInfo| x@) =~= Seq::<
                            VersionInfoModel,
                        >::empty());
                    }
                    return r;
                },
            };
            match source {
                LanguageDetectionSource::GoMod => parse_go_mod(c, path.as_str()),
                LanguageDetectionSource::GoVersionFile => parse_simple_version_file(
                    c,
                    VersionSource::GoVersionFile,
                    path.as_str(),
                ),
                LanguageDetectionSource::CargoToml => parse_cargo_toml_rust_version(
                    c,
                    path.as_str(),
                ),
                LanguageDetectionSource::RustToolchain => parse_simple_version_file(
                    c,
                    VersionSource::RustToolchainFile,
                    path.as_str(),
                ),
                LanguageDetectionSource::RustToolchainToml => parse_rust_toolchain_toml(
                    c,
                    path.as_str(),
                ),
                LanguageDetectionSource::PyprojectToml => parse_pyproject_toml(c, path.as_str()),
                LanguageDetectionSource::PythonVersionFile => parse_simple_version_file(
                    c,
                    VersionSource::PythonVersionFile,
                    path.as_str(),
                ),
                LanguageDetectionSource::Pipfile => parse_pipfile(c, path.as_str()),
                LanguageDetectionSource::SetupPy => parse_setup_py(c, path.as_str()),
                LanguageDetectionSource::PackageJson => parse_package_json(c, path.as_str()),
                LanguageDetectionSource::NvmrcFile => parse_simple_version_file(
                    c,
                    VersionSource::NvmrcFile,
                    path.as_str(),
                ),
                LanguageDetectionSource::NodeVersionFile => parse_simple_version_file(
                    c,
                    VersionSource::NodeVersionFile,
                    path.as_str(),
                ),
                LanguageDetectionSource::BunVersionFile => parse_simple_version_file(
                    c,
                    VersionSource::BunVersionFile,
                    path.as_str(),
                ),
                _ => {
                    let r: Vec<VersionInfo> = Vec::new();
                    proof {
                        assert(r@.map_values(|x: VersionInfo| x@) =~= Seq::<
                            VersionInfoModel,
                        >::empty());
                    }
                    r
                },
            }
        },
        LanguageDetectionSignal::Weak(_) => {
            let r: Vec<VersionInfo> = Vec::new();
            proof {
                assert(r@.map_values(|x: VersionInfo| x@) =~= Seq::<VersionInfoModel>::empty());
            }
            r
        },
    }
}


/// The greatest-alternative rule is sound: whatever the fold keeps
/// is one of the alternatives, and no alternative beats it.
pub proof fn lemma_best_semver_is_max(vs: Seq<SemanticVersionModel>)
    ensures
        match spec_best_semver(vs) {
            Some(b) => vs.contains(b) && forall|i: int|
                0 <= i < vs.len() ==> spec_triple_le(#[trigger] vs[i], b),
            None => vs.len() == 0,
        },
    decreases vs.len(),
{
    if vs.len() > 0 {
        lemma_best_semver_is_max(vs.drop_last());
        let last = vs.last();
        assert(forall|i: int|
            0 <= i < vs.len() - 1 ==> vs[i] == #[trigger] vs.drop_last()[i]);
        match spec_best_semver(vs.drop_last()) {
            None => {
                assert(vs.contains(last)) by {
                    assert(vs[vs.len() - 1] == last);
                }
                assert forall|i: int| 0 <= i < vs.len() implies spec_triple_le(
                    #[trigger] vs[i],
                    last,
                ) by {
                    assert(i == vs.len() - 1);
                }
            },
            Some(b) => {
                assert(vs.drop_last().contains(b));
                let bi = choose|bi: int|
                    0 <= bi < vs.drop_last().len() && vs.drop_last()[bi] == b;
                assert(vs[bi] == b);
                if spec_triple_le(b, last) {
                    assert(vs[vs.len() - 1] == last);
                    assert forall|i: int| 0 <= i < vs.len() implies spec_triple_le(
                        #[trigger] vs[i],
                        last,
                    ) by {
                        if i < vs.len() - 1 {
                            assert(spec_triple_le(vs.drop_last()[i], b));
                        }
                    }
                } else {
                    assert(spec_triple_le(last, b) || spec_triple_le(b, last));
                    assert forall|i: int| 0 <= i < vs.len() implies spec_triple_le(
                        #[trigger] vs[i],
                        b,
                    ) by {
                        if i < vs.len() - 1 {
                            assert(spec_triple_le(vs.drop_last()[i], b));
                        }
                    }
                }
            },
        }
    }
}

} // verus!
