use vstd::prelude::*;
use crate::text::str_chars;

verus! {

/// The escaping the target expression language requires: backslash,
/// double quote, newline, carriage return and tab are escaped, and a
/// dollar sign directly before an opening brace gets a backslash.
pub open spec fn spec_escape_nix(s: Seq<char>) -> Seq<char>
    decreases s.len(),
{
    if s.len() == 0 {
        Seq::empty()
    } else {
        let c = s[0];
        let rest = spec_escape_nix(s.skip(1));
        if c == '\\' {
            seq!['\\', '\\'] + rest
        } else if c == '"' {
            seq!['\\', '"'] + rest
        } else if c == '\n' {
            seq!['\\', 'n'] + rest
        } else if c == '\r' {
            seq!['\\', 'r'] + rest
        } else if c == '\t' {
            seq!['\\', 't'] + rest
        } else if c == '$' && s.len() > 1 && s[1] == '{' {
            seq!['\\', '$'] + rest
        } else {
            seq![c] + rest
        }
    }
}

/// The inverse reading: a backslash followed by an escape letter
/// stands for the character it names; everything else stands for
/// itself.
pub open spec fn spec_unescape_nix(s: Seq<char>) -> Seq<char>
    decreases s.len(),
{
    if s.len() == 0 {
        Seq::empty()
    } else if s[0] == '\\' && s.len() >= 2 {
        let d = s[1];
        let out = if d == 'n' {
            '\n'
        } else if d == 'r' {
            '\r'
        } else if d == 't' {
            '\t'
        } else {
            d
        };
        seq![out] + spec_unescape_nix(s.skip(2))
    } else {
        seq![s[0]] + spec_unescape_nix(s.skip(1))
    }
}

/// Escaping round-trip: reading an escaped string back through the
/// target grammar's escape rules reproduces the original exactly.
pub proof fn lemma_escape_nix_roundtrip(s: Seq<char>)
    ensures
        spec_unescape_nix(spec_escape_nix(s)) == s,
    decreases s.len(),
{
    if s.len() == 0 {
        assert(spec_unescape_nix(spec_escape_nix(s)) =~= s);
    } else {
        lemma_escape_nix_roundtrip(s.skip(1));
        let c = s[0];
        let rest = spec_escape_nix(s.skip(1));
        if c == '\\' || c == '"' || c == '\n' || c == '\r' || c == '\t' || (c == '$' && s.len() > 1
            && s[1] == '{') {
            let esc = spec_escape_nix(s);
            assert(esc[0] == '\\');
            assert(esc.len() >= 2);
            assert(esc.skip(2) =~= rest);
            assert(spec_unescape_nix(esc) =~= seq![c] + s.skip(1));
            assert(seq![c] + s.skip(1) =~= s);
        } else {
            let esc = spec_escape_nix(s);
            assert(esc[0] == c);
            assert(c != '\\');
            assert(esc.skip(1) =~= rest);
            assert(spec_unescape_nix(esc) =~= seq![c] + s.skip(1));
            assert(seq![c] + s.skip(1) =~= s);
        }
    }
}

/// Escapes a string for the target expression language, as
/// `spec_escape_nix` describes.
pub fn escape_nix_string(input: &str) -> (r: String)
    ensures
        r@ == spec_escape_nix(input@),
{
    let s = str_chars(input);
    let mut out = String::new();
    let mut i: usize = 0;
    proof {
        assert(s@.skip(0) =~= s@);
    }
    while i < s.len()
        invariant
            i <= s@.len(),
            s@ == input@,
            out@ + spec_escape_nix(s@.skip(i as int)) == spec_escape_nix(s@),
        decreases s.len() - i,
    {
        let c = s[i];
        let ghost old_out = out@;
        proof {
            assert(s@.skip(i as int)[0] == s@[i as int]);
            if i + 1 < s@.len() {
                assert(s@.skip(i as int)[1] == s@[i + 1]);
            }
            assert(s@.skip(i as int).skip(1) =~= s@.skip(i + 1));
        }
        if c == '\\' {
            crate::text::push_char(&mut out, '\\');
            crate::text::push_char(&mut out, '\\');
            proof {
                assert(out@ =~= old_out + seq!['\\', '\\']);
            }
        } else if c == '"' {
            crate::text::push_char(&mut out, '\\');
            crate::text::push_char(&mut out, '"');
            proof {
                assert(out@ =~= old_out + seq!['\\', '"']);
            }
        } else if c == '\n' {
            crate::text::push_char(&mut out, '\\');
            crate::text::push_char(&mut out, 'n');
            proof {
                assert(out@ =~= old_out + seq!['\\', 'n']);
            }
        } else if c == '\r' {
            crate::text::push_char(&mut out, '\\');
            crate::text::push_char(&mut out, 'r');
            proof {
                assert(out@ =~= old_out + seq!['\\', 'r']);
            }
        } else if c == '\t' {
            crate::text::push_char(&mut out, '\\');
            crate::text::push_char(&mut out, 't');
            proof {
                assert(out@ =~= old_out + seq!['\\', 't']);
            }
        } else if c == '$' && i + 1 < s.len() && s[i + 1] == '{' {
            crate::text::push_char(&mut out, '\\');
            crate::text::push_char(&mut out, '$');
            proof {
                assert(out@ =~= old_out + seq!['\\', '$']);
            }
        } else {
            crate::text::push_char(&mut out, c);
            proof {
                assert(out@ =~= old_out + seq![c]);
            }
        }
        proof {
            assert(out@ + spec_escape_nix(s@.skip(i + 1)) =~= old_out + spec_escape_nix(
                s@.skip(i as int),
            ));
        }
        i = i + 1;
    }
    proof {
        assert(s@.skip(s@.len() as int) =~= Seq::<char>::empty());
        assert(out@ + spec_escape_nix(s@.skip(s@.len() as int)) =~= out@);
    }
    out
}

/// One string-binding line of the generated expression text.
pub open spec fn spec_string_binding(
    indent: Seq<char>,
    name: Seq<char>,
    value: Seq<char>,
) -> Seq<char> {
    indent + name + " = \""@ + spec_escape_nix(value) + "\";\n"@
}

/// Appends `indent`, `name = "`, the escaped value, and `";` with a
/// newline.
pub fn write_nix_string_binding(buf: &mut String, indent: &str, name: &str, value: &str)
    ensures
        final(buf)@ == old(buf)@ + spec_string_binding(indent@, name@, value@),
{
    let escaped = escape_nix_string(value);
    buf.append(indent);
    buf.append(name);
    buf.append(" = \"");
    buf.append(escaped.as_str());
    buf.append("\";\n");
}

/// One attribute selection with an existence-checked fallback.
pub open spec fn spec_attr_with_fallback(
    indent: Seq<char>,
    bind_name: Seq<char>,
    want_attr_var: Seq<char>,
    scope: Seq<char>,
    fallback: Seq<char>,
) -> Seq<char> {
    indent + bind_name + " = if builtins.hasAttr "@ + want_attr_var + " "@ + scope + " then "@
        + want_attr_var + " else \""@ + spec_escape_nix(fallback) + "\";\n"@
}

/// Appends a binding that prefers the wanted attribute and falls back
/// to the escaped default when the catalogue lacks it.
pub fn write_attr_with_fallback(
    buf: &mut String,
    indent: &str,
    bind_name: &str,
    want_attr_var: &str,
    scope: &str,
    fallback: &str,
)
    ensures
        final(buf)@ == old(buf)@ + spec_attr_with_fallback(
            indent@,
            bind_name@,
            want_attr_var@,
            scope@,
            fallback@,
        ),
{
    let fallback_escaped = escape_nix_string(fallback);
    buf.append(indent);
    buf.append(bind_name);
    buf.append(" = if builtins.hasAttr ");
    buf.append(want_attr_var);
    buf.append(" ");
    buf.append(scope);
    buf.append(" then ");
    buf.append(want_attr_var);
    buf.append(" else \"");
    buf.append(fallback_escaped.as_str());
    buf.append("\";\n");
}

/// One optional-package line.
pub open spec fn spec_optional_package(indent: Seq<char>, package_var: Seq<char>) -> Seq<char> {
    indent + "++ lib.optional ("@ + package_var + " != null) "@ + package_var + "\n"@
}

/// Appends a line that includes a package only when it resolved.
pub fn write_optional_package(buf: &mut String, indent: &str, package_var: &str)
    ensures
        final(buf)@ == old(buf)@ + spec_optional_package(indent@, package_var@),
{
    buf.append(indent);
    buf.append("++ lib.optional (");
    buf.append(package_var);
    buf.append(" != null) ");
    buf.append(package_var);
    buf.append("\n");
}

/// Renders notice lists at one indentation.
pub struct NoticeListBuilder {
    pub indent: String,
}

/// The rendered notice list: one escaped entry, or an empty list.
pub open spec fn spec_notice_list(indent: Seq<char>, notice: Option<Seq<char>>) -> Seq<char> {
    match notice {
        Some(msg) => indent + "notices = [\n"@ + indent + "  \""@ + spec_escape_nix(msg)
            + "\"\n"@ + indent + "];\n"@,
        None => indent + "notices = [];\n"@,
    }
}

impl NoticeListBuilder {
    pub fn new(indent: &str) -> (r: NoticeListBuilder)
        ensures
            r.indent@ == indent@,
    {
        NoticeListBuilder { indent: indent.to_owned() }
    }

    /// Renders the list for an optional notice.
    pub fn build(&self, notice: Option<&str>) -> (r: String)
        ensures
            r@ == spec_notice_list(
                self.indent@,
                match notice {
                    Some(msg) => Some(msg@),
                    None => None,
                },
            ),
    {
        let mut buf = String::new();
        match notice {
            Some(msg) => {
                let escaped = escape_nix_string(msg);
                buf.append(self.indent.as_str());
                buf.append("notices = [\n");
                buf.append(self.indent.as_str());
                buf.append("  \"");
                buf.append(escaped.as_str());
                buf.append("\"\n");
                buf.append(self.indent.as_str());
                buf.append("];\n");
            },
            None => {
                buf.append(self.indent.as_str());
                buf.append("notices = [];\n");
            },
        }
        buf
    }
}

/// Renders one isolated check derivation.
pub struct CheckDerivationBuilder {
    pub key: String,
    pub derivation_name: String,
    pub display: String,
    pub required_exec: String,
    pub command: String,
    pub workdir: String,
}

/// The rendered check: its bindings, then the sandboxed command body
/// that verifies the executable, copies the tree, runs the command
/// in its working directory and writes the sentinel.
pub open spec fn spec_check_derivation(
    key: Seq<char>,
    derivation_name: Seq<char>,
    display: Seq<char>,
    required_exec: Seq<char>,
    command: Seq<char>,
    workdir: Seq<char>,
) -> Seq<char> {
    "  \""@ + spec_escape_nix(key) + "\" = let\n"@ + "    cmd = \""@ + spec_escape_nix(command)
        + "\";\n"@ + "    requiredExec = \""@ + spec_escape_nix(required_exec) + "\";\n"@
        + "    workdir = \""@ + spec_escape_nix(workdir) + "\";\n"@ + "    display = \""@
        + spec_escape_nix(display) + "\";\n"@ + "  in pkgs.runCommand \""@ + spec_escape_nix(
        derivation_name,
    ) + "\" {\n"@ + spec_check_body()
}

/// The fixed tail of every check derivation.
pub open spec fn spec_check_body() -> Seq<char> {
    "    nativeBuildInputs = devPackages;\n  } ''\n    set -euo pipefail\n    export HOME=\"$TMPDIR/home\"\n    mkdir -p \"$HOME\"\n\n    echo \"autonix: running ${display}\"\n    if ! command -v \"${requiredExec}\" >/dev/null 2>&1; then\n      echo \"autonix: missing required executable in PATH: ${requiredExec}\" >&2\n      exit 1\n    fi\n\n    cp -r ${projectRoot} source\n    chmod -R u+w source\n    cd \"source/${workdir}\"\n\n    ${pkgs.bash}/bin/bash -lc ${lib.escapeShellArg cmd}\n\n    mkdir -p $out\n    echo ok > $out/result\n  '';\n\n"@
}

impl CheckDerivationBuilder {
    pub fn new(
        key: String,
        derivation_name: String,
        display: String,
        required_exec: String,
        command: String,
        workdir: String,
    ) -> (r: CheckDerivationBuilder)
        ensures
            r.key@ == key@,
            r.derivation_name@ == derivation_name@,
            r.display@ == display@,
            r.required_exec@ == required_exec@,
            r.command@ == command@,
            r.workdir@ == workdir@,
    {
        CheckDerivationBuilder { key, derivation_name, display, required_exec, command, workdir }
    }

    /// Renders the check, every piece escaped.
    pub fn build(&self) -> (r: String)
        ensures
            r@ == spec_check_derivation(
                self.key@,
                self.derivation_name@,
                self.display@,
                self.required_exec@,
                self.command@,
                self.workdir@,
            ),
    {
        let key_escaped = escape_nix_string(self.key.as_str());
        let drv_escaped = escape_nix_string(self.derivation_name.as_str());
        let display_escaped = escape_nix_string(self.display.as_str());
        let required_exec_escaped = escape_nix_string(self.required_exec.as_str());
        let cmd_escaped = escape_nix_string(self.command.as_str());
        let workdir_escaped = escape_nix_string(self.workdir.as_str());

        let mut out = String::new();
        out.append("  \"");
        out.append(key_escaped.as_str());
        out.append("\" = let\n");
        out.append("    cmd = \"");
        out.append(cmd_escaped.as_str());
        out.append("\";\n");
        out.append("    requiredExec = \"");
        out.append(required_exec_escaped.as_str());
        out.append("\";\n");
        out.append("    workdir = \"");
        out.append(workdir_escaped.as_str());
        out.append("\";\n");
        out.append("    display = \"");
        out.append(display_escaped.as_str());
        out.append("\";\n");
        out.append("  in pkgs.runCommand \"");
        out.append(drv_escaped.as_str());
        out.append("\" {\n");
        out.append(
            "    nativeBuildInputs = devPackages;\n  } ''\n    set -euo pipefail\n    export HOME=\"$TMPDIR/home\"\n    mkdir -p \"$HOME\"\n\n    echo \"autonix: running ${display}\"\n    if ! command -v \"${requiredExec}\" >/dev/null 2>&1; then\n      echo \"autonix: missing required executable in PATH: ${requiredExec}\" >&2\n      exit 1\n    fi\n\n    cp -r ${projectRoot} source\n    chmod -R u+w source\n    cd \"source/${workdir}\"\n\n    ${pkgs.bash}/bin/bash -lc ${lib.escapeShellArg cmd}\n\n    mkdir -p $out\n    echo ok > $out/result\n  '';\n\n",
        );
        out
    }
}

} // verus!
