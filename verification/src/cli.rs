//! The decisions of the command-line commands: which connection the flags
//! name, what `compile` runs, and how its outcome is reported.

use vstd::prelude::*;
use crate::generate::declared_class;
use crate::iris::connection::{AtelierVersion, DiscoverySource, IrisConnection};
use crate::iris::discovery::{base_url_for, build_base_url, or_default};
use crate::text::{
    chars_of, ends_with, lemma_replace_char_append, opt_view, push_char, replace_char, str_ends_with, str_eq, string_of_range, to_owned_string,
    trim, trim_char, trim_char_string, trim_start_char, trimmed,
};
use crate::tools::debug::trim_end_matches;

verus! {

/// `iris-dev compile`.
pub struct CompileCommand {
    /// A `.cls` file, a class or routine name, or `.` for everything (the default).
    pub target: Option<String>,
    pub host: Option<String>,
    pub web_port: u16,
    pub namespace: String,
    pub username: Option<String>,
    pub password: Option<String>,
    pub flags: String,
    pub force_writable: bool,
    /// `text` or `json`.
    pub format: String,
}

/// `iris-dev install`.
pub struct InstallCommand {
    /// Use exact versions from iris-dev.lock (no resolution)
    pub locked: bool,
    /// Show what would be installed without installing
    pub dry_run: bool,
}

/// `iris-dev mcp`.
pub struct McpCommand {
    pub transport: String,
    pub port: u16,
    pub host: Option<String>,
    pub web_port: Option<u16>,
    pub web_prefix: String,
    pub username: Option<String>,
    pub password: Option<String>,
    pub namespace: String,
    pub server: Option<String>,
    pub config: Option<String>,
    pub subscribe: Vec<String>,
    pub workspace: String,
}

/// A connection given by flags: the base URL, the namespace, and the user and
/// password (defaults `_SYSTEM` and `SYS`); found by `ExplicitFlag`.
pub open spec fn is_flag_connection(c: IrisConnection, base_url: Seq<char>, namespace: Seq<char>, username: Option<String>, password: Option<String>) -> bool {
    &&& c.base_url@ == base_url
    &&& c.namespace@ == namespace
    &&& c.username@ == or_default(opt_view(username), "_SYSTEM"@)
    &&& c.password@ == or_default(opt_view(password), "SYS"@)
    &&& c.version is None
    &&& c.atelier_version == AtelierVersion::V1
    &&& c.source == DiscoverySource::ExplicitFlag
    &&& c.port_superserver is None
}

fn flag_connection(base_url: &str, namespace: &str, username: &Option<String>, password: &Option<String>) -> (c: IrisConnection)
    ensures
        is_flag_connection(c, base_url@, namespace@, *username, *password),
{
    let u = match username {
        Some(u) => u.as_str(),
        None => "_SYSTEM",
    };
    let p = match password {
        Some(p) => p.as_str(),
        None => "SYS",
    };
    IrisConnection::new(base_url, namespace, u, p, DiscoverySource::ExplicitFlag)
}

impl CompileCommand {
    /// The connection `--host` names, at `http://host:web_port`; none without a host.
    pub fn explicit_connection(&self) -> (r: Option<IrisConnection>)
        ensures
            match self.host {
                Some(h) => r matches Some(c) && is_flag_connection(
                    c,
                    base_url_for("http"@, h@, self.web_port, None),
                    self.namespace@,
                    self.username,
                    self.password,
                ),
                None => r is None,
            },
    {
        match &self.host {
            Some(h) => {
                let base_url = build_base_url("http", h.as_str(), self.web_port, &None);
                Some(flag_connection(base_url.as_str(), self.namespace.as_str(), &self.username, &self.password))
            },
            None => None,
        }
    }

    /// The compile target: the one given, else `.`.
    pub fn target_text(&self) -> (r: String)
        ensures
            r@ == or_default(opt_view(self.target), "."@),
    {
        match &self.target {
            Some(t) => to_owned_string(t.as_str()),
            None => to_owned_string("."),
        }
    }
}

impl McpCommand {
    /// The connection `--host` names: `http://host:port`, followed by `/prefix`
    /// when the web prefix, trimmed of `/`, is not empty; port 52773 by default.
    pub fn explicit_connection(&self) -> (r: Option<IrisConnection>)
        ensures
            match self.host {
                Some(h) => r matches Some(c) && is_flag_connection(
                    c,
                    base_url_for(
                        "http"@,
                        h@,
                        match self.web_port {
                            Some(p) => p,
                            None => 52773u16,
                        },
                        if trim_char(self.web_prefix@, '/').len() == 0 {
                            None
                        } else {
                            Some(trim_char(self.web_prefix@, '/'))
                        },
                    ),
                    self.namespace@,
                    self.username,
                    self.password,
                ),
                None => r is None,
            },
    {
        match &self.host {
            Some(h) => {
                let port = match self.web_port {
                    Some(p) => p,
                    None => 52773,
                };
                let prefix = trim_char_string(self.web_prefix.as_str(), '/');
                let pv = chars_of(prefix.as_str());
                let prefix_opt = if pv.len() == 0 {
                    None
                } else {
                    Some(prefix)
                };
                let base_url = build_base_url("http", h.as_str(), port, &prefix_opt);
                Some(flag_connection(base_url.as_str(), self.namespace.as_str(), &self.username, &self.password))
            },
            None => None,
        }
    }
}

impl InstallCommand {
    /// Installing packages is not available yet: always the same error.
    pub fn run(&self) -> (r: Result<(), String>)
        ensures
            r matches Err(e) && e@ == "iris-dev install: not yet implemented"@,
    {
        Err(to_owned_string("iris-dev install: not yet implemented"))
    }
}

/// What `compile` does with its target.
pub enum CompileTarget {
    /// `.`: compile everything in the namespace.
    All,
    /// A `.cls` file: upload its text, then compile the class it declares.
    File(String),
    /// A class or routine name: compile it.
    Name(String),
}

/// How the target text selects the compile target.
pub open spec fn target_kind(target: Seq<char>, r: CompileTarget) -> bool {
    if target == "."@ {
        r is All
    } else if ends_with(target, ".cls"@) {
        r matches CompileTarget::File(f) && f@ == target
    } else {
        r matches CompileTarget::Name(n) && n@ == target
    }
}

/// Classifies the compile target.
pub fn classify_target(target: &str) -> (r: CompileTarget)
    ensures
        target_kind(target@, r),
{
    if str_eq(target, ".") {
        CompileTarget::All
    } else if str_ends_with(target, ".cls") {
        CompileTarget::File(to_owned_string(target))
    } else {
        CompileTarget::Name(to_owned_string(target))
    }
}

/// The snippet that compiles everything with `flags` and writes `OK` or the error.
pub open spec fn compile_all_snippet(flags: Seq<char>) -> Seq<char> {
    "Set sc=$SYSTEM.OBJ.CompileAll(\""@ + flags
        + "\") If $System.Status.IsOK(sc) {Write \"OK\"} Else {Write $System.Status.GetErrorText(sc)}"@
}

/// The snippet that compiles `name` with `flags` and writes `OK` or the error.
pub open spec fn compile_one_snippet(name: Seq<char>, flags: Seq<char>) -> Seq<char> {
    "Set sc=$SYSTEM.OBJ.Compile(\""@ + name + "\",\""@ + flags
        + "\") If $System.Status.IsOK(sc) {Write \"OK\"} Else {Write $System.Status.GetErrorText(sc)}"@
}

/// The snippet that compiles everything.
pub fn compile_all_code(flags: &str) -> (r: String)
    ensures
        r@ == compile_all_snippet(flags@),
{
    let mut r = String::new();
    r.append("Set sc=$SYSTEM.OBJ.CompileAll(\"");
    r.append(flags);
    r.append("\") If $System.Status.IsOK(sc) {Write \"OK\"} Else {Write $System.Status.GetErrorText(sc)}");
    r
}

/// The snippet that compiles one class or routine.
pub fn compile_one_code(name: &str, flags: &str) -> (r: String)
    ensures
        r@ == compile_one_snippet(name@, flags@),
{
    let mut r = String::new();
    r.append("Set sc=$SYSTEM.OBJ.Compile(\"");
    r.append(name);
    r.append("\",\"");
    r.append(flags);
    r.append("\") If $System.Status.IsOK(sc) {Write \"OK\"} Else {Write $System.Status.GetErrorText(sc)}");
    r
}

/// A class name made from a file path: without its `.cls` endings, with `/`
/// and `\` read as `.`, and without leading dots.
pub open spec fn class_name_from_path(path: Seq<char>) -> Seq<char> {
    trim_start_char(replace_char(replace_char(trim_end_matches(path, ".cls"@), '/', "."@), '\\', "."@), '.')
}

/// The class a `.cls` file holds: the one its text declares, else the one its path names.
pub fn class_name_for_file(text: &str, path: &str) -> (r: String)
    ensures
        r@ == match declared_class(text@) {
            Some(n) => n,
            None => class_name_from_path(path@),
        },
{
    match crate::generate::extract_class_name(text) {
        Some(n) => n,
        None => {
            let name = crate::tools::debug::strip_cls_suffixes(path);
            let a = crate::text::replace_char_string(name.as_str(), '/', ".");
            let b = crate::text::replace_char_string(a.as_str(), '\\', ".");
            let bv = chars_of(b.as_str());
            let k = crate::text::trim_start_char_len(&bv, '.');
            string_of_range(&bv, k, bv.len())
        },
    }
}

/// Line ends as IRIS stores class text: every `\r\n`, and every other `\r`,
/// becomes `\n`, then every `\n` becomes `\r\n`.
pub open spec fn unix_newlines(s: Seq<char>) -> Seq<char>
    decreases s.len(),
{
    if s.len() == 0 {
        s
    } else if s[0] == '\r' && s.len() >= 2 && s[1] == '\n' {
        seq!['\n'] + unix_newlines(s.skip(2))
    } else if s[0] == '\r' {
        seq!['\n'] + unix_newlines(s.drop_first())
    } else {
        seq![s[0]] + unix_newlines(s.drop_first())
    }
}

/// Class text with CRLF line ends.
pub open spec fn crlf_text(s: Seq<char>) -> Seq<char> {
    replace_char(unix_newlines(s), '\n', "\r\n"@)
}

/// Converts class text to CRLF line ends.
pub fn to_crlf(text: &str) -> (r: String)
    ensures
        r@ == crlf_text(text@),
{
    let v = chars_of(text);
    let mut lf = String::new();
    let mut i: usize = 0;
    assert(v@.skip(0) =~= v@);
    while i < v.len()
        invariant
            i <= v.len(),
            lf@ + unix_newlines(v@.skip(i as int)) == unix_newlines(v@),
        decreases v.len() - i,
    {
        let ghost t = v@.skip(i as int);
        assert(t[0] == v@[i as int]);
        if v[i] == '\r' && i + 1 < v.len() && v[i + 1] == '\n' {
            assert(t[1] == v@[i + 1]);
            assert(t.skip(2) =~= v@.skip(i + 2));
            push_char(&mut lf, '\n');
            i += 2;
        } else {
            assert(t.drop_first() =~= v@.skip(i + 1));
            if v[i] == '\r' {
                push_char(&mut lf, '\n');
            } else {
                push_char(&mut lf, v[i]);
            }
            i += 1;
        }
        assert(lf@ + unix_newlines(v@.skip(i as int)) =~= unix_newlines(v@));
    }
    assert(lf@ + unix_newlines(v@.skip(i as int)) =~= lf@);
    crate::text::replace_char_string(lf.as_str(), '\n', "\r\n")
}

proof fn lemma_unix_newlines_no_cr(s: Seq<char>)
    ensures
        forall|i: int| 0 <= i < unix_newlines(s).len() ==> unix_newlines(s)[i] != '\r',
    decreases s.len(),
{
    if s.len() > 0 {
        if s[0] == '\r' && s.len() >= 2 && s[1] == '\n' {
            lemma_unix_newlines_no_cr(s.skip(2));
        } else {
            lemma_unix_newlines_no_cr(s.drop_first());
        }
        let u = unix_newlines(s);
        assert forall|i: int| 0 <= i < u.len() implies u[i] != '\r' by {
            if i > 0 {
                if s[0] == '\r' && s.len() >= 2 && s[1] == '\n' {
                    assert(u[i] == unix_newlines(s.skip(2))[i - 1]);
                } else {
                    assert(u[i] == unix_newlines(s.drop_first())[i - 1]);
                }
            }
        }
    }
}

proof fn lemma_unix_newlines_of_crlf(u: Seq<char>)
    requires
        forall|i: int| 0 <= i < u.len() ==> u[i] != '\r',
    ensures
        unix_newlines(replace_char(u, '\n', "\r\n"@)) == u,
    decreases u.len(),
{
    reveal_strlit("\r\n");
    if u.len() > 0 {
        let c = u[0];
        let t = u.drop_first();
        assert(u =~= seq![c] + t);
        lemma_replace_char_append(seq![c], t, '\n', "\r\n"@);
        lemma_unix_newlines_of_crlf(t);
        let head = replace_char(seq![c], '\n', "\r\n"@);
        let rest = replace_char(t, '\n', "\r\n"@);
        assert(seq![c].drop_last() =~= Seq::<char>::empty());
        assert(head == replace_char(Seq::<char>::empty(), '\n', "\r\n"@) + (if c == '\n' {
            "\r\n"@
        } else {
            seq![c]
        }));
        let w = head + rest;
        if c == '\n' {
            assert(head =~= seq!['\r', '\n']);
            assert(w[0] == '\r' && w[1] == '\n');
            assert(w.skip(2) =~= rest);
            assert(unix_newlines(w) == seq!['\n'] + unix_newlines(rest));
        } else {
            assert(head =~= seq![c]);
            assert(w[0] == c);
            assert(w.drop_first() =~= rest);
            assert(unix_newlines(w) == seq![c] + unix_newlines(rest));
        }
    }
}

/// Converting to CRLF line ends twice gives what converting once gives.
pub proof fn lemma_crlf_idempotent(s: Seq<char>)
    ensures
        crlf_text(crlf_text(s)) == crlf_text(s),
{
    lemma_unix_newlines_no_cr(s);
    lemma_unix_newlines_of_crlf(unix_newlines(s));
}

/// How `compile` ended, and with which exit code.
pub enum CompileOutcome {
    /// The output was `OK`: exit 0.
    Compiled,
    /// IRIS reported an error: exit 1 with `IRIS_COMPILE_FAILED`.
    Failed { error: String },
    /// The snippet could not run: exit 2 with `DOCKER_REQUIRED` when that is
    /// the whole message, else `IRIS_UNREACHABLE`.
    NotRun { error_code: String, error: String },
}

/// The outcome of running the compile snippet: its output or the error message.
pub open spec fn compile_outcome(result: Result<Seq<char>, Seq<char>>, r: CompileOutcome) -> bool {
    match result {
        Ok(out) => if trim(out) == "OK"@ {
            r is Compiled
        } else {
            r matches CompileOutcome::Failed { error } && error@ == trim(out)
        },
        Err(msg) => r matches CompileOutcome::NotRun { error_code, error } && error@ == msg && error_code@ == (
        if msg == "DOCKER_REQUIRED"@ {
            "DOCKER_REQUIRED"@
        } else {
            "IRIS_UNREACHABLE"@
        }),
    }
}

/// Reads the result of running the compile snippet.
pub fn compile_outcome_of(result: Result<&str, &str>) -> (r: CompileOutcome)
    ensures
        compile_outcome(
            match result {
                Ok(o) => Ok(o@),
                Err(e) => Err(e@),
            },
            r,
        ),
{
    match result {
        Ok(out) => {
            let v = chars_of(out);
            let t = trimmed(&v);
            let s = string_of_range(&t, 0, t.len());
            assert(t@.subrange(0, t.len() as int) =~= t@);
            if str_eq(s.as_str(), "OK") {
                CompileOutcome::Compiled
            } else {
                CompileOutcome::Failed { error: s }
            }
        },
        Err(msg) => {
            let code = if str_eq(msg, "DOCKER_REQUIRED") {
                "DOCKER_REQUIRED"
            } else {
                "IRIS_UNREACHABLE"
            };
            CompileOutcome::NotRun { error_code: to_owned_string(code), error: to_owned_string(msg) }
        },
    }
}

impl CompileOutcome {
    /// The process exit code for the outcome.
    pub fn exit_code(&self) -> (r: i32)
        ensures
            r == match self {
                CompileOutcome::Compiled => 0i32,
                CompileOutcome::Failed { .. } => 1i32,
                CompileOutcome::NotRun { .. } => 2i32,
            },
    {
        match self {
            CompileOutcome::Compiled => 0,
            CompileOutcome::Failed { .. } => 1,
            CompileOutcome::NotRun { .. } => 2,
        }
    }
}

/// When the HTTP route fails, `compile` retries through Docker only when
/// `IRIS_CONTAINER` is set and not empty.
pub fn use_docker_fallback(container: Option<&str>) -> (b: bool)
    ensures
        b == match container {
            Some(c) => c@.len() > 0,
            None => false,
        },
{
    match container {
        Some(c) => {
            let cv = chars_of(c);
            cv.len() > 0
        },
        None => false,
    }
}

/// The line `compile` prints in text format when it succeeded.
pub fn compiled_line(target: &str) -> (r: String)
    ensures
        r@ == "\u{2713} Compiled: "@ + target@,
{
    let mut r = String::new();
    r.append("\u{2713} Compiled: ");
    r.append(target);
    r
}

/// The line `compile` prints in text format when it failed.
pub fn error_line(error_code: &str, error: &str) -> (r: String)
    ensures
        r@ == "\u{2717} Error ["@ + error_code@ + "]: "@ + error@,
{
    let mut r = String::new();
    r.append("\u{2717} Error [");
    r.append(error_code);
    r.append("]: ");
    r.append(error);
    r
}

} // verus!
