//! IRIS connection types, Atelier REST addressing, the temporary executor class,
//! and the cleanup of `iris session` output.

use vstd::prelude::*;
use crate::text::{
    append_join, append_range, append_trim_end_char, chars_of, contains, contains_exec,
    debug_quote, debug_quoted, dec, is_ascii_alnum, join, lines, lines_of, matches_at_exec,
    push_dec, push_str_text, push_text, starts_with, texts, to_owned_string, trim, trim_end,
    trim_end_char, trim_end_len, trimmed, url_encode, url_encoded, eq_ignore_ascii_case,
    replace_char, append_replace_char, str_contains, string_of_range, drop_blank_front,
    drop_blank_back, no_newline, strip_cr, lines_from, is_blank, lemma_lines_of_join,
    lemma_lines_tail, lemma_lines_no_newline, lemma_drop_blank_back_prefix,
    lemma_drop_blank_front_suffix,
};

verus! {

/// Which version of the Atelier REST API to use.
#[derive(Debug, Clone, Copy, PartialEq, Eq, Structural)]
pub enum AtelierVersion {
    V8,
    V2,
    V1,
}

impl AtelierVersion {
    /// The path segment that names this API version.
    pub open spec fn text(self) -> Seq<char> {
        match self {
            AtelierVersion::V8 => "v8"@,
            AtelierVersion::V2 => "v2"@,
            AtelierVersion::V1 => "v1"@,
        }
    }

    /// The API version an Atelier root reply selects by its `api` level:
    /// 8 and above is v8, 2 and above is v2, anything else (or none) is v1.
    pub open spec fn for_api_level(api: Option<u64>) -> AtelierVersion {
        match api {
            Some(v) => if v >= 8 {
                AtelierVersion::V8
            } else if v >= 2 {
                AtelierVersion::V2
            } else {
                AtelierVersion::V1
            },
            None => AtelierVersion::V1,
        }
    }

    pub fn version_str(&self) -> (r: &'static str)
        ensures
            r@ == self.text(),
    {
        match self {
            AtelierVersion::V8 => "v8",
            AtelierVersion::V2 => "v2",
            AtelierVersion::V1 => "v1",
        }
    }

    /// The API version for the `api` level reported by `/api/atelier/`.
    pub fn from_api_level(api: Option<u64>) -> (r: AtelierVersion)
        ensures
            r == Self::for_api_level(api),
    {
        match api {
            Some(v) => if v >= 8 {
                AtelierVersion::V8
            } else if v >= 2 {
                AtelierVersion::V2
            } else {
                AtelierVersion::V1
            },
            None => AtelierVersion::V1,
        }
    }
}

/// How a connection was found.
#[derive(Debug, Clone)]
pub enum DiscoverySource {
    LocalhostScan { port: u16 },
    Docker { container_name: String },
    VsCodeSettings,
    EnvVar,
    ExplicitFlag,
}

/// A resolved connection to a running IRIS instance via Atelier REST API.
#[derive(Clone)]
pub struct IrisConnection {
    /// Base URL e.g. "http://localhost:52773" or "http://localhost:80/prefix"
    pub base_url: String,
    pub namespace: String,
    pub username: String,
    pub password: String,
    pub version: Option<String>,
    pub atelier_version: AtelierVersion,
    pub source: DiscoverySource,
    pub port_superserver: Option<u16>,
}

/// `format!("{:?}", o)` for an optional string.
pub open spec fn debug_opt_str(o: Option<String>) -> Seq<char> {
    match o {
        Some(s) => "Some("@ + debug_quoted(s@) + ")"@,
        None => "None"@,
    }
}

/// `format!("{:?}", o)` for an optional port.
pub open spec fn debug_opt_u16(o: Option<u16>) -> Seq<char> {
    match o {
        Some(p) => "Some("@ + dec(p as nat) + ")"@,
        None => "None"@,
    }
}

/// `format!("{:?}", v)` for an API version.
pub open spec fn debug_version(v: AtelierVersion) -> Seq<char> {
    match v {
        AtelierVersion::V8 => "V8"@,
        AtelierVersion::V2 => "V2"@,
        AtelierVersion::V1 => "V1"@,
    }
}

/// `format!("{:?}", s)` for a discovery source.
pub open spec fn debug_source(s: DiscoverySource) -> Seq<char> {
    match s {
        DiscoverySource::LocalhostScan { port } => "LocalhostScan { port: "@ + dec(port as nat)
            + " }"@,
        DiscoverySource::Docker { container_name } => "Docker { container_name: "@
            + debug_quoted(container_name@) + " }"@,
        DiscoverySource::VsCodeSettings => "VsCodeSettings"@,
        DiscoverySource::EnvVar => "EnvVar"@,
        DiscoverySource::ExplicitFlag => "ExplicitFlag"@,
    }
}

fn push_debug_opt_str(out: &mut String, o: &Option<String>)
    ensures
        final(out)@ == old(out)@ + debug_opt_str(*o),
{
    match o {
        Some(s) => {
            out.append("Some(");
            let q = debug_quote(s.as_str());
            out.append(q.as_str());
            out.append(")");
        },
        None => out.append("None"),
    }
}

fn push_debug_opt_u16(out: &mut String, o: Option<u16>)
    ensures
        final(out)@ == old(out)@ + debug_opt_u16(o),
{
    match o {
        Some(p) => {
            out.append("Some(");
            push_dec(out, p as u64);
            out.append(")");
        },
        None => out.append("None"),
    }
}

impl IrisConnection {
    /// The Atelier REST URL for a path suffix: the base URL without trailing
    /// slashes, then `/api/atelier`, then the suffix.
    pub open spec fn url_of(self, path: Seq<char>) -> Seq<char> {
        trim_end_char(self.base_url@, '/') + "/api/atelier"@ + path
    }

    /// The versioned Atelier URL for a namespace and path suffix.
    pub open spec fn versioned_url_of(self, namespace: Seq<char>, path: Seq<char>) -> Seq<char> {
        self.url_of("/"@ + self.atelier_version.text() + "/"@ + namespace + path)
    }

    /// The text of the connection's debug form: every field but the password,
    /// which stands as `[redacted]`.
    pub open spec fn debug_repr(self) -> Seq<char> {
        "IrisConnection { base_url: "@ + debug_quoted(self.base_url@) + ", namespace: "@
            + debug_quoted(self.namespace@) + ", username: "@ + debug_quoted(self.username@)
            + ", password: \"[redacted]\", version: "@ + debug_opt_str(self.version)
            + ", atelier_version: "@ + debug_version(self.atelier_version) + ", source: "@
            + debug_source(self.source) + ", port_superserver: "@ + debug_opt_u16(
            self.port_superserver,
        ) + " }"@
    }

    pub fn new(
        base_url: &str,
        namespace: &str,
        username: &str,
        password: &str,
        source: DiscoverySource,
    ) -> (c: Self)
        ensures
            c.base_url@ == base_url@,
            c.namespace@ == namespace@,
            c.username@ == username@,
            c.password@ == password@,
            c.version is None,
            c.atelier_version == AtelierVersion::V1,
            c.source == source,
            c.port_superserver is None,
    {
        IrisConnection {
            base_url: to_owned_string(base_url),
            namespace: to_owned_string(namespace),
            username: to_owned_string(username),
            password: to_owned_string(password),
            version: None,
            atelier_version: AtelierVersion::V1,
            source,
            port_superserver: None,
        }
    }

    /// Build the full Atelier REST URL for a given path suffix.
    pub fn atelier_url(&self, path: &str) -> (r: String)
        ensures
            r@ == self.url_of(path@),
    {
        let mut r = String::new();
        append_trim_end_char(&mut r, self.base_url.as_str(), '/');
        r.append("/api/atelier");
        r.append(path);
        r
    }

    /// Build a versioned Atelier URL using the detected API version and the connection namespace.
    pub fn atelier_url_versioned(&self, path: &str) -> (r: String)
        ensures
            r@ == self.versioned_url_of(self.namespace@, path@),
    {
        self.versioned_ns_url(self.namespace.as_str(), path)
    }

    /// Build a versioned Atelier URL for an explicit namespace.
    pub fn versioned_ns_url(&self, namespace: &str, path: &str) -> (r: String)
        ensures
            r@ == self.versioned_url_of(namespace@, path@),
    {
        let mut p = String::new();
        p.append("/");
        p.append(self.atelier_version.version_str());
        p.append("/");
        p.append(namespace);
        p.append(path);
        self.atelier_url(p.as_str())
    }

    /// The debug form of the connection; the password never appears in it.
    pub fn debug_text(&self) -> (r: String)
        ensures
            r@ == self.debug_repr(),
    {
        let mut r = String::new();
        r.append("IrisConnection { base_url: ");
        let q = debug_quote(self.base_url.as_str());
        r.append(q.as_str());
        r.append(", namespace: ");
        let q = debug_quote(self.namespace.as_str());
        r.append(q.as_str());
        r.append(", username: ");
        let q = debug_quote(self.username.as_str());
        r.append(q.as_str());
        r.append(", password: \"[redacted]\", version: ");
        push_debug_opt_str(&mut r, &self.version);
        r.append(", atelier_version: ");
        match self.atelier_version {
            AtelierVersion::V8 => r.append("V8"),
            AtelierVersion::V2 => r.append("V2"),
            AtelierVersion::V1 => r.append("V1"),
        }
        r.append(", source: ");
        match &self.source {
            DiscoverySource::LocalhostScan { port } => {
                r.append("LocalhostScan { port: ");
                push_dec(&mut r, *port as u64);
                r.append(" }");
            },
            DiscoverySource::Docker { container_name } => {
                r.append("Docker { container_name: ");
                let q = debug_quote(container_name.as_str());
                r.append(q.as_str());
                r.append(" }");
            },
            DiscoverySource::VsCodeSettings => r.append("VsCodeSettings"),
            DiscoverySource::EnvVar => r.append("EnvVar"),
            DiscoverySource::ExplicitFlag => r.append("ExplicitFlag"),
        }
        r.append(", port_superserver: ");
        push_debug_opt_u16(&mut r, self.port_superserver);
        r.append(" }");
        r
    }
}

/// Two connections that differ at most in their passwords have the same debug form:
/// the debug output never depends on, and so never reveals, the password.
pub proof fn lemma_debug_repr_ignores_password(a: IrisConnection, b: IrisConnection)
    requires
        a.base_url@ == b.base_url@,
        a.namespace@ == b.namespace@,
        a.username@ == b.username@,
        a.version == b.version,
        a.atelier_version == b.atelier_version,
        a.source == b.source,
        a.port_superserver == b.port_superserver,
    ensures
        a.debug_repr() == b.debug_repr(),
{
}


/// The first lines of the temporary executor class, up to the user code.
pub open spec fn exec_class_head(class_name: Seq<char>, tmpfile: Seq<char>) -> Seq<Seq<char>> {
    seq![
        "Class "@ + class_name + " [ Final ]"@,
        "{"@,
        ""@,
        "ClassMethod Execute() As %String [ CodeMode = objectgenerator, SqlProc ]"@,
        "{"@,
        "  Set tmpfile = \""@ + tmpfile + "\""@,
        "  Set savedIO = $IO"@,
        "  Open tmpfile:(\"WNS\"):5"@,
        "  If '$TEST { Do %code.WriteLine(\" Quit \"\"ERROR: output capture unavailable\"\"\") Quit }"@,
        "  Use tmpfile"@,
        "  Try {"@,
    ]
}

/// The last lines of the temporary executor class, after the user code.
pub open spec fn exec_class_tail() -> Seq<Seq<char>> {
    seq![
        "    Write !"@,
        "  } Catch ex {"@,
        "    Write \"ERROR: \",ex.DisplayString(),!"@,
        "  }"@,
        "  Close tmpfile"@,
        "  Use savedIO"@,
        "  Set out = \"\""@,
        "  Open tmpfile:(\"RNS\"):1"@,
        "  If $TEST {"@,
        "    Set line = \"\""@,
        "    For  { Read line:0  If '$TEST Quit  Set out = out_line_$Char(10) }"@,
        "    Close tmpfile"@,
        "  }"@,
        "  Do ##class(%Library.File).Delete(tmpfile)"@,
        "  Set qout = $Replace($Replace(out,$Char(34),$Char(34)_$Char(34)),$Char(10),$Char(1))"@,
        "  Do %code.WriteLine(\" Quit \"_$Char(34)_qout_$Char(34))"@,
        "}"@,
        ""@,
        "}"@,
    ]
}

/// Each line with four spaces in front.
pub open spec fn indent4(ls: Seq<Seq<char>>) -> Seq<Seq<char>> {
    ls.map_values(|l: Seq<char>| "    "@ + l)
}

/// The source lines of the temporary executor class: the head, every line of
/// the user code indented by four spaces, and the tail.
pub open spec fn exec_class_source(class_name: Seq<char>, tmpfile: Seq<char>, code: Seq<char>) -> Seq<
    Seq<char>,
> {
    exec_class_head(class_name, tmpfile) + indent4(lines(code)) + exec_class_tail()
}

/// Build the `.cls` source lines for the temp executor class.
fn build_exec_class(class_name: &str, tmpfile: &str, code: &str) -> (r: Vec<String>)
    ensures
        texts(r@) == exec_class_source(class_name@, tmpfile@, code@),
{
    let mut r: Vec<String> = Vec::new();
    let mut l0 = String::new();
    l0.append("Class ");
    l0.append(class_name);
    l0.append(" [ Final ]");
    push_text(&mut r, l0);
    push_str_text(&mut r, "{");
    push_str_text(&mut r, "");
    push_str_text(&mut r, "ClassMethod Execute() As %String [ CodeMode = objectgenerator, SqlProc ]");
    push_str_text(&mut r, "{");
    let mut l5 = String::new();
    l5.append("  Set tmpfile = \"");
    l5.append(tmpfile);
    l5.append("\"");
    push_text(&mut r, l5);
    push_str_text(&mut r, "  Set savedIO = $IO");
    push_str_text(&mut r, "  Open tmpfile:(\"WNS\"):5");
    push_str_text(
        &mut r,
        "  If '$TEST { Do %code.WriteLine(\" Quit \"\"ERROR: output capture unavailable\"\"\") Quit }",
    );
    push_str_text(&mut r, "  Use tmpfile");
    push_str_text(&mut r, "  Try {");
    let ghost head = texts(r@);
    assert(head =~= exec_class_head(class_name@, tmpfile@));
    let cv = chars_of(code);
    let cl = lines_of(&cv);
    let ghost ls = lines(code@);
    let mut i: usize = 0;
    while i < cl.len()
        invariant
            i <= cl.len() == ls.len(),
            ls == lines(code@),
            forall|k: int| 0 <= k < cl.len() ==> (#[trigger] cl[k])@ == ls[k],
            texts(r@) == head + indent4(ls.take(i as int)),
        decreases cl.len() - i,
    {
        let mut line = String::new();
        line.append("    ");
        append_range(&mut line, &cl[i], 0, cl[i].len());
        assert(cl[i as int]@.subrange(0, cl[i as int]@.len() as int) =~= cl[i as int]@);
        push_text(&mut r, line);
        i += 1;
        assert(indent4(ls.take(i as int)) =~= indent4(ls.take(i - 1)).push("    "@ + ls[i - 1]));
    }
    assert(ls.take(cl.len() as int) =~= ls);
    let ghost body = texts(r@);
    push_str_text(&mut r, "    Write !");
    push_str_text(&mut r, "  } Catch ex {");
    push_str_text(&mut r, "    Write \"ERROR: \",ex.DisplayString(),!");
    push_str_text(&mut r, "  }");
    push_str_text(&mut r, "  Close tmpfile");
    push_str_text(&mut r, "  Use savedIO");
    push_str_text(&mut r, "  Set out = \"\"");
    push_str_text(&mut r, "  Open tmpfile:(\"RNS\"):1");
    push_str_text(&mut r, "  If $TEST {");
    push_str_text(&mut r, "    Set line = \"\"");
    push_str_text(&mut r, "    For  { Read line:0  If '$TEST Quit  Set out = out_line_$Char(10) }");
    push_str_text(&mut r, "    Close tmpfile");
    push_str_text(&mut r, "  }");
    push_str_text(&mut r, "  Do ##class(%Library.File).Delete(tmpfile)");
    push_str_text(
        &mut r,
        "  Set qout = $Replace($Replace(out,$Char(34),$Char(34)_$Char(34)),$Char(10),$Char(1))",
    );
    push_str_text(&mut r, "  Do %code.WriteLine(\" Quit \"_$Char(34)_qout_$Char(34))");
    push_str_text(&mut r, "}");
    push_str_text(&mut r, "");
    push_str_text(&mut r, "}");
    assert(texts(r@) =~= body + exec_class_tail());
    r
}

impl IrisConnection {
    /// Test accessor for the temporary executor class source.
    pub fn build_exec_class_for_test(class_name: &str, tmpfile: &str, code: &str) -> (r: Vec<String>)
        ensures
            texts(r@) == exec_class_source(class_name@, tmpfile@, code@),
    {
        build_exec_class(class_name, tmpfile, code)
    }

    /// The versioned Atelier URL of a document.
    pub open spec fn doc_url_of(self, namespace: Seq<char>, name: Seq<char>, query: Seq<char>) -> Seq<char> {
        self.versioned_url_of(namespace, "/doc/"@ + url_encoded(name) + query)
    }

    /// The versioned Atelier URL of document `name` in `namespace`, followed by `query`
    /// (empty or a query string such as `?ignoreConflict=1`).
    pub fn doc_url(&self, namespace: &str, name: &str, query: &str) -> (r: String)
        ensures
            r@ == self.doc_url_of(namespace@, name@, query@),
    {
        let mut p = String::new();
        p.append("/doc/");
        let e = url_encode(name);
        p.append(e.as_str());
        p.append(query);
        self.versioned_ns_url(namespace, p.as_str())
    }
}

/// A line of session banner text.
pub open spec fn is_banner_line(t: Seq<char>) -> bool {
    ||| starts_with(t, "Copyright"@)
    ||| contains(t, "InterSystems Corporation"@)
    ||| starts_with(t, "All rights reserved"@)
    ||| starts_with(t, "IRIS for "@)
    ||| starts_with(t, "Cache for "@)
    ||| starts_with(t, "Ensemble for "@)
}

/// A character that may appear in a prompt's namespace token.
pub open spec fn is_prompt_token_char(c: char) -> bool {
    is_ascii_alnum(c) || c == '_'
}

/// The prompt token of a line ending in `>`: what stands before the `>`, without one leading `%`.
pub open spec fn prompt_token(t: Seq<char>) -> Seq<char> {
    let tok = t.drop_last();
    if tok.len() > 0 && tok[0] == '%' {
        tok.drop_first()
    } else {
        tok
    }
}

/// A line that is only an IRIS session prompt such as `USER>` or `%SYS>`:
/// after trailing whitespace, a `>` preceded by an optional `%` and 1 to 16
/// ASCII letters, digits or underscores.
pub open spec fn is_bare_prompt(s: Seq<char>) -> bool {
    let t = trim_end(s);
    &&& t.len() > 0
    &&& t.last() == '>'
    &&& prompt_token(t).len() > 0
    &&& prompt_token(t).len() <= 16
    &&& forall|i: int| 0 <= i < prompt_token(t).len() ==> is_prompt_token_char(#[trigger] prompt_token(t)[i])
}

/// A line of session output that stays after stripping.
pub open spec fn keeps_session_line(l: Seq<char>) -> bool {
    !is_banner_line(trim(l)) && !is_bare_prompt(trim(l))
}

/// The lines that stay, in their order.
pub open spec fn kept_session_lines(ls: Seq<Seq<char>>) -> Seq<Seq<char>>
    decreases ls.len(),
{
    if ls.len() == 0 {
        ls
    } else {
        kept_session_lines(ls.drop_last()) + (if keeps_session_line(ls.last()) {
            seq![ls.last()]
        } else {
            Seq::<Seq<char>>::empty()
        })
    }
}

/// Session output with banner and bare prompt lines removed, leading and
/// trailing blank lines removed, and the rest joined by `\n`.
pub open spec fn stripped_session_output(s: Seq<char>) -> Seq<char> {
    join(stripped_session_lines(s), "\n"@)
}

/// The lines stripped output is made of: the kept lines without leading and
/// trailing blank lines.
pub open spec fn stripped_session_lines(s: Seq<char>) -> Seq<Seq<char>> {
    drop_blank_back(drop_blank_front(kept_session_lines(lines(s))))
}

fn bare_prompt_chars(v: &Vec<char>) -> (b: bool)
    ensures
        b == is_bare_prompt(v@),
{
    let k = trim_end_len(v);
    let ghost t = v@.subrange(0, k as int);
    if k == 0 || v[k - 1] != '>' {
        return false;
    }
    let mut a: usize = 0;
    if k - 1 > 0 && v[0] == '%' {
        a = 1;
    }
    let ghost tok = prompt_token(t);
    assert(tok =~= v@.subrange(a as int, k - 1));
    let n = k - 1 - a;
    if n == 0 || n > 16 {
        return false;
    }
    let mut i = a;
    while i < k - 1
        invariant
            a <= i <= k - 1,
            k <= v.len(),
            t == v@.subrange(0, k as int),
            t == trim_end(v@),
            t.len() > 0 && t.last() == '>',
            tok == prompt_token(t),
            0 < tok.len() <= 16,
            tok == v@.subrange(a as int, k - 1),
            forall|j: int| 0 <= j < i - a ==> is_prompt_token_char(#[trigger] tok[j]),
        decreases k - 1 - i,
    {
        let c = v[i];
        if !(('0' <= c && c <= '9') || ('a' <= c && c <= 'z') || ('A' <= c && c <= 'Z') || c == '_') {
            assert(tok[i - a] == c);
            return false;
        }
        i += 1;
    }
    true
}

/// Returns true if the line is purely an IRIS session prompt with no following content.
pub fn is_bare_prompt_line(s: &str) -> (b: bool)
    ensures
        b == is_bare_prompt(s@),
{
    let v = chars_of(s);
    bare_prompt_chars(&v)
}

fn banner_chars(t: &Vec<char>) -> (b: bool)
    ensures
        b == is_banner_line(t@),
{
    let p1 = chars_of("Copyright");
    let p2 = chars_of("InterSystems Corporation");
    let p3 = chars_of("All rights reserved");
    let p4 = chars_of("IRIS for ");
    let p5 = chars_of("Cache for ");
    let p6 = chars_of("Ensemble for ");
    matches_at_exec(t, 0, &p1) || contains_exec(t, &p2) || matches_at_exec(t, 0, &p3)
        || matches_at_exec(t, 0, &p4) || matches_at_exec(t, 0, &p5) || matches_at_exec(t, 0, &p6)
}

/// Strip the IRIS session banner and bare prompt lines from `iris session` output.
pub fn strip_iris_banner(output: &str) -> (r: String)
    ensures
        r@ == stripped_session_output(output@),
{
    let v = chars_of(output);
    let ls = lines_of(&v);
    let ghost all = lines(output@);
    let mut kept: Vec<String> = Vec::new();
    let mut i: usize = 0;
    while i < ls.len()
        invariant
            i <= ls.len() == all.len(),
            all == lines(output@),
            forall|k: int| 0 <= k < ls.len() ==> (#[trigger] ls[k])@ == all[k],
            texts(kept@) == kept_session_lines(all.take(i as int)),
        decreases ls.len() - i,
    {
        let t = trimmed(&ls[i]);
        let keep = !banner_chars(&t) && !bare_prompt_chars(&t);
        assert(all.take(i + 1).drop_last() =~= all.take(i as int));
        if keep {
            let line = crate::text::string_of(&ls[i]);
            push_text(&mut kept, line);
        }
        i += 1;
        assert(texts(kept@) =~= kept_session_lines(all.take(i as int)));
    }
    assert(all.take(ls.len() as int) =~= all);
    let (lo, hi) = crate::text::blank_trim_bounds(&kept);
    let sel = crate::text::texts_range(&kept, lo, hi);
    let mut r = String::new();
    append_join(&mut r, &sel, "\n");
    assert(texts(sel@) == sel@.map_values(|p: String| p@));
    r
}


proof fn lemma_kept_lines_facts(ls: Seq<Seq<char>>)
    requires
        forall|i: int| 0 <= i < ls.len() ==> no_newline(#[trigger] ls[i]),
    ensures
        forall|i: int|
            0 <= i < kept_session_lines(ls).len() ==> no_newline(#[trigger] kept_session_lines(ls)[i])
                && keeps_session_line(kept_session_lines(ls)[i]),
    decreases ls.len(),
{
    if ls.len() > 0 {
        let front = ls.drop_last();
        lemma_kept_lines_facts(front);
        let k = kept_session_lines(ls);
        let kf = kept_session_lines(front);
        assert forall|i: int| 0 <= i < k.len() implies no_newline(#[trigger] k[i]) && keeps_session_line(k[i]) by {
            if i < kf.len() {
                assert(k[i] == kf[i]);
            } else {
                assert(k[i] == ls.last());
            }
        }
    }
}

proof fn lemma_kept_lines_all_kept(ls: Seq<Seq<char>>)
    requires
        forall|i: int| 0 <= i < ls.len() ==> keeps_session_line(#[trigger] ls[i]),
    ensures
        kept_session_lines(ls) == ls,
    decreases ls.len(),
{
    if ls.len() > 0 {
        lemma_kept_lines_all_kept(ls.drop_last());
        assert(keeps_session_line(ls[ls.len() - 1]));
        assert(ls.drop_last().push(ls.last()) =~= ls);
    } else {
        assert(ls =~= Seq::<Seq<char>>::empty());
    }
}

proof fn lemma_front_not_blank(ls: Seq<Seq<char>>)
    ensures
        drop_blank_front(ls).len() > 0 ==> !is_blank(drop_blank_front(ls)[0]),
    decreases ls.len(),
{
    if ls.len() > 0 && is_blank(ls[0]) {
        lemma_front_not_blank(ls.drop_first());
    }
}

proof fn lemma_back_not_blank(ls: Seq<Seq<char>>)
    ensures
        drop_blank_back(ls).len() > 0 ==> !is_blank(drop_blank_back(ls).last()),
    decreases ls.len(),
{
    if ls.len() > 0 && is_blank(ls.last()) {
        lemma_back_not_blank(ls.drop_last());
    }
}

/// Stripping the banner a second time changes nothing, unless a stripped
/// line other than the last still ends in a carriage return (as in
/// `"x\r\r\ny"`): that line would lose the character when the stripped text
/// is split into lines again.
pub proof fn lemma_strip_banner_idempotent(s: Seq<char>)
    requires
        forall|i: int|
            0 <= i < stripped_session_lines(s).len() - 1 ==> strip_cr(#[trigger] stripped_session_lines(s)[i])
                == stripped_session_lines(s)[i],
    ensures
        stripped_session_output(stripped_session_output(s)) == stripped_session_output(s),
{
    reveal_strlit("\n");
    let ls = lines(s);
    lemma_lines_no_newline(seq![], s);
    lemma_kept_lines_facts(ls);
    let k = kept_session_lines(ls);
    let f = drop_blank_front(k);
    let d = drop_blank_back(f);
    lemma_drop_blank_front_suffix(k);
    lemma_drop_blank_back_prefix(f);
    lemma_front_not_blank(k);
    lemma_back_not_blank(f);
    assert(d == stripped_session_lines(s));
    assert forall|i: int| 0 <= i < d.len() implies no_newline(#[trigger] d[i]) && keeps_session_line(d[i]) by {
        assert(d[i] == f[i]);
        assert(f[i] == k[k.len() - f.len() + i]);
    }
    let r = join(d, "\n"@);
    assert(stripped_session_output(s) == r);
    if d.len() == 0 {
        assert(r =~= Seq::<char>::empty());
        assert(lines(r) =~= Seq::<Seq<char>>::empty());
        assert(kept_session_lines(lines(r)) =~= Seq::<Seq<char>>::empty());
    } else {
        let last = d.last();
        assert(!is_blank(last));
        assert(last.len() > 0) by {
            if last.len() == 0 {
                assert(trim(last).len() == 0);
            }
        }
        lemma_lines_tail(seq![], last);
        assert(seq![] + last =~= last);
        if d.len() == 1 {
            assert(r == last);
            assert(lines(r) =~= d);
        } else {
            let front = d.drop_last();
            assert(r == join(front, "\n"@) + "\n"@ + last);
            assert forall|i: int| 0 <= i < front.len() implies no_newline(#[trigger] front[i]) by {
                assert(front[i] == d[i]);
            }
            lemma_lines_of_join(front, last);
            assert(front.map_values(|l: Seq<char>| strip_cr(l)) =~= front) by {
                assert forall|i: int| 0 <= i < front.len() implies front.map_values(|l: Seq<char>| strip_cr(l))[i]
                    == front[i] by {
                    assert(front[i] == d[i]);
                    assert(strip_cr(d[i]) == d[i]);
                }
            }
            assert(lines(r) =~= front + seq![last]);
            assert(front + seq![last] =~= d);
        }
        assert(lines(r) == d);
        lemma_kept_lines_all_kept(d);
        assert(d[0] == f[0]);
        assert(drop_blank_front(d) == d);
        assert(drop_blank_back(d) == d);
    }
}

/// A lower-case hexadecimal digit.
pub open spec fn is_lower_hex(c: char) -> bool {
    ('0' <= c && c <= '9') || ('a' <= c && c <= 'f')
}

/// `Uuid::new_v4().simple().to_string()`: a fresh random version-4 UUID written
/// as 32 lower-case hexadecimal digits. Which digits come is left open.
#[verifier::external_body]
fn new_uuid_simple() -> (r: String)
    ensures
        r@.len() == 32,
        forall|i: int| 0 <= i < 32 ==> is_lower_hex(#[trigger] r@[i]),
{
    uuid::Uuid::new_v4().simple().to_string()
}

/// The names and texts of one run of code through a temporary executor class.
pub struct ExecRun {
    /// The run's identifier (12 lower-case hexadecimal digits for a fresh run).
    pub id: String,
    pub class_name: String,
    pub doc_name: String,
    pub sql_func: String,
    pub tmpfile: String,
    /// The class source, one element per line.
    pub content: Vec<String>,
    /// The SQL that calls the generated stored procedure.
    pub sql: String,
}

impl ExecRun {
    /// The run is the one for identifier `id` and user code `code`.
    pub open spec fn is_run_for(self, id: Seq<char>, code: Seq<char>) -> bool {
        &&& self.id@ == id
        &&& self.class_name@ == "User.IrisDevRun"@ + id
        &&& self.doc_name@ == "User.IrisDevRun"@ + id + ".cls"@
        &&& self.sql_func@ == "User.IrisDevRun"@ + id + "_Execute"@
        &&& self.tmpfile@ == "/tmp/irisd_"@ + id + ".txt"@
        &&& texts(self.content@) == exec_class_source(self.class_name@, self.tmpfile@, code)
        &&& self.sql@ == "SELECT "@ + self.sql_func@ + "() AS output"@
    }
}

/// The names, class source and query of a run with identifier `id`.
pub fn plan_exec_run(id: &str, code: &str) -> (r: ExecRun)
    ensures
        r.is_run_for(id@, code@),
{
    let mut class_name = String::new();
    class_name.append("User.IrisDevRun");
    class_name.append(id);
    let mut doc_name = String::new();
    doc_name.append(class_name.as_str());
    doc_name.append(".cls");
    let mut sql_func = String::new();
    sql_func.append("User.IrisDevRun");
    sql_func.append(id);
    sql_func.append("_Execute");
    let mut tmpfile = String::new();
    tmpfile.append("/tmp/irisd_");
    tmpfile.append(id);
    tmpfile.append(".txt");
    let content = build_exec_class(class_name.as_str(), tmpfile.as_str(), code);
    let mut sql = String::new();
    sql.append("SELECT ");
    sql.append(sql_func.as_str());
    sql.append("() AS output");
    ExecRun { id: to_owned_string(id), class_name, doc_name, sql_func, tmpfile, content, sql }
}

/// A fresh run for `code`, named by the first 12 digits of a random UUID.
pub fn new_exec_run(code: &str) -> (r: ExecRun)
    ensures
        r.is_run_for(r.id@, code@),
        r.id@.len() == 12,
        forall|i: int| 0 <= i < 12 ==> is_lower_hex(#[trigger] r.id@[i]),
{
    let u = new_uuid_simple();
    let uv = chars_of(u.as_str());
    let id = string_of_range(&uv, 0, 12);
    plan_exec_run(id.as_str(), code)
}

/// A compile log entry type that says `error`, in any ASCII case.
pub open spec fn is_error_type(o: Option<String>) -> bool {
    match o {
        Some(t) => eq_ignore_ascii_case(t@, "error"@),
        None => false,
    }
}

/// The request a generator run makes next.
#[derive(Debug, Clone, Copy, PartialEq, Eq, Structural)]
pub enum GeneratorStep {
    /// Write the executor class.
    Put,
    /// Compile it.
    Compile,
    /// Run its query.
    Query,
    /// Delete the class again.
    Delete,
    /// The run is over.
    Finished,
}

/// The step after `step`, given whether its request succeeded: the class is
/// compiled once written and queried once compiled; once it is written, every
/// way out goes through `Delete`; a failed write ends the run at once.
pub open spec fn generator_step_after(step: GeneratorStep, succeeded: bool) -> GeneratorStep {
    match step {
        GeneratorStep::Put => if succeeded {
            GeneratorStep::Compile
        } else {
            GeneratorStep::Finished
        },
        GeneratorStep::Compile => if succeeded {
            GeneratorStep::Query
        } else {
            GeneratorStep::Delete
        },
        GeneratorStep::Query => GeneratorStep::Delete,
        GeneratorStep::Delete => GeneratorStep::Finished,
        GeneratorStep::Finished => GeneratorStep::Finished,
    }
}

/// Decides the next request of a generator run.
pub fn next_generator_step(step: GeneratorStep, succeeded: bool) -> (r: GeneratorStep)
    ensures
        r == generator_step_after(step, succeeded),
{
    match step {
        GeneratorStep::Put => if succeeded {
            GeneratorStep::Compile
        } else {
            GeneratorStep::Finished
        },
        GeneratorStep::Compile => if succeeded {
            GeneratorStep::Query
        } else {
            GeneratorStep::Delete
        },
        GeneratorStep::Query => GeneratorStep::Delete,
        GeneratorStep::Delete => GeneratorStep::Finished,
        GeneratorStep::Finished => GeneratorStep::Finished,
    }
}

/// Once the executor class is written, the run cannot finish without deleting
/// it: from `Compile` or `Query`, whatever the requests answer, the run comes
/// to `Delete` within two steps and only `Delete` leads to `Finished`.
pub proof fn lemma_written_class_is_deleted(step: GeneratorStep, a: bool, b: bool)
    requires
        step == GeneratorStep::Compile || step == GeneratorStep::Query,
    ensures
        generator_step_after(step, a) != GeneratorStep::Finished,
        generator_step_after(step, a) == GeneratorStep::Delete
            || generator_step_after(generator_step_after(step, a), b) == GeneratorStep::Delete,
        generator_step_after(GeneratorStep::Delete, b) == GeneratorStep::Finished,
{
}

/// Whether a compile log (the `type` of each entry, when the log is an array)
/// reports an error.
pub fn compile_log_has_errors(types: &Option<Vec<Option<String>>>) -> (b: bool)
    ensures
        b == (match types {
            Some(v) => exists|k: int| 0 <= k < v@.len() && is_error_type(#[trigger] v@[k]),
            None => false,
        }),
{
    match types {
        None => false,
        Some(v) => {
            let target = chars_of("error");
            let mut i: usize = 0;
            while i < v.len()
                invariant
                    i <= v.len(),
                    target@ == "error"@,
                    match types {
                        Some(w) => w@ == v@,
                        None => false,
                    },
                    forall|j: int| 0 <= j < i ==> !is_error_type(#[trigger] v@[j]),
                decreases v.len() - i,
            {
                match &v[i] {
                    Some(t) => {
                        let tv = chars_of(t.as_str());
                        if ascii_case_eq(&tv, &target) {
                            assert(is_error_type(v@[i as int]));
                            assert(exists|k: int| 0 <= k < v@.len() && is_error_type(#[trigger] v@[k]));
                            return true;
                        }
                    },
                    None => {},
                }
                i += 1;
            }
            false
        },
    }
}

/// `eq_ignore_ascii_case` on character vectors.
pub fn ascii_case_eq(a: &Vec<char>, b: &Vec<char>) -> (r: bool)
    ensures
        r == eq_ignore_ascii_case(a@, b@),
{
    if a.len() != b.len() {
        return false;
    }
    let mut i: usize = 0;
    while i < a.len()
        invariant
            i <= a.len() == b.len(),
            forall|j: int| 0 <= j < i ==> crate::text::ascii_lower(a@[j]) == crate::text::ascii_lower(b@[j]),
        decreases a.len() - i,
    {
        let x = a[i];
        let y = b[i];
        let lx = crate::text::lower_ascii(x);
        let ly = crate::text::lower_ascii(y);
        if lx != ly {
            return false;
        }
        i += 1;
    }
    true
}

/// The output a generator run returned: the query's `output` text (empty when
/// missing) with every `\x01` turned back into a newline.
pub fn generator_output(raw: Option<&str>) -> (r: String)
    ensures
        r@ == replace_char(
            match raw {
                Some(s) => s@,
                None => ""@,
            },
            '\u{1}',
            "\n"@,
        ),
{
    let s = match raw {
        Some(s) => s,
        None => "",
    };
    let v = chars_of(s);
    let mut r = String::new();
    append_replace_char(&mut r, &v, '\u{1}', "\n");
    r
}

/// What to do after a failed generator run.
#[derive(Debug, Clone, Copy, PartialEq, Eq, Structural)]
pub enum RetryDecision {
    /// Return the error.
    GiveUp,
    /// Wait this many milliseconds, then try again.
    RetryAfterMs(u64),
}

/// The number of generator runs made at most for one execution: the first
/// run and up to three retries.
pub const EXEC_ATTEMPTS: usize = 4;

/// A failure worth retrying: a server error or a network failure.
pub open spec fn is_retryable(msg: Seq<char>) -> bool {
    ||| contains(msg, "HTTP 5"@)
    ||| contains(msg, "error sending request"@)
    ||| contains(msg, "connection refused"@)
    ||| contains(msg, "timed out"@)
}

/// The delay before the run that follows failed run `attempt` (100, 200, 400 ms).
pub open spec fn retry_delay_ms(attempt: nat) -> u64 {
    if attempt == 0 {
        100
    } else if attempt == 1 {
        200
    } else {
        400
    }
}

/// The retry policy of generator execution: after failed run `attempt`
/// (counted from 0), give up when the failure is not retryable or when it was
/// the last of the four runs, else wait and run again.
pub open spec fn retry_policy(attempt: nat, msg: Seq<char>) -> RetryDecision {
    if !is_retryable(msg) || attempt + 1 >= EXEC_ATTEMPTS {
        RetryDecision::GiveUp
    } else {
        RetryDecision::RetryAfterMs(retry_delay_ms(attempt))
    }
}

/// Decides, after failed run `attempt` with error text `msg`, whether to retry.
pub fn retry_after_failure(attempt: usize, msg: &str) -> (r: RetryDecision)
    requires
        attempt < EXEC_ATTEMPTS,
    ensures
        r == retry_policy(attempt as nat, msg@),
{
    let retryable = str_contains(msg, "HTTP 5") || str_contains(msg, "error sending request")
        || str_contains(msg, "connection refused") || str_contains(msg, "timed out");
    if !retryable || attempt + 1 >= EXEC_ATTEMPTS {
        RetryDecision::GiveUp
    } else if attempt == 0 {
        RetryDecision::RetryAfterMs(100)
    } else if attempt == 1 {
        RetryDecision::RetryAfterMs(200)
    } else {
        RetryDecision::RetryAfterMs(400)
    }
}

/// Execution never runs more than four times: the policy gives up after
/// the fourth failed run, and a retry is only ever asked for before it.
pub proof fn lemma_retry_bounded(attempt: nat, msg: Seq<char>)
    ensures
        attempt + 1 >= EXEC_ATTEMPTS ==> retry_policy(attempt, msg) == RetryDecision::GiveUp,
        retry_policy(attempt, msg) matches RetryDecision::RetryAfterMs(_) ==> attempt + 1 < EXEC_ATTEMPTS,
        !is_retryable(msg) ==> retry_policy(attempt, msg) == RetryDecision::GiveUp,
{
}

// ── docker exec and client settings ──────────────────────────────────────────

/// The container that `execute` runs in: the one `IRIS_CONTAINER` named, or
/// the error `DOCKER_REQUIRED` when it is unset.
pub fn docker_container(cached: Option<&str>) -> (r: Result<String, String>)
    ensures
        match cached {
            Some(c) => r matches Ok(x) && x@ == c@,
            None => r matches Err(e) && e@ == "DOCKER_REQUIRED"@,
        },
{
    match cached {
        Some(c) => Ok(to_owned_string(c)),
        None => Err(to_owned_string("DOCKER_REQUIRED")),
    }
}

/// The arguments of `docker` that open an IRIS session in `namespace` inside `container`.
pub fn docker_exec_args(container: &str, namespace: &str) -> (r: Vec<String>)
    ensures
        texts(r@) == seq!["exec"@, "-i"@, container@, "iris"@, "session"@, "IRIS"@, "-U"@, namespace@],
{
    let mut r: Vec<String> = Vec::new();
    push_str_text(&mut r, "exec");
    push_str_text(&mut r, "-i");
    push_str_text(&mut r, container);
    push_str_text(&mut r, "iris");
    push_str_text(&mut r, "session");
    push_str_text(&mut r, "IRIS");
    push_str_text(&mut r, "-U");
    push_str_text(&mut r, namespace);
    assert(texts(r@) =~= seq!["exec"@, "-i"@, container@, "iris"@, "session"@, "IRIS"@, "-U"@, namespace@]);
    r
}

/// What the session reads on its input: the code, then `halt` on a line of its own.
pub fn session_input(code: &str) -> (r: String)
    ensures
        r@ == code@ + "\nhalt\n"@,
{
    let mut r = String::new();
    r.append(code);
    r.append("\nhalt\n");
    r
}

/// Certificate checks are off only when `IRIS_INSECURE` is `true` or `1`.
pub fn insecure_tls(setting: Option<&str>) -> (b: bool)
    ensures
        b == match setting {
            Some(v) => v@ == "true"@ || v@ == "1"@,
            None => false,
        },
{
    match setting {
        Some(v) => crate::text::str_eq(v, "true") || crate::text::str_eq(v, "1"),
        None => false,
    }
}

} // verus!
