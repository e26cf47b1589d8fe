//! Per-workspace IRIS connection settings (`.iris-dev.toml`) and how they
//! combine with command-line flags and the `IRIS_*` environment.
//!
//! Priority order: CLI flags > .iris-dev.toml > env vars > auto-discovery.

use vstd::prelude::*;
use crate::iris::connection::{AtelierVersion, DiscoverySource, IrisConnection};
use crate::iris::discovery::{base_url_for, build_base_url, or_default, slash_trimmed, IrisEnv};
use crate::text::{
    append_join, chars_of, is_ws, join, lemma_first_index_at, lemma_lines_of_join, lines, lines_from,
    no_newline, opt_view, push_str_text, push_text, split_once_first, str_eq, strip_cr, texts,
    to_owned_string, trim, trim_char_string, trim_end, trim_start,
};
use crate::manifest::resolve::{
    basic_string_body, lemma_body_of_escaped, lemma_escape_each_plain, lemma_unescape_escape_each, toml_plain,
    toml_unescape,
};

verus! {

/// Parsed contents of `.iris-dev.toml`. All fields are optional.
pub struct WorkspaceConfig {
    pub container: Option<String>,
    pub namespace: Option<String>,
    pub host: Option<String>,
    pub web_port: Option<u16>,
    /// URL path prefix for the IRIS web gateway, e.g. "irisaicore" when the
    /// Atelier API is served at http://host:port/irisaicore/api/atelier/...
    pub web_prefix: Option<String>,
    /// URL scheme: "http" or "https". Defaults to "http".
    pub scheme: Option<String>,
    pub username: Option<String>,
    pub password: Option<String>,
}

/// What the workspace settings ask for.
pub enum ConfigPlan {
    /// Use this connection (discovery then probes it).
    Connect(IrisConnection),
    /// Let discovery find this container: set `IRIS_CONTAINER`, and
    /// `IRIS_NAMESPACE`, `IRIS_USERNAME`, `IRIS_PASSWORD` for the parts given.
    UseContainer { container: String, namespace: Option<String>, username: Option<String>, password: Option<String> },
    /// The settings name no connection.
    Nothing,
}

/// The first of two settings that is present.
pub open spec fn first_of(a: Option<Seq<char>>, b: Option<Seq<char>>) -> Option<Seq<char>> {
    match a {
        Some(x) => Some(x),
        None => b,
    }
}

/// The connection a workspace `host` setting describes: its scheme and path
/// prefix (from the file, else the environment) trimmed of `/`, the port
/// (default 52773), and namespace, user and password taken from the file,
/// else the environment, else `namespace_default`, `_SYSTEM` and `SYS`.
pub open spec fn host_connection(cfg: WorkspaceConfig, host: Seq<char>, namespace_default: Seq<char>, env: IrisEnv) -> (Seq<char>, Seq<char>, Seq<char>, Seq<char>) {
    let port: u16 = match cfg.web_port {
        Some(p) => p,
        None => 52773,
    };
    let scheme = or_default(slash_trimmed(first_of(opt_view(cfg.scheme), opt_view(env.scheme))), "http"@);
    let prefix = slash_trimmed(first_of(opt_view(cfg.web_prefix), opt_view(env.web_prefix)));
    (
        base_url_for(scheme, host, port, prefix),
        or_default(first_of(opt_view(cfg.namespace), opt_view(env.namespace)), namespace_default),
        or_default(first_of(opt_view(cfg.username), opt_view(env.username)), "_SYSTEM"@),
        or_default(first_of(opt_view(cfg.password), opt_view(env.password)), "SYS"@),
    )
}

/// `plan` is what the settings `cfg` ask for: a direct connection when they
/// name a host, else the container they name, else nothing.
pub open spec fn config_plan_matches(cfg: WorkspaceConfig, namespace_default: Seq<char>, env: IrisEnv, plan: ConfigPlan) -> bool {
    match cfg.host {
        Some(host) => plan matches ConfigPlan::Connect(c) && {
            let (url, ns, user, pw) = host_connection(cfg, host@, namespace_default, env);
            &&& c.base_url@ == url
            &&& c.namespace@ == ns
            &&& c.username@ == user
            &&& c.password@ == pw
            &&& c.version is None
            &&& c.atelier_version == AtelierVersion::V1
            &&& c.source == DiscoverySource::EnvVar
            &&& c.port_superserver is None
        },
        None => match cfg.container {
            Some(container) => plan matches ConfigPlan::UseContainer { container: k, namespace, username, password } && {
                &&& k@ == container@
                &&& opt_view(namespace) == opt_view(cfg.namespace)
                &&& opt_view(username) == opt_view(cfg.username)
                &&& opt_view(password) == opt_view(cfg.password)
            },
            None => plan is Nothing,
        },
    }
}

/// Settings in `.iris-dev.toml` win over the environment: when the file gives
/// the scheme, prefix, namespace, user and password, the connection it
/// describes is the same whatever the `IRIS_*` variables say.
pub proof fn lemma_file_settings_override_env(
    cfg: WorkspaceConfig,
    host: Seq<char>,
    namespace_default: Seq<char>,
    env1: IrisEnv,
    env2: IrisEnv,
)
    requires
        cfg.scheme is Some,
        cfg.web_prefix is Some,
        cfg.namespace is Some,
        cfg.username is Some,
        cfg.password is Some,
    ensures
        host_connection(cfg, host, namespace_default, env1) == host_connection(cfg, host, namespace_default, env2),
{
}

fn first_value(a: &Option<String>, b: &Option<String>) -> (r: Option<String>)
    ensures
        opt_view(r) == first_of(opt_view(*a), opt_view(*b)),
{
    match a {
        Some(x) => Some(to_owned_string(x.as_str())),
        None => match b {
            Some(y) => Some(to_owned_string(y.as_str())),
            None => None,
        },
    }
}

fn trimmed_setting(o: &Option<String>) -> (r: Option<String>)
    ensures
        opt_view(r) == slash_trimmed(opt_view(*o)),
{
    match o {
        Some(s) => {
            let t = trim_char_string(s.as_str(), '/');
            let tv = chars_of(t.as_str());
            if tv.len() > 0 {
                Some(t)
            } else {
                None
            }
        },
        None => None,
    }
}

fn copy_setting(o: &Option<String>) -> (r: Option<String>)
    ensures
        opt_view(r) == opt_view(*o),
{
    match o {
        Some(s) => Some(to_owned_string(s.as_str())),
        None => None,
    }
}

fn setting_or(o: &Option<String>, d: &str) -> (r: String)
    ensures
        r@ == or_default(opt_view(*o), d@),
{
    match o {
        Some(s) => to_owned_string(s.as_str()),
        None => to_owned_string(d),
    }
}

/// What the workspace settings ask for, with the `IRIS_*` environment filling
/// the parts the file leaves out.
pub fn workspace_config_to_connection(cfg: &WorkspaceConfig, namespace_default: &str, env: &IrisEnv) -> (plan: ConfigPlan)
    ensures
        config_plan_matches(*cfg, namespace_default@, *env, plan),
{
    match &cfg.host {
        Some(host) => {
            let port: u16 = match cfg.web_port {
                Some(p) => p,
                None => 52773,
            };
            let scheme_setting = first_value(&cfg.scheme, &env.scheme);
            let scheme_opt = trimmed_setting(&scheme_setting);
            let scheme = setting_or(&scheme_opt, "http");
            let prefix_setting = first_value(&cfg.web_prefix, &env.web_prefix);
            let prefix = trimmed_setting(&prefix_setting);
            let base_url = build_base_url(scheme.as_str(), host.as_str(), port, &prefix);
            let ns_setting = first_value(&cfg.namespace, &env.namespace);
            let namespace = setting_or(&ns_setting, namespace_default);
            let user_setting = first_value(&cfg.username, &env.username);
            let username = setting_or(&user_setting, "_SYSTEM");
            let pw_setting = first_value(&cfg.password, &env.password);
            let password = setting_or(&pw_setting, "SYS");
            ConfigPlan::Connect(
                IrisConnection::new(
                    base_url.as_str(),
                    namespace.as_str(),
                    username.as_str(),
                    password.as_str(),
                    DiscoverySource::EnvVar,
                ),
            )
        },
        None => match &cfg.container {
            Some(container) => ConfigPlan::UseContainer {
                container: to_owned_string(container.as_str()),
                namespace: copy_setting(&cfg.namespace),
                username: copy_setting(&cfg.username),
                password: copy_setting(&cfg.password),
            },
            None => ConfigPlan::Nothing,
        },
    }
}

/// Apply workspace settings unless a connection was given on the command line:
/// an explicit connection is used as it is; otherwise the settings loaded
/// from `.iris-dev.toml` (none when the file is absent or unreadable) decide.
pub fn apply_workspace_config(
    explicit: Option<IrisConnection>,
    cfg: Option<WorkspaceConfig>,
    namespace: &str,
    env: &IrisEnv,
) -> (plan: ConfigPlan)
    ensures
        match explicit {
            Some(c) => plan == ConfigPlan::Connect(c),
            None => match cfg {
                Some(w) => config_plan_matches(w, namespace@, *env, plan),
                None => plan is Nothing,
            },
        },
{
    match explicit {
        Some(c) => ConfigPlan::Connect(c),
        None => match cfg {
            Some(w) => workspace_config_to_connection(&w, namespace, env),
            None => ConfigPlan::Nothing,
        },
    }
}

/// The workspace root given explicitly: `OBJECTSCRIPT_WORKSPACE` when it is set
/// and not empty, else the path argument unless it is empty or `.`; `None`
/// means the root is found by walking up from the current directory.
pub open spec fn explicit_root(env_workspace: Option<Seq<char>>, workspace_path: Option<Seq<char>>) -> Option<Seq<char>> {
    match env_workspace {
        Some(w) if w.len() > 0 => Some(w),
        _ => match workspace_path {
            Some(p) if p.len() > 0 && p != "."@ => Some(p),
            _ => None,
        },
    }
}

/// The workspace root named by the environment or the caller, if any.
pub fn explicit_workspace_root(env_workspace: Option<&str>, workspace_path: Option<&str>) -> (r: Option<String>)
    ensures
        opt_view(r) == explicit_root(
            match env_workspace {
                Some(w) => Some(w@),
                None => None,
            },
            match workspace_path {
                Some(p) => Some(p@),
                None => None,
            },
        ),
{
    match env_workspace {
        Some(w) => {
            let wv = chars_of(w);
            if wv.len() > 0 {
                return Some(to_owned_string(w));
            }
        },
        None => {},
    }
    match workspace_path {
        Some(p) => {
            let pv = chars_of(p);
            if pv.len() > 0 && !str_eq(p, ".") {
                Some(to_owned_string(p))
            } else {
                None
            }
        },
        None => None,
    }
}

/// The comment lines that open the starter file.
pub open spec fn starter_head() -> Seq<Seq<char>> {
    seq!["# iris-dev workspace configuration"@, "# Commit this file to share connection settings with your team."@, ""@, "# Docker container name (for local development)"@]
}

/// The lines between the container and namespace settings.
pub open spec fn starter_middle() -> Seq<Seq<char>> {
    seq![""@, "# Default IRIS namespace"@]
}

/// The commented-out alternatives that close the starter file.
pub open spec fn starter_tail() -> Seq<Seq<char>> {
    seq![""@, "# Alternative: direct host connection (for remote or CI IRIS)"@, "# host = \"iris.example.com\""@, "# web_port = 52773"@, "# web_prefix = \"\"  # URL path prefix, e.g. \"irisaicore\" when Atelier is at /irisaicore/api/atelier/"@, "# scheme = \"http\"  # Use \"https\" for TLS-protected IRIS web gateways"@, ""@, "# Credentials (optional)"@, "# Use IRIS_USERNAME / IRIS_PASSWORD env vars instead of committing credentials."@, "# username = \"_SYSTEM\""@, "# password = \"...\"  # not recommended in committed files"@]
}

/// A `key = "value"` line with the value written as it is.
pub open spec fn setting_text(key: Seq<char>, value: Seq<char>) -> Seq<char> {
    key + " = \""@ + value + "\""@
}

/// The lines of the starter file: comments, the container and namespace
/// settings, and the other settings commented out.
pub open spec fn starter_lines(container: Seq<char>, namespace: Seq<char>) -> Seq<Seq<char>> {
    starter_head() + seq![setting_text("container"@, container)] + starter_middle() + seq![
        setting_text("namespace"@, namespace),
    ] + starter_tail()
}

/// The starter `.iris-dev.toml` text for a container and namespace: its
/// lines, each ended by `\n`.
pub open spec fn starter_toml(container: Seq<char>, namespace: Seq<char>) -> Seq<char> {
    join(starter_lines(container, namespace), "\n"@) + "\n"@
}

fn setting_string(key: &str, value: &str) -> (r: String)
    ensures
        r@ == setting_text(key@, value@),
{
    let mut r = String::new();
    r.append(key);
    r.append(" = \"");
    r.append(value);
    r.append("\"");
    r
}

/// Generate starter `.iris-dev.toml` content with inline comments.
pub fn generate_toml_content(container: &str, namespace: &str) -> (r: String)
    ensures
        r@ == starter_toml(container@, namespace@),
{
    let mut ls: Vec<String> = Vec::new();
    push_str_text(&mut ls, "# iris-dev workspace configuration");
    push_str_text(&mut ls, "# Commit this file to share connection settings with your team.");
    push_str_text(&mut ls, "");
    push_str_text(&mut ls, "# Docker container name (for local development)");
    push_text(&mut ls, setting_string("container", container));
    push_str_text(&mut ls, "");
    push_str_text(&mut ls, "# Default IRIS namespace");
    push_text(&mut ls, setting_string("namespace", namespace));
    push_str_text(&mut ls, "");
    push_str_text(&mut ls, "# Alternative: direct host connection (for remote or CI IRIS)");
    push_str_text(&mut ls, "# host = \"iris.example.com\"");
    push_str_text(&mut ls, "# web_port = 52773");
    push_str_text(&mut ls, "# web_prefix = \"\"  # URL path prefix, e.g. \"irisaicore\" when Atelier is at /irisaicore/api/atelier/");
    push_str_text(&mut ls, "# scheme = \"http\"  # Use \"https\" for TLS-protected IRIS web gateways");
    push_str_text(&mut ls, "");
    push_str_text(&mut ls, "# Credentials (optional)");
    push_str_text(&mut ls, "# Use IRIS_USERNAME / IRIS_PASSWORD env vars instead of committing credentials.");
    push_str_text(&mut ls, "# username = \"_SYSTEM\"");
    push_str_text(&mut ls, "# password = \"...\"  # not recommended in committed files");
    proof {
        reveal_strlit("");
        reveal_strlit("# Docker container name (for local development)");
        reveal_strlit("# host = \"iris.example.com\"");
        reveal_strlit("# Default IRIS namespace");
        reveal_strlit("# web_prefix = \"\"  # URL path prefix, e.g. \"irisaicore\" when Atelier is at /irisaicore/api/atelier/");
        reveal_strlit("# Credentials (optional)");
        reveal_strlit("# Use IRIS_USERNAME / IRIS_PASSWORD env vars instead of committing credentials.");
        reveal_strlit("# web_port = 52773");
        reveal_strlit("# password = \"...\"  # not recommended in committed files");
        reveal_strlit("# iris-dev workspace configuration");
        reveal_strlit("# Alternative: direct host connection (for remote or CI IRIS)");
        reveal_strlit("# Commit this file to share connection settings with your team.");
        reveal_strlit("# username = \"_SYSTEM\"");
        reveal_strlit("# scheme = \"http\"  # Use \"https\" for TLS-protected IRIS web gateways");
        reveal_strlit("container");
        reveal_strlit("namespace");
        assert(texts(ls@) =~= starter_lines(container@, namespace@));
    }
    let mut r = String::new();
    append_join(&mut r, &ls, "\n");
    r.append("\n");
    assert(texts(ls@) == ls@.map_values(|p: String| p@));
    r
}

// ── Reading the settings file back ───────────────────────────────────────────

/// A trimmed `key = "value"` line read as TOML reads it: the key is the
/// trimmed text before the first `=`; after it, a basic string, followed by
/// nothing but whitespace or a comment. Gives the key and the unescaped value.
pub open spec fn setting_line(t: Seq<char>) -> Option<(Seq<char>, Seq<char>)> {
    let parts = split_once_first(t, '=');
    match parts.1 {
        None => None,
        Some(after) => {
            let v = trim(after);
            if v.len() > 0 && v[0] == '"' {
                match basic_string_body(v.drop_first()) {
                    Some(r) => if trim(r.1).len() == 0 || trim(r.1)[0] == '#' {
                        Some((trim(parts.0), toml_unescape(r.0)))
                    } else {
                        None
                    },
                    None => None,
                }
            } else {
                None
            }
        },
    }
}

/// A line TOML skips: blank, or a comment.
pub open spec fn skipped_line(l: Seq<char>) -> bool {
    trim(l).len() == 0 || trim(l)[0] == '#'
}

/// The string settings of a file made of blank lines, comments and
/// `key = "value"` lines, in order; nothing when another kind of line occurs.
pub open spec fn string_settings(ls: Seq<Seq<char>>) -> Option<Seq<(Seq<char>, Seq<char>)>>
    decreases ls.len(),
{
    if ls.len() == 0 {
        Some(Seq::empty())
    } else {
        match string_settings(ls.drop_last()) {
            None => None,
            Some(front) => if skipped_line(ls.last()) {
                Some(front)
            } else {
                match setting_line(trim(ls.last())) {
                    Some(kv) => Some(front.push(kv)),
                    None => None,
                }
            },
        }
    }
}

proof fn lemma_settings_append(a: Seq<Seq<char>>, b: Seq<Seq<char>>)
    ensures
        string_settings(a + b) == match (string_settings(a), string_settings(b)) {
            (Some(x), Some(y)) => Some(x + y),
            _ => None,
        },
    decreases b.len(),
{
    if b.len() == 0 {
        assert(a + b =~= a);
        if let Some(x) = string_settings(a) {
            assert(x + Seq::<(Seq<char>, Seq<char>)>::empty() =~= x);
        }
    } else {
        lemma_settings_append(a, b.drop_last());
        assert((a + b).drop_last() =~= a + b.drop_last());
        assert((a + b).last() == b.last());
        if let (Some(x), Some(y)) = (string_settings(a), string_settings(b.drop_last())) {
            if !skipped_line(b.last()) {
                if let Some(kv) = setting_line(trim(b.last())) {
                    assert(x + y.push(kv) =~= (x + y).push(kv));
                }
            }
        }
    }
}

proof fn lemma_skipped_only(ls: Seq<Seq<char>>)
    requires
        forall|i: int| 0 <= i < ls.len() ==> skipped_line(#[trigger] ls[i]),
    ensures
        string_settings(ls) == Some(Seq::<(Seq<char>, Seq<char>)>::empty()),
    decreases ls.len(),
{
    if ls.len() > 0 {
        lemma_skipped_only(ls.drop_last());
        assert(skipped_line(ls[ls.len() - 1]));
    }
}

proof fn lemma_comment_line(l: Seq<char>)
    requires
        l.len() > 0,
        l[0] == '#',
        !is_ws(l.last()),
    ensures
        trim(l) == l,
        skipped_line(l),
{
    assert(trim_start(l) == l);
}

/// A value TOML reads back from a basic string as it is written: no `\\`,
/// no `"`, and no control character.
pub open spec fn plain_setting_value(v: Seq<char>) -> bool {
    &&& toml_plain(v)
    &&& forall|i: int| 0 <= i < v.len() ==> (v[i] as u32) >= 0x20 && (v[i] as u32) != 0x7f
}

proof fn lemma_setting_line_reads(key: Seq<char>, v: Seq<char>)
    requires
        key.len() > 0,
        !is_ws(key[0]),
        key[0] != '#',
        !is_ws(key.last()),
        forall|j: int| 0 <= j < key.len() ==> key[j] != '=',
        plain_setting_value(v),
    ensures
        trim(setting_text(key, v)) == setting_text(key, v),
        !skipped_line(setting_text(key, v)),
        setting_line(setting_text(key, v)) == Some((key, v)),
{
    reveal_strlit(" = \"");
    reveal_strlit("\"");
    let t = setting_text(key, v);
    let k = key.len() as int;
    assert(t[0] == key[0]);
    assert(t.last() == '"');
    assert(trim_start(t) == t);
    assert(trim(t) == t);
    assert(t[k] == ' ' && t[k + 1] == '=');
    lemma_first_index_at(t, '=', k + 1);
    let before = t.subrange(0, k + 1);
    assert(before =~= key.push(' '));
    assert(before.drop_last() =~= key);
    assert(trim_start(before) == before);
    assert(trim_end(before) == trim_end(key));
    assert(trim_end(key) == key);
    let after = t.subrange(k + 2, t.len() as int);
    let q = seq!['"'] + v + seq!['"'];
    assert(after =~= seq![' '] + q);
    assert(after.drop_first() =~= q);
    assert(trim_start(after) == trim_start(q));
    assert(trim_start(q) == q);
    assert(trim_end(q) == q);
    assert(trim(after) == q);
    assert(q.drop_first() =~= v + seq!['"'] + Seq::<char>::empty());
    lemma_escape_each_plain(v);
    lemma_body_of_escaped(v, Seq::<char>::empty());
    lemma_unescape_escape_each(v);
    assert(trim(Seq::<char>::empty()).len() == 0);
}

/// The starter file reads back, as TOML reads it, to exactly two string
/// settings: `container` with the container and `namespace` with the
/// namespace it was made with. Every other line is blank or a comment, so
/// host, port, prefix, scheme, user and password stay unset. This holds when
/// both values are written as they are, with no `\\`, `"` or control
/// character (the values are not escaped).
pub proof fn lemma_starter_toml_reads_back(container: Seq<char>, namespace: Seq<char>)
    requires
        plain_setting_value(container),
        plain_setting_value(namespace),
    ensures
        string_settings(lines(starter_toml(container, namespace))) == Some(
            seq![("container"@, container), ("namespace"@, namespace)],
        ),
{
    reveal_strlit("container");
    reveal_strlit("namespace");
    reveal_strlit("\n");
    reveal_strlit(" = \"");
    reveal_strlit("\"");
    reveal_strlit("");
    reveal_strlit("# Docker container name (for local development)");
    reveal_strlit("# host = \"iris.example.com\"");
    reveal_strlit("# Default IRIS namespace");
    reveal_strlit("# web_prefix = \"\"  # URL path prefix, e.g. \"irisaicore\" when Atelier is at /irisaicore/api/atelier/");
    reveal_strlit("# Credentials (optional)");
    reveal_strlit("# Use IRIS_USERNAME / IRIS_PASSWORD env vars instead of committing credentials.");
    reveal_strlit("# web_port = 52773");
    reveal_strlit("# password = \"...\"  # not recommended in committed files");
    reveal_strlit("# iris-dev workspace configuration");
    reveal_strlit("# Alternative: direct host connection (for remote or CI IRIS)");
    reveal_strlit("# Commit this file to share connection settings with your team.");
    reveal_strlit("# username = \"_SYSTEM\"");
    reveal_strlit("# scheme = \"http\"  # Use \"https\" for TLS-protected IRIS web gateways");
    let h = starter_head();
    let m = starter_middle();
    let t = starter_tail();
    let cl = setting_text("container"@, container);
    let nl = setting_text("namespace"@, namespace);
    let ls = starter_lines(container, namespace);
    lemma_setting_line_reads("container"@, container);
    lemma_setting_line_reads("namespace"@, namespace);
    lemma_comment_line(h[0]);
    lemma_comment_line(h[1]);
    assert(h[2].len() == 0);
    lemma_comment_line(h[3]);
    assert(m[0].len() == 0);
    lemma_comment_line(m[1]);
    assert(t[0].len() == 0);
    lemma_comment_line(t[1]);
    lemma_comment_line(t[2]);
    lemma_comment_line(t[3]);
    lemma_comment_line(t[4]);
    lemma_comment_line(t[5]);
    assert(t[6].len() == 0);
    lemma_comment_line(t[7]);
    lemma_comment_line(t[8]);
    lemma_comment_line(t[9]);
    lemma_comment_line(t[10]);
    lemma_skipped_only(h);
    lemma_skipped_only(m);
    lemma_skipped_only(t);
    assert(string_settings(seq![cl]) == Some(seq![("container"@, container)])) by {
        assert(seq![cl].drop_last() =~= Seq::<Seq<char>>::empty());
        assert(string_settings(Seq::<Seq<char>>::empty()) == Some(Seq::<(Seq<char>, Seq<char>)>::empty()));
        assert(seq![cl].last() == cl);
        assert(Seq::<(Seq<char>, Seq<char>)>::empty().push(("container"@, container)) =~= seq![("container"@, container)]);
    }
    assert(string_settings(seq![nl]) == Some(seq![("namespace"@, namespace)])) by {
        assert(seq![nl].drop_last() =~= Seq::<Seq<char>>::empty());
        assert(string_settings(Seq::<Seq<char>>::empty()) == Some(Seq::<(Seq<char>, Seq<char>)>::empty()));
        assert(seq![nl].last() == nl);
        assert(Seq::<(Seq<char>, Seq<char>)>::empty().push(("namespace"@, namespace)) =~= seq![("namespace"@, namespace)]);
    }
    lemma_settings_append(h, seq![cl]);
    lemma_settings_append(h + seq![cl], m);
    lemma_settings_append(h + seq![cl] + m, seq![nl]);
    lemma_settings_append(h + seq![cl] + m + seq![nl], t);
    let e = Seq::<(Seq<char>, Seq<char>)>::empty();
    assert(e + seq![("container"@, container)] + e + seq![("namespace"@, namespace)] + e =~= seq![
        ("container"@, container),
        ("namespace"@, namespace),
    ]);
    // The text splits back into exactly these lines.
    assert forall|i: int| 0 <= i < ls.len() implies no_newline(#[trigger] ls[i]) && strip_cr(ls[i]) == ls[i] by {
        if i == 4 {
            assert(ls[i] == cl);
        } else if i == 7 {
            assert(ls[i] == nl);
        }
    }
    lemma_lines_of_join(ls, Seq::<char>::empty());
    assert(starter_toml(container, namespace) + Seq::<char>::empty() =~= starter_toml(container, namespace));
    assert(lines_from(seq![], Seq::<char>::empty()) =~= Seq::<Seq<char>>::empty());
    assert(ls.map_values(|l: Seq<char>| strip_cr(l)) =~= ls);
    assert(lines(starter_toml(container, namespace)) =~= ls);
}

} // verus!
