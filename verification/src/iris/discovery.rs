//! The decisions of the IRIS discovery cascade: which steps run and in what
//! order, the connection that the `IRIS_*` environment describes, what an
//! Atelier probe reply means, and how Docker containers are ranked.

use vstd::prelude::*;
use crate::iris::connection::{AtelierVersion, DiscoverySource, IrisConnection};
use crate::text::{
    chars_of, contains, dec, ends_with, lowercase, opt_view, parse_unsigned, parse_unsigned_exec,
    push_dec, replace_char, replace_char_string, starts_with, str_contains, str_ends_with, str_eq,
    str_starts_with, to_lowercase, to_owned_string, to_uppercase, trim_char, trim_char_string,
    trim_start_char, trim_start_char_len, string_of_range, uppercase,
};

verus! {

// ── scoring ──────────────────────────────────────────────────────────────────

/// A name as the scorer compares it: lower-cased, with `-` read as `_`.
pub open spec fn normalized_name(s: Seq<char>) -> Seq<char> {
    replace_char(lowercase(s), '-', "_"@)
}

/// How closely a container name matches the workspace directory name:
/// 100 for the same name, 80 for a prefix, 60 for a part, 0 otherwise (and
/// always 0 for an empty workspace name); a match gains 10 for an `_iris`
/// ending and 5 for a `_test` ending.
pub open spec fn container_name_score(container: Seq<char>, workspace: Seq<char>) -> u32 {
    if workspace.len() == 0 {
        0
    } else {
        let cn = normalized_name(container);
        let wb = normalized_name(workspace);
        let base: u32 = if cn == wb {
            100
        } else if starts_with(cn, wb) {
            80
        } else if contains(cn, wb) {
            60
        } else {
            0
        };
        if base == 0 {
            0
        } else {
            let iris_bonus: u32 = if ends_with(cn, "-iris"@) || ends_with(cn, "_iris"@) {
                10
            } else {
                0
            };
            let test_bonus: u32 = if ends_with(cn, "-test"@) || ends_with(cn, "_test"@) {
                5
            } else {
                0
            };
            (base + iris_bonus + test_bonus) as u32
        }
    }
}

/// Score a container name against a workspace basename.
pub fn score_container_name(container_name: &str, workspace_basename: &str) -> (r: u32)
    ensures
        r == container_name_score(container_name@, workspace_basename@),
        r <= 115,
{
    let wv = chars_of(workspace_basename);
    if wv.len() == 0 {
        return 0;
    }
    let cl = to_lowercase(container_name);
    let cn = replace_char_string(cl.as_str(), '-', "_");
    let wl = to_lowercase(workspace_basename);
    let wb = replace_char_string(wl.as_str(), '-', "_");
    let base: u32 = if str_eq(cn.as_str(), wb.as_str()) {
        100
    } else if str_starts_with(cn.as_str(), wb.as_str()) {
        80
    } else if str_contains(cn.as_str(), wb.as_str()) {
        60
    } else {
        0
    };
    if base == 0 {
        return 0;
    }
    let iris_bonus: u32 = if str_ends_with(cn.as_str(), "-iris") || str_ends_with(cn.as_str(), "_iris") {
        10
    } else {
        0
    };
    let test_bonus: u32 = if str_ends_with(cn.as_str(), "-test") || str_ends_with(cn.as_str(), "_test") {
        5
    } else {
        0
    };
    base + iris_bonus + test_bonus
}

/// Closer name matches score higher: a container named like the workspace
/// scores at least 100, one whose name starts with it 80 to 95, one whose
/// name merely contains it 60 to 75, and any other 0.
pub proof fn lemma_closer_match_scores_higher(container: Seq<char>, workspace: Seq<char>)
    requires
        workspace.len() > 0,
    ensures
        ({
            let cn = normalized_name(container);
            let wb = normalized_name(workspace);
            let s = container_name_score(container, workspace);
            &&& cn == wb ==> 100 <= s <= 115
            &&& cn != wb && starts_with(cn, wb) ==> 80 <= s <= 95
            &&& cn != wb && !starts_with(cn, wb) && contains(cn, wb) ==> 60 <= s <= 75
            &&& !contains(cn, wb) && !starts_with(cn, wb) && cn != wb ==> s == 0
        }),
{
}

// ── the cascade ──────────────────────────────────────────────────────────────

/// One step of the discovery cascade.
#[derive(Debug, Clone, Copy, PartialEq, Eq, Structural)]
pub enum DiscoveryStep {
    /// Probe the connection given by flags (or by the workspace's `host`) and use it.
    Explicit,
    /// The container the workspace names (`IRIS_CONTAINER`).
    NamedContainer,
    /// The connection described by `IRIS_HOST` and the other `IRIS_*` variables.
    EnvVars,
    /// `objectscript.conn` in `.vscode/settings.json`.
    VsCodeSettings,
    /// Running IRIS containers, best name match first.
    Docker,
    /// The usual IRIS web ports on localhost.
    LocalhostScan,
}

/// The steps of the cascade in the order they are tried; the first that finds
/// IRIS ends the search: flags, the workspace's container, the environment,
/// VS Code settings, Docker containers, then a localhost scan. An explicit
/// connection is used at once; the container step runs only when a container
/// is named (not empty), and the environment step only when `IRIS_HOST` is set.
pub open spec fn discovery_plan(explicit: bool, host_set: bool, container: Option<Seq<char>>) -> Seq<DiscoveryStep> {
    if explicit {
        seq![DiscoveryStep::Explicit]
    } else {
        (if container matches Some(c) && c.len() > 0 {
            seq![DiscoveryStep::NamedContainer]
        } else {
            Seq::empty()
        }) + (if host_set {
            seq![DiscoveryStep::EnvVars]
        } else {
            Seq::empty()
        }) + seq![DiscoveryStep::VsCodeSettings, DiscoveryStep::Docker, DiscoveryStep::LocalhostScan]
    }
}

/// The steps of the discovery cascade, in order.
pub fn discovery_steps(explicit: bool, host_set: bool, container: &Option<String>) -> (r: Vec<DiscoveryStep>)
    ensures
        r@ == discovery_plan(explicit, host_set, opt_view(*container)),
{
    let mut r: Vec<DiscoveryStep> = Vec::new();
    if explicit {
        r.push(DiscoveryStep::Explicit);
        assert(r@ =~= seq![DiscoveryStep::Explicit]);
        return r;
    }
    match container {
        Some(c) => {
            let cv = chars_of(c.as_str());
            if cv.len() > 0 {
                r.push(DiscoveryStep::NamedContainer);
            }
        },
        None => {},
    }
    if host_set {
        r.push(DiscoveryStep::EnvVars);
    }
    r.push(DiscoveryStep::VsCodeSettings);
    r.push(DiscoveryStep::Docker);
    r.push(DiscoveryStep::LocalhostScan);
    assert(r@ =~= discovery_plan(explicit, host_set, opt_view(*container)));
    r
}

/// The web ports the localhost scan probes, in the order their answers are read.
pub fn scan_ports() -> (r: Vec<u16>)
    ensures
        r@ == seq![52773u16, 41773u16, 51773u16, 8080u16],
{
    let r: Vec<u16> = vec![52773, 41773, 51773, 8080];
    r
}

// ── the environment ──────────────────────────────────────────────────────────

/// The `IRIS_*` environment variables that discovery reads (`None` when unset).
pub struct IrisEnv {
    pub host: Option<String>,
    pub web_port: Option<String>,
    pub username: Option<String>,
    pub password: Option<String>,
    pub namespace: Option<String>,
    pub scheme: Option<String>,
    pub web_prefix: Option<String>,
    pub container: Option<String>,
}

/// `o`, or `d` when it is absent.
pub open spec fn or_default(o: Option<Seq<char>>, d: Seq<char>) -> Seq<char> {
    match o {
        Some(s) => s,
        None => d,
    }
}

/// A setting with its surrounding `/` removed, absent when nothing is left.
pub open spec fn slash_trimmed(o: Option<Seq<char>>) -> Option<Seq<char>> {
    match o {
        Some(s) => if trim_char(s, '/').len() > 0 {
            Some(trim_char(s, '/'))
        } else {
            None
        },
        None => None,
    }
}

/// The web port a text names, or 52773 when it is absent or not a `u16`.
pub open spec fn port_or_default(o: Option<Seq<char>>) -> u16 {
    match o {
        Some(p) => match parse_unsigned(p, 65535) {
            Some(v) => v as u16,
            None => 52773,
        },
        None => 52773,
    }
}

/// `scheme://host:port`, followed by `/prefix` when there is one.
pub open spec fn base_url_for(scheme: Seq<char>, host: Seq<char>, port: u16, prefix: Option<Seq<char>>) -> Seq<char> {
    scheme + "://"@ + host + ":"@ + dec(port as nat) + match prefix {
        Some(p) => "/"@ + p,
        None => Seq::empty(),
    }
}

/// What the environment step does.
pub enum EnvPlan {
    /// A scheme other than `http` or a path prefix is set: connect to this URL
    /// directly (and probe it for its version).
    Direct(IrisConnection),
    /// Probe `http://host:port`; a reply that proves IRIS gives the connection.
    Probe { host: String, port: u16, username: String, password: String, namespace: String },
}

/// The environment step's plan: `None` when `IRIS_HOST` is unset.
pub open spec fn env_plan_matches(env: IrisEnv, r: Option<EnvPlan>) -> bool {
    match env.host {
        None => r is None,
        Some(host) => {
            let port = port_or_default(opt_view(env.web_port));
            let username = or_default(opt_view(env.username), "_SYSTEM"@);
            let password = or_default(opt_view(env.password), "SYS"@);
            let namespace = or_default(opt_view(env.namespace), "USER"@);
            let scheme = or_default(slash_trimmed(opt_view(env.scheme)), "http"@);
            let prefix = slash_trimmed(opt_view(env.web_prefix));
            if scheme != "http"@ || prefix is Some {
                r matches Some(EnvPlan::Direct(c)) && c.base_url@ == base_url_for(scheme, host@, port, prefix)
                    && c.namespace@ == namespace && c.username@ == username && c.password@ == password
                    && c.version is None && c.atelier_version == AtelierVersion::V1
                    && c.source == DiscoverySource::EnvVar && c.port_superserver is None
            } else {
                r matches Some(EnvPlan::Probe { host: h, port: p, username: u, password: pw, namespace: ns })
                    && h@ == host@ && p == port && u@ == username && pw@ == password && ns@ == namespace
            }
        },
    }
}

fn value_or(o: &Option<String>, d: &str) -> (r: String)
    ensures
        r@ == or_default(opt_view(*o), d@),
{
    match o {
        Some(s) => to_owned_string(s.as_str()),
        None => to_owned_string(d),
    }
}

/// The text without leading and trailing `/`, or none when nothing is left.
pub fn slash_trimmed_value(o: &Option<String>) -> (r: Option<String>)
    ensures
        opt_view(r) == slash_trimmed(opt_view(*o)),
{
    match o {
        Some(s) => {
            let t = trim_char_string(s.as_str(), '/');
            let tv = chars_of(t.as_str());
            if tv.len() > 0 {
                Some(t)
            } else {
                None
            }
        },
        None => None,
    }
}

fn port_value(o: &Option<String>) -> (r: u16)
    ensures
        r == port_or_default(opt_view(*o)),
{
    match o {
        Some(p) => {
            let pv = chars_of(p.as_str());
            assert(pv@.subrange(0, pv.len() as int) =~= pv@);
            match parse_unsigned_exec(&pv, 0, pv.len(), 65535) {
                Some(v) => v as u16,
                None => 52773,
            }
        },
        None => 52773,
    }
}

/// The base URL for a scheme, host, port and optional prefix.
pub fn build_base_url(scheme: &str, host: &str, port: u16, prefix: &Option<String>) -> (r: String)
    ensures
        r@ == base_url_for(scheme@, host@, port, opt_view(*prefix)),
{
    let mut r = String::new();
    r.append(scheme);
    r.append("://");
    r.append(host);
    r.append(":");
    push_dec(&mut r, port as u64);
    match prefix {
        Some(p) => {
            r.append("/");
            r.append(p.as_str());
        },
        None => {},
    }
    r
}

/// What the environment step of discovery does for these variables.
pub fn env_connection_plan(env: &IrisEnv) -> (r: Option<EnvPlan>)
    ensures
        env_plan_matches(*env, r),
{
    proof {
        reveal_strlit("http");
    }
    let host = match &env.host {
        Some(h) => h,
        None => return None,
    };
    let port = port_value(&env.web_port);
    let username = value_or(&env.username, "_SYSTEM");
    let password = value_or(&env.password, "SYS");
    let namespace = value_or(&env.namespace, "USER");
    let scheme_opt = slash_trimmed_value(&env.scheme);
    let scheme = value_or(&scheme_opt, "http");
    let prefix = slash_trimmed_value(&env.web_prefix);
    if !str_eq(scheme.as_str(), "http") || prefix.is_some() {
        let base_url = build_base_url(scheme.as_str(), host.as_str(), port, &prefix);
        let c = IrisConnection::new(
            base_url.as_str(),
            namespace.as_str(),
            username.as_str(),
            password.as_str(),
            DiscoverySource::EnvVar,
        );
        Some(EnvPlan::Direct(c))
    } else {
        Some(EnvPlan::Probe { host: to_owned_string(host.as_str()), port, username, password, namespace })
    }
}

// ── Atelier probe replies ────────────────────────────────────────────────────

/// What the root of the Atelier API reports in `result.content`.
pub struct AtelierRoot {
    /// `content.version`, when it is a string.
    pub version: Option<String>,
    /// `content.api`, when it is an unsigned integer.
    pub api: Option<u64>,
}

/// A probe finds IRIS when the reply succeeded (2xx), its body was read, and
/// its version text, upper-cased, mentions `IRIS`.
pub open spec fn probe_finds_iris(status: u16, reply: Option<AtelierRoot>) -> bool {
    &&& 200 <= status < 300
    &&& reply matches Some(root)
    &&& root.version matches Some(v)
    &&& contains(uppercase(v@), "IRIS"@)
}

/// The connection a probe of `http://host:port` yields, given the HTTP status
/// and the reply body (`None` when it was not JSON).
pub fn connection_from_probe(
    host: &str,
    port: u16,
    username: &str,
    password: &str,
    namespace: &str,
    status: u16,
    reply: &Option<AtelierRoot>,
) -> (r: Option<IrisConnection>)
    ensures
        r is Some <==> probe_finds_iris(status, *reply),
        r matches Some(c) ==> {
            &&& c.base_url@ == base_url_for("http"@, host@, port, None)
            &&& c.namespace@ == namespace@
            &&& c.username@ == username@
            &&& c.password@ == password@
            &&& opt_view(c.version) == opt_view(reply.unwrap().version)
            &&& c.atelier_version == AtelierVersion::for_api_level(reply.unwrap().api)
            &&& c.source == (DiscoverySource::LocalhostScan { port })
            &&& c.port_superserver is None
        },
{
    if status < 200 || status >= 300 {
        return None;
    }
    let root = match reply {
        Some(root) => root,
        None => return None,
    };
    let version = match &root.version {
        Some(v) => v,
        None => return None,
    };
    let up = to_uppercase(version.as_str());
    if !str_contains(up.as_str(), "IRIS") {
        return None;
    }
    let base_url = build_base_url("http", host, port, &None);
    let mut c = IrisConnection::new(
        base_url.as_str(),
        namespace,
        username,
        password,
        DiscoverySource::LocalhostScan { port },
    );
    c.version = Some(to_owned_string(version.as_str()));
    c.atelier_version = AtelierVersion::from_api_level(root.api);
    Some(c)
}

// ── Docker containers ────────────────────────────────────────────────────────

/// One published port of a container.
#[derive(Debug, Clone, Copy, PartialEq, Eq, Structural)]
pub struct DockerPort {
    pub private_port: u16,
    pub public_port: Option<u16>,
}

/// What discovery reads of a running container.
pub struct DockerContainer {
    pub names: Option<Vec<String>>,
    pub image: Option<String>,
    pub ports: Option<Vec<DockerPort>>,
}

/// A container that serves the IRIS web port on the host.
pub struct DockerTarget {
    pub name: String,
    pub web_port: u16,
    pub superserver_port: Option<u16>,
}

pub open spec fn target_view(t: DockerTarget) -> (Seq<char>, u16, Option<u16>) {
    (t.name@, t.web_port, t.superserver_port)
}

/// A container's first name without its leading `/`s (empty when it has none).
pub open spec fn container_name(names: Option<Vec<String>>) -> Seq<char> {
    match names {
        Some(v) => if v.len() > 0 {
            trim_start_char(v@[0]@, '/')
        } else {
            Seq::empty()
        },
        None => Seq::empty(),
    }
}

/// The host port published for `private`: that of the last mapping of it.
pub open spec fn published_port(ports: Seq<DockerPort>, private: u16) -> Option<u16>
    decreases ports.len(),
{
    if ports.len() == 0 {
        None
    } else if ports.last().private_port == private {
        ports.last().public_port
    } else {
        published_port(ports.drop_last(), private)
    }
}

pub open spec fn port_list(o: Option<Vec<DockerPort>>) -> Seq<DockerPort> {
    match o {
        Some(v) => v@,
        None => Seq::empty(),
    }
}

/// The target a container offers, when it publishes the web port 52773.
pub open spec fn target_of(c: DockerContainer) -> Option<(Seq<char>, u16, Option<u16>)> {
    match published_port(port_list(c.ports), 52773) {
        Some(w) => Some((container_name(c.names), w, published_port(port_list(c.ports), 1972))),
        None => None,
    }
}

/// A container image that looks like IRIS.
pub open spec fn is_iris_image(image: Option<String>) -> bool {
    let i = match image {
        Some(s) => s@,
        None => Seq::empty(),
    };
    contains(i, "intersystems"@) || contains(i, "iris"@)
}

/// The scored candidates among IRIS containers, in the order Docker lists them.
pub open spec fn docker_candidates(cs: Seq<DockerContainer>, workspace: Seq<char>) -> Seq<(u32, (Seq<char>, u16, Option<u16>))>
    decreases cs.len(),
{
    if cs.len() == 0 {
        Seq::empty()
    } else {
        let c = cs.last();
        docker_candidates(cs.drop_last(), workspace) + if is_iris_image(c.image) && target_of(c) is Some {
            seq![(container_name_score(target_of(c).unwrap().0, workspace), target_of(c).unwrap())]
        } else {
            Seq::empty()
        }
    }
}

/// `x` placed into a list ordered by descending score, after every entry whose
/// score is at least its own.
pub open spec fn insert_by_score<T>(s: Seq<(u32, T)>, x: (u32, T)) -> Seq<(u32, T)>
    decreases s.len(),
{
    if s.len() == 0 {
        seq![x]
    } else if s[0].0 >= x.0 {
        seq![s[0]] + insert_by_score(s.drop_first(), x)
    } else {
        seq![x] + s
    }
}

/// A stable sort by descending score.
pub open spec fn sort_by_score<T>(s: Seq<(u32, T)>) -> Seq<(u32, T)>
    decreases s.len(),
{
    if s.len() == 0 {
        s
    } else {
        insert_by_score(sort_by_score(s.drop_last()), s.last())
    }
}

/// Entries ordered by descending score.
pub open spec fn descending<T>(s: Seq<(u32, T)>) -> bool {
    forall|i: int, j: int| 0 <= i < j < s.len() ==> (#[trigger] s[i]).0 >= (#[trigger] s[j]).0
}

/// Where `insert_by_score` places `x`.
pub open spec fn insert_position<T>(s: Seq<(u32, T)>, x: (u32, T)) -> int
    decreases s.len(),
{
    if s.len() == 0 || s[0].0 < x.0 {
        0
    } else {
        1 + insert_position(s.drop_first(), x)
    }
}

proof fn lemma_insert_position<T>(s: Seq<(u32, T)>, x: (u32, T))
    ensures
        0 <= insert_position(s, x) <= s.len(),
        insert_by_score(s, x) == s.insert(insert_position(s, x), x),
        forall|i: int| 0 <= i < insert_position(s, x) ==> (#[trigger] s[i]).0 >= x.0,
        insert_position(s, x) < s.len() ==> s[insert_position(s, x)].0 < x.0,
    decreases s.len(),
{
    if s.len() == 0 || s[0].0 < x.0 {
        assert(insert_by_score(s, x) =~= s.insert(0, x));
    } else {
        let t = s.drop_first();
        lemma_insert_position(t, x);
        let p = insert_position(t, x);
        assert(insert_by_score(s, x) =~= s.insert(p + 1, x));
        assert forall|i: int| 0 <= i < p + 1 implies (#[trigger] s[i]).0 >= x.0 by {
            if i > 0 {
                assert(s[i] == t[i - 1]);
            }
        }
        if p < t.len() {
            assert(s[p + 1] == t[p]);
        }
    }
}

proof fn lemma_insert_by_score<T>(s: Seq<(u32, T)>, x: (u32, T))
    requires
        descending(s),
    ensures
        descending(insert_by_score(s, x)),
        insert_by_score(s, x).to_multiset() == s.to_multiset().insert(x),
        insert_by_score(s, x).len() == s.len() + 1,
{
    broadcast use vstd::seq_lib::to_multiset_insert;
    lemma_insert_position(s, x);
    let p = insert_position(s, x);
    let r = s.insert(p, x);
    assert forall|i: int, j: int| 0 <= i < j < r.len() implies (#[trigger] r[i]).0 >= (#[trigger] r[j]).0 by {
        if i < p {
            assert(r[i] == s[i]);
            if j < p {
                assert(r[j] == s[j]);
            } else if j > p {
                assert(r[j] == s[j - 1]);
            }
        } else if i == p {
            assert(r[j] == s[j - 1]);
            if j - 1 > p {
                assert(s[p].0 >= s[j - 1].0);
            }
        } else {
            assert(r[i] == s[i - 1] && r[j] == s[j - 1]);
        }
    }
}

/// Ranking by score is a stable sort: the entries come out ordered by
/// descending score, and they are exactly the entries that went in.
pub proof fn lemma_sort_by_score<T>(s: Seq<(u32, T)>)
    ensures
        descending(sort_by_score(s)),
        sort_by_score(s).to_multiset() == s.to_multiset(),
        sort_by_score(s).len() == s.len(),
    decreases s.len(),
{
    broadcast use vstd::seq_lib::group_seq_properties;
    if s.len() > 0 {
        lemma_sort_by_score(s.drop_last());
        lemma_insert_by_score(sort_by_score(s.drop_last()), s.last());
        assert(s =~= s.drop_last().push(s.last()));
    }
}

fn container_name_exec(names: &Option<Vec<String>>) -> (r: String)
    ensures
        r@ == container_name(*names),
{
    match names {
        Some(v) => if v.len() > 0 {
            let cv = chars_of(v[0].as_str());
            let k = trim_start_char_len(&cv, '/');
            string_of_range(&cv, k, cv.len())
        } else {
            String::new()
        },
        None => String::new(),
    }
}

fn published_port_exec(ports: &Option<Vec<DockerPort>>, private: u16) -> (r: Option<u16>)
    ensures
        r == published_port(port_list(*ports), private),
{
    let ghost ps = port_list(*ports);
    match ports {
        Some(v) => {
            let mut r: Option<u16> = None;
            let mut i: usize = 0;
            while i < v.len()
                invariant
                    i <= v.len(),
                    ps == v@,
                    r == published_port(v@.take(i as int), private),
                decreases v.len() - i,
            {
                assert(v@.take(i + 1).drop_last() =~= v@.take(i as int));
                if v[i].private_port == private {
                    r = v[i].public_port;
                }
                i += 1;
            }
            assert(v@.take(v.len() as int) =~= v@);
            r
        },
        None => None,
    }
}

fn target_exec(c: &DockerContainer) -> (r: Option<DockerTarget>)
    ensures
        match r {
            Some(t) => target_of(*c) == Some(target_view(t)),
            None => target_of(*c) is None,
        },
{
    match published_port_exec(&c.ports, 52773) {
        Some(w) => {
            let ss = published_port_exec(&c.ports, 1972);
            Some(DockerTarget { name: container_name_exec(&c.names), web_port: w, superserver_port: ss })
        },
        None => None,
    }
}

fn iris_image_exec(image: &Option<String>) -> (b: bool)
    ensures
        b == is_iris_image(*image),
{
    match image {
        Some(s) => str_contains(s.as_str(), "intersystems") || str_contains(s.as_str(), "iris"),
        None => {
            let e = String::new();
            str_contains(e.as_str(), "intersystems") || str_contains(e.as_str(), "iris")
        },
    }
}

/// Inserts `x` into `v`, kept in descending order of score.
fn insert_ranked(v: &mut Vec<(u32, DockerTarget)>, x: (u32, DockerTarget))
    ensures
        final(v)@.map_values(|e: (u32, DockerTarget)| (e.0, target_view(e.1)))
            == insert_by_score(old(v)@.map_values(|e: (u32, DockerTarget)| (e.0, target_view(e.1))), (x.0, target_view(x.1))),
{
    let ghost s = v@.map_values(|e: (u32, DockerTarget)| (e.0, target_view(e.1)));
    let ghost xv = (x.0, target_view(x.1));
    let mut k: usize = 0;
    assert(s.skip(0) =~= s);
    assert(s.take(0) =~= Seq::<(u32, (Seq<char>, u16, Option<u16>))>::empty());
    while k < v.len() && v[k].0 >= x.0
        invariant
            k <= v.len(),
            s == v@.map_values(|e: (u32, DockerTarget)| (e.0, target_view(e.1))),
            xv == (x.0, target_view(x.1)),
            insert_by_score(s, xv) == s.take(k as int) + insert_by_score(s.skip(k as int), xv),
        decreases v.len() - k,
    {
        let ghost t = s.skip(k as int);
        assert(t[0] == s[k as int]);
        assert(t.drop_first() =~= s.skip(k + 1));
        assert(s.take(k + 1) =~= s.take(k as int).push(s[k as int]));
        assert(insert_by_score(t, xv) == seq![t[0]] + insert_by_score(t.drop_first(), xv));
        assert(s.take(k as int) + (seq![t[0]] + insert_by_score(s.skip(k + 1), xv)) =~= s.take(k + 1)
            + insert_by_score(s.skip(k + 1), xv));
        k += 1;
    }
    proof {
        let t = s.skip(k as int);
        if k < v.len() {
            assert(t[0] == s[k as int]);
        }
        assert(insert_by_score(t, xv) == seq![xv] + t);
    }
    v.insert(k, x);
    assert(v@.map_values(|e: (u32, DockerTarget)| (e.0, target_view(e.1))) =~= s.take(k as int) + (seq![xv] + s.skip(k as int)));
}

/// The IRIS containers that publish the web port, ranked by how well their
/// names match the workspace directory, best first; ties keep Docker's order.
pub fn rank_docker_candidates(containers: &Vec<DockerContainer>, workspace_basename: &str) -> (r: Vec<(u32, DockerTarget)>)
    ensures
        r@.map_values(|e: (u32, DockerTarget)| (e.0, target_view(e.1)))
            == sort_by_score(docker_candidates(containers@, workspace_basename@)),
{
    let mut r: Vec<(u32, DockerTarget)> = Vec::new();
    let mut i: usize = 0;
    while i < containers.len()
        invariant
            i <= containers.len(),
            r@.map_values(|e: (u32, DockerTarget)| (e.0, target_view(e.1)))
                == sort_by_score(docker_candidates(containers@.take(i as int), workspace_basename@)),
        decreases containers.len() - i,
    {
        let ghost before = docker_candidates(containers@.take(i as int), workspace_basename@);
        assert(containers@.take(i + 1).drop_last() =~= containers@.take(i as int));
        assert(containers@.take(i + 1).last() == containers@[i as int]);
        let c = &containers[i];
        if iris_image_exec(&c.image) {
            match target_exec(c) {
                Some(t) => {
                    let score = score_container_name(t.name.as_str(), workspace_basename);
                    let ghost xv = (score, target_view(t));
                    insert_ranked(&mut r, (score, t));
                    assert(docker_candidates(containers@.take(i + 1), workspace_basename@) == before.push(xv));
                    assert(before.push(xv).drop_last() =~= before);
                },
                None => {
                    assert(docker_candidates(containers@.take(i + 1), workspace_basename@) =~= before);
                },
            }
        } else {
            assert(docker_candidates(containers@.take(i + 1), workspace_basename@) =~= before);
        }
        i += 1;
    }
    assert(containers@.take(containers.len() as int) =~= containers@);
    r
}

/// The targets of the containers named exactly `target`, in Docker's order.
pub open spec fn named_targets(cs: Seq<DockerContainer>, target: Seq<char>) -> Seq<(Seq<char>, u16, Option<u16>)>
    decreases cs.len(),
{
    if cs.len() == 0 {
        Seq::empty()
    } else {
        let c = cs.last();
        named_targets(cs.drop_last(), target) + if container_name(c.names) == target && target_of(c) is Some {
            seq![target_of(c).unwrap()]
        } else {
            Seq::empty()
        }
    }
}

/// The containers that `IRIS_CONTAINER` names and that publish the web port.
pub fn named_container_targets(containers: &Vec<DockerContainer>, target: &str) -> (r: Vec<DockerTarget>)
    ensures
        r@.map_values(|t: DockerTarget| target_view(t)) == named_targets(containers@, target@),
{
    let mut r: Vec<DockerTarget> = Vec::new();
    let mut i: usize = 0;
    while i < containers.len()
        invariant
            i <= containers.len(),
            r@.map_values(|t: DockerTarget| target_view(t)) == named_targets(containers@.take(i as int), target@),
        decreases containers.len() - i,
    {
        let ghost before = named_targets(containers@.take(i as int), target@);
        let ghost r0 = r@;
        assert(containers@.take(i + 1).drop_last() =~= containers@.take(i as int));
        assert(containers@.take(i + 1).last() == containers@[i as int]);
        let c = &containers[i];
        let name = container_name_exec(&c.names);
        if str_eq(name.as_str(), target) {
            match target_exec(c) {
                Some(t) => {
                    r.push(t);
                    assert(r@.map_values(|t: DockerTarget| target_view(t)) =~= r0.map_values(|t: DockerTarget| target_view(t)).push(target_view(r@.last())));
                },
                None => {
                    assert(named_targets(containers@.take(i + 1), target@) =~= before);
                },
            }
        } else {
            assert(named_targets(containers@.take(i + 1), target@) =~= before);
        }
        i += 1;
    }
    assert(containers@.take(containers.len() as int) =~= containers@);
    r
}

/// A probed connection, marked as found in the Docker container `t`.
pub fn with_docker_origin(conn: IrisConnection, t: &DockerTarget) -> (r: IrisConnection)
    ensures
        r.base_url == conn.base_url,
        r.namespace == conn.namespace,
        r.username == conn.username,
        r.password == conn.password,
        r.version == conn.version,
        r.atelier_version == conn.atelier_version,
        r.source matches DiscoverySource::Docker { container_name } && container_name@ == t.name@,
        r.port_superserver == t.superserver_port,
{
    let mut r = conn;
    r.source = DiscoverySource::Docker { container_name: to_owned_string(t.name.as_str()) };
    r.port_superserver = t.superserver_port;
    r
}

impl IrisConnection {
    /// Takes the version and API level from the reply to a probe of the
    /// Atelier root: a successful reply (2xx) whose body was read sets the
    /// version (none when the reply has none) and the API version; any other
    /// reply leaves the connection as it was.
    pub fn apply_probe(&mut self, status: u16, reply: &Option<AtelierRoot>)
        ensures
            final(self).base_url == old(self).base_url,
            final(self).namespace == old(self).namespace,
            final(self).username == old(self).username,
            final(self).password == old(self).password,
            final(self).source == old(self).source,
            final(self).port_superserver == old(self).port_superserver,
            if 200 <= status < 300 && reply is Some {
                &&& opt_view(final(self).version) == opt_view(reply.unwrap().version)
                &&& final(self).atelier_version == AtelierVersion::for_api_level(reply.unwrap().api)
            } else {
                &&& final(self).version == old(self).version
                &&& final(self).atelier_version == old(self).atelier_version
            },
    {
        if status < 200 || status >= 300 {
            return;
        }
        match reply {
            Some(root) => {
                self.version = match &root.version {
                    Some(v) => Some(to_owned_string(v.as_str())),
                    None => None,
                };
                self.atelier_version = AtelierVersion::from_api_level(root.api);
            },
            None => {},
        }
    }
}

/// An `IRIS_SCHEME` other than `http` is always honoured: with `IRIS_HOST`
/// set, the environment plan is a direct connection (from the environment)
/// whose base URL starts with that scheme and `://`, never a plain-http probe.
pub proof fn lemma_env_scheme_is_honoured(env: IrisEnv, r: Option<EnvPlan>, scheme: Seq<char>)
    requires
        env_plan_matches(env, r),
        env.host is Some,
        slash_trimmed(opt_view(env.scheme)) == Some(scheme),
        scheme != "http"@,
    ensures
        r matches Some(EnvPlan::Direct(c)) && c.source == DiscoverySource::EnvVar
            && c.base_url@.len() >= scheme.len() + 3
            && c.base_url@.subrange(0, scheme.len() as int + 3) == scheme + "://"@,
{
    reveal_strlit("://");
    let host = env.host.unwrap();
    let port = port_or_default(opt_view(env.web_port));
    let prefix = slash_trimmed(opt_view(env.web_prefix));
    let u = base_url_for(scheme, host@, port, prefix);
    assert(or_default(Some(scheme), "http"@) == scheme);
    assert(u.subrange(0, scheme.len() as int + 3) =~= scheme + "://"@);
}

} // verus!
