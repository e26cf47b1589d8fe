//! IRIS connection settings as VS Code keeps them in `settings.json`: a direct
//! `objectscript.conn` host and port, or a named entry of `intersystems.servers`.

use vstd::prelude::*;
use crate::iris::connection::{AtelierVersion, DiscoverySource, IrisConnection};
use crate::iris::discovery::{base_url_for, build_base_url, or_default, slash_trimmed, slash_trimmed_value};
use crate::text::{
    append_join, chars_of, join, lines, lines_of, opt_view, push_text, starts_with, str_eq,
    string_of, texts, trim_start,
};

verus! {

/// The settings that matter for an IRIS connection.
pub struct VsCodeSettings {
    /// `objectscript.conn`
    pub objectscript_conn: Option<ObjectScriptConn>,
    /// `intersystems.servers`, as (name, server) entries in file order; a name
    /// is looked up by its first entry.
    pub intersystems_servers: Option<Vec<(String, IntersystemsServer)>>,
}

/// `objectscript.conn`.
pub struct ObjectScriptConn {
    pub active: Option<bool>,
    pub host: Option<String>,
    pub port: Option<u16>,
    pub username: Option<String>,
    pub password: Option<String>,
    pub ns: Option<String>,
    /// Named server reference (key into intersystems.servers)
    pub server: Option<String>,
}

/// One entry of `intersystems.servers`.
pub struct IntersystemsServer {
    pub web_server: WebServerSpec,
    pub super_server: Option<SuperServerSpec>,
    pub username: Option<String>,
    pub password: Option<String>,
    pub description: Option<String>,
}

/// `webServer` of a named server.
pub struct WebServerSpec {
    pub host: Option<String>,
    pub port: Option<u16>,
    pub scheme: Option<String>,
    pub path_prefix: Option<String>,
}

/// `superServer` of a named server.
pub struct SuperServerSpec {
    pub host: Option<String>,
    pub port: Option<u16>,
}

impl IntersystemsServer {
    /// Returns the native SuperServer port if configured.
    pub fn super_server_port(&self) -> (r: Option<u16>)
        ensures
            r == match self.super_server {
                Some(ss) => ss.port,
                None => None,
            },
    {
        match &self.super_server {
            Some(ss) => ss.port,
            None => None,
        }
    }
}

/// `o`, or `d` when it is absent.
pub open spec fn port_or(o: Option<u16>, d: u16) -> u16 {
    match o {
        Some(p) => p,
        None => d,
    }
}

/// The first server entry with this name.
pub open spec fn lookup_server(servers: Seq<(String, IntersystemsServer)>, name: Seq<char>) -> Option<IntersystemsServer>
    decreases servers.len(),
{
    if servers.len() == 0 {
        None
    } else if servers[0].0@ == name {
        Some(servers[0].1)
    } else {
        lookup_server(servers.drop_first(), name)
    }
}

/// The base URL, namespace, user and password the settings describe: none when
/// there is no `objectscript.conn`, when it is marked inactive, or when it names
/// a server that is not listed. A named server gives `scheme://host:port`,
/// followed by `/` and its `pathPrefix` without surrounding slashes when that
/// is not empty; a direct connection gives `http://host:port`. Absent parts default to
/// `localhost`, 52773, `http`, `USER`, `_SYSTEM` and `SYS`.
pub open spec fn vscode_connection(s: VsCodeSettings) -> Option<(Seq<char>, Seq<char>, Seq<char>, Seq<char>)> {
    match s.objectscript_conn {
        None => None,
        Some(conn) => if conn.active == Some(false) {
            None
        } else {
            let ns = or_default(opt_view(conn.ns), "USER"@);
            match conn.server {
                Some(name) => match s.intersystems_servers {
                    None => None,
                    Some(v) => match lookup_server(v@, name@) {
                        None => None,
                        Some(server) => Some((
                            base_url_for(
                                or_default(opt_view(server.web_server.scheme), "http"@),
                                or_default(opt_view(server.web_server.host), "localhost"@),
                                port_or(server.web_server.port, 52773),
                                slash_trimmed(opt_view(server.web_server.path_prefix)),
                            ),
                            ns,
                            or_default(opt_view(server.username), "_SYSTEM"@),
                            or_default(opt_view(server.password), "SYS"@),
                        )),
                    },
                },
                None => Some((
                    base_url_for(
                        "http"@,
                        or_default(opt_view(conn.host), "localhost"@),
                        port_or(conn.port, 52773),
                        None,
                    ),
                    ns,
                    or_default(opt_view(conn.username), "_SYSTEM"@),
                    or_default(opt_view(conn.password), "SYS"@),
                )),
            }
        },
    }
}

fn text_or<'a>(o: &'a Option<String>, d: &'a str) -> (r: &'a str)
    ensures
        r@ == or_default(opt_view(*o), d@),
{
    match o {
        Some(s) => s.as_str(),
        None => d,
    }
}

fn find_server<'a>(servers: &'a Vec<(String, IntersystemsServer)>, name: &str) -> (r: Option<&'a IntersystemsServer>)
    ensures
        match r {
            Some(s) => lookup_server(servers@, name@) == Some(*s),
            None => lookup_server(servers@, name@) is None,
        },
{
    let mut i: usize = 0;
    assert(servers@.skip(0) =~= servers@);
    while i < servers.len()
        invariant
            i <= servers.len(),
            lookup_server(servers@, name@) == lookup_server(servers@.skip(i as int), name@),
        decreases servers.len() - i,
    {
        let ghost t = servers@.skip(i as int);
        assert(t[0] == servers@[i as int]);
        if str_eq(servers[i].0.as_str(), name) {
            return Some(&servers[i].1);
        }
        assert(t.drop_first() =~= servers@.skip(i + 1));
        i += 1;
    }
    None
}

impl VsCodeSettings {
    /// Convert parsed settings to an IrisConnection, resolving named servers.
    pub fn to_iris_connection(&self) -> (r: Option<IrisConnection>)
        ensures
            match r {
                Some(c) => {
                    &&& vscode_connection(*self) == Some((c.base_url@, c.namespace@, c.username@, c.password@))
                    &&& c.source == DiscoverySource::VsCodeSettings
                    &&& c.version is None
                    &&& c.atelier_version == AtelierVersion::V1
                    &&& c.port_superserver is None
                },
                None => vscode_connection(*self) is None,
            },
    {
        let conn = match &self.objectscript_conn {
            Some(c) => c,
            None => return None,
        };
        if conn.active == Some(false) {
            return None;
        }
        let ns = text_or(&conn.ns, "USER");
        match &conn.server {
            Some(server_name) => {
                let servers = match &self.intersystems_servers {
                    Some(v) => v,
                    None => return None,
                };
                let server = match find_server(servers, server_name.as_str()) {
                    Some(s) => s,
                    None => return None,
                };
                let host = text_or(&server.web_server.host, "localhost");
                let web_port = match server.web_server.port {
                    Some(p) => p,
                    None => 52773,
                };
                let scheme = text_or(&server.web_server.scheme, "http");
                let prefix = slash_trimmed_value(&server.web_server.path_prefix);
                let base_url = build_base_url(scheme, host, web_port, &prefix);
                let username = text_or(&server.username, "_SYSTEM");
                let password = text_or(&server.password, "SYS");
                Some(IrisConnection::new(base_url.as_str(), ns, username, password, DiscoverySource::VsCodeSettings))
            },
            None => {
                let host = text_or(&conn.host, "localhost");
                let port = match conn.port {
                    Some(p) => p,
                    None => 52773,
                };
                let username = text_or(&conn.username, "_SYSTEM");
                let password = text_or(&conn.password, "SYS");
                let base_url = build_base_url("http", host, port, &None);
                Some(IrisConnection::new(base_url.as_str(), ns, username, password, DiscoverySource::VsCodeSettings))
            },
        }
    }
}

/// The lines of a settings file that are not `//` comments.
pub open spec fn uncommented_lines(ls: Seq<Seq<char>>) -> Seq<Seq<char>>
    decreases ls.len(),
{
    if ls.len() == 0 {
        ls
    } else {
        uncommented_lines(ls.drop_last()) + if starts_with(trim_start(ls.last()), "//"@) {
            Seq::empty()
        } else {
            seq![ls.last()]
        }
    }
}

/// A settings file without its whole-line `//` comments: the other lines, joined by newlines.
pub fn strip_line_comments(content: &str) -> (r: String)
    ensures
        r@ == join(uncommented_lines(lines(content@)), "\n"@),
{
    let v = chars_of(content);
    let ls = lines_of(&v);
    let ghost lsv = lines(v@);
    let mut kept: Vec<String> = Vec::new();
    let mut i: usize = 0;
    while i < ls.len()
        invariant
            i <= ls.len(),
            ls.len() == lsv.len(),
            forall|k: int| 0 <= k < ls.len() ==> (#[trigger] ls[k])@ == lsv[k],
            texts(kept@) == uncommented_lines(lsv.take(i as int)),
        decreases ls.len() - i,
    {
        assert(lsv.take(i + 1).drop_last() =~= lsv.take(i as int));
        assert(lsv.take(i + 1).last() == ls[i as int]@);
        let line = string_of(&ls[i]);
        let lv = &ls[i];
        let mut k: usize = 0;
        assert(lv@.skip(0) =~= lv@);
        while k < lv.len() && crate::text::char_is_ws(lv[k])
            invariant
                k <= lv.len(),
                trim_start(lv@) == trim_start(lv@.skip(k as int)),
            decreases lv.len() - k,
        {
            assert(lv@.skip(k as int).drop_first() =~= lv@.skip(k + 1));
            k += 1;
        }
        let comment = k < lv.len() && k + 1 < lv.len() && lv[k] == '/' && lv[k + 1] == '/';
        proof {
            reveal_strlit("//");
            let t = lv@.skip(k as int);
            if k < lv.len() {
                assert(trim_start(t) == t);
            } else {
                assert(t.len() == 0);
            }
            assert(comment == starts_with(trim_start(lv@), "//"@)) by {
                if comment {
                    assert(t.subrange(0, 2) =~= "//"@);
                }
                if starts_with(t, "//"@) {
                    assert(t.subrange(0, 2)[0] == t[0]);
                    assert(t.subrange(0, 2)[1] == t[1]);
                }
            }
        }
        let ghost before = kept@;
        if !comment {
            push_text(&mut kept, line);
        }
        assert(texts(kept@) =~= uncommented_lines(lsv.take(i + 1)));
        i += 1;
    }
    assert(lsv.take(ls.len() as int) =~= lsv);
    let mut r = String::new();
    append_join(&mut r, &kept, "\n");
    r
}

} // verus!
