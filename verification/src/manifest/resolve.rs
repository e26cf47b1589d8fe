//! Dependency resolution for a package manifest, and the lock file it writes.

use vstd::prelude::*;
use crate::text::{
    debug_quote, debug_quoted, lemma_replace_char_append, replace_char, replace_char_string,
    split_once_first, split_once_first_exec, starts_with, to_owned_string,
};

verus! {

/// A dependency as the manifest declares it.
pub struct DependencySpec {
    /// The semver requirement, such as `^1.2`.
    pub version: String,
    /// `owner/repo` on GitHub.
    pub github: Option<String>,
    /// A git URL.
    pub git: Option<String>,
    /// A local repository path.
    pub repository: Option<String>,
    /// An Open Exchange package id.
    pub openexchange: Option<String>,
}

/// Where a resolved package comes from.
#[derive(Debug, Clone)]
pub enum ResolvedSource {
    Local(String),
    Git(String),
    GitHub { owner: String, repo: String },
    OpenExchange(String),
}

/// A package pinned to a version.
pub struct ResolvedPackage {
    pub name: String,
    /// The resolved version, as semver writes it.
    pub version: String,
    pub source: ResolvedSource,
}

/// The resolved dependency set.
pub struct Resolve {
    pub packages: Vec<ResolvedPackage>,
}

/// Why resolution stopped.
pub enum ResolveError {
    /// The version requirement is not valid semver.
    InvalidVersion { name: String, version: String, detail: String },
    /// The dependency names no place to fetch it from.
    NoSource { name: String },
    /// No resolver exists yet for this source.
    Unresolved { source: ResolvedSource, requirement: String },
}

/// How `{:?}` writes a source.
pub open spec fn source_debug(s: ResolvedSource) -> Seq<char> {
    match s {
        ResolvedSource::Local(p) => "Local("@ + debug_quoted(p@) + ")"@,
        ResolvedSource::Git(u) => "Git("@ + debug_quoted(u@) + ")"@,
        ResolvedSource::GitHub { owner, repo } => "GitHub { owner: "@ + debug_quoted(owner@) + ", repo: "@
            + debug_quoted(repo@) + " }"@,
        ResolvedSource::OpenExchange(x) => "OpenExchange("@ + debug_quoted(x@) + ")"@,
    }
}

/// The message of a resolution error.
pub open spec fn error_message(e: ResolveError) -> Seq<char> {
    match e {
        ResolveError::InvalidVersion { name, version, detail } => "invalid semver '"@ + version@ + "' for dep '"@
            + name@ + "': "@ + detail@,
        ResolveError::NoSource { name } => "dependency '"@ + name@
            + "' has no source (git, github, repository, or openexchange)"@,
        ResolveError::Unresolved { source, requirement } => "version resolution not yet implemented for source "@
            + source_debug(source) + " (requirement: "@ + requirement@ + ")"@,
    }
}

fn push_source_debug(out: &mut String, s: &ResolvedSource)
    ensures
        final(out)@ == old(out)@ + source_debug(*s),
{
    match s {
        ResolvedSource::Local(p) => {
            out.append("Local(");
            let q = debug_quote(p.as_str());
            out.append(q.as_str());
            out.append(")");
        },
        ResolvedSource::Git(u) => {
            out.append("Git(");
            let q = debug_quote(u.as_str());
            out.append(q.as_str());
            out.append(")");
        },
        ResolvedSource::GitHub { owner, repo } => {
            out.append("GitHub { owner: ");
            let q = debug_quote(owner.as_str());
            out.append(q.as_str());
            out.append(", repo: ");
            let q = debug_quote(repo.as_str());
            out.append(q.as_str());
            out.append(" }");
        },
        ResolvedSource::OpenExchange(x) => {
            out.append("OpenExchange(");
            let q = debug_quote(x.as_str());
            out.append(q.as_str());
            out.append(")");
        },
    }
}

impl ResolveError {
    /// The error's message.
    pub fn message(&self) -> (r: String)
        ensures
            r@ == error_message(*self),
    {
        let mut r = String::new();
        match self {
            ResolveError::InvalidVersion { name, version, detail } => {
                r.append("invalid semver '");
                r.append(version.as_str());
                r.append("' for dep '");
                r.append(name.as_str());
                r.append("': ");
                r.append(detail.as_str());
            },
            ResolveError::NoSource { name } => {
                r.append("dependency '");
                r.append(name.as_str());
                r.append("' has no source (git, github, repository, or openexchange)");
            },
            ResolveError::Unresolved { source, requirement } => {
                r.append("version resolution not yet implemented for source ");
                push_source_debug(&mut r, source);
                r.append(" (requirement: ");
                r.append(requirement.as_str());
                r.append(")");
            },
        }
        r
    }
}

/// What `semver::VersionReq::parse` gives for a requirement text: the
/// requirement as semver writes it back, or the text of its error.
pub uninterp spec fn parsed_requirement(text: Seq<char>) -> Result<Seq<char>, Seq<char>>;

/// Parses a version requirement (`semver::VersionReq::parse`), giving its
/// normalized text or the error's message.
#[verifier::external_body]
fn parse_requirement(text: &str) -> (r: Result<String, String>)
    ensures
        match r {
            Ok(d) => parsed_requirement(text@) == Ok::<Seq<char>, Seq<char>>(d@),
            Err(e) => parsed_requirement(text@) == Err::<Seq<char>, Seq<char>>(e@),
        },
{
    match semver::VersionReq::parse(text) {
        Ok(req) => Ok(req.to_string()),
        Err(e) => Err(e.to_string()),
    }
}

/// The owner and repository of a `github` setting: the text before and after
/// its first `/`, when it has one.
pub open spec fn github_parts(github: Option<String>) -> Option<(Seq<char>, Seq<char>)> {
    match github {
        Some(g) => match split_once_first(g@, '/') {
            (owner, Some(repo)) => Some((owner, repo)),
            _ => None,
        },
        None => None,
    }
}

/// The source of `dep`, taken in the order github (when it has an owner and
/// a repository), git, repository, openexchange, as `source_view` writes it.
pub open spec fn dep_source_view(dep: DependencySpec) -> Option<(u8, Seq<char>, Seq<char>)> {
    match github_parts(dep.github) {
        Some((o, r)) => Some((2u8, o, r)),
        None => match dep.git {
            Some(g) => Some((1u8, g@, Seq::empty())),
            None => match dep.repository {
                Some(p) => Some((0u8, p@, Seq::empty())),
                None => match dep.openexchange {
                    Some(x) => Some((3u8, x@, Seq::empty())),
                    None => None,
                },
            },
        },
    }
}

/// A dependency has a source.
pub open spec fn has_source(dep: DependencySpec) -> bool {
    dep_source_view(dep) is Some
}

/// `s` is the source of `dep`.
pub open spec fn is_source_of(dep: DependencySpec, s: ResolvedSource) -> bool {
    dep_source_view(dep) == Some(source_view(s))
}

/// The source a dependency is fetched from.
pub fn dep_to_source(name: &str, dep: &DependencySpec) -> (r: Result<ResolvedSource, ResolveError>)
    ensures
        match r {
            Ok(s) => is_source_of(*dep, s),
            Err(e) => !has_source(*dep) && (e matches ResolveError::NoSource { name: n } && n@ == name@),
        },
{
    match &dep.github {
        Some(github) => {
            let (owner, rest) = split_once_first_exec(github.as_str(), '/');
            match rest {
                Some(repo) => {
                    return Ok(ResolvedSource::GitHub { owner, repo });
                },
                None => {},
            }
        },
        None => {},
    }
    match &dep.git {
        Some(git) => {
            return Ok(ResolvedSource::Git(to_owned_string(git.as_str())));
        },
        None => {},
    }
    match &dep.repository {
        Some(repo) => {
            return Ok(ResolvedSource::Local(to_owned_string(repo.as_str())));
        },
        None => {},
    }
    match &dep.openexchange {
        Some(ox) => Ok(ResolvedSource::OpenExchange(to_owned_string(ox.as_str()))),
        None => Err(ResolveError::NoSource { name: to_owned_string(name) }),
    }
}

fn copy_source(s: &ResolvedSource) -> (r: ResolvedSource)
    ensures
        source_view(r) == source_view(*s),
{
    match s {
        ResolvedSource::Local(p) => ResolvedSource::Local(to_owned_string(p.as_str())),
        ResolvedSource::Git(u) => ResolvedSource::Git(to_owned_string(u.as_str())),
        ResolvedSource::GitHub { owner, repo } => ResolvedSource::GitHub {
            owner: to_owned_string(owner.as_str()),
            repo: to_owned_string(repo.as_str()),
        },
        ResolvedSource::OpenExchange(x) => ResolvedSource::OpenExchange(to_owned_string(x.as_str())),
    }
}

/// The text fields of a source, tagged by its kind.
pub open spec fn source_view(s: ResolvedSource) -> (u8, Seq<char>, Seq<char>) {
    match s {
        ResolvedSource::Local(p) => (0, p@, Seq::empty()),
        ResolvedSource::Git(u) => (1, u@, Seq::empty()),
        ResolvedSource::GitHub { owner, repo } => (2, owner@, repo@),
        ResolvedSource::OpenExchange(x) => (3, x@, Seq::empty()),
    }
}

/// No version resolver exists yet: every source ends in `Unresolved`,
/// carrying the source and the requirement text.
pub fn resolve_version(requirement: &str, source: &ResolvedSource) -> (r: Result<String, ResolveError>)
    ensures
        r matches Err(ResolveError::Unresolved { source: s, requirement: q }) && source_view(s) == source_view(*source)
            && q@ == requirement@,
{
    Err(ResolveError::Unresolved { source: copy_source(source), requirement: to_owned_string(requirement) })
}

/// Resolution of a GitHub dependency, for a requirement text.
pub fn resolve_version_for_test(requirement: &str) -> (r: Result<String, ResolveError>)
    ensures
        r matches Err(ResolveError::Unresolved { source: s, requirement: q })
            && source_view(s) == (2u8, "test"@, "test"@) && q@ == requirement@,
{
    let s = ResolvedSource::GitHub { owner: to_owned_string("test"), repo: to_owned_string("test") };
    resolve_version(requirement, &s)
}

/// The error resolution stops with at the dependency `name`: a requirement that
/// does not parse, then a missing source, then the version (never resolved yet).
pub open spec fn dependency_error(name: Seq<char>, dep: DependencySpec, e: ResolveError) -> bool {
    match parsed_requirement(dep.version@) {
        Err(detail) => e matches ResolveError::InvalidVersion { name: n, version: v, detail: d }
            && n@ == name && v@ == dep.version@ && d@ == detail,
        Ok(req) => if has_source(dep) {
            e matches ResolveError::Unresolved { source: s, requirement: q } && is_source_of(dep, s) && q@ == req
        } else {
            e matches ResolveError::NoSource { name: n } && n@ == name
        },
    }
}

impl Resolve {
    /// Resolves the manifest's dependencies, in order. A manifest without
    /// dependencies resolves to no packages; otherwise the first dependency
    /// stops resolution with its error, since no source can be resolved yet.
    pub fn from_manifest(dependencies: &Vec<(String, DependencySpec)>) -> (r: Result<Resolve, ResolveError>)
        ensures
            r is Ok <==> dependencies.len() == 0,
            r matches Ok(res) ==> res.packages.len() == 0,
            r matches Err(e) ==> dependency_error(dependencies@[0].0@, dependencies@[0].1, e),
    {
        if dependencies.len() == 0 {
            return Ok(Resolve { packages: Vec::new() });
        }
        let name = &dependencies[0].0;
        let dep = &dependencies[0].1;
        let req = match parse_requirement(dep.version.as_str()) {
            Ok(q) => q,
            Err(detail) => {
                return Err(
                    ResolveError::InvalidVersion {
                        name: to_owned_string(name.as_str()),
                        version: to_owned_string(dep.version.as_str()),
                        detail,
                    },
                );
            },
        };
        let source = match dep_to_source(name.as_str(), dep) {
            Ok(s) => s,
            Err(e) => return Err(e),
        };
        match resolve_version(req.as_str(), &source) {
            Ok(_) => Err(ResolveError::Unresolved { source, requirement: req }),
            Err(e) => Err(e),
        }
    }

    /// The lock entries of the resolved packages, one per package, in order.
    pub fn to_lock(&self) -> (r: ResolveLock)
        ensures
            r.packages.len() == self.packages.len(),
            forall|i: int|
                0 <= i < r.packages.len() ==> {
                    let p = #[trigger] self.packages@[i];
                    let l = r.packages@[i];
                    &&& l.name@ == p.name@
                    &&& l.version@ == p.version@
                    &&& l.repository@ == repository_url(p.source)
                    &&& l.checksum is None
                },
    {
        let mut packages: Vec<PackageLock> = Vec::new();
        let mut i: usize = 0;
        while i < self.packages.len()
            invariant
                i <= self.packages.len(),
                packages.len() == i,
                forall|k: int|
                    0 <= k < i ==> {
                        let p = #[trigger] self.packages@[k];
                        let l = packages@[k];
                        &&& l.name@ == p.name@
                        &&& l.version@ == p.version@
                        &&& l.repository@ == repository_url(p.source)
                        &&& l.checksum is None
                    },
            decreases self.packages.len() - i,
        {
            let p = &self.packages[i];
            let repository = repository_text(&p.source);
            packages.push(
                PackageLock {
                    name: to_owned_string(p.name.as_str()),
                    version: to_owned_string(p.version.as_str()),
                    repository,
                    checksum: None,
                },
            );
            i += 1;
        }
        ResolveLock { packages }
    }
}

/// The repository a lock entry records for a source: a GitHub URL, the git
/// URL, the local path, or `openexchange:` and the id.
pub open spec fn repository_url(s: ResolvedSource) -> Seq<char> {
    match s {
        ResolvedSource::GitHub { owner, repo } => "https://github.com/"@ + owner@ + "/"@ + repo@,
        ResolvedSource::Git(url) => url@,
        ResolvedSource::Local(path) => path@,
        ResolvedSource::OpenExchange(id) => "openexchange:"@ + id@,
    }
}

fn repository_text(s: &ResolvedSource) -> (r: String)
    ensures
        r@ == repository_url(*s),
{
    match s {
        ResolvedSource::GitHub { owner, repo } => {
            let mut r = String::new();
            r.append("https://github.com/");
            r.append(owner.as_str());
            r.append("/");
            r.append(repo.as_str());
            r
        },
        ResolvedSource::Git(url) => to_owned_string(url.as_str()),
        ResolvedSource::Local(path) => to_owned_string(path.as_str()),
        ResolvedSource::OpenExchange(id) => {
            let mut r = String::new();
            r.append("openexchange:");
            r.append(id.as_str());
            r
        },
    }
}

/// The lock file contents.
pub struct ResolveLock {
    pub packages: Vec<PackageLock>,
}

/// One package of the lock file.
pub struct PackageLock {
    pub name: String,
    pub version: String,
    pub repository: String,
    pub checksum: Option<String>,
}

/// A value quoted for a TOML basic string: `\` becomes `\\`, then `"` becomes `\"`.
pub open spec fn toml_escape(s: Seq<char>) -> Seq<char> {
    replace_char(replace_char(s, '\\', "\\\\"@), '"', "\\\""@)
}

/// One `[[package]]` table of the lock file.
pub open spec fn package_table(p: PackageLock) -> Seq<char> {
    "[[package]]\nname = \""@ + toml_escape(p.name@) + "\"\nversion = \""@ + toml_escape(p.version@)
        + "\"\nrepository = \""@ + toml_escape(p.repository@) + "\"\n\n"@
}

/// The tables of all packages, in order.
pub open spec fn package_tables(ps: Seq<PackageLock>) -> Seq<char>
    decreases ps.len(),
{
    if ps.len() == 0 {
        Seq::empty()
    } else {
        package_tables(ps.drop_last()) + package_table(ps.last())
    }
}

fn toml_escaped(s: &str) -> (r: String)
    ensures
        r@ == toml_escape(s@),
{
    let a = replace_char_string(s, '\\', "\\\\");
    replace_char_string(a.as_str(), '"', "\\\"")
}

/// The lock file text: a metadata table, then one table per package.
pub open spec fn lock_text(ps: Seq<PackageLock>) -> Seq<char> {
    "[metadata]\nformat-version = 1\n\n"@ + package_tables(ps)
}

impl ResolveLock {
    /// The lock file text: a metadata table, then one table per package.
    pub fn to_toml(&self) -> (r: String)
        ensures
            r@ == lock_text(self.packages@),
    {
        let mut out = String::new();
        out.append("[metadata]\nformat-version = 1\n\n");
        let ghost head = out@;
        let mut i: usize = 0;
        while i < self.packages.len()
            invariant
                i <= self.packages.len(),
                head == "[metadata]\nformat-version = 1\n\n"@,
                out@ == head + package_tables(self.packages@.take(i as int)),
            decreases self.packages.len() - i,
        {
            assert(self.packages@.take(i + 1).drop_last() =~= self.packages@.take(i as int));
            let pkg = &self.packages[i];
            out.append("[[package]]\nname = \"");
            let e = toml_escaped(pkg.name.as_str());
            out.append(e.as_str());
            out.append("\"\nversion = \"");
            let e = toml_escaped(pkg.version.as_str());
            out.append(e.as_str());
            out.append("\"\nrepository = \"");
            let e = toml_escaped(pkg.repository.as_str());
            out.append(e.as_str());
            out.append("\"\n\n");
            i += 1;
            assert(out@ =~= head + package_tables(self.packages@.take(i as int)));
        }
        assert(self.packages@.take(self.packages.len() as int) =~= self.packages@);
        out
    }
}

// ── TOML string round trip ───────────────────────────────────────────────────

/// How a TOML reader reads the body of a basic string: `\` and the next
/// character stand for that character.
pub open spec fn toml_unescape(s: Seq<char>) -> Seq<char>
    decreases s.len(),
{
    if s.len() == 0 {
        s
    } else if s[0] == '\\' && s.len() >= 2 {
        seq![s[1]] + toml_unescape(s.skip(2))
    } else {
        seq![s[0]] + toml_unescape(s.drop_first())
    }
}

/// The escape of one character.
pub open spec fn escape_char(c: char) -> Seq<char> {
    if c == '\\' {
        seq!['\\', '\\']
    } else if c == '"' {
        seq!['\\', '"']
    } else {
        seq![c]
    }
}

/// Escaping character by character, from the front.
pub open spec fn escape_each(s: Seq<char>) -> Seq<char>
    decreases s.len(),
{
    if s.len() == 0 {
        s
    } else {
        escape_char(s[0]) + escape_each(s.drop_first())
    }
}

proof fn lemma_escape_each_front(s: Seq<char>)
    ensures
        toml_escape(s) == escape_each(s),
    decreases s.len(),
{
    reveal_strlit("\\\\");
    reveal_strlit("\\\"");
    assert("\\\\"@ =~= seq!['\\', '\\']);
    assert("\\\""@ =~= seq!['\\', '"']);
    if s.len() == 0 {
    } else {
        let c = s[0];
        let t = s.drop_first();
        lemma_escape_each_front(t);
        assert(s =~= seq![c] + t);
        lemma_replace_char_append(seq![c], t, '\\', "\\\\"@);
        let a = replace_char(seq![c], '\\', "\\\\"@);
        let b = replace_char(t, '\\', "\\\\"@);
        assert(replace_char(seq![c], '\\', "\\\\"@) == replace_char(Seq::<char>::empty(), '\\', "\\\\"@) + (if c == '\\' {
            "\\\\"@
        } else {
            seq![c]
        })) by {
            assert(seq![c].drop_last() =~= Seq::<char>::empty());
        }
        assert(a =~= (if c == '\\' {
            "\\\\"@
        } else {
            seq![c]
        }));
        lemma_replace_char_append(a, b, '"', "\\\""@);
        let e = Seq::<char>::empty();
        assert(replace_char(e, '"', "\\\""@) == e);
        if c == '\\' {
            assert(a =~= seq!['\\', '\\']);
            let a1 = a.drop_last();
            assert(a1 =~= seq!['\\']);
            assert(a1.drop_last() =~= e);
            assert(replace_char(a1, '"', "\\\""@) =~= seq!['\\']);
            assert(replace_char(a, '"', "\\\""@) =~= seq!['\\', '\\']);
        } else {
            assert(a =~= seq![c]);
            assert(a.drop_last() =~= e);
            assert(a.last() == c);
            let x = if c == '"' {
                "\\\""@
            } else {
                seq![c]
            };
            assert(replace_char(a, '"', "\\\""@) == replace_char(e, '"', "\\\""@) + x);
            assert(e + x =~= x);
            assert(x =~= escape_char(c));
        }
    }
}

/// Unescaping undoes escaping character by character.
pub proof fn lemma_unescape_escape_each(s: Seq<char>)
    ensures
        toml_unescape(escape_each(s)) == s,
    decreases s.len(),
{
    if s.len() > 0 {
        let c = s[0];
        let t = s.drop_first();
        lemma_unescape_escape_each(t);
        let e = escape_each(s);
        assert(e == escape_char(c) + escape_each(t));
        if c == '\\' || c == '"' {
            assert(e[0] == '\\' && e.len() >= 2 && e[1] == c);
            assert(e.skip(2) =~= escape_each(t));
        } else {
            assert(e[0] == c);
            assert(e.drop_first() =~= escape_each(t));
        }
        assert(s =~= seq![c] + t);
    }
}

/// A value with no `\\` and no `"` needs no escaping.
pub open spec fn toml_plain(v: Seq<char>) -> bool {
    forall|i: int| 0 <= i < v.len() ==> v[i] != '\\' && v[i] != '"'
}

/// A value with no `\\` and no `"` is its own escape.
pub proof fn lemma_escape_each_plain(v: Seq<char>)
    requires
        toml_plain(v),
    ensures
        escape_each(v) == v,
    decreases v.len(),
{
    if v.len() > 0 {
        lemma_escape_each_plain(v.drop_first());
        assert(v =~= seq![v[0]] + v.drop_first());
    }
}

/// The lock file quotes values so that a TOML reader reads back exactly the
/// value written: unescaping the escaped text gives the original.
pub proof fn lemma_toml_escape_round_trip(s: Seq<char>)
    ensures
        toml_unescape(toml_escape(s)) == s,
{
    lemma_escape_each_front(s);
    lemma_unescape_escape_each(s);
}

// ── Reading the lock file back ───────────────────────────────────────────────

/// How a TOML reader reads a basic string after its opening quote: up to the
/// first `"` that is not escaped by a `\`. Gives the raw body and the text
/// after the closing quote, or nothing when the string is not closed.
pub open spec fn basic_string_body(s: Seq<char>) -> Option<(Seq<char>, Seq<char>)>
    decreases s.len(),
{
    if s.len() == 0 {
        None
    } else if s[0] == '"' {
        Some((Seq::<char>::empty(), s.drop_first()))
    } else if s[0] == '\\' && s.len() >= 2 {
        match basic_string_body(s.skip(2)) {
            Some(r) => Some((seq![s[0], s[1]] + r.0, r.1)),
            None => None,
        }
    } else {
        match basic_string_body(s.drop_first()) {
            Some(r) => Some((seq![s[0]] + r.0, r.1)),
            None => None,
        }
    }
}

/// A `key = "value"` line read after its fixed text `lead` (which holds the
/// key and the opening quote): the unescaped value and the rest of the text.
pub open spec fn read_string_field(lead: Seq<char>, t: Seq<char>) -> Option<(Seq<char>, Seq<char>)> {
    if starts_with(t, lead) {
        match basic_string_body(t.skip(lead.len() as int)) {
            Some(r) => Some((toml_unescape(r.0), r.1)),
            None => None,
        }
    } else {
        None
    }
}

/// One `[[package]]` table read from the front of `t`: its name, version and
/// repository, and the text after the table.
pub open spec fn read_package(t: Seq<char>) -> Option<((Seq<char>, Seq<char>, Seq<char>), Seq<char>)> {
    match read_string_field("[[package]]\nname = \""@, t) {
        None => None,
        Some(a) => match read_string_field("\nversion = \""@, a.1) {
            None => None,
            Some(b) => match read_string_field("\nrepository = \""@, b.1) {
                None => None,
                Some(c) => if starts_with(c.1, "\n\n"@) {
                    Some(((a.0, b.0, c.0), c.1.skip(2)))
                } else {
                    None
                },
            },
        },
    }
}

/// All `[[package]]` tables of `t`, read from the front to the end.
pub open spec fn read_packages(t: Seq<char>) -> Option<Seq<(Seq<char>, Seq<char>, Seq<char>)>>
    decreases t.len(),
{
    if t.len() == 0 {
        Some(Seq::empty())
    } else {
        match read_package(t) {
            None => None,
            Some(p) => if p.1.len() < t.len() {
                match read_packages(p.1) {
                    Some(ps) => Some(seq![p.0] + ps),
                    None => None,
                }
            } else {
                None
            },
        }
    }
}

/// A lock file read back: the metadata table, then the package tables.
pub open spec fn read_lock(text: Seq<char>) -> Option<Seq<(Seq<char>, Seq<char>, Seq<char>)>> {
    let head = "[metadata]\nformat-version = 1\n\n"@;
    if starts_with(text, head) {
        read_packages(text.skip(head.len() as int))
    } else {
        None
    }
}

/// The name, version and repository of a package.
pub open spec fn package_fields(p: PackageLock) -> (Seq<char>, Seq<char>, Seq<char>) {
    (p.name@, p.version@, p.repository@)
}

/// An escaped value followed by `"` reads as a basic string body that ends
/// exactly at that quote.
pub proof fn lemma_body_of_escaped(x: Seq<char>, rest: Seq<char>)
    ensures
        basic_string_body(escape_each(x) + seq!['"'] + rest) == Some((escape_each(x), rest)),
    decreases x.len(),
{
    let t = escape_each(x) + seq!['"'] + rest;
    if x.len() == 0 {
        assert(escape_each(x) =~= Seq::<char>::empty());
        assert(t =~= seq!['"'] + rest);
        assert(t.drop_first() =~= rest);
    } else {
        let c = x[0];
        let y = x.drop_first();
        lemma_body_of_escaped(y, rest);
        let tail = escape_each(y) + seq!['"'] + rest;
        assert(escape_each(x) == escape_char(c) + escape_each(y));
        if c == '\\' || c == '"' {
            assert(t =~= seq!['\\', c] + tail);
            assert(t.skip(2) =~= tail);
            assert(seq![t[0], t[1]] + escape_each(y) =~= escape_each(x));
        } else {
            assert(t =~= seq![c] + tail);
            assert(t.drop_first() =~= tail);
            assert(seq![t[0]] + escape_each(y) =~= escape_each(x));
        }
    }
}

/// A value written escaped into a basic string after `lead` reads back as
/// itself, and reading goes on right after its closing quote.
pub proof fn lemma_read_field(lead: Seq<char>, v: Seq<char>, rest: Seq<char>)
    ensures
        read_string_field(lead, lead + toml_escape(v) + seq!['"'] + rest) == Some((v, rest)),
{
    let t = lead + toml_escape(v) + seq!['"'] + rest;
    lemma_escape_each_front(v);
    lemma_unescape_escape_each(v);
    lemma_body_of_escaped(v, rest);
    assert(t.subrange(0, lead.len() as int) =~= lead);
    assert(t.skip(lead.len() as int) =~= escape_each(v) + seq!['"'] + rest);
}

proof fn lemma_read_table(p: PackageLock, rest: Seq<char>)
    ensures
        read_package(package_table(p) + rest) == Some((package_fields(p), rest)),
{
    reveal_strlit("[[package]]\nname = \"");
    reveal_strlit("\"\nversion = \"");
    reveal_strlit("\nversion = \"");
    reveal_strlit("\"\nrepository = \"");
    reveal_strlit("\nrepository = \"");
    reveal_strlit("\"\n\n");
    reveal_strlit("\n\n");
    let l1 = "[[package]]\nname = \""@;
    let l2 = "\nversion = \""@;
    let l3 = "\nrepository = \""@;
    let t = package_table(p) + rest;
    let r3 = "\n\n"@ + rest;
    let r2 = l3 + toml_escape(p.repository@) + seq!['"'] + r3;
    let r1 = l2 + toml_escape(p.version@) + seq!['"'] + r2;
    assert(t =~= l1 + toml_escape(p.name@) + seq!['"'] + r1);
    lemma_read_field(l1, p.name@, r1);
    lemma_read_field(l2, p.version@, r2);
    lemma_read_field(l3, p.repository@, r3);
    assert(r3.subrange(0, 2) =~= "\n\n"@);
    assert(r3.skip(2) =~= rest);
}

proof fn lemma_tables_front(ps: Seq<PackageLock>)
    requires
        ps.len() > 0,
    ensures
        package_tables(ps) == package_table(ps[0]) + package_tables(ps.drop_first()),
    decreases ps.len(),
{
    if ps.len() == 1 {
        assert(ps.drop_last() =~= Seq::<PackageLock>::empty());
        assert(ps.drop_first() =~= Seq::<PackageLock>::empty());
        assert(package_table(ps[0]) + Seq::<char>::empty() =~= package_table(ps[0]));
        assert(Seq::<char>::empty() + package_table(ps[0]) =~= package_table(ps[0]));
    } else {
        lemma_tables_front(ps.drop_last());
        assert(ps.drop_last().drop_first() =~= ps.drop_first().drop_last());
        assert(ps.drop_first().last() == ps.last());
        assert(ps.drop_last()[0] == ps[0]);
        assert(package_tables(ps) =~= package_table(ps[0]) + package_tables(ps.drop_first()));
    }
}

#[verifier::spinoff_prover]
#[verifier::rlimit(40)]
proof fn lemma_read_tables(ps: Seq<PackageLock>)
    ensures
        read_packages(package_tables(ps)) == Some(ps.map_values(|p: PackageLock| package_fields(p))),
    decreases ps.len(),
{
    if ps.len() == 0 {
        assert(ps.map_values(|p: PackageLock| package_fields(p)) =~= Seq::<(Seq<char>, Seq<char>, Seq<char>)>::empty());
    } else {
        lemma_tables_front(ps);
        let rest = package_tables(ps.drop_first());
        lemma_read_table(ps[0], rest);
        lemma_read_tables(ps.drop_first());
        reveal_strlit("[[package]]\nname = \"");
        assert(package_table(ps[0]).len() > 0);
        assert(ps.map_values(|p: PackageLock| package_fields(p)) =~= seq![package_fields(ps[0])]
            + ps.drop_first().map_values(|p: PackageLock| package_fields(p)));
    }
}

/// The lock file text reads back, as TOML reads basic strings, to exactly the
/// name, version and repository of each package, in order, after the
/// metadata table (the checksum is not written).
pub proof fn lemma_lock_reads_back(lock: ResolveLock)
    ensures
        read_lock(lock_text(lock.packages@)) == Some(lock.packages@.map_values(|p: PackageLock| package_fields(p))),
{
    let head = "[metadata]\nformat-version = 1\n\n"@;
    let text = head + package_tables(lock.packages@);
    assert(text.subrange(0, head.len() as int) =~= head);
    assert(text.skip(head.len() as int) =~= package_tables(lock.packages@));
    lemma_read_tables(lock.packages@);
}

} // verus!
