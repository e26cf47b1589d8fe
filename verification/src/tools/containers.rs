//! Listing, ranking and choosing IRIS containers for the container tools.

use vstd::prelude::*;
use crate::iris::connection::{AtelierVersion, DiscoverySource, IrisConnection};
use crate::iris::discovery::base_url_for;
use crate::matching::{compile_pattern, pattern_group, regex_compiles, regex_escape, regex_escaped, regex_group};
use crate::text::{
    chars_of, contains, matches_at, ends_with, lines, lines_of, lowercase, parse_unsigned, parse_unsigned_exec,
    split_once_first, split_once_first_exec, starts_with, str_contains, str_ends_with, str_eq,
    str_starts_with, string_of, texts, to_lowercase, to_owned_string, push_text,
};

verus! {

/// How closely a container name matches the workspace directory name, both
/// lower-cased: 100 for the same name, 80 for a prefix, 60 for a part, else 0
/// (and 0 for an empty workspace name); a match gains 10 for an `-iris` or
/// `_iris` ending and 5 for a `-test` or `_test` ending.
pub open spec fn listing_score(name: Seq<char>, workspace: Seq<char>) -> i64 {
    if workspace.len() == 0 {
        0
    } else {
        let cn = lowercase(name);
        let wb = lowercase(workspace);
        let base: i64 = if cn == wb {
            100
        } else if starts_with(cn, wb) {
            80
        } else if contains(cn, wb) {
            60
        } else {
            0
        };
        if base == 0 {
            0
        } else {
            let iris_bonus: i64 = if ends_with(cn, "-iris"@) || ends_with(cn, "_iris"@) {
                10
            } else {
                0
            };
            let test_bonus: i64 = if ends_with(cn, "-test"@) || ends_with(cn, "_test"@) {
                5
            } else {
                0
            };
            (base + iris_bonus + test_bonus) as i64
        }
    }
}

/// The score of a listed container's name against the workspace name.
pub fn score_container(name: &str, workspace_basename: &str) -> (r: i64)
    ensures
        r == listing_score(name@, workspace_basename@),
{
    let wv = chars_of(workspace_basename);
    if wv.len() == 0 {
        return 0;
    }
    let cn = to_lowercase(name);
    let wb = to_lowercase(workspace_basename);
    let base: i64 = if str_eq(cn.as_str(), wb.as_str()) {
        100
    } else if str_starts_with(cn.as_str(), wb.as_str()) {
        80
    } else if str_contains(cn.as_str(), wb.as_str()) {
        60
    } else {
        0
    };
    if base == 0 {
        return 0;
    }
    let iris_bonus: i64 = if str_ends_with(cn.as_str(), "-iris") || str_ends_with(cn.as_str(), "_iris") {
        10
    } else {
        0
    };
    let test_bonus: i64 = if str_ends_with(cn.as_str(), "-test") || str_ends_with(cn.as_str(), "_test") {
        5
    } else {
        0
    };
    base + iris_bonus + test_bonus
}

/// The regular expression that finds the host port published for a container port.
pub open spec fn port_regex(container_port: Seq<char>) -> Seq<char> {
    "(\\d+)->"@ + regex_escaped(container_port)
}

/// The host port that a port description such as `0.0.0.0:32768->1972/tcp`
/// publishes for `container_port`: the digits before the first `->port`.
pub open spec fn published_host_port(ports: Seq<char>, container_port: Seq<char>) -> Option<u16> {
    let p = port_regex(container_port);
    if regex_compiles(p) {
        match regex_group(p, ports, 1) {
            Some(d) => match parse_unsigned(d, 65535) {
                Some(v) => Some(v as u16),
                None => None,
            },
            None => None,
        }
    } else {
        None
    }
}

/// The host port a Docker port description publishes for `container_port`.
pub fn extract_port(ports: &str, container_port: &str) -> (r: Option<u16>)
    ensures
        r == published_host_port(ports@, container_port@),
{
    let esc = regex_escape(container_port);
    let mut pat = String::new();
    pat.append("(\\d+)->");
    pat.append(esc.as_str());
    let re = match compile_pattern(pat.as_str()) {
        Some(re) => re,
        None => return None,
    };
    match pattern_group(&re, ports, 1) {
        Some(d) => {
            let dv = chars_of(d.as_str());
            assert(dv@.subrange(0, dv.len() as int) =~= dv@);
            match parse_unsigned_exec(&dv, 0, dv.len(), 65535) {
                Some(v) => Some(v as u16),
                None => None,
            }
        },
        None => None,
    }
}

/// A running IRIS container as the container tools report it.
pub struct ContainerInfo {
    pub name: String,
    pub port_superserver: Option<u16>,
    pub port_web: Option<u16>,
    pub image: String,
    pub status: String,
    pub age: String,
    pub score: i64,
}

/// The fields of a container entry.
pub open spec fn container_view(c: ContainerInfo) -> (Seq<char>, Option<u16>, Option<u16>, Seq<char>, Seq<char>, Seq<char>, i64) {
    (c.name@, c.port_superserver, c.port_web, c.image@, c.status@, c.age@, c.score)
}

/// The entry for a container, given its name, port description, image,
/// status and age, scored against the workspace name.
pub open spec fn container_entry(name: Seq<char>, ports: Seq<char>, image: Seq<char>, status: Seq<char>, age: Seq<char>, workspace: Seq<char>) -> (Seq<char>, Option<u16>, Option<u16>, Seq<char>, Seq<char>, Seq<char>, i64) {
    (
        name,
        published_host_port(ports, "1972"@),
        published_host_port(ports, "52773"@),
        image,
        status,
        age,
        listing_score(name, workspace),
    )
}

/// Builds the entry of one listed container.
pub fn container_info(name: &str, ports: &str, image: &str, status: &str, age: &str, workspace_basename: &str) -> (r: ContainerInfo)
    ensures
        container_view(r) == container_entry(name@, ports@, image@, status@, age@, workspace_basename@),
{
    ContainerInfo {
        name: to_owned_string(name),
        port_superserver: extract_port(ports, "1972"),
        port_web: extract_port(ports, "52773"),
        image: to_owned_string(image),
        status: to_owned_string(status),
        age: to_owned_string(age),
        score: score_container(name, workspace_basename),
    }
}

/// `line.splitn(5, '\t')` when it gives all five fields: name, image, ports,
/// status and age (the last field keeps any further tabs).
pub open spec fn tab_fields(line: Seq<char>) -> Option<(Seq<char>, Seq<char>, Seq<char>, Seq<char>, Seq<char>)> {
    let (f0, r0) = split_once_first(line, '\t');
    match r0 {
        None => None,
        Some(r0) => {
            let (f1, r1) = split_once_first(r0, '\t');
            match r1 {
                None => None,
                Some(r1) => {
                    let (f2, r2) = split_once_first(r1, '\t');
                    match r2 {
                        None => None,
                        Some(r2) => {
                            let (f3, r3) = split_once_first(r2, '\t');
                            match r3 {
                                None => None,
                                Some(r3) => Some((f0, f1, f2, f3, r3)),
                            }
                        },
                    }
                },
            }
        },
    }
}

/// The entry for one line of `docker ps` output: a line with all five fields
/// whose image, lower-cased, mentions `intersystems` or `iris`; it is reported
/// as running.
pub open spec fn docker_ps_entry(line: Seq<char>, workspace: Seq<char>) -> Option<(Seq<char>, Option<u16>, Option<u16>, Seq<char>, Seq<char>, Seq<char>, i64)> {
    match tab_fields(line) {
        None => None,
        Some((name, image, ports, _status, age)) => if contains(lowercase(image), "intersystems"@) || contains(
            lowercase(image),
            "iris"@,
        ) {
            Some(container_entry(name, ports, image, "running"@, age, workspace))
        } else {
            None
        },
    }
}

/// The entries of all `docker ps` lines, in order.
pub open spec fn docker_ps_entries(ls: Seq<Seq<char>>, workspace: Seq<char>) -> Seq<(Seq<char>, Option<u16>, Option<u16>, Seq<char>, Seq<char>, Seq<char>, i64)>
    decreases ls.len(),
{
    if ls.len() == 0 {
        Seq::empty()
    } else {
        docker_ps_entries(ls.drop_last(), workspace) + match docker_ps_entry(ls.last(), workspace) {
            Some(e) => seq![e],
            None => Seq::empty(),
        }
    }
}

fn docker_ps_line(line: &str, workspace_basename: &str) -> (r: Option<ContainerInfo>)
    ensures
        match r {
            Some(c) => docker_ps_entry(line@, workspace_basename@) == Some(container_view(c)),
            None => docker_ps_entry(line@, workspace_basename@) is None,
        },
{
    let (name, r0) = split_once_first_exec(line, '\t');
    let r0 = match r0 {
        Some(x) => x,
        None => return None,
    };
    let (image, r1) = split_once_first_exec(r0.as_str(), '\t');
    let r1 = match r1 {
        Some(x) => x,
        None => return None,
    };
    let (ports, r2) = split_once_first_exec(r1.as_str(), '\t');
    let r2 = match r2 {
        Some(x) => x,
        None => return None,
    };
    let (_status, r3) = split_once_first_exec(r2.as_str(), '\t');
    let age = match r3 {
        Some(x) => x,
        None => return None,
    };
    let low = to_lowercase(image.as_str());
    if !str_contains(low.as_str(), "intersystems") && !str_contains(low.as_str(), "iris") {
        return None;
    }
    Some(container_info(name.as_str(), ports.as_str(), image.as_str(), "running", age.as_str(), workspace_basename))
}

/// The IRIS containers in `docker ps` output (one container per line, fields
/// separated by tabs), in the order listed.
pub fn docker_ps_containers(output: &str, workspace_basename: &str) -> (r: Vec<ContainerInfo>)
    ensures
        r@.map_values(|c: ContainerInfo| container_view(c)) == docker_ps_entries(lines(output@), workspace_basename@),
{
    let v = chars_of(output);
    let ls = lines_of(&v);
    let ghost lsv = lines(output@);
    let mut r: Vec<ContainerInfo> = Vec::new();
    let mut i: usize = 0;
    while i < ls.len()
        invariant
            i <= ls.len(),
            ls.len() == lsv.len(),
            forall|k: int| 0 <= k < ls.len() ==> (#[trigger] ls[k])@ == lsv[k],
            r@.map_values(|c: ContainerInfo| container_view(c)) == docker_ps_entries(lsv.take(i as int), workspace_basename@),
        decreases ls.len() - i,
    {
        assert(lsv.take(i + 1).drop_last() =~= lsv.take(i as int));
        assert(lsv.take(i + 1).last() == ls[i as int]@);
        let line = string_of(&ls[i]);
        let ghost r0 = r@;
        match docker_ps_line(line.as_str(), workspace_basename) {
            Some(c) => {
                r.push(c);
                assert(r@.map_values(|c: ContainerInfo| container_view(c)) =~= r0.map_values(|c: ContainerInfo| container_view(c)).push(container_view(r@.last())));
            },
            None => {},
        }
        i += 1;
        assert(r@.map_values(|c: ContainerInfo| container_view(c)) =~= docker_ps_entries(lsv.take(i as int), workspace_basename@));
    }
    assert(lsv.take(ls.len() as int) =~= lsv);
    r
}

// ── ordering ─────────────────────────────────────────────────────────────────

/// `a` sorts before `b` as `str::cmp` orders them (by code point, then length).
pub open spec fn text_less(a: Seq<char>, b: Seq<char>) -> bool
    decreases a.len(),
{
    if a.len() == 0 {
        b.len() > 0
    } else if b.len() == 0 {
        false
    } else if a[0] != b[0] {
        (a[0] as u32) < (b[0] as u32)
    } else {
        text_less(a.drop_first(), b.drop_first())
    }
}

fn text_less_exec(a: &str, b: &str) -> (r: bool)
    ensures
        r == text_less(a@, b@),
{
    let av = chars_of(a);
    let bv = chars_of(b);
    let mut i: usize = 0;
    assert(av@.skip(0) =~= av@);
    assert(bv@.skip(0) =~= bv@);
    while i < av.len() && i < bv.len() && av[i] == bv[i]
        invariant
            i <= av.len(),
            i <= bv.len(),
            text_less(av@, bv@) == text_less(av@.skip(i as int), bv@.skip(i as int)),
        decreases av.len() - i,
    {
        assert(av@.skip(i as int).drop_first() =~= av@.skip(i + 1));
        assert(bv@.skip(i as int).drop_first() =~= bv@.skip(i + 1));
        i += 1;
    }
    if i == av.len() {
        i < bv.len()
    } else if i == bv.len() {
        false
    } else {
        (av[i] as u32) < (bv[i] as u32)
    }
}

/// Entry `a` is listed before entry `b`: a higher score, or the same score and a smaller name.
pub open spec fn listed_before(a: (Seq<char>, Option<u16>, Option<u16>, Seq<char>, Seq<char>, Seq<char>, i64), b: (Seq<char>, Option<u16>, Option<u16>, Seq<char>, Seq<char>, Seq<char>, i64)) -> bool {
    a.6 > b.6 || (a.6 == b.6 && text_less(a.0, b.0))
}

/// `x` placed into an ordered list: before the first entry it is listed before.
pub open spec fn insert_listed(s: Seq<(Seq<char>, Option<u16>, Option<u16>, Seq<char>, Seq<char>, Seq<char>, i64)>, x: (Seq<char>, Option<u16>, Option<u16>, Seq<char>, Seq<char>, Seq<char>, i64)) -> Seq<(Seq<char>, Option<u16>, Option<u16>, Seq<char>, Seq<char>, Seq<char>, i64)>
    decreases s.len(),
{
    if s.len() == 0 {
        seq![x]
    } else if listed_before(x, s[0]) {
        seq![x] + s
    } else {
        seq![s[0]] + insert_listed(s.drop_first(), x)
    }
}

/// A stable sort of container entries: score descending, then name ascending.
pub open spec fn listing_order(s: Seq<(Seq<char>, Option<u16>, Option<u16>, Seq<char>, Seq<char>, Seq<char>, i64)>) -> Seq<(Seq<char>, Option<u16>, Option<u16>, Seq<char>, Seq<char>, Seq<char>, i64)>
    decreases s.len(),
{
    if s.len() == 0 {
        s
    } else {
        insert_listed(listing_order(s.drop_last()), s.last())
    }
}

/// Entries in listing order: no entry is listed before one that comes earlier.
pub open spec fn listing_sorted(s: Seq<(Seq<char>, Option<u16>, Option<u16>, Seq<char>, Seq<char>, Seq<char>, i64)>) -> bool {
    forall|i: int, j: int| 0 <= i < j < s.len() ==> !listed_before(#[trigger] s[j], #[trigger] s[i])
}

proof fn lemma_text_less_asymmetric(a: Seq<char>, b: Seq<char>)
    ensures
        text_less(a, b) ==> !text_less(b, a),
    decreases a.len(),
{
    if a.len() > 0 && b.len() > 0 && a[0] == b[0] {
        lemma_text_less_asymmetric(a.drop_first(), b.drop_first());
    }
}

proof fn lemma_text_less_transitive(a: Seq<char>, b: Seq<char>, c: Seq<char>)
    requires
        text_less(a, b),
        text_less(b, c),
    ensures
        text_less(a, c),
    decreases a.len(),
{
    if a.len() > 0 && a[0] == b[0] && b[0] == c[0] {
        lemma_text_less_transitive(a.drop_first(), b.drop_first(), c.drop_first());
    }
}

proof fn lemma_listed_before_order(
    a: (Seq<char>, Option<u16>, Option<u16>, Seq<char>, Seq<char>, Seq<char>, i64),
    b: (Seq<char>, Option<u16>, Option<u16>, Seq<char>, Seq<char>, Seq<char>, i64),
    c: (Seq<char>, Option<u16>, Option<u16>, Seq<char>, Seq<char>, Seq<char>, i64),
)
    ensures
        listed_before(a, b) ==> !listed_before(b, a),
        listed_before(a, b) && listed_before(b, c) ==> listed_before(a, c),
{
    lemma_text_less_asymmetric(a.0, b.0);
    if listed_before(a, b) && listed_before(b, c) && a.6 == b.6 && b.6 == c.6 {
        lemma_text_less_transitive(a.0, b.0, c.0);
    }
}

/// Where `insert_listed` places `x`.
pub open spec fn listed_position(s: Seq<(Seq<char>, Option<u16>, Option<u16>, Seq<char>, Seq<char>, Seq<char>, i64)>, x: (Seq<char>, Option<u16>, Option<u16>, Seq<char>, Seq<char>, Seq<char>, i64)) -> int
    decreases s.len(),
{
    if s.len() == 0 || listed_before(x, s[0]) {
        0
    } else {
        1 + listed_position(s.drop_first(), x)
    }
}

proof fn lemma_listed_position(s: Seq<(Seq<char>, Option<u16>, Option<u16>, Seq<char>, Seq<char>, Seq<char>, i64)>, x: (Seq<char>, Option<u16>, Option<u16>, Seq<char>, Seq<char>, Seq<char>, i64))
    ensures
        0 <= listed_position(s, x) <= s.len(),
        insert_listed(s, x) == s.insert(listed_position(s, x), x),
        forall|i: int| 0 <= i < listed_position(s, x) ==> !listed_before(x, #[trigger] s[i]),
        listed_position(s, x) < s.len() ==> listed_before(x, s[listed_position(s, x)]),
    decreases s.len(),
{
    if s.len() == 0 || listed_before(x, s[0]) {
        assert(insert_listed(s, x) =~= s.insert(0, x));
    } else {
        let t = s.drop_first();
        lemma_listed_position(t, x);
        let p = listed_position(t, x);
        assert(insert_listed(s, x) =~= s.insert(p + 1, x));
        assert forall|i: int| 0 <= i < p + 1 implies !listed_before(x, #[trigger] s[i]) by {
            if i > 0 {
                assert(s[i] == t[i - 1]);
            }
        }
        if p < t.len() {
            assert(s[p + 1] == t[p]);
        }
    }
}

proof fn lemma_insert_listed(s: Seq<(Seq<char>, Option<u16>, Option<u16>, Seq<char>, Seq<char>, Seq<char>, i64)>, x: (Seq<char>, Option<u16>, Option<u16>, Seq<char>, Seq<char>, Seq<char>, i64))
    requires
        listing_sorted(s),
    ensures
        listing_sorted(insert_listed(s, x)),
        insert_listed(s, x).to_multiset() == s.to_multiset().insert(x),
{
    broadcast use vstd::seq_lib::to_multiset_insert;
    lemma_listed_position(s, x);
    let p = listed_position(s, x);
    let r = s.insert(p, x);
    assert forall|i: int, j: int| 0 <= i < j < r.len() implies !listed_before(#[trigger] r[j], #[trigger] r[i]) by {
        if i < p {
            assert(r[i] == s[i]);
            if j < p {
                assert(r[j] == s[j]);
            } else if j > p {
                assert(r[j] == s[j - 1]);
            }
        } else if i == p {
            assert(r[j] == s[j - 1]);
            lemma_listed_before_order(s[j - 1], x, s[p]);
            lemma_listed_before_order(x, s[p], x);
        } else {
            assert(r[i] == s[i - 1] && r[j] == s[j - 1]);
        }
    }
}

/// Listing containers sorts them: every entry comes before those it is listed
/// before (a higher score, or the same score and a smaller name), and the
/// entries are exactly those that went in.
pub proof fn lemma_listing_order(s: Seq<(Seq<char>, Option<u16>, Option<u16>, Seq<char>, Seq<char>, Seq<char>, i64)>)
    ensures
        listing_sorted(listing_order(s)),
        listing_order(s).to_multiset() == s.to_multiset(),
    decreases s.len(),
{
    broadcast use vstd::seq_lib::group_seq_properties;
    if s.len() > 0 {
        lemma_listing_order(s.drop_last());
        lemma_insert_listed(listing_order(s.drop_last()), s.last());
        assert(s =~= s.drop_last().push(s.last()));
    }
}

fn insert_container(v: &mut Vec<ContainerInfo>, x: ContainerInfo)
    ensures
        final(v)@.map_values(|c: ContainerInfo| container_view(c))
            == insert_listed(old(v)@.map_values(|c: ContainerInfo| container_view(c)), container_view(x)),
{
    let ghost s = v@.map_values(|c: ContainerInfo| container_view(c));
    let ghost xv = container_view(x);
    let mut k: usize = 0;
    assert(s.skip(0) =~= s);
    assert(s.take(0) =~= Seq::<(Seq<char>, Option<u16>, Option<u16>, Seq<char>, Seq<char>, Seq<char>, i64)>::empty());
    loop
        invariant
            k <= v.len(),
            s == v@.map_values(|c: ContainerInfo| container_view(c)),
            xv == container_view(x),
            insert_listed(s, xv) == s.take(k as int) + insert_listed(s.skip(k as int), xv),
        ensures
            k <= v.len(),
            s == v@.map_values(|c: ContainerInfo| container_view(c)),
            insert_listed(s, xv) == s.take(k as int) + insert_listed(s.skip(k as int), xv),
            k < v.len() ==> listed_before(xv, s[k as int]),
        decreases v.len() - k,
    {
        if k >= v.len() {
            break;
        }
        let ghost t = s.skip(k as int);
        assert(t[0] == s[k as int]);
        let before = x.score > v[k].score || (x.score == v[k].score && text_less_exec(x.name.as_str(), v[k].name.as_str()));
        if before {
            break;
        }
        assert(t.drop_first() =~= s.skip(k + 1));
        assert(s.take(k + 1) =~= s.take(k as int).push(s[k as int]));
        assert(s.take(k as int) + (seq![t[0]] + insert_listed(s.skip(k + 1), xv)) =~= s.take(k + 1)
            + insert_listed(s.skip(k + 1), xv));
        k += 1;
    }
    proof {
        let t = s.skip(k as int);
        if k < v.len() {
            assert(t[0] == s[k as int]);
        }
        assert(insert_listed(t, xv) == seq![xv] + t);
    }
    v.insert(k, x);
    assert(v@.map_values(|c: ContainerInfo| container_view(c)) =~= s.take(k as int) + (seq![xv] + s.skip(k as int)));
}

/// The containers ordered by score, best first, then by name.
pub fn sort_containers(v: Vec<ContainerInfo>) -> (r: Vec<ContainerInfo>)
    ensures
        r@.map_values(|c: ContainerInfo| container_view(c)) == listing_order(v@.map_values(|c: ContainerInfo| container_view(c))),
{
    let ghost s = v@.map_values(|c: ContainerInfo| container_view(c));
    let mut src = v;
    let mut r: Vec<ContainerInfo> = Vec::new();
    let mut i: usize = 0;
    let n = src.len();
    // Take the entries from the back so that each removal is cheap, and insert them in their original order.
    let mut rev: Vec<ContainerInfo> = Vec::new();
    while src.len() > 0
        invariant
            src.len() + rev.len() == n,
            s.len() == n,
            forall|k: int| 0 <= k < src.len() ==> container_view(#[trigger] src@[k]) == s[k],
            forall|k: int| 0 <= k < rev.len() ==> container_view(#[trigger] rev@[k]) == s[n - 1 - k],
        decreases src.len(),
    {
        let c = src.pop().unwrap();
        rev.push(c);
    }
    while rev.len() > 0
        invariant
            rev.len() + i == n,
            s.len() == n,
            forall|k: int| 0 <= k < rev.len() ==> container_view(#[trigger] rev@[k]) == s[n - 1 - k],
            r@.map_values(|c: ContainerInfo| container_view(c)) == listing_order(s.take(i as int)),
        decreases rev.len(),
    {
        let c = rev.pop().unwrap();
        assert(container_view(c) == s[i as int]);
        assert(s.take(i + 1).drop_last() =~= s.take(i as int));
        insert_container(&mut r, c);
        i += 1;
    }
    assert(s.take(n as int) =~= s);
    r
}

/// The hint that names the best container, if any.
pub fn select_suggestion(containers: &Vec<ContainerInfo>) -> (r: Option<String>)
    ensures
        match r {
            Some(t) => containers.len() > 0 && t@ == "iris_select_container(name='"@ + containers@[0].name@ + "')"@,
            None => containers.len() == 0,
        },
{
    if containers.len() == 0 {
        return None;
    }
    let mut t = String::new();
    t.append("iris_select_container(name='");
    t.append(containers[0].name.as_str());
    t.append("')");
    Some(t)
}

/// The position of the first container with this name.
pub open spec fn first_named(cs: Seq<ContainerInfo>, name: Seq<char>) -> Option<int>
    decreases cs.len(),
{
    if cs.len() == 0 {
        None
    } else if cs[0].name@ == name {
        Some(0)
    } else {
        match first_named(cs.drop_first(), name) {
            Some(k) => Some(k + 1),
            None => None,
        }
    }
}

/// The position of the first container named `name`.
pub fn find_container(containers: &Vec<ContainerInfo>, name: &str) -> (r: Option<usize>)
    ensures
        match r {
            Some(k) => first_named(containers@, name@) == Some(k as int) && k < containers.len(),
            None => first_named(containers@, name@) is None,
        },
{
    let mut i: usize = 0;
    assert(containers@.skip(0) =~= containers@);
    while i < containers.len()
        invariant
            i <= containers.len(),
            first_named(containers@, name@) == match first_named(containers@.skip(i as int), name@) {
                Some(k) => Some(k + i),
                None => None,
            },
        decreases containers.len() - i,
    {
        let ghost t = containers@.skip(i as int);
        assert(t[0] == containers@[i as int]);
        if str_eq(containers[i].name.as_str(), name) {
            return Some(i);
        }
        assert(t.drop_first() =~= containers@.skip(i + 1));
        i += 1;
    }
    None
}

/// The names of the listed containers.
pub fn container_names(containers: &Vec<ContainerInfo>) -> (r: Vec<String>)
    ensures
        texts(r@) == containers@.map_values(|c: ContainerInfo| c.name@),
{
    let mut r: Vec<String> = Vec::new();
    let mut i: usize = 0;
    while i < containers.len()
        invariant
            i <= containers.len(),
            texts(r@) == containers@.take(i as int).map_values(|c: ContainerInfo| c.name@),
        decreases containers.len() - i,
    {
        push_text(&mut r, to_owned_string(containers[i].name.as_str()));
        i += 1;
        assert(texts(r@) =~= containers@.take(i as int).map_values(|c: ContainerInfo| c.name@));
    }
    assert(containers@.take(containers.len() as int) =~= containers@);
    r
}

/// The connection to a selected container, with its web port: the first
/// container with that name, its web port (default 52773) on localhost and its
/// superserver port (default 1972); the names of all containers when none has it.
pub fn select_container(
    containers: &Vec<ContainerInfo>,
    name: &str,
    namespace: &str,
    username: &str,
    password: &str,
) -> (r: Result<(IrisConnection, u16), Vec<String>>)
    ensures
        match r {
            Ok((c, web)) => first_named(containers@, name@) matches Some(k) && {
                let found = containers@[k];
                &&& web == match found.port_web {
                    Some(p) => p,
                    None => 52773u16,
                }
                &&& c.port_superserver == Some(match found.port_superserver {
                    Some(p) => p,
                    None => 1972u16,
                })
                &&& c.base_url@ == base_url_for("http"@, "localhost"@, web, None)
                &&& c.namespace@ == namespace@
                &&& c.username@ == username@
                &&& c.password@ == password@
                &&& c.version is None
                &&& c.atelier_version == AtelierVersion::V1
                &&& c.source matches DiscoverySource::Docker { container_name } && container_name@ == name@
            },
            Err(names) => first_named(containers@, name@) is None && texts(names@) == containers@.map_values(
                |c: ContainerInfo| c.name@,
            ),
        },
{
    let k = match find_container(containers, name) {
        Some(k) => k,
        None => return Err(container_names(containers)),
    };
    let found = &containers[k];
    let ss = match found.port_superserver {
        Some(p) => p,
        None => 1972,
    };
    let web = match found.port_web {
        Some(p) => p,
        None => 52773,
    };
    let base_url = crate::iris::discovery::build_base_url("http", "localhost", web, &None);
    let mut c = IrisConnection::new(
        base_url.as_str(),
        namespace,
        username,
        password,
        DiscoverySource::Docker { container_name: to_owned_string(name) },
    );
    c.port_superserver = Some(ss);
    Ok((c, web))
}

/// The sandbox container's name: the requested one, or the workspace name
/// followed by `-iris` when none was requested.
pub fn sandbox_name(requested: &str, workspace_basename: &str) -> (r: String)
    ensures
        r@ == if requested@.len() == 0 {
            workspace_basename@ + "-iris"@
        } else {
            requested@
        },
{
    let rv = chars_of(requested);
    if rv.len() == 0 {
        let mut r = String::new();
        r.append(workspace_basename);
        r.append("-iris");
        r
    } else {
        to_owned_string(requested)
    }
}

/// The sandbox already runs when the first container with its name reports a superserver port.
pub fn sandbox_running(containers: &Vec<ContainerInfo>, name: &str) -> (r: Option<usize>)
    ensures
        match r {
            Some(k) => first_named(containers@, name@) == Some(k as int) && k < containers.len()
                && containers@[k as int].port_superserver is Some,
            None => !(first_named(containers@, name@) matches Some(k) && containers@[k].port_superserver is Some),
        },
{
    match find_container(containers, name) {
        Some(k) => if containers[k].port_superserver.is_some() {
            Some(k)
        } else {
            None
        },
        None => None,
    }
}

/// How well a container name matches the workspace, in bands: for a non-empty
/// workspace name, the same name (lower-cased) scores from 100 to 115, a name
/// that starts with it from 80 to 95, one that only contains it from 60 to 75,
/// and only a name that does not contain it scores 0.
pub proof fn lemma_listing_score_bands(name: Seq<char>, workspace: Seq<char>)
    requires
        workspace.len() > 0,
    ensures
        ({
            let cn = lowercase(name);
            let wb = lowercase(workspace);
            let s = listing_score(name, workspace);
            &&& cn == wb ==> 100 <= s <= 115
            &&& cn != wb && starts_with(cn, wb) ==> 80 <= s <= 95
            &&& cn != wb && !starts_with(cn, wb) && contains(cn, wb) ==> 60 <= s <= 75
            &&& (s == 0 <==> !contains(cn, wb))
        }),
{
    let cn = lowercase(name);
    let wb = lowercase(workspace);
    if cn == wb {
        assert(matches_at(cn, 0, wb)) by {
            assert(cn.subrange(0, wb.len() as int) =~= cn);
        }
    } else if starts_with(cn, wb) {
        assert(matches_at(cn, 0, wb));
    }
}

} // verus!
