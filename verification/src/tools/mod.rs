pub mod containers;
pub mod debug;
pub mod doc;
pub mod elicitation;
pub mod history;
pub mod info;
pub mod interop;
pub mod scm;
pub mod skill_store;

pub use doc::{DocMode, IrisDocParams};

use vstd::prelude::*;
use crate::iris::connection::IrisConnection;
use crate::matching::{compile_pattern, pattern_is_match, regex_compiles, regex_matches};
use crate::text::{
    all_digits, chars_of, contains, is_digit, vec_range, dec, first_ws, lines, lines_of, lowercase, parse_unsigned,
    parse_unsigned_exec, push_dec, push_text, replace_char, split_all, split_all_exec,
    split_once_first, split_once_first_exec, starts_with, str_contains, string_of, string_of_range,
    texts, to_lowercase, to_owned_string, trim, trim_bounds, trim_string, trimmed, matches_at_exec,
};
use crate::tools::scm::{os_quote, os_quoted};
use crate::tools::interop::sql_quoted;

verus! {

/// The compile flags used when none are given.
pub fn default_flags() -> (r: String)
    ensures
        r@ == "cuk"@,
{
    to_owned_string("cuk")
}

/// The namespace used when none is given.
pub fn default_namespace() -> (r: String)
    ensures
        r@ == "USER"@,
{
    to_owned_string("USER")
}

/// The number of results returned when no limit is given.
pub fn default_limit() -> (r: usize)
    ensures
        r == 20,
{
    20
}

/// The number of error log entries returned when no limit is given.
pub fn default_max_entries() -> (r: usize)
    ensures
        r == 50,
{
    50
}

/// The execution timeout used when none is given, in seconds.
pub fn default_execute_timeout() -> (r: u64)
    ensures
        r == 30,
{
    30
}

/// The user name used when none is given.
pub fn default_username() -> (r: String)
    ensures
        r@ == "_SYSTEM"@,
{
    to_owned_string("_SYSTEM")
}

/// The password used when none is given.
pub fn default_password() -> (r: String)
    ensures
        r@ == "SYS"@,
{
    to_owned_string("SYS")
}

/// The sandbox edition used when none is given.
pub fn default_edition() -> (r: String)
    ensures
        r@ == "community"@,
{
    to_owned_string("community")
}

// ── iris_compile ─────────────────────────────────────────────────────────────

/// The case-insensitive, anchored regular expression for a wildcard target:
/// `.` stands for itself and `*` for any text.
pub open spec fn wildcard_regex(target: Seq<char>) -> Seq<char> {
    "(?i)^"@ + replace_char(replace_char(target, '.', "\\."@), '*', ".*"@) + "$"@
}

/// The regular expression of a wildcard compile target.
pub fn wildcard_pattern(target: &str) -> (r: String)
    ensures
        r@ == wildcard_regex(target@),
{
    let a = crate::text::replace_char_string(target, '.', "\\.");
    let b = crate::text::replace_char_string(a.as_str(), '*', ".*");
    let mut r = String::new();
    r.append("(?i)^");
    r.append(b.as_str());
    r.append("$");
    r
}

/// The names that pattern `p` matches, in order.
pub open spec fn names_matching(p: Seq<char>, names: Seq<Seq<char>>) -> Seq<Seq<char>>
    decreases names.len(),
{
    if names.len() == 0 {
        names
    } else {
        names_matching(p, names.drop_last()) + (if regex_matches(p, names.last()) {
            seq![names.last()]
        } else {
            Seq::<Seq<char>>::empty()
        })
    }
}

/// The documents compiled for `target`. A target without `*` is compiled as
/// it is; so is a wildcard target when the class list could not be fetched.
/// Otherwise the listed names that the wildcard's regular expression matches
/// are compiled (all of them should that expression not compile).
pub open spec fn compile_targets(target: Seq<char>, listed: Option<Seq<Seq<char>>>) -> Seq<Seq<char>> {
    if !contains(target, "*"@) {
        seq![target]
    } else {
        match listed {
            None => seq![target],
            Some(names) => if regex_compiles(wildcard_regex(target)) {
                names_matching(wildcard_regex(target), names)
            } else {
                names
            },
        }
    }
}

/// Expands a compile target against the listed class names (`None` when the list could not be fetched).
pub fn expand_compile_targets(target: &str, listed: Option<Vec<String>>) -> (r: Vec<String>)
    ensures
        texts(r@) == compile_targets(
            target@,
            match listed {
                Some(v) => Some(texts(v@)),
                None => None,
            },
        ),
{
    let mut single: Vec<String> = Vec::new();
    push_text(&mut single, to_owned_string(target));
    if !str_contains(target, "*") {
        return single;
    }
    match listed {
        None => single,
        Some(names) => {
            let pat = wildcard_pattern(target);
            match compile_pattern(pat.as_str()) {
                None => names,
                Some(re) => {
                    let ghost ns = texts(names@);
                    let mut out: Vec<String> = Vec::new();
                    let mut i: usize = 0;
                    while i < names.len()
                        invariant
                            i <= names.len(),
                            ns == texts(names@),
                            re.text() == wildcard_regex(target@),
                            texts(out@) == names_matching(re.text(), ns.take(i as int)),
                        decreases names.len() - i,
                    {
                        assert(ns.take(i + 1).drop_last() =~= ns.take(i as int));
                        assert(ns.take(i + 1).last() == names@[i as int]@);
                        if pattern_is_match(&re, names[i].as_str()) {
                            push_text(&mut out, names[i].clone());
                        }
                        i += 1;
                        assert(texts(out@) =~= names_matching(re.text(), ns.take(i as int)));
                    }
                    assert(ns.take(names.len() as int) =~= ns);
                    out
                },
            }
        },
    }
}

/// The message when a wildcard matches nothing.
pub fn no_match_message(target: &str) -> (r: String)
    ensures
        r@ == "No documents match pattern: "@ + target@,
{
    let mut r = String::new();
    r.append("No documents match pattern: ");
    r.append(target);
    r
}

/// The URL that lists the classes of the connection's namespace.
pub fn class_list_url(iris: &IrisConnection) -> (r: String)
    ensures
        r@ == iris.url_of("/v8/"@ + iris.namespace@ + "/docs?category=CLS"@),
{
    let mut p = String::new();
    p.append("/v8/");
    p.append(iris.namespace.as_str());
    p.append("/docs?category=CLS");
    iris.atelier_url(p.as_str())
}

/// The URL of the compile action in `ns`.
pub fn compile_url(iris: &IrisConnection, ns: &str) -> (r: String)
    ensures
        r@ == iris.url_of("/v8/"@ + ns@ + "/action/compile"@),
{
    let mut p = String::new();
    p.append("/v8/");
    p.append(ns);
    p.append("/action/compile");
    iris.atelier_url(p.as_str())
}

/// The URL of the xecute action in `ns`.
pub fn xecute_url(iris: &IrisConnection, ns: &str) -> (r: String)
    ensures
        r@ == iris.url_of("/v1/"@ + ns@ + "/action/xecute"@),
{
    let mut p = String::new();
    p.append("/v1/");
    p.append(ns);
    p.append("/action/xecute");
    iris.atelier_url(p.as_str())
}

/// The expression that makes the databases of `ns` writable before compiling.
pub fn enable_namespace_code(ns: &str) -> (r: String)
    ensures
        r@ == "do ##class(%Library.EnsembleMgr).EnableNamespace(\""@ + ns@ + "\",1)"@,
{
    let mut r = String::new();
    r.append("do ##class(%Library.EnsembleMgr).EnableNamespace(\"");
    r.append(ns);
    r.append("\",1)");
    r
}

/// How serious a compiler message is.
#[derive(Debug, Clone, Copy, PartialEq, Eq, Structural)]
pub enum Severity {
    Error,
    Warning,
}

/// One compiler error or warning.
pub struct Diagnostic {
    pub severity: Severity,
    pub code: String,
    pub line: u32,
    pub column: u32,
    pub text: String,
}

/// The code, line and text of a compiler message body such as
/// `#5001:12: message`: the trimmed text before the first `:`, the trimmed
/// text between the first two read as a line number (0 when it is not one),
/// and the trimmed rest. A body with fewer than two `:` has no code, line 0,
/// and is the text as it is.
pub open spec fn diagnostic_fields(rest: Seq<char>) -> (Seq<char>, u32, Seq<char>) {
    let a = split_once_first(rest, ':');
    match a.1 {
        Some(r1) => {
            let b = split_once_first(r1, ':');
            match b.1 {
                Some(r2) => (
                    trim(a.0),
                    match parse_unsigned(trim(b.0), 0xffff_ffff) {
                        Some(v) => v as u32,
                        None => 0u32,
                    },
                    trim(r2),
                ),
                None => (Seq::<char>::empty(), 0u32, rest),
            }
        },
        None => (Seq::<char>::empty(), 0u32, rest),
    }
}

/// A trimmed console line without its leading message count: when the line
/// starts with one or more digits followed by whitespace (as in
/// `  1 ERROR #5475:12: Invalid command`), the digits and that whitespace are
/// dropped; any other line is kept as it is.
pub open spec fn without_count(t: Seq<char>) -> Seq<char> {
    let k = first_ws(t);
    if 0 < k < t.len() && all_digits(t.subrange(0, k)) {
        trim(t.subrange(k, t.len() as int))
    } else {
        t
    }
}

/// The compiler message a console line carries: after trimming and dropping
/// a leading message count, a line that starts with `ERROR ` is an error, one
/// that starts with `WARNING ` a warning, and the fields are those of the text
/// after that word.
pub open spec fn console_message(line: Seq<char>) -> Option<(Severity, (Seq<char>, u32, Seq<char>))> {
    let t = without_count(trim(line));
    if starts_with(t, "ERROR "@) {
        Some((Severity::Error, diagnostic_fields(t.subrange(6, t.len() as int))))
    } else if starts_with(t, "WARNING "@) {
        Some((Severity::Warning, diagnostic_fields(t.subrange(8, t.len() as int))))
    } else {
        None
    }
}

/// The spec view of a diagnostic: its code, line and text.
pub open spec fn diag_view(d: Diagnostic) -> (Seq<char>, u32, Seq<char>) {
    (d.code@, d.line, d.text@)
}

/// The messages of severity `sev` in the console, in order.
pub open spec fn console_messages(console: Seq<Seq<char>>, sev: Severity) -> Seq<(Seq<char>, u32, Seq<char>)>
    decreases console.len(),
{
    if console.len() == 0 {
        Seq::empty()
    } else {
        console_messages(console.drop_last(), sev) + match console_message(console.last()) {
            Some((s, f)) => if s == sev {
                seq![f]
            } else {
                Seq::empty()
            },
            None => Seq::empty(),
        }
    }
}

fn diagnostic_from(sev: Severity, rest: &str) -> (d: Diagnostic)
    ensures
        d.severity == sev,
        d.column == 0,
        diag_view(d) == diagnostic_fields(rest@),
{
    let (first, after) = split_once_first_exec(rest, ':');
    match after {
        Some(r1) => {
            let (second, after2) = split_once_first_exec(r1.as_str(), ':');
            match after2 {
                Some(r2) => {
                    let code = trim_string(first.as_str());
                    let sv = chars_of(second.as_str());
                    let (lo, hi) = trim_bounds(&sv);
                    let line: u32 = match parse_unsigned_exec(&sv, lo, hi, 0xffff_ffff) {
                        Some(v) => v as u32,
                        None => 0,
                    };
                    let text = trim_string(r2.as_str());
                    Diagnostic { severity: sev, code, line, column: 0, text }
                },
                None => Diagnostic {
                    severity: sev,
                    code: String::new(),
                    line: 0,
                    column: 0,
                    text: to_owned_string(rest),
                },
            }
        },
        None => Diagnostic {
            severity: sev,
            code: String::new(),
            line: 0,
            column: 0,
            text: to_owned_string(rest),
        },
    }
}

fn count_dropped(t: &Vec<char>) -> (r: Vec<char>)
    ensures
        r@ == without_count(t@),
{
    let k = first_ws_exec(t);
    if k == 0 || k >= t.len() {
        return vec_range(t, 0, t.len());
    }
    let mut i: usize = 0;
    while i < k
        invariant
            i <= k < t.len(),
            k as int == first_ws(t@),
            forall|j: int| 0 <= j < i ==> is_digit(#[trigger] t@[j]),
        decreases k - i,
    {
        if !(t[i] >= '0' && t[i] <= '9') {
            proof {
                assert(!is_digit(t@.subrange(0, k as int)[i as int]));
                assert(!all_digits(t@.subrange(0, k as int)));
                assert(t@.subrange(0, t.len() as int) =~= t@);
            }
            return vec_range(t, 0, t.len());
        }
        i += 1;
    }
    assert(all_digits(t@.subrange(0, k as int)));
    let rest = vec_range(t, k, t.len());
    trimmed(&rest)
}

fn console_message_exec(line: &str) -> (r: Option<Diagnostic>)
    ensures
        match r {
            Some(d) => console_message(line@) == Some((d.severity, diag_view(d))) && d.column == 0,
            None => console_message(line@) is None,
        },
{
    proof {
        reveal_strlit("ERROR ");
        reveal_strlit("WARNING ");
    }
    let lv = chars_of(line);
    let t0 = trimmed(&lv);
    let t = count_dropped(&t0);
    let e = chars_of("ERROR ");
    let w = chars_of("WARNING ");
    if matches_at_exec(&t, 0, &e) {
        let rest = string_of_range(&t, e.len(), t.len());
        Some(diagnostic_from(Severity::Error, rest.as_str()))
    } else if matches_at_exec(&t, 0, &w) {
        let rest = string_of_range(&t, w.len(), t.len());
        Some(diagnostic_from(Severity::Warning, rest.as_str()))
    } else {
        None
    }
}

/// The errors and warnings of a compile console (non-string entries given as empty lines).
pub fn parse_compile_console(console: &Vec<String>) -> (r: (Vec<Diagnostic>, Vec<Diagnostic>))
    ensures
        r.0@.map_values(|d: Diagnostic| diag_view(d)) == console_messages(texts(console@), Severity::Error),
        r.1@.map_values(|d: Diagnostic| diag_view(d)) == console_messages(texts(console@), Severity::Warning),
        forall|i: int| 0 <= i < r.0.len() ==> (#[trigger] r.0@[i]).severity == Severity::Error && r.0@[i].column == 0,
        forall|i: int| 0 <= i < r.1.len() ==> (#[trigger] r.1@[i]).severity == Severity::Warning && r.1@[i].column == 0,
{
    proof {
        reveal_strlit("ERROR ");
        reveal_strlit("WARNING ");
    }
    let ghost cs = texts(console@);
    let mut errors: Vec<Diagnostic> = Vec::new();
    let mut warnings: Vec<Diagnostic> = Vec::new();
    let mut i: usize = 0;
    while i < console.len()
        invariant
            i <= console.len(),
            cs == texts(console@),
            errors@.map_values(|d: Diagnostic| diag_view(d)) == console_messages(cs.take(i as int), Severity::Error),
            warnings@.map_values(|d: Diagnostic| diag_view(d)) == console_messages(cs.take(i as int), Severity::Warning),
            forall|k: int| 0 <= k < errors.len() ==> (#[trigger] errors@[k]).severity == Severity::Error && errors@[k].column == 0,
            forall|k: int| 0 <= k < warnings.len() ==> (#[trigger] warnings@[k]).severity == Severity::Warning && warnings@[k].column == 0,
        decreases console.len() - i,
    {
        assert(cs.take(i + 1).drop_last() =~= cs.take(i as int));
        assert(cs.take(i + 1).last() == console@[i as int]@);
        let ghost e0 = errors@;
        let ghost w0 = warnings@;
        match console_message_exec(console[i].as_str()) {
            Some(d) => {
                if d.severity == Severity::Error {
                    errors.push(d);
                    assert(errors@.map_values(|d: Diagnostic| diag_view(d)) =~= e0.map_values(|d: Diagnostic| diag_view(d)).push(diag_view(errors@.last())));
                } else {
                    warnings.push(d);
                    assert(warnings@.map_values(|d: Diagnostic| diag_view(d)) =~= w0.map_values(|d: Diagnostic| diag_view(d)).push(diag_view(warnings@.last())));
                }
            },
            None => {},
        }
        i += 1;
        assert(errors@.map_values(|d: Diagnostic| diag_view(d)) =~= console_messages(cs.take(i as int), Severity::Error));
        assert(warnings@.map_values(|d: Diagnostic| diag_view(d)) =~= console_messages(cs.take(i as int), Severity::Warning));
    }
    assert(cs.take(console.len() as int) =~= cs);
    (errors, warnings)
}

// ── iris_test ────────────────────────────────────────────────────────────────

/// The expression that runs the unit tests matching `pattern`.
pub open spec fn run_test_snippet(pattern: Seq<char>) -> Seq<char> {
    "do ##class(%UnitTest.Manager).RunTest(\""@ + os_quoted(pattern) + "\",\"/noload/run\")"@
}

/// The expression for `iris_test`.
pub fn run_test_code(pattern: &str) -> (r: String)
    ensures
        r@ == run_test_snippet(pattern@),
{
    let mut r = String::new();
    r.append("do ##class(%UnitTest.Manager).RunTest(\"");
    let q = os_quote(pattern);
    r.append(q.as_str());
    r.append("\",\"/noload/run\")");
    r
}

/// The first line whose lower-cased text contains `label`.
pub open spec fn first_line_with(ls: Seq<Seq<char>>, label: Seq<char>) -> Option<Seq<char>>
    decreases ls.len(),
{
    if ls.len() == 0 {
        None
    } else if contains(lowercase(ls[0]), label) {
        Some(ls[0])
    } else {
        first_line_with(ls.drop_first(), label)
    }
}

/// The first whitespace-separated word of a trimmed text, if it is not empty.
pub open spec fn first_word(t: Seq<char>) -> Option<Seq<char>> {
    if t.len() == 0 {
        None
    } else {
        Some(t.take(first_ws(t)))
    }
}

/// The count a test summary line gives for `label` (such as `passed:`): the
/// first word after the first `:` of the first line that mentions the label,
/// read as a number; 0 when any step fails.
pub open spec fn summary_count(output: Seq<char>, label: Seq<char>) -> u64 {
    match first_line_with(lines(output), label) {
        Some(l) => {
            let parts = split_all(l, ':');
            if parts.len() < 2 {
                0
            } else {
                match first_word(trim(parts[1])) {
                    Some(w) => match parse_unsigned(w, 0xffff_ffff_ffff_ffff) {
                        Some(v) => v as u64,
                        None => 0,
                    },
                    None => 0,
                }
            }
        },
        None => 0,
    }
}

/// The outcome of a test run.
pub struct TestSummary {
    pub passed: u64,
    pub failed: u64,
    pub total: u64,
    /// No test failed and at least one ran.
    pub success: bool,
    /// No test ran: nothing matched the pattern (`NO_TESTS_FOUND`).
    pub no_tests_found: bool,
}

fn first_ws_exec(v: &Vec<char>) -> (k: usize)
    ensures
        k as int == first_ws(v@),
        k <= v.len(),
{
    let mut k: usize = 0;
    assert(v@.subrange(0, v.len() as int) =~= v@);
    while k < v.len() && !crate::text::char_is_ws(v[k])
        invariant
            k <= v.len(),
            first_ws(v@) == k + first_ws(v@.subrange(k as int, v.len() as int)),
        decreases v.len() - k,
    {
        assert(v@.subrange(k as int, v.len() as int).drop_first() =~= v@.subrange(k + 1, v.len() as int));
        k += 1;
    }
    proof {
        assert(v@.subrange(0, v.len() as int) =~= v@);
    }
    k
}

fn summary_count_exec(ls: &Vec<Vec<char>>, label: &str) -> (r: u64)
    requires
        exists|o: Seq<char>|
            #![trigger lines(o)]
            lines(o).len() == ls.len() && forall|k: int| 0 <= k < ls.len() ==> (#[trigger] ls[k])@ == lines(o)[k],
    ensures
        forall|o: Seq<char>|
            #![trigger lines(o)]
            (lines(o).len() == ls.len() && forall|k: int| 0 <= k < ls.len() ==> (#[trigger] ls[k])@ == lines(o)[k])
                ==> r == summary_count(o, label@),
{
    let ghost lsv = ls@.map_values(|l: Vec<char>| l@);
    let mut i: usize = 0;
    assert(lsv.subrange(0, ls.len() as int) =~= lsv);
    while i < ls.len()
        invariant
            i <= ls.len(),
            lsv == ls@.map_values(|l: Vec<char>| l@),
            first_line_with(lsv, label@) == first_line_with(lsv.subrange(i as int, ls.len() as int), label@),
        decreases ls.len() - i,
    {
        let s = string_of(&ls[i]);
        let low = to_lowercase(s.as_str());
        assert(lsv.subrange(i as int, ls.len() as int)[0] == ls[i as int]@);
        if str_contains(low.as_str(), label) {
            let parts = split_all_exec(s.as_str(), ':');
            let r = if parts.len() < 2 {
                0
            } else {
                let pv = chars_of(parts[1].as_str());
                let t = trimmed(&pv);
                if t.len() == 0 {
                    0
                } else {
                    let k = first_ws_exec(&t);
                    assert(t@.subrange(0, k as int) =~= t@.take(k as int));
                    match parse_unsigned_exec(&t, 0, k, 0xffff_ffff_ffff_ffff) {
                        Some(v) => v,
                        None => 0,
                    }
                }
            };
            proof {
                assert forall|o: Seq<char>|
                    #![trigger lines(o)]
                    (lines(o).len() == ls.len() && forall|k: int| 0 <= k < ls.len() ==> (#[trigger] ls[k])@ == lines(o)[k])
                        implies r == summary_count(o, label@) by {
                    assert(lines(o) =~= lsv);
                }
            }
            return r;
        }
        assert(lsv.subrange(i as int, ls.len() as int).drop_first() =~= lsv.subrange(i + 1, ls.len() as int));
        i += 1;
    }
    proof {
        assert forall|o: Seq<char>|
            #![trigger lines(o)]
            (lines(o).len() == ls.len() && forall|k: int| 0 <= k < ls.len() ==> (#[trigger] ls[k])@ == lines(o)[k])
                implies 0 == summary_count(o, label@) by {
            assert(lines(o) =~= lsv);
        }
    }
    0
}

/// The counts of a unit-test run's output.
pub open spec fn test_summary(output: Seq<char>, s: TestSummary) -> bool {
    &&& s.passed == summary_count(output, "passed:"@)
    &&& s.failed == summary_count(output, "failed:"@)
    &&& s.total == s.passed.wrapping_add(s.failed)
    &&& s.success == (s.failed == 0 && s.total > 0)
    &&& s.no_tests_found == (s.passed == 0 && s.failed == 0)
}

/// Reads the passed and failed counts from unit-test output.
pub fn parse_test_output(output: &str) -> (s: TestSummary)
    ensures
        test_summary(output@, s),
{
    let v = chars_of(output);
    let ls = lines_of(&v);
    let passed = summary_count_exec(&ls, "passed:");
    let failed = summary_count_exec(&ls, "failed:");
    let total = passed.wrapping_add(failed);
    TestSummary { passed, failed, total, success: failed == 0 && total > 0, no_tests_found: passed == 0 && failed == 0 }
}

/// The `DOCKER_REQUIRED` message of a tool that runs through `docker exec`.
pub open spec fn docker_required_text(tool: Seq<char>) -> Seq<char> {
    tool + " requires docker exec. Set IRIS_CONTAINER=<container_name>."@
}

/// For a tool that runs through `docker exec`: nothing when `IRIS_CONTAINER`
/// names a container, else the `DOCKER_REQUIRED` message for `tool`.
pub fn require_container(tool: &str, container: Option<&str>) -> (r: Option<String>)
    ensures
        r is None <==> (container matches Some(c) && c@.len() > 0),
        r matches Some(m) ==> m@ == docker_required_text(tool@),
{
    let named = match container {
        Some(c) => chars_of(c).len() > 0,
        None => false,
    };
    if named {
        None
    } else {
        let mut m = String::new();
        m.append(tool);
        m.append(" requires docker exec. Set IRIS_CONTAINER=<container_name>.");
        Some(m)
    }
}

// ── shared replies ───────────────────────────────────────────────────────────

/// The message of a tool call made without an IRIS connection.
pub fn iris_unreachable_message() -> (r: &'static str)
    ensures
        r@ == "IRIS_UNREACHABLE: no IRIS connection. Set IRIS_HOST and IRIS_WEB_PORT env vars, or ensure IRIS is reachable on a discoverable port (52773, 41773, 51773, 8080)."@,
{
    "IRIS_UNREACHABLE: no IRIS connection. Set IRIS_HOST and IRIS_WEB_PORT env vars, or ensure IRIS is reachable on a discoverable port (52773, 41773, 51773, 8080)."
}

/// The hint given with a failed request's URL.
pub fn attempted_url_hint() -> (r: &'static str)
    ensures
        r@ == "Check IRIS_HOST and IRIS_WEB_PORT (and IRIS_WEB_PREFIX if using a non-root gateway)"@,
{
    "Check IRIS_HOST and IRIS_WEB_PORT (and IRIS_WEB_PREFIX if using a non-root gateway)"
}

/// The message for an unsuccessful HTTP status: `HTTP` and the code.
pub fn http_status_message(status: u16) -> (r: String)
    ensures
        r@ == "HTTP "@ + dec(status as nat),
{
    let mut r = String::new();
    r.append("HTTP ");
    push_dec(&mut r, status as u64);
    r
}

} // verus!
