//! The queries and snippets of the symbol, introspection and debugging tools,
//! and the reading of IRIS error strings and source-line replies.

use vstd::prelude::*;
use crate::matching::{compile_pattern, pattern_group, regex_compiles, regex_group};
use crate::text::{
    chars_of, dec, ends_with, opt_view, parse_i64, parse_i64_exec, push_dec, replace_char,
    replace_char_string, split_once_first, split_once_first_exec, string_of_range, trim,
    trim_bounds,
};
use crate::tools::interop::sql_quoted;

verus! {

/// The decimal text of a signed number.
pub open spec fn int_text(v: int) -> Seq<char> {
    if v < 0 {
        "-"@ + dec((-v) as nat)
    } else {
        dec(v as nat)
    }
}

/// Appends the decimal text of `v`.
pub fn push_int(s: &mut String, v: i64)
    ensures
        final(s)@ == old(s)@ + int_text(v as int),
{
    if v < 0 {
        s.append("-");
        let m: u64 = (-(v + 1)) as u64 + 1;
        push_dec(s, m);
    } else {
        push_dec(s, v as u64);
    }
}

/// The query for `iris_symbols`: the first `limit` class names that are LIKE the parameter.
pub open spec fn symbols_sql(limit: usize) -> Seq<char> {
    "SELECT TOP "@ + dec(limit as nat) + " Name FROM %Dictionary.ClassDefinition WHERE Name LIKE ? ORDER BY Name"@
}

/// The query of `iris_symbols`.
pub fn symbols_query(limit: usize) -> (r: String)
    ensures
        r@ == symbols_sql(limit),
{
    let mut r = String::new();
    r.append("SELECT TOP ");
    push_dec(&mut r, limit as u64);
    r.append(" Name FROM %Dictionary.ClassDefinition WHERE Name LIKE ? ORDER BY Name");
    r
}

/// The LIKE parameter of `iris_symbols`: the query between `%` signs.
pub fn symbols_like_param(query: &str) -> (r: String)
    ensures
        r@ == "%"@ + query@ + "%"@,
{
    let mut r = String::new();
    r.append("%");
    r.append(query);
    r.append("%");
    r
}

/// The query for the compiled methods of a class, its name quoted for SQL.
pub open spec fn methods_sql(class_name: Seq<char>) -> Seq<char> {
    "SELECT Name,FormalSpec,ReturnType FROM %Dictionary.CompiledMethod WHERE parent='"@ + sql_quoted(class_name) + "'"@
}

/// The query for the compiled properties of a class, its name quoted for SQL.
pub open spec fn properties_sql(class_name: Seq<char>) -> Seq<char> {
    "SELECT Name,Type FROM %Dictionary.CompiledProperty WHERE parent='"@ + sql_quoted(class_name) + "'"@
}

/// The methods query of `docs_introspect`.
pub fn introspect_methods_query(class_name: &str) -> (r: String)
    ensures
        r@ == methods_sql(class_name@),
{
    let q = replace_char_string(class_name, '\'', "''");
    let mut r = String::new();
    r.append("SELECT Name,FormalSpec,ReturnType FROM %Dictionary.CompiledMethod WHERE parent='");
    r.append(q.as_str());
    r.append("'");
    r
}

/// The properties query of `docs_introspect`.
pub fn introspect_properties_query(class_name: &str) -> (r: String)
    ensures
        r@ == properties_sql(class_name@),
{
    let q = replace_char_string(class_name, '\'', "''");
    let mut r = String::new();
    r.append("SELECT Name,Type FROM %Dictionary.CompiledProperty WHERE parent='");
    r.append(q.as_str());
    r.append("'");
    r
}

/// The methods query that gives test generation its context, ordered by name.
pub fn test_methods_query(class_name: &str) -> (r: String)
    ensures
        r@ == methods_sql(class_name@) + " ORDER BY Name"@,
{
    let mut r = introspect_methods_query(class_name);
    r.append(" ORDER BY Name");
    r
}

/// The query of `debug_get_error_logs`: the newest `max_entries` errors.
pub open spec fn error_logs_sql(max_entries: usize) -> Seq<char> {
    "SELECT TOP "@ + dec(max_entries as nat) + " ErrorCode,ErrorText,TimeStamp FROM %SYSTEM.Error ORDER BY TimeStamp DESC"@
}

/// The error log query.
pub fn error_logs_query(max_entries: usize) -> (r: String)
    ensures
        r@ == error_logs_sql(max_entries),
{
    let mut r = String::new();
    r.append("SELECT TOP ");
    push_dec(&mut r, max_entries as u64);
    r.append(" ErrorCode,ErrorText,TimeStamp FROM %SYSTEM.Error ORDER BY TimeStamp DESC");
    r
}

/// The query of `debug_capture_packet`: the newest twenty errors.
pub fn capture_packet_query() -> (r: &'static str)
    ensures
        r@ == "SELECT TOP 20 ErrorCode,ErrorText,TimeStamp FROM %SYSTEM.Error ORDER BY TimeStamp DESC"@,
{
    "SELECT TOP 20 ErrorCode,ErrorText,TimeStamp FROM %SYSTEM.Error ORDER BY TimeStamp DESC"
}

/// The regular expression of an IRIS error string such as `<UNDEFINED>x+3^MyApp.Foo.1`:
/// the offset is group 1 and the routine group 2.
pub open spec fn error_string_regex() -> Seq<char> {
    "<[A-Z]+>\\s*[^+\\s]+\\+(\\d+)\\^([\\w.%]+)"@
}

/// The routine and offset that an IRIS error string names.
pub open spec fn error_location(s: Seq<char>) -> Option<(Seq<char>, i64)> {
    let p = error_string_regex();
    if regex_compiles(p) {
        match (regex_group(p, s, 2), regex_group(p, s, 1)) {
            (Some(routine), Some(digits)) => match parse_i64(digits) {
                Some(v) => Some((routine, v as i64)),
                None => None,
            },
            _ => None,
        }
    } else {
        None
    }
}

/// Reads the routine and offset out of an IRIS error string.
pub fn parse_iris_error_string(s: &str) -> (r: Option<(String, i64)>)
    ensures
        match r {
            Some((routine, offset)) => error_location(s@) == Some((routine@, offset)),
            None => error_location(s@) is None,
        },
{
    let re = match compile_pattern("<[A-Z]+>\\s*[^+\\s]+\\+(\\d+)\\^([\\w.%]+)") {
        Some(re) => re,
        None => return None,
    };
    let routine = match pattern_group(&re, s, 2) {
        Some(x) => x,
        None => return None,
    };
    let digits = match pattern_group(&re, s, 1) {
        Some(x) => x,
        None => return None,
    };
    let dv = chars_of(digits.as_str());
    assert(dv@.subrange(0, dv.len() as int) =~= dv@);
    match parse_i64_exec(&dv, 0, dv.len()) {
        Some(v) => Some((routine, v)),
        None => None,
    }
}

/// The snippet that asks the debugger for the source line of a routine offset.
pub open spec fn source_line_snippet(routine: Seq<char>, offset: i64) -> Seq<char> {
    "Write ##class(%Studio.Debugger).SourceLine(\""@ + replace_char(routine, '"', "\\\""@) + "\","@
        + int_text(offset as int) + ")"@
}

/// The snippet of `debug_map_int_to_cls`.
pub fn source_line_code(routine: &str, offset: i64) -> (r: String)
    ensures
        r@ == source_line_snippet(routine@, offset),
{
    let q = replace_char_string(routine, '"', "\\\"");
    let mut r = String::new();
    r.append("Write ##class(%Studio.Debugger).SourceLine(\"");
    r.append(q.as_str());
    r.append("\",");
    push_int(&mut r, offset);
    r.append(")");
    r
}

/// `s` without every trailing copy of `p` (`str::trim_end_matches`).
pub open spec fn trim_end_matches(s: Seq<char>, p: Seq<char>) -> Seq<char>
    decreases s.len(),
{
    if p.len() > 0 && ends_with(s, p) {
        trim_end_matches(s.take(s.len() - p.len()), p)
    } else {
        s
    }
}

/// `s` without its trailing `.cls` endings.
pub fn strip_cls_suffixes(s: &str) -> (r: String)
    ensures
        r@ == trim_end_matches(s@, ".cls"@),
{
    proof {
        reveal_strlit(".cls");
    }
    let cv = chars_of(s);
    let mut end: usize = cv.len();
    assert(cv@.take(cv.len() as int) =~= cv@);
    assert(".cls"@ =~= seq!['.', 'c', 'l', 's']);
    while end >= 4 && cv[end - 4] == '.' && cv[end - 3] == 'c' && cv[end - 2] == 'l' && cv[end - 1] == 's'
        invariant
            end <= cv.len(),
            ".cls"@ == seq!['.', 'c', 'l', 's'],
            trim_end_matches(cv@, ".cls"@) == trim_end_matches(cv@.take(end as int), ".cls"@),
        decreases end,
    {
        let ghost t = cv@.take(end as int);
        assert(t.subrange(t.len() - 4, t.len() as int) =~= seq!['.', 'c', 'l', 's']);
        assert(t.take(t.len() - 4) =~= cv@.take(end - 4));
        assert(ends_with(t, ".cls"@));
        assert(trim_end_matches(t, ".cls"@) == trim_end_matches(t.take(t.len() - 4), ".cls"@));
        end -= 4;
    }
    proof {
        let t = cv@.take(end as int);
        if end >= 4 {
            if ends_with(t, ".cls"@) {
                let u = t.subrange(t.len() - 4, t.len() as int);
                assert(u[0] == t[end - 4] && u[1] == t[end - 3] && u[2] == t[end - 2] && u[3] == t[end - 1]);
            }
        }
        assert(trim_end_matches(t, ".cls"@) == t);
    }
    string_of_range(&cv, 0, end)
}

/// The class and line a debugger source-line reply `Class.cls:line` names:
/// nothing for an empty reply or one without `:`; otherwise the text before
/// the first `:` without its `.cls` endings, and the rest, trimmed, read as a
/// number when it is one.
pub open spec fn source_location(raw: Seq<char>) -> (Option<Seq<char>>, Option<i64>) {
    if raw.len() == 0 {
        (None, None)
    } else {
        match split_once_first(raw, ':') {
            (cls, Some(line)) => (
                Some(trim_end_matches(cls, ".cls"@)),
                match parse_i64(trim(line)) {
                    Some(v) => Some(v as i64),
                    None => None,
                },
            ),
            _ => (None, None),
        }
    }
}

/// Reads a debugger source-line reply.
pub fn parse_source_line(raw: &str) -> (r: (Option<String>, Option<i64>))
    ensures
        (opt_view(r.0), r.1) == source_location(raw@),
{
    let rv = chars_of(raw);
    if rv.len() == 0 {
        return (None, None);
    }
    let (cls, rest) = split_once_first_exec(raw, ':');
    let line = match rest {
        Some(l) => l,
        None => return (None, None),
    };
    let name = strip_cls_suffixes(cls.as_str());
    let lv = chars_of(line.as_str());
    let (lo, hi) = trim_bounds(&lv);
    let num = parse_i64_exec(&lv, lo, hi);
    (Some(name), num)
}

// ── debug_source_map ─────────────────────────────────────────────────────────

/// A lower-case hexadecimal digit of value `d` (below 16).
pub open spec fn hex_lower(d: nat) -> char {
    if d < 10 {
        (('0' as nat) + d) as char
    } else {
        (('a' as nat) + d - 10) as char
    }
}

/// How `serde_json` writes one character inside a string: `"` and `\` after a
/// backslash; backspace, tab, line feed, form feed and carriage return as
/// `\b`, `\t`, `\n`, `\f`, `\r`; any other character below U+0020 as
/// `\u00` and two lower-case hex digits; every other character as it is.
pub open spec fn json_escape_char(c: char) -> Seq<char> {
    if c == '"' {
        seq!['\\', '"']
    } else if c == '\\' {
        seq!['\\', '\\']
    } else if c == '\u{8}' {
        seq!['\\', 'b']
    } else if c == '\t' {
        seq!['\\', 't']
    } else if c == '\n' {
        seq!['\\', 'n']
    } else if c == '\u{c}' {
        seq!['\\', 'f']
    } else if c == '\r' {
        seq!['\\', 'r']
    } else if (c as nat) < 0x20 {
        seq!['\\', 'u', '0', '0', hex_lower((c as nat) / 16), hex_lower((c as nat) % 16)]
    } else {
        seq![c]
    }
}

/// Each character of `s` as `serde_json` writes it inside a string.
pub open spec fn json_escape(s: Seq<char>) -> Seq<char>
    decreases s.len(),
{
    if s.len() == 0 {
        s
    } else {
        json_escape(s.drop_last()) + json_escape_char(s.last())
    }
}

/// What `serde_json::to_string` writes for a string: the JSON string literal.
pub open spec fn json_quoted(s: Seq<char>) -> Seq<char> {
    seq!['"'] + json_escape(s) + seq!['"']
}

/// `serde_json::to_string` of a string: its JSON string literal, each
/// character escaped as `json_escape_char` says (serialising a string cannot
/// fail).
#[verifier::external_body]
fn json_string(s: &str) -> (r: String)
    ensures
        r@ == json_quoted(s@),
{
    serde_json::to_string(s).unwrap_or_default()
}

/// The Python program that builds a source map through the IRIS native API:
/// it connects to the superserver port with the connection's user and
/// password and prints the map as JSON; the class text, class name and
/// workspace path (`null` when absent) are passed as JSON literals.
pub open spec fn source_map_program(
    port: u16,
    username: Seq<char>,
    password: Seq<char>,
    cls_text: Seq<char>,
    cls_name: Seq<char>,
    workspace_path: Option<Seq<char>>,
) -> Seq<char> {
    "import json, os; os.environ.setdefault('IRIS_HOST', 'localhost'); os.environ.setdefault('IRIS_PORT', '"@
        + dec(port as nat) + "'); os.environ.setdefault('IRIS_USERNAME', '"@ + username
        + "'); os.environ.setdefault('IRIS_PASSWORD', '"@ + password
        + "'); from objectscript_mcp.handlers.debug_source_map import build_source_map; from objectscript_mcp import connection; import intersystems_iris as iris; conn = iris.connect('localhost', int(os.environ['IRIS_PORT']), 'USER', os.environ['IRIS_USERNAME'], os.environ['IRIS_PASSWORD']); result = build_source_map(cls_text="@
        + json_quoted(cls_text) + ", cls_name="@ + json_quoted(cls_name) + ", conn=conn, workspace_path="@
        + match workspace_path {
        Some(w) => json_quoted(w),
        None => "null"@,
    } + "); conn.close(); print(json.dumps(result or {'error': 'build_source_map returned None'}))"@
}

/// The program `debug_source_map` runs with `python3 -c`; the superserver port
/// defaults to 1972.
pub fn source_map_python(
    superserver_port: Option<u16>,
    username: &str,
    password: &str,
    cls_text: &str,
    cls_name: &str,
    workspace_path: &Option<String>,
) -> (r: String)
    ensures
        r@ == source_map_program(
            match superserver_port {
                Some(p) => p,
                None => 1972u16,
            },
            username@,
            password@,
            cls_text@,
            cls_name@,
            opt_view(*workspace_path),
        ),
{
    let port: u16 = match superserver_port {
        Some(p) => p,
        None => 1972,
    };
    let mut r = String::new();
    r.append("import json, os; os.environ.setdefault('IRIS_HOST', 'localhost'); os.environ.setdefault('IRIS_PORT', '");
    push_dec(&mut r, port as u64);
    r.append("'); os.environ.setdefault('IRIS_USERNAME', '");
    r.append(username);
    r.append("'); os.environ.setdefault('IRIS_PASSWORD', '");
    r.append(password);
    r.append("'); from objectscript_mcp.handlers.debug_source_map import build_source_map; from objectscript_mcp import connection; import intersystems_iris as iris; conn = iris.connect('localhost', int(os.environ['IRIS_PORT']), 'USER', os.environ['IRIS_USERNAME'], os.environ['IRIS_PASSWORD']); result = build_source_map(cls_text=");
    let t = json_string(cls_text);
    r.append(t.as_str());
    r.append(", cls_name=");
    let n = json_string(cls_name);
    r.append(n.as_str());
    r.append(", conn=conn, workspace_path=");
    match workspace_path {
        Some(w) => {
            let q = json_string(w.as_str());
            r.append(q.as_str());
        },
        None => r.append("null"),
    }
    r.append("); conn.close(); print(json.dumps(result or {'error': 'build_source_map returned None'}))");
    r
}

} // verus!
