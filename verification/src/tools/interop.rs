//! Interoperability production tools: the ObjectScript and SQL they send,
//! and the reading of what comes back.

use vstd::prelude::*;
use crate::text::{
    append_join, append_replace_char, chars_of, contains, dec, join, lowercase, parse_i64,
    parse_i64_exec, push_dec, push_text, replace_char, split_all, split_all_exec,
    split_once_first, split_once_first_exec, starts_with, str_contains, str_eq, str_starts_with,
    texts, to_lowercase, to_owned_string, trim, trim_bounds, trim_string, opt_view,
};

verus! {

/// Parameters of `interop_production_status`.
pub struct ProductionStatusParams {
    pub namespace: String,
    pub full_status: bool,
}

/// Parameters naming a production.
pub struct ProductionNameParams {
    pub production: Option<String>,
    pub namespace: String,
}

/// Parameters of `interop_production_stop`.
pub struct ProductionStopParams {
    pub production: Option<String>,
    pub namespace: String,
    pub timeout: u32,
    pub force: bool,
}

/// Parameters of `interop_production_update`.
pub struct ProductionUpdateParams {
    pub timeout: u32,
    pub force: bool,
}

/// Parameters of `interop_logs`.
pub struct LogsParams {
    pub item_name: Option<String>,
    pub limit: u32,
    pub log_type: String,
}

/// Parameters of `interop_queues` (none).
pub struct QueuesParams {}

/// Parameters of `interop_message_search`.
pub struct MessageSearchParams {
    pub source: Option<String>,
    pub target: Option<String>,
    pub class_name: Option<String>,
    pub limit: u32,
}

/// The namespace used when none is given.
pub fn default_ns() -> (r: String)
    ensures
        r@ == "USER"@,
{
    to_owned_string("USER")
}

/// The stop/update timeout used when none is given, in seconds.
pub fn default_timeout() -> (r: u32)
    ensures
        r == 30,
{
    30
}

/// The number of log entries returned when no limit is given.
pub fn default_limit() -> (r: u32)
    ensures
        r == 10,
{
    10
}

/// The log types returned when none are given.
pub fn default_log_type() -> (r: String)
    ensures
        r@ == "error,warning"@,
{
    to_owned_string("error,warning")
}

/// The number of messages returned when no limit is given.
pub fn default_msg_limit() -> (r: u32)
    ensures
        r == 20,
{
    20
}

/// The name of a production state code.
pub open spec fn state_name(code: i64) -> Seq<char> {
    if code == 1 {
        "Running"@
    } else if code == 2 {
        "Stopped"@
    } else if code == 3 {
        "Suspended"@
    } else if code == 4 {
        "Troubled"@
    } else if code == 5 {
        "NetworkStopped"@
    } else {
        "Unknown"@
    }
}

/// The name of production state `code`.
pub fn state_string(code: i64) -> (r: &'static str)
    ensures
        r@ == state_name(code),
{
    if code == 1 {
        "Running"
    } else if code == 2 {
        "Stopped"
    } else if code == 3 {
        "Suspended"
    } else if code == 4 {
        "Troubled"
    } else if code == 5 {
        "NetworkStopped"
    } else {
        "Unknown"
    }
}

/// The reading of `name:state` production status output: no production for
/// empty output, a lone `:`, or an empty name; an interop error (the output
/// after `INTEROP_ERROR:`) for output starting with `ERROR`; else the name,
/// the state code (the trimmed text after the first `:`, 0 when it is not a
/// number) and the state's name.
pub open spec fn status_response(raw: Seq<char>) -> Result<(Seq<char>, int, Seq<char>), Seq<char>> {
    if raw.len() == 0 || raw == ":"@ {
        Err("NO_PRODUCTION"@)
    } else if starts_with(raw, "ERROR"@) {
        Err("INTEROP_ERROR:"@ + raw)
    } else {
        let parts = split_once_first(raw, ':');
        if parts.1 is None || parts.0.len() == 0 {
            Err("NO_PRODUCTION"@)
        } else {
            let code: i64 = match parse_i64(trim(parts.1->0)) {
                Some(v) => v as i64,
                None => 0,
            };
            Ok((parts.0, code as int, state_name(code)))
        }
    }
}

/// Parse `name:state` output of `Ens.Director.GetProductionStatus`.
pub fn parse_status_response(raw: &str) -> (r: Result<(String, i64, String), String>)
    ensures
        match r {
            Ok((name, code, state)) => status_response(raw@) == Ok::<
                (Seq<char>, int, Seq<char>),
                Seq<char>,
            >((name@, code as int, state@)),
            Err(e) => status_response(raw@) == Err::<(Seq<char>, int, Seq<char>), Seq<char>>(e@),
        },
{
    let rv = chars_of(raw);
    if rv.len() == 0 || str_eq(raw, ":") {
        return Err(to_owned_string("NO_PRODUCTION"));
    }
    if str_starts_with(raw, "ERROR") {
        let mut e = String::new();
        e.append("INTEROP_ERROR:");
        e.append(raw);
        return Err(e);
    }
    let (first, rest) = split_once_first_exec(raw, ':');
    let fv = chars_of(first.as_str());
    match rest {
        None => Err(to_owned_string("NO_PRODUCTION")),
        Some(r) => {
            if fv.len() == 0 {
                return Err(to_owned_string("NO_PRODUCTION"));
            }
            let v = chars_of(r.as_str());
            let (lo, hi) = trim_bounds(&v);
            let code: i64 = match parse_i64_exec(&v, lo, hi) {
                Some(x) => x,
                None => 0,
            };
            let state = to_owned_string(state_string(code));
            Ok((first, code, state))
        },
    }
}

/// An error text that points at the network rather than at IRIS.
pub open spec fn is_network_error_text(msg: Seq<char>) -> bool {
    contains(msg, "error sending"@) || contains(msg, "connection"@) || contains(msg, "dns"@)
}

/// Whether an error text points at the network.
pub fn is_network_error(msg: &str) -> (b: bool)
    ensures
        b == is_network_error_text(msg@),
{
    str_contains(msg, "error sending") || str_contains(msg, "connection") || str_contains(msg, "dns")
}

/// The kinds of failure an interop tool reports.
#[derive(Debug, Clone, Copy, PartialEq, Eq, Structural)]
pub enum InteropErrorKind {
    /// No container is configured for `docker exec`.
    DockerRequired,
    /// IRIS could not be reached.
    Unreachable,
    /// IRIS ran the request and reported a failure.
    InteropError,
}

/// The kind of an execution failure with text `msg`.
pub open spec fn execute_error_kind(msg: Seq<char>) -> InteropErrorKind {
    if msg == "DOCKER_REQUIRED"@ {
        InteropErrorKind::DockerRequired
    } else if is_network_error_text(msg) {
        InteropErrorKind::Unreachable
    } else {
        InteropErrorKind::InteropError
    }
}

/// Classifies the failure of running a production snippet.
pub fn classify_execute_error(msg: &str) -> (k: InteropErrorKind)
    ensures
        k == execute_error_kind(msg@),
{
    if str_eq(msg, "DOCKER_REQUIRED") {
        InteropErrorKind::DockerRequired
    } else if is_network_error(msg) {
        InteropErrorKind::Unreachable
    } else {
        InteropErrorKind::InteropError
    }
}

/// The kind of a query failure with text `msg` (queries never need docker).
pub open spec fn query_error_kind(msg: Seq<char>) -> InteropErrorKind {
    if is_network_error_text(msg) {
        InteropErrorKind::Unreachable
    } else {
        InteropErrorKind::InteropError
    }
}

/// Classifies the failure of an interop SQL query.
pub fn classify_query_error(msg: &str) -> (k: InteropErrorKind)
    ensures
        k == query_error_kind(msg@),
{
    if is_network_error(msg) {
        InteropErrorKind::Unreachable
    } else {
        InteropErrorKind::InteropError
    }
}

/// The snippet that writes the production status as `name:state`.
pub fn production_status_code() -> (r: &'static str)
    ensures
        r@ == "Set sc=##class(Ens.Director).GetProductionStatus(.n,.s) If $$$ISERR(sc) { Write \"ERROR:\"_$System.Status.GetErrorText(sc) } Else { Write n_\":\"_s }"@,
{
    "Set sc=##class(Ens.Director).GetProductionStatus(.n,.s) If $$$ISERR(sc) { Write \"ERROR:\"_$System.Status.GetErrorText(sc) } Else { Write n_\":\"_s }"
}

/// The snippet that starts production `prod` and writes `OK` or the error.
pub open spec fn start_snippet(prod: Seq<char>) -> Seq<char> {
    "Set sc=##class(Ens.Director).StartProduction(\""@ + prod
        + "\") If $$$ISERR(sc) { Write \"ERROR:\"_$System.Status.GetErrorText(sc) } Else { Write \"OK\" }"@
}

/// The snippet for `interop_production_start` (no production name: the empty one).
pub fn production_start_code(production: &Option<String>) -> (r: String)
    ensures
        r@ == start_snippet(match production {
            Some(p) => p@,
            None => Seq::<char>::empty(),
        }),
{
    let mut r = String::new();
    r.append("Set sc=##class(Ens.Director).StartProduction(\"");
    match production {
        Some(p) => r.append(p.as_str()),
        None => {},
    }
    r.append(
        "\") If $$$ISERR(sc) { Write \"ERROR:\"_$System.Status.GetErrorText(sc) } Else { Write \"OK\" }",
    );
    r
}

/// The snippet that calls `Ens.Director.<method>(timeout, force)` and writes `OK` or the error.
pub open spec fn timed_snippet(method: Seq<char>, timeout: u32, force: bool) -> Seq<char> {
    "Set sc=##class(Ens.Director)."@ + method + "("@ + dec(timeout as nat) + ","@ + (if force {
        "1"@
    } else {
        "0"@
    }) + ") If $$$ISERR(sc) { Write \"ERROR:\"_$System.Status.GetErrorText(sc) } Else { Write \"OK\" }"@
}

fn timed_code(method: &str, timeout: u32, force: bool) -> (r: String)
    ensures
        r@ == timed_snippet(method@, timeout, force),
{
    let mut r = String::new();
    r.append("Set sc=##class(Ens.Director).");
    r.append(method);
    r.append("(");
    push_dec(&mut r, timeout as u64);
    r.append(",");
    if force {
        r.append("1");
    } else {
        r.append("0");
    }
    r.append(
        ") If $$$ISERR(sc) { Write \"ERROR:\"_$System.Status.GetErrorText(sc) } Else { Write \"OK\" }",
    );
    r
}

/// The snippet for `interop_production_stop`.
pub fn production_stop_code(timeout: u32, force: bool) -> (r: String)
    ensures
        r@ == timed_snippet("StopProduction"@, timeout, force),
{
    timed_code("StopProduction", timeout, force)
}

/// The snippet for `interop_production_update`.
pub fn production_update_code(timeout: u32, force: bool) -> (r: String)
    ensures
        r@ == timed_snippet("UpdateProduction"@, timeout, force),
{
    timed_code("UpdateProduction", timeout, force)
}

/// The snippet for `interop_production_needs_update`.
pub fn production_needs_update_code() -> (r: &'static str)
    ensures
        r@ == "Write ##class(Ens.Director).ProductionNeedsUpdate()"@,
{
    "Write ##class(Ens.Director).ProductionNeedsUpdate()"
}

/// The snippet for `interop_production_recover`.
pub fn production_recover_code() -> (r: &'static str)
    ensures
        r@ == "Set sc=##class(Ens.Director).RecoverProduction() If $$$ISERR(sc) { Write \"ERROR:\"_$System.Status.GetErrorText(sc) } Else { Write \"OK\" }"@,
{
    "Set sc=##class(Ens.Director).RecoverProduction() If $$$ISERR(sc) { Write \"ERROR:\"_$System.Status.GetErrorText(sc) } Else { Write \"OK\" }"
}

/// A snippet that writes `OK` succeeded: its trimmed output is `OK`.
pub fn output_is_ok(output: &str) -> (b: bool)
    ensures
        b == (trim(output@) == "OK"@),
{
    let t = trim_string(output);
    str_eq(t.as_str(), "OK")
}

/// The production needs an update: the trimmed output is `1`.
pub fn output_needs_update(output: &str) -> (b: bool)
    ensures
        b == (trim(output@) == "1"@),
{
    let t = trim_string(output);
    str_eq(t.as_str(), "1")
}

/// `s` quoted for an SQL string literal: each `'` doubled.
pub open spec fn sql_quoted(s: Seq<char>) -> Seq<char> {
    replace_char(s, '\'', "''"@)
}

/// The SQL condition for one requested log type, if it names one.
pub open spec fn log_type_condition(t: Seq<char>) -> Option<Seq<char>> {
    let l = lowercase(trim(t));
    if l == "error"@ {
        Some("Type = 3"@)
    } else if l == "warning"@ {
        Some("Type = 2"@)
    } else if l == "info"@ {
        Some("Type = 1"@)
    } else if l == "alert"@ {
        Some("Type = 4"@)
    } else {
        None
    }
}

/// The conditions of the requested log types that name one, in order.
pub open spec fn log_type_conditions(parts: Seq<Seq<char>>) -> Seq<Seq<char>>
    decreases parts.len(),
{
    if parts.len() == 0 {
        Seq::<Seq<char>>::empty()
    } else {
        log_type_conditions(parts.drop_last()) + match log_type_condition(parts.last()) {
            Some(c) => seq![c],
            None => Seq::<Seq<char>>::empty(),
        }
    }
}

/// The log query: the `limit` latest entries of the requested types (all
/// types when none is recognised) and, when given, of one component.
pub open spec fn logs_sql(limit: u32, log_type: Seq<char>, item_name: Option<Seq<char>>) -> Seq<char> {
    let conds = log_type_conditions(split_all(log_type, ','));
    let type_filter = if conds.len() == 0 {
        Seq::<char>::empty()
    } else {
        "AND ("@ + join(conds, " OR "@) + ")"@
    };
    let item_filter = match item_name {
        Some(n) => "AND ConfigName = '"@ + sql_quoted(n) + "'"@,
        None => Seq::<char>::empty(),
    };
    "SELECT TOP "@ + dec(limit as nat) + " ID, TimeLogged, Type, ConfigName, Text FROM Ens_Util.Log WHERE 1=1 "@
        + type_filter + " "@ + item_filter + " ORDER BY ID DESC"@
}

fn log_condition_exec(t: &str) -> (r: Option<&'static str>)
    ensures
        match r {
            Some(c) => log_type_condition(t@) == Some(c@),
            None => log_type_condition(t@) is None,
        },
{
    let tt = trim_string(t);
    let l = to_lowercase(tt.as_str());
    if str_eq(l.as_str(), "error") {
        Some("Type = 3")
    } else if str_eq(l.as_str(), "warning") {
        Some("Type = 2")
    } else if str_eq(l.as_str(), "info") {
        Some("Type = 1")
    } else if str_eq(l.as_str(), "alert") {
        Some("Type = 4")
    } else {
        None
    }
}

/// The SQL of `interop_logs`.
pub fn interop_logs_sql(params: &LogsParams) -> (r: String)
    ensures
        r@ == logs_sql(
            params.limit,
            params.log_type@,
            opt_view(params.item_name),
        ),
{
    let parts = split_all_exec(params.log_type.as_str(), ',');
    let ghost ps = texts(parts@);
    let mut conds: Vec<String> = Vec::new();
    let mut i: usize = 0;
    while i < parts.len()
        invariant
            i <= parts.len(),
            ps == texts(parts@),
            texts(conds@) == log_type_conditions(ps.take(i as int)),
        decreases parts.len() - i,
    {
        assert(ps.take(i + 1).drop_last() =~= ps.take(i as int));
        assert(ps.take(i + 1).last() == parts@[i as int]@);
        match log_condition_exec(parts[i].as_str()) {
            Some(c) => push_text(&mut conds, to_owned_string(c)),
            None => {},
        }
        i += 1;
        assert(texts(conds@) =~= log_type_conditions(ps.take(i as int)));
    }
    assert(ps.take(parts.len() as int) =~= ps);
    let mut r = String::new();
    r.append("SELECT TOP ");
    push_dec(&mut r, params.limit as u64);
    r.append(" ID, TimeLogged, Type, ConfigName, Text FROM Ens_Util.Log WHERE 1=1 ");
    if conds.len() > 0 {
        r.append("AND (");
        append_join(&mut r, &conds, " OR ");
        r.append(")");
    }
    r.append(" ");
    match &params.item_name {
        Some(n) => {
            r.append("AND ConfigName = '");
            let nv = chars_of(n.as_str());
            append_replace_char(&mut r, &nv, '\'', "''");
            r.append("'");
        },
        None => {},
    }
    r.append(" ORDER BY ID DESC");
    r
}

/// The SQL of `interop_queues`.
pub fn interop_queues_sql() -> (r: &'static str)
    ensures
        r@ == "SELECT * FROM Ens.Queue_Enumerate()"@,
{
    "SELECT * FROM Ens.Queue_Enumerate()"
}

/// The filters of a message search, in order source, target, class.
pub open spec fn message_filters(
    source: Option<Seq<char>>,
    target: Option<Seq<char>>,
    class_name: Option<Seq<char>>,
) -> Seq<Seq<char>> {
    (match source {
        Some(s) => seq!["SourceConfigName = '"@ + sql_quoted(s) + "'"@],
        None => Seq::<Seq<char>>::empty(),
    }) + (match target {
        Some(t) => seq!["TargetConfigName = '"@ + sql_quoted(t) + "'"@],
        None => Seq::<Seq<char>>::empty(),
    }) + (match class_name {
        Some(c) => seq!["MessageBodyClassName = '"@ + sql_quoted(c) + "'"@],
        None => Seq::<Seq<char>>::empty(),
    })
}

/// The message search query: the `limit` latest message headers that match
/// every given filter.
pub open spec fn message_search_sql(limit: u32, filters: Seq<Seq<char>>) -> Seq<char> {
    let where_clause = if filters.len() == 0 {
        Seq::<char>::empty()
    } else {
        "WHERE "@ + join(filters, " AND "@)
    };
    "SELECT TOP "@ + dec(limit as nat)
        + " ID, TimeCreated, SourceConfigName, TargetConfigName, MessageBodyClassName, Status FROM Ens.MessageHeader "@
        + where_clause + " ORDER BY ID DESC"@
}

fn push_filter(filters: &mut Vec<String>, prefix: &str, value: &str)
    ensures
        texts(final(filters)@) == texts(old(filters)@).push(prefix@ + sql_quoted(value@) + "'"@),
{
    let mut f = String::new();
    f.append(prefix);
    let vv = chars_of(value);
    append_replace_char(&mut f, &vv, '\'', "''");
    f.append("'");
    push_text(filters, f);
}

/// The SQL of `interop_message_search`.
pub fn interop_message_search_sql(params: &MessageSearchParams) -> (r: String)
    ensures
        r@ == message_search_sql(
            params.limit,
            message_filters(
                opt_view(params.source),
                opt_view(params.target),
                opt_view(params.class_name),
            ),
        ),
{
    let mut filters: Vec<String> = Vec::new();
    match &params.source {
        Some(s) => push_filter(&mut filters, "SourceConfigName = '", s.as_str()),
        None => {},
    }
    match &params.target {
        Some(s) => push_filter(&mut filters, "TargetConfigName = '", s.as_str()),
        None => {},
    }
    match &params.class_name {
        Some(s) => push_filter(&mut filters, "MessageBodyClassName = '", s.as_str()),
        None => {},
    }
    let ghost expected = message_filters(
        opt_view(params.source),
        opt_view(params.target),
        opt_view(params.class_name),
    );
    assert(texts(filters@) =~= expected);
    let mut r = String::new();
    r.append("SELECT TOP ");
    push_dec(&mut r, params.limit as u64);
    r.append(
        " ID, TimeCreated, SourceConfigName, TargetConfigName, MessageBodyClassName, Status FROM Ens.MessageHeader ",
    );
    if filters.len() > 0 {
        r.append("WHERE ");
        append_join(&mut r, &filters, " AND ");
    }
    r.append(" ORDER BY ID DESC");
    r
}

/// Production states are named by `Ens.Director`'s codes: 1 Running,
/// 2 Stopped, 3 Suspended, 4 Troubled, 5 NetworkStopped, any other code
/// Unknown; the five names are all different.
pub proof fn lemma_production_state_names(code: i64)
    ensures
        state_name(1) == "Running"@,
        state_name(2) == "Stopped"@,
        state_name(3) == "Suspended"@,
        state_name(4) == "Troubled"@,
        state_name(5) == "NetworkStopped"@,
        !(1 <= code <= 5) ==> state_name(code) == "Unknown"@,
{
}

} // verus!
