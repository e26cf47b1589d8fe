//! iris_info, iris_macro, iris_debug and iris_generate: the endpoints they
//! address, the snippets and SQL they send, and the prompts they build.

use vstd::prelude::*;
use crate::iris::connection::IrisConnection;
use crate::text::{
    chars_of, first_index, first_index_exec, opt_view, str_eq, to_owned_string, to_uppercase,
    uppercase, url_encode, url_encoded, string_of_range,
};
use crate::tools::interop::sql_quoted;
use crate::tools::scm::{os_quote, os_quoted};

verus! {

/// Parameters of `iris_info`.
pub struct InfoParams {
    /// What to fetch: documents, modified, namespace, metadata, jobs, csp_apps, csp_debug, sa_schema
    pub what: String,
    /// Document type filter for what=documents: CLS, MAC, INT, INC, CSP, ALL
    pub doc_type: Option<String>,
    /// Schema/cube name for what=sa_schema
    pub name: Option<String>,
    pub namespace: String,
}

/// Parameters of `iris_macro`.
pub struct MacroParams {
    /// Action: list, signature, location, definition, expand
    pub action: String,
    pub name: Option<String>,
    pub args: Vec<String>,
    pub namespace: String,
}

/// Parameters of `iris_debug`.
pub struct DebugParams {
    /// Action: map_int, error_logs, capture, source_map
    pub action: String,
    /// Error string for map_int e.g. "<UNDEFINED>x+3^MyApp.Foo.1"
    pub error_string: Option<String>,
    /// Class name for source_map
    pub class_name: Option<String>,
    pub limit: usize,
    pub namespace: String,
}

/// Parameters of `iris_generate`.
pub struct GenerateParams {
    /// What to generate — natural language description
    pub description: String,
    /// Type: "class" (default) or "test"
    pub gen_type: String,
    /// Existing class name to generate tests for (gen_type=test only)
    pub class_name: Option<String>,
    pub namespace: String,
}

/// The namespace used when none is given.
pub fn default_namespace() -> (r: String)
    ensures
        r@ == "USER"@,
{
    to_owned_string("USER")
}

/// The number of entries returned when no limit is given.
pub fn default_limit() -> (r: usize)
    ensures
        r == 20,
{
    20
}

/// The generation type used when none is given.
pub fn default_type() -> (r: String)
    ensures
        r@ == "class"@,
{
    to_owned_string("class")
}

// ── iris_info ────────────────────────────────────────────────────────────────

/// The Atelier path that `iris_info` reads for `what`, or `None` for an unknown `what`.
/// Documents of type `ALL` (the default) are listed as `CLS`; other types upper-cased.
pub open spec fn info_path(
    what: Seq<char>,
    doc_type: Option<Seq<char>>,
    name: Option<Seq<char>>,
    ns: Seq<char>,
) -> Option<Seq<char>> {
    if what == "documents"@ {
        let t = match doc_type {
            Some(t) => t,
            None => "ALL"@,
        };
        let cat = if t == "ALL"@ {
            "CLS"@
        } else {
            uppercase(t)
        };
        Some("/v1/"@ + ns + "/docnames/"@ + cat)
    } else if what == "modified"@ {
        Some("/v1/"@ + ns + "/modified/0"@)
    } else if what == "namespace"@ {
        Some("/v1/"@ + ns)
    } else if what == "metadata"@ {
        Some("/"@)
    } else if what == "jobs"@ {
        Some("/v1/"@ + ns + "/jobs"@)
    } else if what == "csp_apps"@ {
        Some("/v1/"@ + ns + "/cspapps"@)
    } else if what == "csp_debug"@ {
        Some("/v1/"@ + ns + "/cspdebugid"@)
    } else if what == "sa_schema"@ {
        Some("/v1/"@ + ns + "/saschema/"@ + url_encoded(
            match name {
                Some(n) => n,
                None => Seq::<char>::empty(),
            },
        ))
    } else {
        None
    }
}

/// The message for an unknown `what`.
pub open spec fn unknown_what_message(what: Seq<char>) -> Seq<char> {
    "Unknown what='"@ + what
        + "'. Use: documents, modified, namespace, metadata, jobs, csp_apps, csp_debug, sa_schema"@
}

fn ns_path(ns: &str, suffix: &str) -> (r: String)
    ensures
        r@ == "/v1/"@ + ns@ + suffix@,
{
    let mut p = String::new();
    p.append("/v1/");
    p.append(ns);
    p.append(suffix);
    p
}

/// The URL `iris_info` fetches, or the error text for an unknown `what`.
pub fn info_url(iris: &IrisConnection, p: &InfoParams) -> (r: Result<String, String>)
    ensures
        match info_path(p.what@, opt_view(p.doc_type), opt_view(p.name), p.namespace@) {
            Some(path) => r matches Ok(u) && u@ == iris.url_of(path),
            None => r matches Err(e) && e@ == unknown_what_message(p.what@),
        },
{
    proof {
        reveal_strlit("");
    }
    let w = p.what.as_str();
    let ns = p.namespace.as_str();
    let path = if str_eq(w, "documents") {
        let t: &str = match &p.doc_type {
            Some(t) => t.as_str(),
            None => "ALL",
        };
        let cat = if str_eq(t, "ALL") {
            to_owned_string("CLS")
        } else {
            to_uppercase(t)
        };
        let mut s = ns_path(ns, "/docnames/");
        s.append(cat.as_str());
        s
    } else if str_eq(w, "modified") {
        ns_path(ns, "/modified/0")
    } else if str_eq(w, "namespace") {
        ns_path(ns, "")
    } else if str_eq(w, "metadata") {
        to_owned_string("/")
    } else if str_eq(w, "jobs") {
        ns_path(ns, "/jobs")
    } else if str_eq(w, "csp_apps") {
        ns_path(ns, "/cspapps")
    } else if str_eq(w, "csp_debug") {
        ns_path(ns, "/cspdebugid")
    } else if str_eq(w, "sa_schema") {
        let n: &str = match &p.name {
            Some(n) => n.as_str(),
            None => "",
        };
        let mut s = ns_path(ns, "/saschema/");
        let e = url_encode(n);
        s.append(e.as_str());
        s
    } else {
        let mut e = String::new();
        e.append("Unknown what='");
        e.append(w);
        e.append("'. Use: documents, modified, namespace, metadata, jobs, csp_apps, csp_debug, sa_schema");
        return Err(e);
    };
    Ok(iris.atelier_url(path.as_str()))
}

// ── iris_macro ───────────────────────────────────────────────────────────────

/// The actions of `iris_macro`.
#[derive(Debug, Clone, Copy, PartialEq, Eq, Structural)]
pub enum MacroAction {
    /// List the include files.
    List,
    /// Ask the `getmacro` action (signature, location, definition or expand).
    Lookup,
    Unknown,
}

/// The action named by `a`.
pub open spec fn macro_action_of(a: Seq<char>) -> MacroAction {
    if a == "list"@ {
        MacroAction::List
    } else if a == "signature"@ || a == "location"@ || a == "definition"@ || a == "expand"@ {
        MacroAction::Lookup
    } else {
        MacroAction::Unknown
    }
}

/// Which macro action `a` asks for.
pub fn parse_macro_action(a: &str) -> (r: MacroAction)
    ensures
        r == macro_action_of(a@),
{
    if str_eq(a, "list") {
        MacroAction::List
    } else if str_eq(a, "signature") || str_eq(a, "location") || str_eq(a, "definition") || str_eq(
        a,
        "expand",
    ) {
        MacroAction::Lookup
    } else {
        MacroAction::Unknown
    }
}

/// The URL that lists the include files of a namespace.
pub fn macro_list_url(iris: &IrisConnection, ns: &str) -> (r: String)
    ensures
        r@ == iris.url_of("/v1/"@ + ns@ + "/docnames/INC"@),
{
    let p = ns_path(ns, "/docnames/INC");
    iris.atelier_url(p.as_str())
}

/// The URL of the `getmacro` action.
pub fn macro_lookup_url(iris: &IrisConnection, ns: &str) -> (r: String)
    ensures
        r@ == iris.url_of("/v8/"@ + ns@ + "/action/getmacro"@),
{
    let mut p = String::new();
    p.append("/v8/");
    p.append(ns);
    p.append("/action/getmacro");
    iris.atelier_url(p.as_str())
}

/// The error text for an unknown macro action.
pub fn unknown_macro_action_message(a: &str) -> (r: String)
    ensures
        r@ == "Unknown action='"@ + a@ + "'. Use: list, signature, location, definition, expand"@,
{
    let mut r = String::new();
    r.append("Unknown action='");
    r.append(a);
    r.append("'. Use: list, signature, location, definition, expand");
    r
}

// ── iris_debug ───────────────────────────────────────────────────────────────

/// The actions of `iris_debug`.
#[derive(Debug, Clone, Copy, PartialEq, Eq, Structural)]
pub enum DebugAction {
    MapInt,
    ErrorLogs,
    Capture,
    SourceMap,
    Unknown,
}

/// The action named by `a`.
pub open spec fn debug_action_of(a: Seq<char>) -> DebugAction {
    if a == "map_int"@ {
        DebugAction::MapInt
    } else if a == "error_logs"@ {
        DebugAction::ErrorLogs
    } else if a == "capture"@ {
        DebugAction::Capture
    } else if a == "source_map"@ {
        DebugAction::SourceMap
    } else {
        DebugAction::Unknown
    }
}

/// Which debug action `a` asks for.
pub fn parse_debug_action(a: &str) -> (r: DebugAction)
    ensures
        r == debug_action_of(a@),
{
    if str_eq(a, "map_int") {
        DebugAction::MapInt
    } else if str_eq(a, "error_logs") {
        DebugAction::ErrorLogs
    } else if str_eq(a, "capture") {
        DebugAction::Capture
    } else if str_eq(a, "source_map") {
        DebugAction::SourceMap
    } else {
        DebugAction::Unknown
    }
}

/// The snippet that maps an error string such as `<UNDEFINED>x+3^MyApp.Foo.1`
/// to its source line.
pub open spec fn map_int_snippet(err: Seq<char>) -> Seq<char> {
    "set err=\""@ + os_quoted(err)
        + "\" set routine=$piece($piece(err,\"^\",2),\".\",1) set offset=$piece(err,\"+\",2) set offset=$piece(offset,\"^\",1) write ##class(%Studio.Debugger).SourceLine(routine,+offset)"@
}

/// The snippet for `action=map_int`.
pub fn map_int_code(err: &str) -> (r: String)
    ensures
        r@ == map_int_snippet(err@),
{
    let mut r = String::new();
    r.append("set err=\"");
    let q = os_quote(err);
    r.append(q.as_str());
    r.append(
        "\" set routine=$piece($piece(err,\"^\",2),\".\",1) set offset=$piece(err,\"+\",2) set offset=$piece(offset,\"^\",1) write ##class(%Studio.Debugger).SourceLine(routine,+offset)",
    );
    r
}

/// The snippet for `action=capture`.
pub fn capture_code() -> (r: &'static str)
    ensures
        r@ == "set err=$ZERROR write \"error:\"_err,! set loc=$ZPOSITION write \"position:\"_loc,!"@,
{
    "set err=$ZERROR write \"error:\"_err,! set loc=$ZPOSITION write \"position:\"_loc,!"
}

/// The snippet that maps every line of class `cls` to its `.INT` line.
pub open spec fn source_map_snippet(cls: Seq<char>) -> Seq<char> {
    "set map=\"\" set line=1 do {set int=##class(%Studio.Debugger).MapToINT(\""@ + os_quoted(cls)
        + "\",line,.intline) if int=\"\" quit set map=map_line_\"->\"_intline_\",\" set line=line+1 } while 1 write map"@
}

/// The snippet for `action=source_map`.
pub fn source_map_code(cls: &str) -> (r: String)
    ensures
        r@ == source_map_snippet(cls@),
{
    let mut r = String::new();
    r.append("set map=\"\" set line=1 do {set int=##class(%Studio.Debugger).MapToINT(\"");
    let q = os_quote(cls);
    r.append(q.as_str());
    r.append(
        "\",line,.intline) if int=\"\" quit set map=map_line_\"->\"_intline_\",\" set line=line+1 } while 1 write map",
    );
    r
}

/// The `DOCKER_REQUIRED` message of a debug action run without a container:
/// that of the tool `iris_debug <action>`.
pub fn debug_docker_required_message(what: &str) -> (r: String)
    ensures
        r@ == crate::tools::docker_required_text("iris_debug "@ + what@),
{
    let mut t = String::new();
    t.append("iris_debug ");
    t.append(what);
    match crate::tools::require_container(t.as_str(), None) {
        Some(m) => m,
        None => t,
    }
}

/// The note of the `error_logs` reply: the error log is read through docker only.
pub fn error_logs_note() -> (r: &'static str)
    ensures
        r@ == "IRIS error log is not accessible via Atelier REST SQL. Set IRIS_CONTAINER to enable docker exec access to the full error log."@,
{
    "IRIS error log is not accessible via Atelier REST SQL. Set IRIS_CONTAINER to enable docker exec access to the full error log."
}

/// The error text for an unknown debug action.
pub fn unknown_debug_action_message(a: &str) -> (r: String)
    ensures
        r@ == "Unknown action='"@ + a@ + "'. Use: map_int, error_logs, capture, source_map"@,
{
    let mut r = String::new();
    r.append("Unknown action='");
    r.append(a);
    r.append("'. Use: map_int, error_logs, capture, source_map");
    r
}

// ── iris_generate ────────────────────────────────────────────────────────────

/// The query of the methods of class `cls`, context for a test prompt.
pub open spec fn test_context_sql(cls: Seq<char>) -> Seq<char> {
    "SELECT Name, FormalSpec, ReturnType, Description FROM %Dictionary.CompiledMethod WHERE parent = '"@
        + sql_quoted(cls) + "' ORDER BY Name"@
}

/// The SQL that fetches the methods of the class to be tested.
pub fn test_context_query(cls: &str) -> (r: String)
    ensures
        r@ == test_context_sql(cls@),
{
    let mut r = String::new();
    r.append(
        "SELECT Name, FormalSpec, ReturnType, Description FROM %Dictionary.CompiledMethod WHERE parent = '",
    );
    let cv = chars_of(cls);
    crate::text::append_replace_char(&mut r, &cv, '\'', "''");
    r.append("' ORDER BY Name");
    r
}

/// The prompt for a unit test of `cls`, with the requirements and the class's
/// methods (as JSON text).
pub open spec fn test_prompt_text(cls: Seq<char>, description: Seq<char>, methods_json: Seq<char>) -> Seq<
    char,
> {
    "Write an InterSystems IRIS %UnitTest.TestCase subclass to test '"@ + cls
        + "'. Requirements: "@ + description + ". The class has these methods: "@ + methods_json
        + ". Rules: extend %UnitTest.TestCase, prefix test methods with 'Test', use $$$AssertEquals/$$$AssertTrue macros, include ##class("@
        + cls + ").%New() in setup. Write only valid ObjectScript — no explanations, no markdown fences."@
}

/// Builds the prompt for a unit test.
pub fn test_prompt(cls: &str, description: &str, methods_json: &str) -> (r: String)
    ensures
        r@ == test_prompt_text(cls@, description@, methods_json@),
{
    let mut r = String::new();
    r.append("Write an InterSystems IRIS %UnitTest.TestCase subclass to test '");
    r.append(cls);
    r.append("'. Requirements: ");
    r.append(description);
    r.append(". The class has these methods: ");
    r.append(methods_json);
    r.append(
        ". Rules: extend %UnitTest.TestCase, prefix test methods with 'Test', use $$$AssertEquals/$$$AssertTrue macros, include ##class(",
    );
    r.append(cls);
    r.append(").%New() in setup. Write only valid ObjectScript — no explanations, no markdown fences.");
    r
}

/// The suggested name of the test class for `cls`.
pub fn suggested_test_class(cls: &str) -> (r: String)
    ensures
        r@ == cls@ + ".Test"@,
{
    let mut r = String::new();
    r.append(cls);
    r.append(".Test");
    r
}

/// The SQL that lists up to ten existing class names, as naming context.
pub fn class_context_query() -> (r: &'static str)
    ensures
        r@ == "SELECT TOP 10 Name FROM %Dictionary.ClassDefinition WHERE Name NOT LIKE '%\\%%' ESCAPE '\\' ORDER BY Name"@,
{
    "SELECT TOP 10 Name FROM %Dictionary.ClassDefinition WHERE Name NOT LIKE '%\\%%' ESCAPE '\\' ORDER BY Name"
}

/// The package of the first existing class (its name up to the first `.`),
/// or `MyApp` when there is none.
pub open spec fn package_of(existing: Seq<Seq<char>>) -> Seq<char> {
    if existing.len() == 0 {
        "MyApp"@
    } else {
        match first_index(existing[0], '.') {
            Some(i) => existing[0].subrange(0, i),
            None => existing[0],
        }
    }
}

/// The package prefix suggested for a new class.
pub fn suggested_package(existing: &Vec<String>) -> (r: String)
    ensures
        r@ == package_of(crate::text::texts(existing@)),
{
    if existing.len() == 0 {
        return to_owned_string("MyApp");
    }
    let v = chars_of(existing[0].as_str());
    match first_index_exec(&v, '.') {
        Some(i) => string_of_range(&v, 0, i),
        None => crate::text::string_of(&v),
    }
}

/// The prompt for a new class.
pub open spec fn class_prompt_text(description: Seq<char>, package: Seq<char>) -> Seq<char> {
    "Write an InterSystems IRIS ObjectScript class. Requirements: "@ + description
        + ". Use package prefix '"@ + package
        + "' to match existing classes in this namespace. Rules: valid ObjectScript syntax, extend %Persistent or %RegisteredObject as appropriate, include property definitions with types, add basic accessor methods if needed. Write only the class code — no explanations, no markdown fences."@
}

/// Builds the prompt for a new class.
pub fn class_prompt(description: &str, package: &str) -> (r: String)
    ensures
        r@ == class_prompt_text(description@, package@),
{
    let mut r = String::new();
    r.append("Write an InterSystems IRIS ObjectScript class. Requirements: ");
    r.append(description);
    r.append(". Use package prefix '");
    r.append(package);
    r.append(
        "' to match existing classes in this namespace. Rules: valid ObjectScript syntax, extend %Persistent or %RegisteredObject as appropriate, include property definitions with types, add basic accessor methods if needed. Write only the class code — no explanations, no markdown fences.",
    );
    r
}

/// Whether a generation request is for a test (`gen_type` is `test`); anything else is a class.
pub fn is_test_generation(gen_type: &str) -> (b: bool)
    ensures
        b == (gen_type@ == "test"@),
{
    str_eq(gen_type, "test")
}

/// The instructions returned with every generation prompt.
pub fn generation_instructions() -> (r: &'static str)
    ensures
        r@ == "Use the prompt above to write the class, then call iris_doc(mode=put) to save it and iris_compile to compile it."@,
{
    "Use the prompt above to write the class, then call iris_doc(mode=put) to save it and iris_compile to compile it."
}

/// The URL of the SQL query action, used by the generation context queries.
pub fn query_url(iris: &IrisConnection, ns: &str) -> (r: String)
    ensures
        r@ == iris.url_of("/v1/"@ + ns@ + "/action/query"@),
{
    let p = ns_path(ns, "/action/query");
    iris.atelier_url(p.as_str())
}

} // verus!
