//! iris_doc — document get/put/delete/head: the parameters, the source
//! transforms applied before a write, and the decisions taken on replies.

use vstd::prelude::*;
use crate::iris::connection::IrisConnection;
use crate::text::{
    append_join, chars_of, last_index, count_char, drop_blank_back, is_ws, join, lines, lines_of,
    matches_at_exec, starts_with, texts, trim, trimmed, push_text, blank_chars, string_of,
    to_owned_string, lowercase, uppercase, to_lowercase, to_uppercase, after_last, before_last,
    after_last_string, before_last_string, trim_start, str_eq, no_newline, strip_cr, lines_from,
    lemma_lines_of_join, lemma_lines_no_newline, lemma_trim_strip_cr, lemma_drop_blank_back_prefix,
};
use crate::tools::scm::{action_msg, os_quoted, os_quote, parse_action_msg};

verus! {

/// Operation of `iris_doc`.
#[derive(Debug, Clone, Copy, PartialEq, Eq, Structural)]
pub enum DocMode {
    Get,
    Put,
    Delete,
    Head,
}

/// Parameters of `iris_doc`.
pub struct IrisDocParams {
    /// Operation: get=fetch source, put=write, delete=remove, head=check existence. Defaults to "get".
    pub mode: DocMode,
    /// Document name e.g. 'MyApp.Patient.cls'
    pub name: Option<String>,
    /// Multiple document names for batch get/delete
    pub names: Vec<String>,
    /// Source content (required for mode=put)
    pub content: Option<String>,
    pub namespace: String,
    /// Elicitation resume ID (from a prior elicitation_required response)
    pub elicitation_id: Option<String>,
    /// User's answer to the elicitation question ("yes" or "no")
    pub elicitation_answer: Option<String>,
}

/// The mode used when none is given.
pub fn default_mode() -> (m: DocMode)
    ensures
        m == DocMode::Get,
{
    DocMode::Get
}

/// The namespace used when none is given.
pub fn default_namespace() -> (r: String)
    ensures
        r@ == "USER"@,
{
    to_owned_string("USER")
}

// ── Storage blocks ───────────────────────────────────────────────────────────

/// The first line of a `Storage` block, trimmed: its first whitespace-separated
/// word is `Storage` and a second word follows (for a trimmed line: it starts
/// with `Storage`, then whitespace, then more text).
pub open spec fn is_storage_start(t: Seq<char>) -> bool {
    t.len() > 7 && starts_with(t, "Storage"@) && is_ws(t[7])
}

/// The brace depth after a line: `{` count added and `}` count taken away,
/// in wrapping 32-bit arithmetic.
pub open spec fn brace_step(depth: i32, line: Seq<char>) -> i32 {
    depth.wrapping_add(count_char(line, '{') as i32).wrapping_sub(count_char(line, '}') as i32)
}

/// One line of the scan that removes `Storage` blocks. The state is the lines
/// kept so far, whether a block is open, its brace depth and whether any
/// block was seen. Outside a block, a block's first line opens it; when that
/// line holds a `{` and its braces balance, the block closes again at once;
/// when it holds no `{`, the block waits for its `{` on a later line. Any
/// other line outside a block is kept. Inside, a block whose `{` has not come
/// yet (depth 0) ignores lines without `{`; otherwise the depth follows the
/// braces and the block ends, with that line, when it drops to 0 or below.
pub open spec fn storage_step(st: (Seq<Seq<char>>, bool, i32, bool), line: Seq<char>) -> (
    Seq<Seq<char>>,
    bool,
    i32,
    bool,
) {
    let opens = count_char(line, '{') > 0;
    if !st.1 {
        if is_storage_start(trim(line)) {
            let d = brace_step(st.2, line);
            if !opens {
                (st.0, true, 0, true)
            } else if d <= 0 {
                (st.0, false, 0, true)
            } else {
                (st.0, true, d, true)
            }
        } else {
            (st.0.push(line), false, st.2, st.3)
        }
    } else if st.2 <= 0 && !opens {
        st
    } else {
        let d = brace_step(st.2, line);
        if d <= 0 {
            (st.0, false, 0, st.3)
        } else {
            (st.0, true, d, st.3)
        }
    }
}

/// The scan over all lines, from an empty state.
pub open spec fn storage_scan(ls: Seq<Seq<char>>) -> (Seq<Seq<char>>, bool, i32, bool)
    decreases ls.len(),
{
    if ls.len() == 0 {
        (Seq::<Seq<char>>::empty(), false, 0i32, false)
    } else {
        storage_step(storage_scan(ls.drop_last()), ls.last())
    }
}

/// The content without its `Storage` blocks, and whether there was one. With
/// a block, the kept lines lose their trailing blank lines and are joined by
/// `\n` with a final `\n`; without one, the content is returned as it is.
pub open spec fn without_storage(content: Seq<char>) -> (Seq<char>, bool) {
    let st = storage_scan(lines(content));
    if st.3 {
        (join(drop_blank_back(st.0), "\n"@) + "\n"@, true)
    } else {
        (content, false)
    }
}

fn count_in(v: &Vec<char>, c: char) -> (n: usize)
    ensures
        n == count_char(v@, c),
{
    let mut n: usize = 0;
    let mut i: usize = 0;
    while i < v.len()
        invariant
            i <= v.len(),
            n == count_char(v@.take(i as int), c),
            n <= i,
        decreases v.len() - i,
    {
        assert(v@.take(i + 1).drop_last() =~= v@.take(i as int));
        if v[i] == c {
            n += 1;
        }
        i += 1;
    }
    assert(v@.take(v.len() as int) =~= v@);
    n
}

fn storage_start_chars(t: &Vec<char>) -> (b: bool)
    ensures
        b == is_storage_start(t@),
{
    let p = chars_of("Storage");
    t.len() > 7 && matches_at_exec(t, 0, &p) && crate::text::char_is_ws(t[7])
}

/// Strip `Storage Name { ... }` blocks from ObjectScript class content.
/// Returns (content_without_storage, storage_was_present).
pub fn strip_storage_blocks(content: &str) -> (r: (String, bool))
    ensures
        (r.0@, r.1) == without_storage(content@),
{
    let v = chars_of(content);
    let ls = lines_of(&v);
    let ghost all = lines(content@);
    let mut kept: Vec<String> = Vec::new();
    let mut in_storage = false;
    let mut depth: i32 = 0;
    let mut found = false;
    let mut i: usize = 0;
    while i < ls.len()
        invariant
            i <= ls.len() == all.len(),
            all == lines(content@),
            forall|k: int| 0 <= k < ls.len() ==> (#[trigger] ls[k])@ == all[k],
            (texts(kept@), in_storage, depth, found) == storage_scan(all.take(i as int)),
        decreases ls.len() - i,
    {
        assert(all.take(i + 1).drop_last() =~= all.take(i as int));
        assert(all.take(i + 1).last() == all[i as int]);
        let line = &ls[i];
        let opens = count_in(line, '{');
        if !in_storage {
            let t = trimmed(line);
            if storage_start_chars(&t) {
                let closes = count_in(line, '}');
                let d = depth.wrapping_add(opens as i32).wrapping_sub(closes as i32);
                found = true;
                if opens == 0 {
                    in_storage = true;
                    depth = 0;
                } else if d <= 0 {
                    in_storage = false;
                    depth = 0;
                } else {
                    in_storage = true;
                    depth = d;
                }
            } else {
                push_text(&mut kept, string_of(line));
            }
        } else if depth <= 0 && opens == 0 {
        } else {
            let closes = count_in(line, '}');
            let d = depth.wrapping_add(opens as i32).wrapping_sub(closes as i32);
            if d <= 0 {
                in_storage = false;
                depth = 0;
            } else {
                depth = d;
            }
        }
        i += 1;
    }
    assert(all.take(ls.len() as int) =~= all);
    if found {
        let ghost ks = texts(kept@);
        let mut hi = kept.len();
        assert(ks.subrange(0, hi as int) =~= ks);
        while hi > 0 && blank_chars(&chars_of(kept[hi - 1].as_str()))
            invariant
                hi <= kept.len(),
                ks == texts(kept@),
                drop_blank_back(ks) == drop_blank_back(ks.subrange(0, hi as int)),
            decreases hi,
        {
            assert(ks.subrange(0, hi as int).drop_last() =~= ks.subrange(0, hi - 1));
            hi -= 1;
        }
        let sel = crate::text::texts_range(&kept, 0, hi);
        let mut r = String::new();
        append_join(&mut r, &sel, "\n");
        r.append("\n");
        assert(texts(sel@) == sel@.map_values(|p: String| p@));
        (r, true)
    } else {
        (to_owned_string(content), false)
    }
}

proof fn lemma_scan_without_storage_lines(ls: Seq<Seq<char>>)
    requires
        forall|i: int| 0 <= i < ls.len() ==> !is_storage_start(trim(#[trigger] ls[i])),
    ensures
        storage_scan(ls) == (ls, false, 0i32, false),
    decreases ls.len(),
{
    if ls.len() > 0 {
        lemma_scan_without_storage_lines(ls.drop_last());
        assert(ls.drop_last().push(ls.last()) =~= ls);
    } else {
        assert(ls =~= Seq::<Seq<char>>::empty());
    }
}

/// Content with no `Storage` block line is left exactly as it was, and reported so.
pub proof fn lemma_no_storage_block_unchanged(content: Seq<char>)
    requires
        forall|i: int|
            0 <= i < lines(content).len() ==> !is_storage_start(trim(#[trigger] lines(content)[i])),
    ensures
        without_storage(content) == (content, false),
{
    lemma_scan_without_storage_lines(lines(content));
}

proof fn lemma_scan_facts(ls: Seq<Seq<char>>)
    requires
        forall|i: int| 0 <= i < ls.len() ==> no_newline(#[trigger] ls[i]),
    ensures
        storage_scan(ls).1 ==> storage_scan(ls).3,
        !storage_scan(ls).3 ==> forall|i: int| 0 <= i < ls.len() ==> !is_storage_start(trim(#[trigger] ls[i])),
        forall|i: int|
            0 <= i < storage_scan(ls).0.len() ==> !is_storage_start(trim(#[trigger] storage_scan(ls).0[i]))
                && no_newline(storage_scan(ls).0[i]),
    decreases ls.len(),
{
    if ls.len() > 0 {
        let front = ls.drop_last();
        lemma_scan_facts(front);
        let st = storage_scan(front);
        let r = storage_scan(ls);
        assert(r == storage_step(st, ls.last()));
        assert forall|i: int| 0 <= i < r.0.len() implies !is_storage_start(trim(#[trigger] r.0[i]))
            && no_newline(r.0[i]) by {
            if i < st.0.len() {
                assert(r.0[i] == st.0[i]);
            } else {
                assert(r.0[i] == ls.last());
            }
        }
        if !r.3 {
            assert forall|i: int| 0 <= i < ls.len() implies !is_storage_start(trim(#[trigger] ls[i])) by {
                if i < front.len() {
                    assert(ls[i] == front[i]);
                }
            }
        }
    }
}

/// Stripping `Storage` blocks a second time changes nothing: the stripped
/// text holds no `Storage` block line, so it comes back as it is and is
/// reported as having none.
pub proof fn lemma_strip_storage_idempotent(content: Seq<char>)
    ensures
        without_storage(without_storage(content).0) == (without_storage(content).0, false),
{
    reveal_strlit("\n");
    let ls = lines(content);
    lemma_lines_no_newline(seq![], content);
    lemma_scan_facts(ls);
    let st = storage_scan(ls);
    if st.3 {
        let k = st.0;
        let d = drop_blank_back(k);
        lemma_drop_blank_back_prefix(k);
        let c2 = join(d, "\n"@) + "\n"@;
        assert(without_storage(content).0 == c2);
        if d.len() == 0 {
            let e = Seq::<char>::empty();
            assert(c2 =~= e + "\n"@ + e);
            crate::text::lemma_lines_through(e, e, e);
            assert(e + e =~= e);
            assert(lines_from(seq![], e) =~= Seq::<Seq<char>>::empty());
            assert(lines(c2) =~= seq![e]);
            assert(trim(e).len() == 0);
        } else {
            assert forall|i: int| 0 <= i < d.len() implies no_newline(#[trigger] d[i]) by {
                assert(d[i] == k[i]);
            }
            lemma_lines_of_join(d, Seq::<char>::empty());
            assert(c2 + Seq::<char>::empty() =~= c2);
            assert(lines_from(seq![], Seq::<char>::empty()) =~= Seq::<Seq<char>>::empty());
            let m = d.map_values(|l: Seq<char>| strip_cr(l));
            assert(lines(c2) =~= m);
            assert forall|i: int| 0 <= i < lines(c2).len() implies !is_storage_start(trim(#[trigger] lines(c2)[i])) by {
                lemma_trim_strip_cr(d[i]);
                assert(lines(c2)[i] == strip_cr(d[i]));
                assert(d[i] == k[i]);
            }
        }
        lemma_no_storage_block_unchanged(c2);
    } else {
        lemma_no_storage_block_unchanged(content);
    }
}

/// When a `Storage` block was removed, the written text ends with a newline.
pub proof fn lemma_stripped_content_ends_with_newline(content: Seq<char>)
    ensures
        without_storage(content).1 ==> without_storage(content).0.len() > 0
            && without_storage(content).0.last() == '\n',
{
    reveal_strlit("\n");
    if without_storage(content).1 {
        let st = storage_scan(lines(content));
        assert(without_storage(content).0 == join(drop_blank_back(st.0), "\n"@) + "\n"@);
    }
}

// ── Routine headers ──────────────────────────────────────────────────────────

/// The extension of a document name, lower-cased: the text after its last `.`.
pub open spec fn doc_extension(name: Seq<char>) -> Seq<char> {
    lowercase(after_last(name, '.'))
}

/// The content lacks a `ROUTINE ` header: upper-cased after leading
/// whitespace, it does not start with `ROUTINE `.
pub open spec fn lacks_routine_header(raw: Seq<char>) -> bool {
    !starts_with(uppercase(trim_start(raw)), "ROUTINE "@)
}

/// The content written for `name`: a `.mac` routine without header gets
/// `ROUTINE <name>` as first line, a `.inc` one `ROUTINE <name> [Type=INC]`;
/// anything else is written as it is.
pub open spec fn with_routine_header(name: Seq<char>, raw: Seq<char>) -> Seq<char> {
    if doc_extension(name) == "mac"@ && lacks_routine_header(raw) {
        "ROUTINE "@ + before_last(name, '.') + "\n"@ + raw
    } else if doc_extension(name) == "inc"@ && lacks_routine_header(raw) {
        "ROUTINE "@ + before_last(name, '.') + " [Type=INC]\n"@ + raw
    } else {
        raw
    }
}

/// Inject a ROUTINE header for `.mac`/`.inc` documents whose content lacks one.
pub fn add_routine_header(name: &str, raw: &str) -> (r: String)
    ensures
        r@ == with_routine_header(name@, raw@),
{
    let ext0 = after_last_string(name, '.');
    let ext = to_lowercase(ext0.as_str());
    let rv = chars_of(raw);
    let k = {
        let n = rv.len();
        let mut k: usize = 0;
        assert(rv@.subrange(0, n as int) =~= rv@);
        while k < n && crate::text::char_is_ws(rv[k])
            invariant
                k <= n == rv.len(),
                trim_start(rv@) == trim_start(rv@.subrange(k as int, n as int)),
            decreases n - k,
        {
            assert(rv@.subrange(k as int, n as int).drop_first() =~= rv@.subrange(k + 1, n as int));
            k += 1;
        }
        k
    };
    let ts = crate::text::string_of_range(&rv, k, rv.len());
    let up = to_uppercase(ts.as_str());
    let needs_header = !crate::text::str_starts_with(up.as_str(), "ROUTINE ");
    let is_mac = str_eq(ext.as_str(), "mac");
    let is_inc = str_eq(ext.as_str(), "inc");
    if is_mac && needs_header {
        let rn = before_last_string(name, '.');
        let mut r = String::new();
        r.append("ROUTINE ");
        r.append(rn.as_str());
        r.append("\n");
        r.append(raw);
        r
    } else if is_inc && needs_header {
        let rn = before_last_string(name, '.');
        let mut r = String::new();
        r.append("ROUTINE ");
        r.append(rn.as_str());
        r.append(" [Type=INC]\n");
        r.append(raw);
        r
    } else {
        to_owned_string(raw)
    }
}

// ── Source-control check before a write ──────────────────────────────────────

/// The snippet run before a write to ask the source-control hook whether
/// document `name` may be written: `NO_SCM` without a hook, else `action|msg`.
pub open spec fn put_scm_snippet(name: Seq<char>) -> Seq<char> {
    "set scmObj=##class(%Studio.SourceControl.Base).%GetImplementationObject(\""@ + os_quoted(name)
        + "\") if '$IsObject(scmObj) { write \"NO_SCM\" } else { set action=0 set msg=\"\" set target=\"\" set reload=0 set sc=scmObj.UserAction(0,\"%SourceMenu,CheckOut\",\""@
        + os_quoted(name)
        + "\",\"\",.action,.target,.msg,.reload) write action_\"|\"_msg }"@
}

/// The ObjectScript snippet for the pre-write source-control check.
pub fn put_scm_check_code(name: &str) -> (r: String)
    ensures
        r@ == put_scm_snippet(name@),
{
    let q = os_quote(name);
    let mut r = String::new();
    r.append("set scmObj=##class(%Studio.SourceControl.Base).%GetImplementationObject(\"");
    r.append(q.as_str());
    r.append(
        "\") if '$IsObject(scmObj) { write \"NO_SCM\" } else { set action=0 set msg=\"\" set target=\"\" set reload=0 set sc=scmObj.UserAction(0,\"%SourceMenu,CheckOut\",\"",
    );
    r.append(q.as_str());
    r.append("\",\"\",.action,.target,.msg,.reload) write action_\"|\"_msg }");
    r
}

/// What to do with a write after the source-control check.
pub enum PutDecision {
    /// Write the document.
    Proceed,
    /// Ask the user to confirm a checkout first.
    NeedsCheckout { message: String },
    /// The hook refused the write.
    Rejected { message: String },
}

/// The decision for the check's output (`None` when the check could not run):
/// without output, without a hook, or with code 0 the write proceeds; code 1
/// asks for a checkout (with the hook's message or a default); code 6 is a refusal.
pub open spec fn put_decision(name: Seq<char>, out: Option<Seq<char>>, d: PutDecision) -> bool {
    match out {
        None => d is Proceed,
        Some(o) => {
            let t = trim(o);
            if t == "NO_SCM"@ || t.len() == 0 {
                d is Proceed
            } else {
                let (code, msg) = action_msg(t);
                if code == 1 {
                    d matches PutDecision::NeedsCheckout { message } && message@ == (if msg.len()
                        == 0 {
                        name + " requires checkout. Check out and write?"@
                    } else {
                        msg
                    })
                } else if code == 6 {
                    d matches PutDecision::Rejected { message } && message@
                        == "Source control rejected: "@ + msg
                } else {
                    d is Proceed
                }
            }
        },
    }
}

/// Decides a write from the output of the pre-write check.
pub fn put_decision_from_output(name: &str, out: Option<&str>) -> (d: PutDecision)
    ensures
        put_decision(
            name@,
            match out {
                Some(o) => Some(o@),
                None => None,
            },
            d,
        ),
{
    match out {
        None => PutDecision::Proceed,
        Some(o) => {
            let t = crate::text::trim_string(o);
            let tv = chars_of(t.as_str());
            if str_eq(t.as_str(), "NO_SCM") || tv.len() == 0 {
                return PutDecision::Proceed;
            }
            let (code, msg) = parse_action_msg(t.as_str());
            let mv = chars_of(msg.as_str());
            if code == 1 {
                let message = if mv.len() == 0 {
                    let mut m = String::new();
                    m.append(name);
                    m.append(" requires checkout. Check out and write?");
                    m
                } else {
                    msg
                };
                PutDecision::NeedsCheckout { message }
            } else if code == 6 {
                let mut m = String::new();
                m.append("Source control rejected: ");
                m.append(msg.as_str());
                PutDecision::Rejected { message: m }
            } else {
                PutDecision::Proceed
            }
        },
    }
}

// ── Writes ───────────────────────────────────────────────────────────────────

/// Everything a document write sends and reports.
pub struct WritePlan {
    /// The lines sent as the document content.
    pub lines: Vec<String>,
    /// The URL the content is put to.
    pub url: String,
    /// The editor URI of the written document.
    pub open_uri: String,
    /// Whether a `Storage` block was removed.
    pub storage_stripped: bool,
}

/// The plan of writing `content` as document `name` in `namespace`: its
/// `Storage` blocks removed, split into lines, put with `ignoreConflict=1`.
pub open spec fn is_write_plan(
    c: IrisConnection,
    namespace: Seq<char>,
    name: Seq<char>,
    content: Seq<char>,
    p: WritePlan,
) -> bool {
    &&& texts(p.lines@) == lines(without_storage(content).0)
    &&& p.storage_stripped == without_storage(content).1
    &&& p.url@ == c.doc_url_of(namespace, name, "?ignoreConflict=1"@)
    &&& p.open_uri@ == "isfs://"@ + namespace + "/"@ + name
}

/// Plans the write of `content` as document `name` in `namespace`.
pub fn plan_doc_write(iris: &IrisConnection, name: &str, content: &str, namespace: &str) -> (p:
    WritePlan)
    ensures
        is_write_plan(*iris, namespace@, name@, content@, p),
{
    let (body, stripped) = strip_storage_blocks(content);
    let bv = chars_of(body.as_str());
    let ls = lines_of(&bv);
    let mut out: Vec<String> = Vec::new();
    let mut i: usize = 0;
    while i < ls.len()
        invariant
            i <= ls.len() == lines(body@).len(),
            forall|k: int| 0 <= k < ls.len() ==> (#[trigger] ls[k])@ == lines(body@)[k],
            texts(out@) == lines(body@).take(i as int),
        decreases ls.len() - i,
    {
        push_text(&mut out, string_of(&ls[i]));
        i += 1;
        assert(texts(out@) =~= lines(body@).take(i as int));
    }
    assert(lines(body@).take(ls.len() as int) =~= lines(body@));
    let url = iris.doc_url(namespace, name, "?ignoreConflict=1");
    let mut uri = String::new();
    uri.append("isfs://");
    uri.append(namespace);
    uri.append("/");
    uri.append(name);
    WritePlan { lines: out, url, open_uri: uri, storage_stripped: stripped }
}

// ── Replies ──────────────────────────────────────────────────────────────────

/// How a single-document request ended, by HTTP status.
pub enum DocReply {
    /// 2xx.
    Success,
    /// 404: `Document not found: <name>`.
    NotFound { message: String },
    /// Any other status: `HTTP <status>`.
    Failed { message: String },
}

/// The reply for status `status` (whose display text is `status_text`, such as
/// `500 Internal Server Error`) to a request on document `name`.
pub open spec fn doc_reply(name: Seq<char>, status: u16, status_text: Seq<char>, r: DocReply) -> bool {
    if status == 404 {
        r matches DocReply::NotFound { message } && message@ == "Document not found: "@ + name
    } else if 200 <= status <= 299 {
        r is Success
    } else {
        r matches DocReply::Failed { message } && message@ == "HTTP "@ + status_text
    }
}

/// Classifies the reply to a get or delete of one document.
pub fn doc_reply_for_status(name: &str, status: u16, status_text: &str) -> (r: DocReply)
    ensures
        doc_reply(name@, status, status_text@, r),
{
    if status == 404 {
        let mut m = String::new();
        m.append("Document not found: ");
        m.append(name);
        DocReply::NotFound { message: m }
    } else if 200 <= status && status <= 299 {
        DocReply::Success
    } else {
        let mut m = String::new();
        m.append("HTTP ");
        m.append(status_text);
        DocReply::Failed { message: m }
    }
}

/// The texts of the entries that are strings, in order.
pub open spec fn present_strings(es: Seq<Option<String>>) -> Seq<Seq<char>>
    decreases es.len(),
{
    if es.len() == 0 {
        Seq::<Seq<char>>::empty()
    } else {
        present_strings(es.drop_last()) + match es.last() {
            Some(s) => seq![s@],
            None => Seq::<Seq<char>>::empty(),
        }
    }
}

/// The source text of a document reply: its string lines joined by `\n`
/// (non-string entries skipped), or empty when there is no line array.
pub open spec fn content_text(entries: Option<Seq<Option<String>>>) -> Seq<char> {
    match entries {
        Some(es) => join(present_strings(es), "\n"@),
        None => Seq::<char>::empty(),
    }
}

/// Joins the string entries of an Atelier `content` array by newlines.
pub fn doc_content_to_string(entries: &Option<Vec<Option<String>>>) -> (r: String)
    ensures
        r@ == content_text(match entries {
            Some(v) => Some(v@),
            None => None,
        }),
{
    match entries {
        None => String::new(),
        Some(v) => {
            let mut strs: Vec<String> = Vec::new();
            let mut i: usize = 0;
            while i < v.len()
                invariant
                    i <= v.len(),
                    texts(strs@) == present_strings(v@.take(i as int)),
                decreases v.len() - i,
            {
                assert(v@.take(i + 1).drop_last() =~= v@.take(i as int));
                match &v[i] {
                    Some(s) => {
                        push_text(&mut strs, s.clone());
                    },
                    None => {},
                }
                i += 1;
                assert(texts(strs@) =~= present_strings(v@.take(i as int)));
            }
            assert(v@.take(v.len() as int) =~= v@);
            let mut r = String::new();
            append_join(&mut r, &strs, "\n");
            assert(texts(strs@) == strs@.map_values(|p: String| p@));
            r
        },
    }
}

proof fn lemma_last_dot(name: Seq<char>, k: int)
    requires
        0 <= k < name.len(),
        name[k] == '.',
        forall|j: int| k < j < name.len() ==> name[j] != '.',
    ensures
        last_index(name, '.') == Some(k),
    decreases name.len(),
{
    if k < name.len() - 1 {
        lemma_last_dot(name.drop_last(), k);
    }
}

/// The injected header names the routine without its extension: for a
/// document whose last `.` stands at `k` and whose extension is `mac` or
/// `inc` (in any case), content without a header gains a first line that is
/// `ROUTINE ` and the name up to that `.` (with ` [Type=INC]` for `inc`).
pub proof fn lemma_routine_header_drops_extension(name: Seq<char>, raw: Seq<char>, k: int)
    requires
        0 <= k < name.len(),
        name[k] == '.',
        forall|j: int| k < j < name.len() ==> name[j] != '.',
        !starts_with(uppercase(trim_start(raw)), "ROUTINE "@),
    ensures
        lowercase(name.subrange(k + 1, name.len() as int)) == "mac"@ ==> with_routine_header(name, raw)
            == "ROUTINE "@ + name.subrange(0, k) + "\n"@ + raw,
        lowercase(name.subrange(k + 1, name.len() as int)) == "inc"@ ==> with_routine_header(name, raw)
            == "ROUTINE "@ + name.subrange(0, k) + " [Type=INC]\n"@ + raw,
{
    lemma_last_dot(name, k);
    reveal_strlit("mac");
    reveal_strlit("inc");
    assert(after_last(name, '.') == name.subrange(k + 1, name.len() as int));
    assert("mac"@[0] != "inc"@[0]);
    assert("mac"@ != "inc"@);
}

} // verus!
