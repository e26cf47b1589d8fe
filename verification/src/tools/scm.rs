//! iris_source_control — the ObjectScript snippets that query and drive the
//! source-control hooks, and the decisions taken on what they print.

use vstd::prelude::*;
use crate::text::to_owned_string;
use crate::tools::{docker_required_text, require_container};
use crate::tools::elicitation::{find_pending, ElicitationStore, PendingElicitation};
use crate::text::{
    chars_of, parse_unsigned, parse_unsigned_exec, push_dec, replace_char, replace_char_string,
    split_once_first, split_once_first_exec, starts_with, str_eq, str_starts_with, texts, trim,
    trim_bounds, trimmed, dec,
};

verus! {

/// Parameters of `iris_source_control`.
pub struct ScmParams {
    /// Action: status, menu, checkout, execute
    pub action: String,
    pub document: Option<String>,
    /// SCM action ID for action=execute
    pub action_id: Option<String>,
    /// Elicitation resume answer
    pub answer: Option<String>,
    pub elicitation_id: Option<String>,
    pub namespace: String,
}

/// The namespace used when none is given.
pub fn default_namespace() -> (r: String)
    ensures
        r@ == "USER"@,
{
    crate::text::to_owned_string("USER")
}

/// The menu item names probed for `action=menu`, in order.
pub open spec fn known_menu_items() -> Seq<Seq<char>> {
    seq![
        "CheckOut"@,
        "UndoCheckOut"@,
        "CheckIn"@,
        "GetLatest"@,
        "Status"@,
        "History"@,
        "AddToSourceControl"@,
    ]
}

/// Known menu item names to probe via OnMenuItem.
pub fn known_menu_item_names() -> (r: Vec<String>)
    ensures
        texts(r@) == known_menu_items(),
{
    let mut r: Vec<String> = Vec::new();
    crate::text::push_str_text(&mut r, "CheckOut");
    crate::text::push_str_text(&mut r, "UndoCheckOut");
    crate::text::push_str_text(&mut r, "CheckIn");
    crate::text::push_str_text(&mut r, "GetLatest");
    crate::text::push_str_text(&mut r, "Status");
    crate::text::push_str_text(&mut r, "History");
    crate::text::push_str_text(&mut r, "AddToSourceControl");
    r
}

/// `s` escaped for an ObjectScript double-quoted literal: each `"` is doubled,
/// which is how ObjectScript writes a quote inside a string.
pub open spec fn os_quoted(s: Seq<char>) -> Seq<char> {
    replace_char(s, '"', "\"\""@)
}

/// Escape a string for safe interpolation into an ObjectScript double-quoted literal.
pub fn os_quote(s: &str) -> (r: String)
    ensures
        r@ == os_quoted(s@),
{
    replace_char_string(s, '"', "\"\"")
}

/// The numeric code and message of a `code|msg` reply: the code is the text
/// before the first `|`, trimmed and read as a `u8` (0 when it is not one);
/// the message is the trimmed text after it (empty when there is no `|`).
pub open spec fn action_msg(out: Seq<char>) -> (u8, Seq<char>) {
    let parts = split_once_first(out, '|');
    let code: u8 = match parse_unsigned(trim(parts.0), 255) {
        Some(v) => v as u8,
        None => 0,
    };
    let msg = match parts.1 {
        Some(m) => trim(m),
        None => Seq::<char>::empty(),
    };
    (code, msg)
}

/// Parse "code|msg" output from SCM xecute helpers. Returns (action_code, msg).
pub fn parse_action_msg(out: &str) -> (r: (u8, String))
    ensures
        r.0 == action_msg(out@).0,
        r.1@ == action_msg(out@).1,
{
    let (first, rest) = split_once_first_exec(out, '|');
    let fv = chars_of(first.as_str());
    let (lo, hi) = trim_bounds(&fv);
    let code: u8 = match parse_unsigned_exec(&fv, lo, hi, 255) {
        Some(v) => v as u8,
        None => 0,
    };
    let msg = match rest {
        Some(m) => crate::text::trim_string(m.as_str()),
        None => String::new(),
    };
    (code, msg)
}

/// The ObjectScript snippet that calls `UserAction` for menu item `action_id`
/// on document `doc` and writes `action|msg`.
pub open spec fn user_action_snippet(action_id: Seq<char>, doc: Seq<char>) -> Seq<char> {
    "set action=0 set target=\"\" set msg=\"\" set reload=0 set sc=##class(%Studio.SourceControl.Base).UserAction(0,\"%SourceMenu,"@
        + os_quoted(action_id) + "\",\""@ + os_quoted(doc)
        + "\",\"\",.action,.target,.msg,.reload) write action_\"|\"_msg"@
}

/// Build the ObjectScript snippet that invokes `%Studio.SourceControl.Base:UserAction`
/// for a given menu item id and document, writing "action|msg" to the output stream.
pub fn user_action_code(action_id: &str, doc: &str) -> (r: String)
    ensures
        r@ == user_action_snippet(action_id@, doc@),
{
    let mut r = String::new();
    r.append(
        "set action=0 set target=\"\" set msg=\"\" set reload=0 set sc=##class(%Studio.SourceControl.Base).UserAction(0,\"%SourceMenu,",
    );
    let q = os_quote(action_id);
    r.append(q.as_str());
    r.append("\",\"");
    let q = os_quote(doc);
    r.append(q.as_str());
    r.append("\",\"\",.action,.target,.msg,.reload) write action_\"|\"_msg");
    r
}

/// The snippet that reports whether `doc` is under source control and editable.
pub open spec fn status_snippet(doc: Seq<char>) -> Seq<char> {
    "set obj=##class(%Studio.SourceControl.Base).%GetImplementationObject(\""@ + os_quoted(doc)
        + "\") if '$IsObject(obj) { write \"UNCONTROLLED\" } else { set editable=obj.IsEditable(\""@
        + os_quoted(doc) + "\") write editable_\"|\"_$get(obj.Owner) }"@
}

/// The ObjectScript snippet for `action=status`.
pub fn status_check_code(doc: &str) -> (r: String)
    ensures
        r@ == status_snippet(doc@),
{
    let q = os_quote(doc);
    let mut r = String::new();
    r.append("set obj=##class(%Studio.SourceControl.Base).%GetImplementationObject(\"");
    r.append(q.as_str());
    r.append("\") if '$IsObject(obj) { write \"UNCONTROLLED\" } else { set editable=obj.IsEditable(\"");
    r.append(q.as_str());
    r.append("\") write editable_\"|\"_$get(obj.Owner) }");
    r
}

/// The snippet that asks whether menu item `item` is enabled for `doc`.
pub open spec fn menu_item_snippet(item: Seq<char>, doc: Seq<char>) -> Seq<char> {
    "set enabled=0 set displayName=\""@ + item
        + "\" set sc=##class(%Studio.SourceControl.Base).OnMenuItem(\"%SourceMenu,"@ + item + "\",\""@
        + os_quoted(doc) + "\",\"\",.enabled,.displayName) write enabled_\"|\"_displayName"@
}

/// The ObjectScript snippet for one menu item of `action=menu`.
pub fn menu_item_code(item: &str, doc: &str) -> (r: String)
    ensures
        r@ == menu_item_snippet(item@, doc@),
{
    let q = os_quote(doc);
    let mut r = String::new();
    r.append("set enabled=0 set displayName=\"");
    r.append(item);
    r.append("\" set sc=##class(%Studio.SourceControl.Base).OnMenuItem(\"%SourceMenu,");
    r.append(item);
    r.append("\",\"");
    r.append(q.as_str());
    r.append("\",\"\",.enabled,.displayName) write enabled_\"|\"_displayName");
    r
}

/// The snippet that reports the user's answer to a pending source-control dialog.
pub open spec fn after_action_snippet(action_id: Seq<char>, doc: Seq<char>, answer: Seq<char>) -> Seq<
    char,
> {
    "set sc=##class(%Studio.SourceControl.Base).AfterUserAction(0,\""@ + os_quoted(action_id)
        + "\",\""@ + os_quoted(doc) + "\","@ + (if answer == "yes"@ {
        "1"@
    } else {
        "0"@
    }) + ",\""@ + os_quoted(answer) + "\") write $system.Status.GetErrorText(sc)"@
}

/// The ObjectScript snippet that resumes a dialog with the user's answer.
pub fn after_action_code(action_id: &str, doc: &str, answer: &str) -> (r: String)
    ensures
        r@ == after_action_snippet(action_id@, doc@, answer@),
{
    let mut r = String::new();
    r.append("set sc=##class(%Studio.SourceControl.Base).AfterUserAction(0,\"");
    let q = os_quote(action_id);
    r.append(q.as_str());
    r.append("\",\"");
    let q = os_quote(doc);
    r.append(q.as_str());
    r.append("\",");
    if str_eq(answer, "yes") {
        r.append("1");
    } else {
        r.append("0");
    }
    r.append(",\"");
    let q = os_quote(answer);
    r.append(q.as_str());
    r.append("\") write $system.Status.GetErrorText(sc)");
    r
}

/// The source-control state of a document.
pub struct ScmStatus {
    pub controlled: bool,
    pub editable: bool,
    pub locked: bool,
    pub owner: Option<String>,
}

/// The state the `status` snippet's output describes: uncontrolled (and so
/// editable and unlocked) when the trimmed output is `UNCONTROLLED` or the
/// output is empty; else controlled, editable exactly when the code is 1,
/// locked when not editable, and owned by the message when it is not empty.
pub open spec fn status_from(out: Seq<char>, st: ScmStatus) -> bool {
    if trim(out) == "UNCONTROLLED"@ || out.len() == 0 {
        &&& !st.controlled
        &&& st.editable
        &&& !st.locked
        &&& st.owner is None
    } else {
        let (code, owner) = action_msg(out);
        &&& st.controlled
        &&& st.editable == (code == 1)
        &&& st.locked == !st.editable
        &&& match st.owner {
            Some(o) => owner.len() > 0 && o@ == owner,
            None => owner.len() == 0,
        }
    }
}

/// Interprets the output of the `status` snippet (`UNCONTROLLED` when it could not run).
pub fn scm_status_from_output(out: &str) -> (st: ScmStatus)
    ensures
        status_from(out@, st),
{
    let t = crate::text::trim_string(out);
    let ov = chars_of(out);
    if str_eq(t.as_str(), "UNCONTROLLED") || ov.len() == 0 {
        return ScmStatus { controlled: false, editable: true, locked: false, owner: None };
    }
    let (code, owner) = parse_action_msg(out);
    let editable = code == 1;
    let ow = chars_of(owner.as_str());
    let owner = if ow.len() == 0 {
        None
    } else {
        Some(owner)
    };
    ScmStatus { controlled: true, editable, locked: !editable, owner }
}

/// An enabled source-control menu action.
pub struct MenuAction {
    pub id: String,
    pub label: String,
}

/// The menu action a menu item's output offers: present when its code is 1,
/// labelled by the message, or by the item name when the message is empty.
pub open spec fn menu_action_from(item: Seq<char>, out: Seq<char>, r: Option<MenuAction>) -> bool {
    let (code, label) = action_msg(out);
    if code == 1 {
        r matches Some(a) && a.id@ == item && a.label@ == (if label.len() == 0 {
            item
        } else {
            label
        })
    } else {
        r is None
    }
}

/// Interprets the output of one menu item snippet (empty when it could not run).
pub fn menu_action_from_output(item: &str, out: &str) -> (r: Option<MenuAction>)
    ensures
        menu_action_from(item@, out@, r),
{
    let (code, label) = parse_action_msg(out);
    if code == 1 {
        let lv = chars_of(label.as_str());
        let label = if lv.len() == 0 {
            crate::text::to_owned_string(item)
        } else {
            label
        };
        Some(MenuAction { id: crate::text::to_owned_string(item), label })
    } else {
        None
    }
}

/// What a source-control action came to.
pub enum ScmOutcome {
    /// The action went through.
    Done,
    /// The hook asks a yes/no question before it goes on.
    Confirm { message: String },
    /// The hook asks for a line of text before it goes on.
    TextPrompt { message: String },
    /// The hook answered with an action code this tool does not handle.
    Unexpected { code: u8 },
    /// The hook reported an error.
    Failed { error: String },
}

/// The outcome of `action=checkout` for the snippet's output (empty when the
/// call failed, which reads as code 0): done when the code is 0, else a yes/no question with the hook's message or
/// `Check out <doc> ?`.
pub open spec fn checkout_outcome(doc: Seq<char>, out: Seq<char>, r: ScmOutcome) -> bool {
    let (code, msg) = action_msg(out);
    if code == 0 {
        r is Done
    } else {
        r matches ScmOutcome::Confirm { message } && message@ == (if msg.len() == 0 {
            "Check out "@ + doc + " ?"@
        } else {
            msg
        })
    }
}

/// Interprets the output of the checkout snippet (empty when it could not run).
pub fn checkout_from_output(doc: &str, out: &str) -> (r: ScmOutcome)
    ensures
        checkout_outcome(doc@, out@, r),
{
    let (code, msg) = parse_action_msg(out);
    if code == 0 {
        return ScmOutcome::Done;
    }
    let mv = chars_of(msg.as_str());
    let message = if mv.len() == 0 {
        let mut m = String::new();
        m.append("Check out ");
        m.append(doc);
        m.append(" ?");
        m
    } else {
        msg
    };
    ScmOutcome::Confirm { message }
}

/// The outcome of `action=execute` for the snippet's output (empty when the
/// call failed, which reads as code 0): code 0 is done,
/// 1 a yes/no question, 7 a text prompt (each with the hook's message or a
/// default), any other code unexpected.
pub open spec fn execute_outcome(action_id: Seq<char>, doc: Seq<char>, out: Seq<char>, r: ScmOutcome) -> bool {
    let (code, msg) = action_msg(out);
    if code == 0 {
        r is Done
    } else if code == 1 {
        r matches ScmOutcome::Confirm { message } && message@ == (if msg.len() == 0 {
            "Execute "@ + action_id + " on "@ + doc + "?"@
        } else {
            msg
        })
    } else if code == 7 {
        r matches ScmOutcome::TextPrompt { message } && message@ == (if msg.len() == 0 {
            "Enter value for "@ + action_id + ":"@
        } else {
            msg
        })
    } else {
        r == ScmOutcome::Unexpected { code }
    }
}

/// Interprets the output of the execute snippet (empty when it could not run).
pub fn execute_from_output(action_id: &str, doc: &str, out: &str) -> (r: ScmOutcome)
    ensures
        execute_outcome(action_id@, doc@, out@, r),
{
    let (code, msg) = parse_action_msg(out);
    let mv = chars_of(msg.as_str());
    if code == 0 {
        ScmOutcome::Done
    } else if code == 1 {
        let message = if mv.len() == 0 {
            let mut m = String::new();
            m.append("Execute ");
            m.append(action_id);
            m.append(" on ");
            m.append(doc);
            m.append("?");
            m
        } else {
            msg
        };
        ScmOutcome::Confirm { message }
    } else if code == 7 {
        let message = if mv.len() == 0 {
            let mut m = String::new();
            m.append("Enter value for ");
            m.append(action_id);
            m.append(":");
            m
        } else {
            msg
        };
        ScmOutcome::TextPrompt { message }
    } else {
        ScmOutcome::Unexpected { code }
    }
}

/// The error text for an unexpected action code.
pub fn unexpected_code_message(code: u8) -> (r: String)
    ensures
        r@ == "Unexpected action code "@ + dec(code as nat) + " from UserAction"@,
{
    let mut r = String::new();
    r.append("Unexpected action code ");
    push_dec(&mut r, code as u64);
    r.append(" from UserAction");
    r
}

/// The outcome of resuming a dialog: done when the snippet printed nothing or
/// something that starts with `$`, else failed with what it printed.
pub open spec fn after_outcome(out: Seq<char>, r: ScmOutcome) -> bool {
    if out.len() == 0 || starts_with(out, "$"@) {
        r is Done
    } else {
        r matches ScmOutcome::Failed { error } && error@ == out
    }
}

/// Interprets the output of the resume snippet (empty when it could not run).
pub fn after_from_output(out: &str) -> (r: ScmOutcome)
    ensures
        after_outcome(out@, r),
{
    let ov = chars_of(out);
    if ov.len() == 0 || str_starts_with(out, "$") {
        ScmOutcome::Done
    } else {
        ScmOutcome::Failed { error: crate::text::to_owned_string(out) }
    }
}

/// The actions `iris_source_control` knows.
#[derive(Debug, Clone, Copy, PartialEq, Eq, Structural)]
pub enum ScmAction {
    Status,
    Menu,
    Checkout,
    Execute,
    Unknown,
}

/// The action named by `a`.
pub open spec fn scm_action_of(a: Seq<char>) -> ScmAction {
    if a == "status"@ {
        ScmAction::Status
    } else if a == "menu"@ {
        ScmAction::Menu
    } else if a == "checkout"@ {
        ScmAction::Checkout
    } else if a == "execute"@ {
        ScmAction::Execute
    } else {
        ScmAction::Unknown
    }
}

impl ScmAction {
    /// The actions that run a source-control hook's `UserAction`, which needs
    /// `docker exec`: `checkout` and `execute`.
    pub fn needs_container(&self) -> (b: bool)
        ensures
            b == (*self == ScmAction::Checkout || *self == ScmAction::Execute),
    {
        match self {
            ScmAction::Checkout => true,
            ScmAction::Execute => true,
            _ => false,
        }
    }
}

/// Which action `a` asks for.
pub fn parse_scm_action(a: &str) -> (r: ScmAction)
    ensures
        r == scm_action_of(a@),
{
    if str_eq(a, "status") {
        ScmAction::Status
    } else if str_eq(a, "menu") {
        ScmAction::Menu
    } else if str_eq(a, "checkout") {
        ScmAction::Checkout
    } else if str_eq(a, "execute") {
        ScmAction::Execute
    } else {
        ScmAction::Unknown
    }
}

/// The error text for an unknown action.
pub fn unknown_scm_action_message(a: &str) -> (r: String)
    ensures
        r@ == "Unknown action='"@ + a@ + "'. Use: status, menu, checkout, execute"@,
{
    let mut r = String::new();
    r.append("Unknown action='");
    r.append(a);
    r.append("'. Use: status, menu, checkout, execute");
    r
}

/// What `iris_source_control` does first.
pub enum ScmStep {
    /// The answer names no pending question: `ELICITATION_EXPIRED`.
    Expired,
    /// Resume the dialog of a pending question: run `code` in `namespace`.
    Resume { code: String, document: String, action_id: String, namespace: String },
    /// The action needs `docker exec` and no container is set: `DOCKER_REQUIRED`.
    DockerRequired { message: String },
    /// Read the document's source-control state with `code`.
    Status { code: String },
    /// Probe each known menu item.
    Menu,
    /// Run the hook's `UserAction` for `action_id` with `code`.
    UserAction { action_id: String, code: String },
    /// An action this tool does not know: `INVALID_PARAM`.
    Unknown { message: String },
}

/// `o`'s text, or the empty text.
pub open spec fn text_or_empty(o: Option<String>) -> Seq<char> {
    match o {
        Some(t) => t@,
        None => Seq::<char>::empty(),
    }
}

/// The first step of `iris_source_control` for these parameters, the pending
/// questions and the container: an answer with an id resumes the question
/// pending under that id (or is expired); otherwise `checkout` and `execute`
/// need a container; then each action has its snippet (`checkout` runs the
/// `CheckOut` item, `execute` the given action id or the empty one).
pub open spec fn scm_step_is(
    p: ScmParams,
    pending: Seq<PendingElicitation>,
    container: Option<Seq<char>>,
    r: ScmStep,
) -> bool {
    let doc = text_or_empty(p.document);
    if p.elicitation_id is Some && p.answer is Some {
        match find_pending(pending, p.elicitation_id.unwrap()@) {
            None => r is Expired,
            Some(q) => {
                let aid = text_or_empty(q.scm_action_id);
                r matches ScmStep::Resume { code, document, action_id, namespace }
                    && code@ == after_action_snippet(aid, q.document@, p.answer.unwrap()@)
                    && document@ == q.document@ && action_id@ == aid && namespace@ == q.namespace@
            },
        }
    } else {
        let a = scm_action_of(p.action@);
        let named = container matches Some(c) && c.len() > 0;
        if (a == ScmAction::Checkout || a == ScmAction::Execute) && !named {
            r matches ScmStep::DockerRequired { message } && message@ == docker_required_text("iris_source_control"@)
        } else {
            match a {
                ScmAction::Status => r matches ScmStep::Status { code } && code@ == status_snippet(doc),
                ScmAction::Menu => r is Menu,
                ScmAction::Checkout => r matches ScmStep::UserAction { action_id, code } && action_id@ == "CheckOut"@
                    && code@ == user_action_snippet("CheckOut"@, doc),
                ScmAction::Execute => r matches ScmStep::UserAction { action_id, code } && action_id@
                    == text_or_empty(p.action_id) && code@ == user_action_snippet(text_or_empty(p.action_id), doc),
                ScmAction::Unknown => r matches ScmStep::Unknown { message } && message@ == "Unknown action='"@
                    + p.action@ + "'. Use: status, menu, checkout, execute"@,
            }
        }
    }
}

fn text_of(o: &Option<String>) -> (r: &str)
    ensures
        r@ == text_or_empty(*o),
{
    match o {
        Some(t) => t.as_str(),
        None => {
            proof {
                reveal_strlit("");
            }
            ""
        },
    }
}

/// Decides the first step of `iris_source_control`.
pub fn scm_step(p: &ScmParams, store: &ElicitationStore, container: Option<&str>) -> (r: ScmStep)
    ensures
        scm_step_is(
            *p,
            store.entries(),
            match container {
                Some(c) => Some(c@),
                None => None,
            },
            r,
        ),
{
    let doc = text_of(&p.document);
    if p.elicitation_id.is_some() && p.answer.is_some() {
        let eid = match &p.elicitation_id {
            Some(e) => e.as_str(),
            None => "",
        };
        let answer = match &p.answer {
            Some(a) => a.as_str(),
            None => "",
        };
        return match store.lookup(eid) {
            None => ScmStep::Expired,
            Some(q) => {
                let aid = text_of(&q.scm_action_id);
                ScmStep::Resume {
                    code: after_action_code(aid, q.document.as_str(), answer),
                    document: to_owned_string(q.document.as_str()),
                    action_id: to_owned_string(aid),
                    namespace: to_owned_string(q.namespace.as_str()),
                }
            },
        };
    }
    let a = parse_scm_action(p.action.as_str());
    if a.needs_container() {
        match require_container("iris_source_control", container) {
            Some(message) => return ScmStep::DockerRequired { message },
            None => {},
        }
    }
    match a {
        ScmAction::Status => ScmStep::Status { code: status_check_code(doc) },
        ScmAction::Menu => ScmStep::Menu,
        ScmAction::Checkout => ScmStep::UserAction {
            action_id: to_owned_string("CheckOut"),
            code: user_action_code("CheckOut", doc),
        },
        ScmAction::Execute => {
            let aid = text_of(&p.action_id);
            ScmStep::UserAction { action_id: to_owned_string(aid), code: user_action_code(aid, doc) }
        },
        ScmAction::Unknown => ScmStep::Unknown { message: unknown_scm_action_message(p.action.as_str()) },
    }
}

/// A reported status is consistent: a controlled document is locked exactly
/// when it is not editable, and an uncontrolled one is editable and unlocked.
pub proof fn lemma_status_lock_matches_edit(out: Seq<char>, st: ScmStatus)
    requires
        status_from(out, st),
    ensures
        st.locked == !st.editable,
        !st.controlled ==> st.editable && !st.locked && st.owner is None,
{
}

} // verus!
