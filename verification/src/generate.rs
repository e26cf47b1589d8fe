//! LLM-assisted class generation: the client settings, the prompts, and the
//! checks made on what the model returns.

use vstd::prelude::*;
use crate::text::{
    chars_of, contains, count_char, first_ws, lines, lines_of, opt_view, parse_unsigned,
    parse_unsigned_exec, starts_with, str_contains, to_owned_string, trim, trim_start, trimmed,
};

verus! {

/// The system prompt for generating a class.
pub const GENERATE_CLASS_SYSTEM: &'static str = "You are an InterSystems ObjectScript expert. Generate a complete, compilable ObjectScript class in UDL format.\n\nRules:\n- Start with: Class <ClassName> Extends <Superclass>\n- Use { } for method bodies, NOT begin/end\n- All methods must have a closing }\n- The class block must end with a single }\n- Return ONLY the class definition \u{2014} no explanations, no markdown fences";

/// The system prompt for generating a unit test class.
pub const GENERATE_TEST_SYSTEM: &'static str = "You are an InterSystems ObjectScript testing expert. Generate a complete %UnitTest.TestCase subclass in UDL format.\n\nRules:\n- Extend %UnitTest.TestCase\n- Test methods MUST start with \"Test\" prefix\n- Use $$$AssertEquals, $$$AssertTrue, $$$AssertNotNull macros\n- Return ONLY the test class definition \u{2014} no explanations, no markdown fences";

/// The prompt that asks the model to repair a class; `{errors}` stands for the errors.
pub const RETRY_TEMPLATE: &'static str = "The generated class failed to compile with these errors:\n\n{errors}\n\nPlease fix the ObjectScript class. Return ONLY the corrected class definition.";

/// The model, the key and the timeout of the LLM client.
pub struct LlmClient {
    model: String,
    api_key: String,
    timeout_secs: u64,
}

/// The environment variables that configure the LLM client (`None` when unset).
pub struct LlmEnv {
    /// `IRIS_GENERATE_CLASS_MODEL`
    pub model: Option<String>,
    /// `OPENAI_API_KEY`
    pub openai_api_key: Option<String>,
    /// `ANTHROPIC_API_KEY`
    pub anthropic_api_key: Option<String>,
    /// `IRIS_GENERATE_TIMEOUT`, in seconds
    pub timeout: Option<String>,
}

impl LlmClient {
    pub closed spec fn model_spec(self) -> Seq<char> {
        self.model@
    }

    pub closed spec fn api_key_spec(self) -> Seq<char> {
        self.api_key@
    }

    pub closed spec fn timeout_spec(self) -> u64 {
        self.timeout_secs
    }

    /// A client from the environment: none without a model or without a key
    /// (the OpenAI key first, else the Anthropic one); the timeout is the
    /// number `IRIS_GENERATE_TIMEOUT` gives, else 60 seconds.
    pub fn from_env(env: &LlmEnv) -> (r: Option<LlmClient>)
        ensures
            r is Some <==> (env.model is Some && (env.openai_api_key is Some || env.anthropic_api_key is Some)),
            r matches Some(c) ==> {
                &&& c.model_spec() == env.model.unwrap()@
                &&& c.api_key_spec() == match env.openai_api_key {
                    Some(k) => k@,
                    None => env.anthropic_api_key.unwrap()@,
                }
                &&& c.timeout_spec() == match opt_view(env.timeout) {
                    Some(t) => match parse_unsigned(t, 0xffff_ffff_ffff_ffff) {
                        Some(v) => v as u64,
                        None => 60u64,
                    },
                    None => 60u64,
                }
            },
    {
        let model = match &env.model {
            Some(m) => to_owned_string(m.as_str()),
            None => return None,
        };
        let api_key = match &env.openai_api_key {
            Some(k) => to_owned_string(k.as_str()),
            None => match &env.anthropic_api_key {
                Some(k) => to_owned_string(k.as_str()),
                None => return None,
            },
        };
        let timeout_secs: u64 = match &env.timeout {
            Some(t) => {
                let tv = chars_of(t.as_str());
                assert(tv@.subrange(0, tv.len() as int) =~= tv@);
                match parse_unsigned_exec(&tv, 0, tv.len(), 0xffff_ffff_ffff_ffff) {
                    Some(v) => v,
                    None => 60,
                }
            },
            None => 60,
        };
        Some(LlmClient { model, api_key, timeout_secs })
    }

    pub fn model(&self) -> (r: &str)
        ensures
            r@ == self.model_spec(),
    {
        self.model.as_str()
    }

    pub fn timeout_secs(&self) -> (r: u64)
        ensures
            r == self.timeout_spec(),
    {
        self.timeout_secs
    }

    /// The value of the `Authorization` header: `Bearer` and the key.
    pub fn authorization(&self) -> (r: String)
        ensures
            r@ == "Bearer "@ + self.api_key_spec(),
    {
        let mut r = String::new();
        r.append("Bearer ");
        r.append(self.api_key.as_str());
        r
    }
}

/// Text that looks like a class: it contains `Class ` and `{`, and as many `{` as `}`.
pub open spec fn looks_like_class(text: Seq<char>) -> bool {
    contains(text, "Class "@) && contains(text, "{"@) && count_char(text, '{') == count_char(text, '}')
}

fn count_char_exec(v: &Vec<char>, c: char) -> (n: usize)
    ensures
        n == count_char(v@, c),
{
    let mut n: usize = 0;
    let mut i: usize = 0;
    while i < v.len()
        invariant
            i <= v.len(),
            n == count_char(v@.take(i as int), c),
            n <= i,
        decreases v.len() - i,
    {
        assert(v@.take(i + 1).drop_last() =~= v@.take(i as int));
        if v[i] == c {
            n += 1;
        }
        i += 1;
    }
    assert(v@.take(v.len() as int) =~= v@);
    n
}

/// Checks that generated text looks like a class.
pub fn validate_cls_syntax(text: &str) -> (b: bool)
    ensures
        b == looks_like_class(text@),
{
    if !str_contains(text, "Class ") || !str_contains(text, "{") {
        return false;
    }
    let v = chars_of(text);
    count_char_exec(&v, '{') == count_char_exec(&v, '}')
}

/// The second whitespace-separated word of a line (`split_whitespace().nth(1)`).
pub open spec fn second_word(l: Seq<char>) -> Option<Seq<char>> {
    let t = trim_start(l);
    let u = trim_start(t.skip(first_ws(t)));
    if t.len() == 0 || u.len() == 0 {
        None
    } else {
        Some(u.take(first_ws(u)))
    }
}

/// The first line that, without its leading whitespace, starts with `Class `.
pub open spec fn first_class_line(ls: Seq<Seq<char>>) -> Option<Seq<char>>
    decreases ls.len(),
{
    if ls.len() == 0 {
        None
    } else if starts_with(trim_start(ls[0]), "Class "@) {
        Some(ls[0])
    } else {
        first_class_line(ls.drop_first())
    }
}

/// The class a text declares: the word after `Class` on its first `Class ` line.
pub open spec fn declared_class(text: Seq<char>) -> Option<Seq<char>> {
    match first_class_line(lines(text)) {
        Some(l) => second_word(l),
        None => None,
    }
}

fn skip_ws(v: &Vec<char>, from: usize) -> (k: usize)
    requires
        from <= v.len(),
    ensures
        from <= k <= v.len(),
        v@.skip(k as int) == trim_start(v@.skip(from as int)),
{
    let mut k = from;
    while k < v.len() && crate::text::char_is_ws(v[k])
        invariant
            from <= k <= v.len(),
            trim_start(v@.skip(from as int)) == trim_start(v@.skip(k as int)),
        decreases v.len() - k,
    {
        assert(v@.skip(k as int).drop_first() =~= v@.skip(k + 1));
        k += 1;
    }
    proof {
        let t = v@.skip(k as int);
        if k < v.len() {
            assert(t[0] == v@[k as int]);
        }
    }
    k
}

fn skip_word(v: &Vec<char>, from: usize) -> (k: usize)
    requires
        from <= v.len(),
    ensures
        from <= k <= v.len(),
        k - from == first_ws(v@.skip(from as int)),
{
    let mut k = from;
    while k < v.len() && !crate::text::char_is_ws(v[k])
        invariant
            from <= k <= v.len(),
            first_ws(v@.skip(from as int)) == (k - from) + first_ws(v@.skip(k as int)),
        decreases v.len() - k,
    {
        assert(v@.skip(k as int).drop_first() =~= v@.skip(k + 1));
        assert(v@.skip(k as int)[0] == v@[k as int]);
        k += 1;
    }
    proof {
        let t = v@.skip(k as int);
        if k < v.len() {
            assert(t[0] == v@[k as int]);
        }
    }
    k
}

fn second_word_exec(v: &Vec<char>) -> (r: Option<String>)
    ensures
        opt_view(r) == second_word(v@),
{
    assert(v@.skip(0) =~= v@);
    let a = skip_ws(v, 0);
    if a == v.len() {
        return None;
    }
    let b = skip_word(v, a);
    assert(v@.skip(a as int).skip(b - a) =~= v@.skip(b as int));
    let c = skip_ws(v, b);
    if c == v.len() {
        return None;
    }
    let d = skip_word(v, c);
    assert(v@.skip(c as int).take(d - c) =~= v@.subrange(c as int, d as int));
    Some(crate::text::string_of_range(v, c, d))
}

fn starts_class(v: &Vec<char>) -> (b: bool)
    ensures
        b == starts_with(trim_start(v@), "Class "@),
{
    proof {
        reveal_strlit("Class ");
    }
    assert(v@.skip(0) =~= v@);
    let a = skip_ws(v, 0);
    let p = chars_of("Class ");
    let b = crate::text::matches_at_exec(v, a, &p);
    proof {
        let t = v@.skip(a as int);
        if b {
            assert(t.subrange(0, 6) =~= v@.subrange(a as int, a + 6));
        }
        if starts_with(t, "Class "@) {
            assert(t.subrange(0, 6) =~= v@.subrange(a as int, a + 6));
        }
    }
    b
}

/// The class a generated text declares.
pub fn extract_class_name(text: &str) -> (r: Option<String>)
    ensures
        opt_view(r) == declared_class(text@),
{
    let v = chars_of(text);
    let ls = lines_of(&v);
    let ghost lsv = lines(text@);
    let mut i: usize = 0;
    assert(lsv.skip(0) =~= lsv);
    while i < ls.len()
        invariant
            i <= ls.len(),
            ls.len() == lsv.len(),
            lsv == lines(text@),
            forall|k: int| 0 <= k < ls.len() ==> (#[trigger] ls[k])@ == lsv[k],
            first_class_line(lsv) == first_class_line(lsv.skip(i as int)),
        decreases ls.len() - i,
    {
        assert(lsv.skip(i as int)[0] == ls[i as int]@);
        if starts_class(&ls[i]) {
            assert(first_class_line(lsv.skip(i as int)) == Some(ls[i as int]@));
            return second_word_exec(&ls[i]);
        }
        assert(lsv.skip(i as int).drop_first() =~= lsv.skip(i + 1));
        i += 1;
    }
    None
}

/// The prompt that asks the model to repair a class that did not compile:
/// the retry template with `compilation failed` as the errors, then the original text.
pub open spec fn retry_prompt_text(class_text: Seq<char>) -> Seq<char> {
    "The generated class failed to compile with these errors:\n\ncompilation failed\n\nPlease fix the ObjectScript class. Return ONLY the corrected class definition.\n\nOriginal: "@
        + class_text
}

/// The repair prompt for a class that did not compile.
pub fn retry_prompt(class_text: &str) -> (r: String)
    ensures
        r@ == retry_prompt_text(class_text@),
{
    let mut r = String::new();
    r.append("The generated class failed to compile with these errors:\n\ncompilation failed\n\nPlease fix the ObjectScript class. Return ONLY the corrected class definition.\n\nOriginal: ");
    r.append(class_text);
    r
}

/// The snippet that compiles a generated class and writes 1 when it compiled.
pub open spec fn compile_check_snippet(class_name: Seq<char>) -> Seq<char> {
    "Set sc=$SYSTEM.OBJ.Compile(\""@ + class_name + "\",\"ck-d\") Write $System.Status.IsOK(sc)"@
}

/// The compile check of a generated class.
pub fn compile_check_code(class_name: &str) -> (r: String)
    ensures
        r@ == compile_check_snippet(class_name@),
{
    let mut r = String::new();
    r.append("Set sc=$SYSTEM.OBJ.Compile(\"");
    r.append(class_name);
    r.append("\",\"ck-d\") Write $System.Status.IsOK(sc)");
    r
}

/// The compile check passed: its output, trimmed, is `1` (a missing output counts as `0`).
pub fn compile_check_passed(output: Option<&str>) -> (b: bool)
    ensures
        b == match output {
            Some(o) => trim(o@) == "1"@,
            None => false,
        },
{
    proof {
        reveal_strlit("1");
    }
    match output {
        Some(o) => {
            let v = chars_of(o);
            let t = trimmed(&v);
            let b = t.len() == 1 && t[0] == '1';
            proof {
                if b {
                    assert(t@ =~= "1"@);
                }
            }
            b
        },
        None => false,
    }
}

/// The name given to a generated class that declares none.
pub fn generated_class_name(text: &str) -> (r: String)
    ensures
        r@ == match declared_class(text@) {
            Some(n) => n,
            None => "Generated.Class"@,
        },
{
    match extract_class_name(text) {
        Some(n) => n,
        None => to_owned_string("Generated.Class"),
    }
}

/// The name given to a generated test class that declares none: `Test.` and the class.
pub fn generated_test_class_name(text: &str, class_name: &str) -> (r: String)
    ensures
        r@ == match declared_class(text@) {
            Some(n) => n,
            None => "Test."@ + class_name@,
        },
{
    match extract_class_name(text) {
        Some(n) => n,
        None => {
            let mut r = String::new();
            r.append("Test.");
            r.append(class_name);
            r
        },
    }
}

/// The prompt for generating tests of a class, given what introspection found.
pub fn test_generation_prompt(context: &str) -> (r: String)
    ensures
        r@ == "Generate tests for the following ObjectScript class:\n\n"@ + context@,
{
    let mut r = String::new();
    r.append("Generate tests for the following ObjectScript class:\n\n");
    r.append(context);
    r
}

} // verus!
