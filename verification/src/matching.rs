//! Regular-expression matching through the `regex` crate.

use vstd::prelude::*;

verus! {

#[verifier::external_type_specification]
#[verifier::external_body]
pub struct ExRegex(regex::Regex);

/// A compiled regular expression together with the pattern it was compiled from.
pub struct Pattern {
    re: regex::Regex,
    source: Ghost<Seq<char>>,
}

impl Pattern {
    /// The pattern text this was compiled from.
    pub closed spec fn text(self) -> Seq<char> {
        self.source@
    }
}

/// `regex::Regex::new(p)` succeeds: `p` is a valid pattern within the default limits.
pub uninterp spec fn regex_compiles(p: Seq<char>) -> bool;

/// `Regex::is_match`: pattern `p` matches somewhere in `t`.
pub uninterp spec fn regex_matches(p: Seq<char>, t: Seq<char>) -> bool;

/// `Regex::captures(t)` then `get(i)`: the text of capture group `i` in the
/// leftmost-first match of `p` in `t`, if there is a match and the group took part.
pub uninterp spec fn regex_group(p: Seq<char>, t: Seq<char>, i: nat) -> Option<Seq<char>>;

/// `regex::Regex::new(p)`: the compiled pattern, or `None` when `p` does not compile.
#[verifier::external_body]
pub fn compile_pattern(p: &str) -> (r: Option<Pattern>)
    ensures
        r is Some <==> regex_compiles(p@),
        r matches Some(x) ==> x.text() == p@,
{
    regex::Regex::new(p).ok().map(|re| Pattern { re, source: Ghost(p@) })
}

/// `Regex::is_match`: whether the pattern matches somewhere in `t`.
#[verifier::external_body]
pub fn pattern_is_match(p: &Pattern, t: &str) -> (b: bool)
    ensures
        b == regex_matches(p.text(), t@),
{
    p.re.is_match(t)
}

/// `Regex::captures(t)` and `Captures::get(i)`: the text of group `i` of the
/// first match, if any.
#[verifier::external_body]
pub fn pattern_group(p: &Pattern, t: &str, i: usize) -> (r: Option<String>)
    ensures
        crate::text::opt_view(r) == regex_group(p.text(), t@, i as nat),
{
    p.re.captures(t).and_then(|c| c.get(i)).map(|m| m.as_str().to_string())
}

/// The characters that `regex::escape` escapes.
pub open spec fn is_regex_meta(c: char) -> bool {
    c == '\\' || c == '.' || c == '+' || c == '*' || c == '?' || c == '(' || c == ')' || c == '|'
        || c == '[' || c == ']' || c == '{' || c == '}' || c == '^' || c == '$' || c == '#'
        || c == '&' || c == '-' || c == '~'
}

/// `regex::escape(s)`: every meta character preceded by a backslash.
pub open spec fn regex_escaped(s: Seq<char>) -> Seq<char>
    decreases s.len(),
{
    if s.len() == 0 {
        s
    } else {
        regex_escaped(s.drop_last()) + (if is_regex_meta(s.last()) {
            seq!['\\', s.last()]
        } else {
            seq![s.last()]
        })
    }
}

/// `regex::escape`: `s` with a backslash before each meta character
/// (`\ . + * ? ( ) | [ ] { } ^ $ # & - ~`).
#[verifier::external_body]
pub fn regex_escape(s: &str) -> (r: String)
    ensures
        r@ == regex_escaped(s@),
{
    regex::escape(s)
}

} // verus!
