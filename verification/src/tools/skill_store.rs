//! The ObjectScript snippets of the skill tools, which keep skills in the
//! `^SKILLS` global, and the reading of their replies.

use vstd::prelude::*;
use crate::text::{
    chars_of, lowercase, parse_unsigned, parse_unsigned_exec, replace_char, replace_char_string,
    to_lowercase, trim, trim_bounds,
};

verus! {

/// The snippet of `skill_list`: every skill of `^SKILLS` as a JSON array.
pub fn skill_list_code() -> (r: &'static str)
    ensures
        r@ == "Set key=\"\" Set result=\"[\" For { Set key=$Order(^SKILLS(key)) Quit:key=\"\" Set skill=$Get(^SKILLS(key)) Set result=result_skill_\",\" } Set result=$Extract(result,1,$Length(result)-1)_\"]\" Write result"@,
{
    "Set key=\"\" Set result=\"[\" For { Set key=$Order(^SKILLS(key)) Quit:key=\"\" Set skill=$Get(^SKILLS(key)) Set result=result_skill_\",\" } Set result=$Extract(result,1,$Length(result)-1)_\"]\" Write result"
}

/// A skill name inside an ObjectScript string: `"` written as `\"`.
pub open spec fn skill_key(name: Seq<char>) -> Seq<char> {
    replace_char(name, '"', "\\\""@)
}

/// The snippet of `skill_describe`: the stored skill named `name`.
pub fn skill_describe_code(name: &str) -> (r: String)
    ensures
        r@ == "Write $Get(^SKILLS(\""@ + skill_key(name@) + "\"))"@,
{
    let k = replace_char_string(name, '"', "\\\"");
    let mut r = String::new();
    r.append("Write $Get(^SKILLS(\"");
    r.append(k.as_str());
    r.append("\"))");
    r
}

/// The snippet of `skill_forget`: removes the skill and writes `OK`.
pub fn skill_forget_code(name: &str) -> (r: String)
    ensures
        r@ == "Kill ^SKILLS(\""@ + skill_key(name@) + "\") Write \"OK\""@,
{
    let k = replace_char_string(name, '"', "\\\"");
    let mut r = String::new();
    r.append("Kill ^SKILLS(\"");
    r.append(k.as_str());
    r.append("\") Write \"OK\"");
    r
}

/// The search term of `skill_search`: the query lower-cased, without `"`.
pub open spec fn search_term(query: Seq<char>) -> Seq<char> {
    replace_char(lowercase(query), '"', Seq::empty())
}

/// The snippet of `skill_search`: the skills whose text or name, lower-cased,
/// contains the search term, as a JSON array.
pub open spec fn skill_search_snippet(query: Seq<char>) -> Seq<char> {
    "Set key=\"\",results=\"[\",sep=\"\" For { Set key=$Order(^SKILLS(key)) Quit:key=\"\" Set skill=$Get(^SKILLS(key)) If ($ZConvert(skill,\"L\")[\""@
        + search_term(query) + "\")||($ZConvert(key,\"L\")[\""@ + search_term(query)
        + "\") { Set results=results_sep_skill Set sep=\",\" } } Set results=results_\"]\" Write results"@
}

/// The snippet of `skill_search`.
pub fn skill_search_code(query: &str) -> (r: String)
    ensures
        r@ == skill_search_snippet(query@),
{
    let low = to_lowercase(query);
    let q = replace_char_string(low.as_str(), '"', "");
    proof {
        reveal_strlit("");
        assert(""@ =~= Seq::<char>::empty());
    }
    let mut r = String::new();
    r.append("Set key=\"\",results=\"[\",sep=\"\" For { Set key=$Order(^SKILLS(key)) Quit:key=\"\" Set skill=$Get(^SKILLS(key)) If ($ZConvert(skill,\"L\")[\"");
    r.append(q.as_str());
    r.append("\")||($ZConvert(key,\"L\")[\"");
    r.append(q.as_str());
    r.append("\") { Set results=results_sep_skill Set sep=\",\" } } Set results=results_\"]\" Write results");
    r
}

/// The snippet of `agent_stats`: the number of stored skills.
pub fn skill_count_code() -> (r: &'static str)
    ensures
        r@ == "Set count=0,key=\"\" For { Set key=$Order(^SKILLS(key)) Quit:key=\"\" Set count=count+1 } Write count"@,
{
    "Set count=0,key=\"\" For { Set key=$Order(^SKILLS(key)) Quit:key=\"\" Set count=count+1 } Write count"
}

/// The skill count in the reply of the count snippet: its trimmed text as a number.
pub fn parse_skill_count(output: Option<&str>) -> (r: Option<u64>)
    ensures
        r == match output {
            Some(o) => match parse_unsigned(trim(o@), 0xffff_ffff_ffff_ffff) {
                Some(v) => Some(v as u64),
                None => None,
            },
            None => None,
        },
{
    match output {
        Some(o) => {
            let v = chars_of(o);
            let (lo, hi) = trim_bounds(&v);
            parse_unsigned_exec(&v, lo, hi, 0xffff_ffff_ffff_ffff)
        },
        None => None,
    }
}

} // verus!
