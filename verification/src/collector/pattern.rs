//! Regular expressions, as the `regex` crate compiles and runs them.
//!
//! Nothing in this file is proved: each function hands its arguments to the
//! `regex` crate, and its contract gives the crate's answer a name so that the
//! processors can say exactly what they do with it. A compiled expression is
//! kept in a `Pattern`, which only `compile` makes: every `Pattern` was
//! compiled by `regex::Regex::new` from the text it remembers, with the
//! crate's default options.

use vstd::prelude::*;

verus! {

/// A compiled regular expression of the `regex` crate.
#[verifier::external_type_specification]
#[verifier::external_body]
pub struct ExRegex(regex::Regex);

/// The error with which the `regex` crate refuses a pattern.
#[verifier::external_type_specification]
#[verifier::external_body]
pub struct ExRegexError(regex::Error);

/// A regular expression that `regex::Regex::new` compiled from a pattern
/// text. There is no other way to make one than `compile`.
pub struct Pattern {
    text: String,
    regex: regex::Regex,
}

impl Pattern {
    /// The pattern text that the expression was compiled from.
    pub closed spec fn source(self) -> Seq<char> {
        self.text@
    }
}

/// Whether `regex::Regex::new` accepts the pattern.
pub uninterp spec fn regex_valid(pattern: Seq<char>) -> bool;

/// Whether the expression that `regex::Regex::new` compiles from `pattern`
/// matches somewhere in `text`: what `Regex::is_match` returns.
pub uninterp spec fn regex_matches(pattern: Seq<char>, text: Seq<char>) -> bool;

/// `text` with every match of the expression that `regex::Regex::new`
/// compiles from `pattern` replaced by the expansion of `replacement`: what
/// `Regex::replace_all` returns.
pub uninterp spec fn regex_replaced(
    pattern: Seq<char>,
    text: Seq<char>,
    replacement: Seq<char>,
) -> Seq<char>;

/// The names of the capture groups of `pattern`, one item per group in the
/// order of their opening parentheses, `None` for a group without a name: what
/// `Regex::capture_names` yields.
pub uninterp spec fn regex_group_names(pattern: Seq<char>) -> Seq<Option<Seq<char>>>;

/// What the group called `name` matched in the first match of `pattern` in
/// `text`; `None` where there is no match, no such group, or the group took no
/// part in the match: what `Regex::captures` followed by `Captures::name`
/// gives.
pub uninterp spec fn regex_capture(pattern: Seq<char>, text: Seq<char>, name: Seq<char>) -> Option<
    Seq<char>,
>;

/// Calls `regex::Regex::new` and keeps the compiled expression together with
/// a copy of the pattern text. The contract names whether the crate accepts
/// the pattern, and records the text that the `Pattern` remembers.
#[verifier::external_body]
pub(crate) fn compile(pattern: &str) -> (r: Result<Pattern, regex::Error>)
    ensures
        r is Ok <==> regex_valid(pattern@),
        r matches Ok(p) ==> p.source() == pattern@,
{
    regex::Regex::new(pattern).map(|regex| Pattern { text: pattern.to_string(), regex })
}

/// Calls `Regex::is_match`: whether the expression matches anywhere in the
/// text. The contract names the answer by pattern and text; the expression is
/// the one that `Regex::new` compiled from the pattern.
#[verifier::external_body]
pub(crate) fn is_match(re: &Pattern, text: &str) -> (b: bool)
    ensures
        b == regex_matches(re.source(), text@),
{
    re.regex.is_match(text)
}

/// Calls `Regex::replace_all` with a string replacement, in which `$name` and
/// `$1` stand for capture groups. The contract names the result by pattern,
/// text and replacement.
#[verifier::external_body]
pub(crate) fn replace_matches(re: &Pattern, text: &str, replacement: &str) -> (s: String)
    ensures
        s@ == regex_replaced(re.source(), text@, replacement@),
{
    re.regex.replace_all(text, replacement).into_owned()
}

/// Calls `Regex::capture_names` and copies what it yields. The contract names
/// the list by the pattern.
#[verifier::external_body]
pub(crate) fn group_names(re: &Pattern) -> (names: Vec<Option<String>>)
    ensures
        names@.len() == regex_group_names(re.source()).len(),
        forall|i: int|
            0 <= i < names@.len() ==> crate::collector::entry::option_view(#[trigger] names@[i])
                == regex_group_names(re.source())[i],
{
    re.regex.capture_names().map(|n| n.map(|s| s.to_string())).collect()
}

/// Calls `Regex::captures` and, on its result, `Captures::name`, and copies
/// the matched text. The contract names the answer by pattern, text and group
/// name.
#[verifier::external_body]
pub(crate) fn capture(re: &Pattern, text: &str, name: &str) -> (r: Option<String>)
    ensures
        crate::collector::entry::option_view(r) == regex_capture(re.source(), text@, name@),
{
    re.regex.captures(text).and_then(|c| c.name(name)).map(|m| m.as_str().to_string())
}

} // verus!
