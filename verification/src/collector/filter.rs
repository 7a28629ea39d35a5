//! The filter processor: drops entries by their message.

use crate::collector::config::{side_view, FilterConfig, MatchConfig, MatchConfigView, MatchType};
use crate::collector::entry::LogEntry;
use crate::collector::pattern::{compile, is_match, regex_matches, regex_valid, Pattern};
use crate::text::{contains, is_substring};
use vstd::prelude::*;

verus! {

/// Why a processor could not be made or could not handle an entry.
#[derive(Debug)]
pub enum ProcessorError {
    /// A configured regular expression does not compile.
    InvalidPattern {
        /// The pattern as it was configured.
        pattern: String,
    },
}

impl ProcessorError {
    /// What went wrong, in words.
    pub open spec fn text(self) -> Seq<char> {
        match self {
            ProcessorError::InvalidPattern { pattern } => "Invalid regular expression: "@
                + pattern@,
        }
    }

    /// What went wrong, in words.
    pub fn message(&self) -> (s: String)
        ensures
            s@ == self.text(),
    {
        match self {
            ProcessorError::InvalidPattern { pattern } => crate::text::joined(
                "Invalid regular expression: ",
                pattern.as_str(),
            ),
        }
    }
}

/// One rule of a filter, as a mathematical value.
pub enum Rule {
    /// Matches a message that holds the text as a substring.
    Substring(Seq<char>),
    /// Matches a message in which the regular expression matches somewhere.
    Pattern(Seq<char>),
}

impl Rule {
    /// Whether the rule matches the message.
    pub open spec fn accepts(self, message: Seq<char>) -> bool {
        match self {
            Rule::Substring(p) => is_substring(p, message),
            Rule::Pattern(p) => regex_matches(p, message),
        }
    }

    /// Whether the rule can be built: a regular expression has to compile.
    pub open spec fn buildable(self) -> bool {
        match self {
            Rule::Substring(_) => true,
            Rule::Pattern(p) => regex_valid(p),
        }
    }

    /// The text or pattern of the rule.
    pub open spec fn pattern(self) -> Seq<char> {
        match self {
            Rule::Substring(p) => p,
            Rule::Pattern(p) => p,
        }
    }
}

/// Some rule of the list matches the message.
pub open spec fn any_accepts(rules: Seq<Rule>, message: Seq<char>) -> bool {
    exists|i: int| 0 <= i < rules.len() && (#[trigger] rules[i]).accepts(message)
}

/// Whether a filter with these rules keeps a message: no exclude rule matches
/// it and, where there are include rules, one of them does.
pub open spec fn filter_keeps(included: Seq<Rule>, excluded: Seq<Rule>, message: Seq<char>) -> bool {
    &&& !any_accepts(excluded, message)
    &&& (included.len() == 0 || any_accepts(included, message))
}

/// The rules that one side of a filter configuration asks for: the exact
/// texts when the match type is exact, the regular expressions when it is
/// regexp, and nothing where the side or its list is absent.
pub open spec fn configured_rules(side: Option<MatchConfigView>) -> Seq<Rule> {
    match side {
        None => Seq::empty(),
        Some(cfg) => match cfg.match_type {
            MatchType::Exact => match cfg.exact {
                None => Seq::empty(),
                Some(list) => Seq::new(list.len(), |i: int| Rule::Substring(list[i])),
            },
            MatchType::Regexp => match cfg.regexp {
                None => Seq::empty(),
                Some(list) => Seq::new(list.len(), |i: int| Rule::Pattern(list[i])),
            },
        },
    }
}

/// Every rule of the list can be built.
pub open spec fn all_buildable(rules: Seq<Rule>) -> bool {
    forall|i: int| 0 <= i < rules.len() ==> (#[trigger] rules[i]).buildable()
}

/// The index of the first rule that cannot be built, or the list's length.
pub open spec fn first_unbuildable(rules: Seq<Rule>) -> int
    decreases rules.len(),
{
    if rules.len() == 0 {
        0
    } else if !rules[0].buildable() {
        0
    } else {
        1 + first_unbuildable(rules.skip(1))
    }
}

/// `first_unbuildable` is the least index of a rule that cannot be built.
pub proof fn lemma_first_unbuildable(rules: Seq<Rule>)
    ensures
        0 <= first_unbuildable(rules) <= rules.len(),
        forall|i: int| 0 <= i < first_unbuildable(rules) ==> (#[trigger] rules[i]).buildable(),
        first_unbuildable(rules) < rules.len() ==> !rules[first_unbuildable(rules)].buildable(),
        first_unbuildable(rules) == rules.len() <==> all_buildable(rules),
    decreases rules.len(),
{
    if rules.len() > 0 && rules[0].buildable() {
        let rest = rules.skip(1);
        lemma_first_unbuildable(rest);
        assert forall|i: int| 0 <= i < first_unbuildable(rules) implies (#[trigger] rules[i]).buildable() by {
            if i > 0 {
                assert(rules[i] == rest[i - 1]);
            }
        }
        if first_unbuildable(rest) < rest.len() {
            assert(rules[first_unbuildable(rules)] == rest[first_unbuildable(rest)]);
        }
        if all_buildable(rules) {
            assert forall|i: int| 0 <= i < rest.len() implies (#[trigger] rest[i]).buildable() by {
                assert(rest[i] == rules[i + 1]);
            }
        }
    }
}

/// One compiled rule of a filter.
pub enum Matcher {
    /// Matches by substring containment.
    Exact(String),
    /// Matches by a search with a regular expression.
    Regexp(Pattern),
}

impl View for Matcher {
    type V = Rule;

    open spec fn view(&self) -> Rule {
        match self {
            Matcher::Exact(p) => Rule::Substring(p@),
            Matcher::Regexp(re) => Rule::Pattern(re.source()),
        }
    }
}

impl Matcher {
    /// Whether the rule matches the text.
    pub fn matches(&self, text: &str) -> (b: bool)
        ensures
            b == self@.accepts(text@),
    {
        match self {
            Matcher::Exact(pattern) => contains(text, pattern.as_str()),
            Matcher::Regexp(regex) => is_match(regex, text),
        }
    }
}

/// The rules that a list of matchers stands for.
pub open spec fn rules_of(matchers: Seq<Matcher>) -> Seq<Rule> {
    Seq::new(matchers.len(), |i: int| matchers[i]@)
}

/// Whether some matcher of the list matches the text.
pub fn any_matches(matchers: &Vec<Matcher>, text: &str) -> (b: bool)
    ensures
        b == any_accepts(rules_of(matchers@), text@),
{
    let mut i: usize = 0;
    while i < matchers.len()
        invariant
            i <= matchers.len(),
            forall|j: int| 0 <= j < i ==> !(#[trigger] rules_of(matchers@)[j]).accepts(text@),
        decreases matchers.len() - i,
    {
        if matchers[i].matches(text) {
            assert(rules_of(matchers@)[i as int].accepts(text@));
            return true;
        }
        i += 1;
    }
    false
}

/// Builds the matchers of one side of a filter configuration, in order.
/// Fails on the first regular expression that does not compile.
pub fn build_matchers(side: &Option<MatchConfig>) -> (r: Result<Vec<Matcher>, ProcessorError>)
    ensures
        match r {
            Ok(matchers) => all_buildable(configured_rules(side_view(*side))) && rules_of(matchers@)
                == configured_rules(side_view(*side)),
            Err(ProcessorError::InvalidPattern { pattern }) => {
                let at = first_unbuildable(configured_rules(side_view(*side)));
                &&& at < configured_rules(side_view(*side)).len()
                &&& pattern@ == configured_rules(side_view(*side))[at].pattern()
            },
        },
{
    let mut matchers: Vec<Matcher> = Vec::new();
    let ghost rules = configured_rules(side_view(*side));
    proof {
        lemma_first_unbuildable(rules);
    }
    if let Some(cfg) = side {
        match cfg.match_type {
            MatchType::Exact => {
                if let Some(patterns) = &cfg.exact {
                    let mut i: usize = 0;
                    while i < patterns.len()
                        invariant
                            i <= patterns.len(),
                            rules.len() == patterns.len(),
                            forall|j: int|
                                0 <= j < patterns.len() ==> #[trigger] rules[j] == Rule::Substring(
                                    patterns@[j]@,
                                ),
                            matchers@.len() == i,
                            forall|j: int| 0 <= j < i ==> (#[trigger] matchers@[j])@ == rules[j],
                        decreases patterns.len() - i,
                    {
                        matchers.push(Matcher::Exact(patterns[i].clone()));
                        i += 1;
                    }
                }
            },
            MatchType::Regexp => {
                if let Some(patterns) = &cfg.regexp {
                    let mut i: usize = 0;
                    while i < patterns.len()
                        invariant
                            i <= patterns.len(),
                            rules == configured_rules(side_view(*side)),
                            rules.len() == patterns.len(),
                            forall|j: int|
                                0 <= j < patterns.len() ==> #[trigger] rules[j] == Rule::Pattern(
                                    patterns@[j]@,
                                ),
                            matchers@.len() == i,
                            forall|j: int| 0 <= j < i ==> (#[trigger] matchers@[j])@ == rules[j],
                            forall|j: int| 0 <= j < i ==> (#[trigger] rules[j]).buildable(),
                            0 <= first_unbuildable(rules) <= rules.len(),
                            forall|j: int|
                                0 <= j < first_unbuildable(rules) ==> (#[trigger] rules[j]).buildable(),
                            first_unbuildable(rules) < rules.len() ==> !rules[first_unbuildable(
                                rules,
                            )].buildable(),
                        decreases patterns.len() - i,
                    {
                        match compile(patterns[i].as_str()) {
                            Ok(regex) => {
                                matchers.push(Matcher::Regexp(regex));
                            },
                            Err(_) => {
                                assert(!rules[i as int].buildable());
                                assert(first_unbuildable(rules) == i);
                                return Err(
                                    ProcessorError::InvalidPattern { pattern: patterns[i].clone() },
                                );
                            },
                        }
                        i += 1;
                    }
                }
            },
        }
    }
    assert(rules_of(matchers@) =~= rules);
    Ok(matchers)
}

/// The verdict of a filter on a message, given what its rules said: whether
/// an exclude rule matched, how many include rules there are, and whether one
/// of them matched. The message is kept if no exclude rule matched and, where
/// there are include rules, one of them did.
pub fn filter_verdict(excluded: bool, include_rules: usize, included: bool) -> (keep: bool)
    ensures
        keep == (!excluded && (include_rules == 0 || included)),
{
    if excluded {
        false
    } else if include_rules == 0 {
        true
    } else {
        included
    }
}

/// Keeps or drops entries by their message. Exclude rules are tried first: an
/// entry whose message matches one of them is dropped. Where include rules are
/// configured, an entry is kept only if its message matches one of them.
pub struct FilterProcessor {
    name: String,
    filter: FilterConfig,
    include_matchers: Vec<Matcher>,
    exclude_matchers: Vec<Matcher>,
}

impl FilterProcessor {
    /// The include rules, in configured order.
    pub closed spec fn include_rules(self) -> Seq<Rule> {
        rules_of(self.include_matchers@)
    }

    /// The exclude rules, in configured order.
    pub closed spec fn exclude_rules(self) -> Seq<Rule> {
        rules_of(self.exclude_matchers@)
    }

    /// The processor's name.
    pub closed spec fn spec_name(self) -> Seq<char> {
        self.name@
    }

    /// Whether the processor keeps an entry with this message.
    pub open spec fn keeps(self, message: Seq<char>) -> bool {
        filter_keeps(self.include_rules(), self.exclude_rules(), message)
    }

    /// Builds the filter that a configuration describes. Every configured
    /// regular expression is compiled, the include side first; the first one
    /// that does not compile is reported.
    pub fn new(name: String, filter: FilterConfig) -> (r: Result<FilterProcessor, ProcessorError>)
        ensures
            match r {
                Ok(p) => {
                    &&& all_buildable(configured_rules(filter@.included))
                    &&& all_buildable(configured_rules(filter@.exclude))
                    &&& p.include_rules() == configured_rules(filter@.included)
                    &&& p.exclude_rules() == configured_rules(filter@.exclude)
                    &&& p.spec_name() == name@
                },
                Err(ProcessorError::InvalidPattern { pattern }) => {
                    let inc = configured_rules(filter@.included);
                    let exc = configured_rules(filter@.exclude);
                    if !all_buildable(inc) {
                        pattern@ == inc[first_unbuildable(inc)].pattern()
                    } else {
                        &&& !all_buildable(exc)
                        &&& pattern@ == exc[first_unbuildable(exc)].pattern()
                    }
                },
            },
    {
        proof {
            lemma_first_unbuildable(configured_rules(filter@.included));
            lemma_first_unbuildable(configured_rules(filter@.exclude));
        }
        let include_matchers = match build_matchers(&filter.included) {
            Ok(m) => m,
            Err(e) => {
                return Err(e);
            },
        };
        let exclude_matchers = match build_matchers(&filter.exclude) {
            Ok(m) => m,
            Err(e) => {
                return Err(e);
            },
        };
        Ok(FilterProcessor { name, filter, include_matchers, exclude_matchers })
    }

    /// Passes the entry on unchanged if the filter keeps its message, and
    /// drops it otherwise.
    pub fn process(&self, log: LogEntry) -> (r: Result<Option<LogEntry>, ProcessorError>)
        ensures
            r matches Ok(out) && out == (if self.keeps(log.message@) {
                Some(log)
            } else {
                None
            }),
    {
        let excluded = any_matches(&self.exclude_matchers, log.message.as_str());
        let included = if !excluded && self.include_matchers.len() > 0 {
            any_matches(&self.include_matchers, log.message.as_str())
        } else {
            false
        };
        if filter_verdict(excluded, self.include_matchers.len(), included) {
            Ok(Some(log))
        } else {
            Ok(None)
        }
    }

    /// The processor's name.
    pub fn name(&self) -> (n: &str)
        ensures
            n@ == self.spec_name(),
    {
        self.name.as_str()
    }
}

/// Exclusion takes precedence: a filter drops every message that one of its
/// exclude rules matches, whatever its include rules say.
pub proof fn lemma_exclude_takes_precedence(
    included: Seq<Rule>,
    excluded: Seq<Rule>,
    message: Seq<char>,
    i: int,
)
    requires
        0 <= i < excluded.len(),
        excluded[i].accepts(message),
    ensures
        !filter_keeps(included, excluded, message),
{
}

/// Without include rules a filter keeps exactly the messages that no exclude
/// rule matches.
pub proof fn lemma_no_include_rules_keep_all(excluded: Seq<Rule>, message: Seq<char>)
    ensures
        filter_keeps(Seq::<Rule>::empty(), excluded, message) == !any_accepts(excluded, message),
{
}

} // verus!
